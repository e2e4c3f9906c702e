//! The lobby entity and its transition rules.
//!
//! A lobby is a two-slot session: each slot holds at most one participant,
//! that participant's selection (a role or character choice) and readiness
//! flag, and a live score. The lobby shares one song choice and one
//! `started` flag. Every operation here is a single all-or-nothing
//! transition: it either commits a new snapshot or rejects the request and
//! leaves the lobby untouched.
//!
//! Two policies this design fixes deliberately:
//! - `set_song` performs no membership check: any caller who knows the code
//!   may set the song.
//! - `start_match` resets both scores to zero, so a match never begins with
//!   stale results.
//!
//! Each transition is stated twice: as a `spec` function over [`LobbyView`],
//! the mathematical snapshot, and as an executable method proved to follow
//! it exactly.

use vstd::prelude::*;
use vstd::string::StringSliceAdditionalSpecFns;

use crate::codes::blank;
use crate::codes::is_blank;
use crate::codes::lemma_norm_idempotent;
use crate::codes::lemma_norm_preserves_valid;
use crate::codes::norm_bytes;
use crate::codes::normalize_code;
use crate::codes::valid_code_bytes;
use crate::errors::LobbyError;

verus! {

/// An opaque participant identity: a 256-bit token compared only for
/// equality, never parsed.
#[derive(Clone, Copy, Debug, PartialEq, Eq, Structural)]
pub struct PlayerId {
    pub hi: u128,
    pub lo: u128,
}

/// A role choice: the closed, two-value selection scheme.
#[derive(Clone, Copy, Debug, PartialEq, Eq, Structural)]
pub enum Role {
    Bear,
    Skinner,
}

/// A slot's selection: either a free-form character name or a fixed role.
#[derive(Clone, Debug)]
pub enum Selection {
    Character(String),
    Tag(Role),
}

/// The mathematical snapshot of a [`Selection`].
#[verifier::ext_equal]
pub enum SelectionView {
    Character(Seq<char>),
    Tag(Role),
}

impl View for Selection {
    type V = SelectionView;

    open spec fn view(&self) -> SelectionView {
        match self {
            Selection::Character(s) => SelectionView::Character(s@),
            Selection::Tag(r) => SelectionView::Tag(*r),
        }
    }
}

/// A selection is blank when it is a character name that trims to nothing;
/// a role tag is never blank.
pub open spec fn sel_blank(v: SelectionView) -> bool {
    match v {
        SelectionView::Character(s) => blank(s),
        SelectionView::Tag(_) => false,
    }
}

/// The snapshot of an optional selection.
pub open spec fn opt_sel_view(s: Option<Selection>) -> Option<SelectionView> {
    match s {
        Some(v) => Some(v@),
        None => None,
    }
}

/// The mathematical snapshot of a [`Lobby`].
#[verifier::ext_equal]
pub struct LobbyView {
    pub code: Seq<u8>,
    pub slot_a: Option<PlayerId>,
    pub slot_b: Option<PlayerId>,
    pub sel_a: Option<SelectionView>,
    pub sel_b: Option<SelectionView>,
    pub ready_a: bool,
    pub ready_b: bool,
    pub song_id: Option<Seq<char>>,
    pub started: bool,
    pub score_a: u32,
    pub score_b: u32,
    pub created: u64,
}

/// One lobby row: the stored state between two transitions.
pub struct Lobby {
    /// The normalized code, as ASCII bytes.
    pub code: Vec<u8>,
    pub slot_a: Option<PlayerId>,
    pub slot_b: Option<PlayerId>,
    pub sel_a: Option<Selection>,
    pub sel_b: Option<Selection>,
    pub ready_a: bool,
    pub ready_b: bool,
    pub song_id: Option<String>,
    pub started: bool,
    pub score_a: u32,
    pub score_b: u32,
    /// Creation time, in microseconds since the epoch the caller uses.
    pub created: u64,
}

impl View for Lobby {
    type V = LobbyView;

    open spec fn view(&self) -> LobbyView {
        LobbyView {
            code: self.code@,
            slot_a: self.slot_a,
            slot_b: self.slot_b,
            sel_a: opt_sel_view(self.sel_a),
            sel_b: opt_sel_view(self.sel_b),
            ready_a: self.ready_a,
            ready_b: self.ready_b,
            song_id: match self.song_id {
                Some(s) => Some(s@),
                None => None,
            },
            started: self.started,
            score_a: self.score_a,
            score_b: self.score_b,
            created: self.created,
        }
    }
}

/// Whether `p` occupies one of the two slots.
pub open spec fn member(l: LobbyView, p: PlayerId) -> bool {
    l.slot_a == Some(p) || l.slot_b == Some(p)
}

impl LobbyView {
    /// The lobby invariant, re-established by every committed transition:
    /// the code is canonical and well-formed, the two slots never hold the
    /// same participant, a readiness flag is only ever set for an occupied
    /// slot, a running match has both slots occupied, both flags set and a
    /// song chosen, and no stored selection or song is blank.
    pub open spec fn wf(self) -> bool {
        &&& valid_code_bytes(self.code)
        &&& norm_bytes(self.code) == self.code
        &&& (self.slot_a is Some && self.slot_b is Some ==> self.slot_a != self.slot_b)
        &&& (self.ready_a ==> self.slot_a is Some)
        &&& (self.ready_b ==> self.slot_b is Some)
        &&& (self.started ==> self.slot_a is Some && self.slot_b is Some && self.ready_a
            && self.ready_b && self.song_id is Some)
        &&& (match self.song_id {
            Some(s) => !blank(s),
            None => true,
        })
        &&& (match self.sel_a {
            Some(v) => !sel_blank(v),
            None => true,
        })
        &&& (match self.sel_b {
            Some(v) => !sel_blank(v),
            None => true,
        })
    }
}

/// The lobby a successful creation stores: the creator in slot A, slot B
/// empty, the optional initial selection on slot A, everything else unset.
pub open spec fn fresh_lobby(
    caller: PlayerId,
    code: Seq<u8>,
    sel: Option<SelectionView>,
    now: u64,
) -> LobbyView {
    LobbyView {
        code: code,
        slot_a: Some(caller),
        slot_b: None,
        sel_a: sel,
        sel_b: None,
        ready_a: false,
        ready_b: false,
        song_id: None,
        started: false,
        score_a: 0,
        score_b: 0,
        created: now,
    }
}

/// Whether creation accepts the raw code and initial selection.
pub open spec fn create_result(code: Seq<u8>, sel: Option<SelectionView>) -> Result<
    (),
    LobbyError,
> {
    if !valid_code_bytes(code) {
        Err(LobbyError::InvalidCode)
    } else if sel matches Some(v) && sel_blank(v) {
        Err(LobbyError::EmptyValue)
    } else {
        Ok(())
    }
}

/// Joining: a no-op for an existing member, otherwise first-empty-slot-wins.
pub open spec fn join_result(l: LobbyView, caller: PlayerId) -> Result<(), LobbyError> {
    if member(l, caller) {
        Ok(())
    } else if l.slot_a is None || l.slot_b is None {
        Ok(())
    } else {
        Err(LobbyError::Full)
    }
}

/// The lobby after a join attempt; unchanged when the join is rejected.
pub open spec fn join_next(l: LobbyView, caller: PlayerId) -> LobbyView {
    if member(l, caller) {
        l
    } else if l.slot_a is None {
        LobbyView { slot_a: Some(caller), ..l }
    } else if l.slot_b is None {
        LobbyView { slot_b: Some(caller), ..l }
    } else {
        l
    }
}

/// Setting a selection: the value must not be blank and the caller must
/// occupy a slot.
pub open spec fn set_selection_result(l: LobbyView, caller: PlayerId, v: SelectionView) -> Result<
    (),
    LobbyError,
> {
    if sel_blank(v) {
        Err(LobbyError::EmptyValue)
    } else if member(l, caller) {
        Ok(())
    } else {
        Err(LobbyError::NotMember)
    }
}

/// The lobby after a selection attempt: only the caller's slot changes.
pub open spec fn set_selection_next(l: LobbyView, caller: PlayerId, v: SelectionView) -> LobbyView {
    if sel_blank(v) {
        l
    } else if l.slot_a == Some(caller) {
        LobbyView { sel_a: Some(v), ..l }
    } else if l.slot_b == Some(caller) {
        LobbyView { sel_b: Some(v), ..l }
    } else {
        l
    }
}

/// Setting readiness requires membership.
pub open spec fn set_ready_result(l: LobbyView, caller: PlayerId) -> Result<(), LobbyError> {
    if member(l, caller) {
        Ok(())
    } else {
        Err(LobbyError::NotMember)
    }
}

/// The lobby after a readiness change: the caller's flag is set and
/// `started` is recomputed — true exactly when both flags are now true and a
/// song is set. This is the auto-start path; it can also stop a running
/// match when an occupant withdraws readiness.
pub open spec fn set_ready_next(l: LobbyView, caller: PlayerId, ready: bool) -> LobbyView {
    if l.slot_a == Some(caller) {
        LobbyView { ready_a: ready, started: ready && l.ready_b && l.song_id is Some, ..l }
    } else if l.slot_b == Some(caller) {
        LobbyView { ready_b: ready, started: l.ready_a && ready && l.song_id is Some, ..l }
    } else {
        l
    }
}

/// Setting the song: the value must not be blank. No membership is required:
/// any caller who knows the code may set the song.
pub open spec fn set_song_result(song: Seq<char>) -> Result<(), LobbyError> {
    if blank(song) {
        Err(LobbyError::EmptyValue)
    } else {
        Ok(())
    }
}

/// The lobby after a song change: the song is stored, `started` is forced
/// back to false and both scores are reset — a song change invalidates any
/// in-progress or completed match.
pub open spec fn set_song_next(l: LobbyView, song: Seq<char>) -> LobbyView {
    if blank(song) {
        l
    } else {
        LobbyView { song_id: Some(song), started: false, score_a: 0, score_b: 0, ..l }
    }
}

/// Starting explicitly requires membership, both readiness flags and a song.
pub open spec fn start_result(l: LobbyView, caller: PlayerId) -> Result<(), LobbyError> {
    if !member(l, caller) {
        Err(LobbyError::NotMember)
    } else if l.ready_a && l.ready_b && l.song_id is Some {
        Ok(())
    } else {
        Err(LobbyError::NotReady)
    }
}

/// The lobby after an explicit start: `started` is set and both scores are
/// reset to zero, so a match never begins with stale results.
pub open spec fn start_next(l: LobbyView, caller: PlayerId) -> LobbyView {
    if start_result(l, caller) is Ok {
        LobbyView { started: true, score_a: 0, score_b: 0, ..l }
    } else {
        l
    }
}

/// Reporting a score requires membership.
pub open spec fn set_score_result(l: LobbyView, caller: PlayerId) -> Result<(), LobbyError> {
    if member(l, caller) {
        Ok(())
    } else {
        Err(LobbyError::NotMember)
    }
}

/// The lobby after a score report: only the caller's own slot is written; a
/// participant can never write the opponent's score.
pub open spec fn set_score_next(l: LobbyView, caller: PlayerId, score: u32) -> LobbyView {
    if l.slot_a == Some(caller) {
        LobbyView { score_a: score, ..l }
    } else if l.slot_b == Some(caller) {
        LobbyView { score_b: score, ..l }
    } else {
        l
    }
}

/// Tests whether a selection value is blank.
pub fn selection_is_blank(v: &Selection) -> (r: bool)
    ensures
        r == sel_blank(v@),
{
    match v {
        Selection::Character(s) => is_blank(s.as_str()),
        Selection::Tag(_) => false,
    }
}

impl Lobby {
    /// Whether `p` occupies slot A.
    fn occupies_a(&self, p: PlayerId) -> (r: bool)
        ensures
            r == (self@.slot_a == Some(p)),
    {
        match self.slot_a {
            Some(q) => q == p,
            None => false,
        }
    }

    /// Whether `p` occupies slot B.
    fn occupies_b(&self, p: PlayerId) -> (r: bool)
        ensures
            r == (self@.slot_b == Some(p)),
    {
        match self.slot_b {
            Some(q) => q == p,
            None => false,
        }
    }

    /// Whether `p` occupies one of the two slots.
    pub fn is_member(&self, p: PlayerId) -> (r: bool)
        ensures
            r == member(self@, p),
    {
        self.occupies_a(p) || self.occupies_b(p)
    }

    /// Creates the lobby a successful `create` stores: the creator in slot
    /// A, slot B empty, an optional initial selection on slot A. Rejects an
    /// ill-formed code and a blank initial selection; the stored code is the
    /// normalized form of the one supplied.
    pub fn new(caller: PlayerId, code: &str, selection: Option<Selection>, now: u64) -> (r: Result<
        Lobby,
        LobbyError,
    >)
        ensures
            match r {
                Ok(l) => {
                    &&& create_result(code.spec_bytes(), opt_sel_view(selection)) is Ok
                    &&& l@ == fresh_lobby(
                        caller,
                        norm_bytes(code.spec_bytes()),
                        opt_sel_view(selection),
                        now,
                    )
                    &&& l@.wf()
                },
                Err(e) => Err::<(), LobbyError>(e) == create_result(
                    code.spec_bytes(),
                    opt_sel_view(selection),
                ),
            },
    {
        let norm = match normalize_code(code) {
            None => {
                return Err(LobbyError::InvalidCode);
            },
            Some(v) => v,
        };
        let sel = match selection {
            Some(s) => {
                if selection_is_blank(&s) {
                    return Err(LobbyError::EmptyValue);
                }
                Some(s)
            },
            None => None,
        };
        proof {
            lemma_norm_idempotent(code.spec_bytes());
            lemma_norm_preserves_valid(code.spec_bytes());
        }
        Ok(
            Lobby {
                code: norm,
                slot_a: Some(caller),
                slot_b: None,
                sel_a: sel,
                sel_b: None,
                ready_a: false,
                ready_b: false,
                song_id: None,
                started: false,
                score_a: 0,
                score_b: 0,
                created: now,
            },
        )
    }

    /// Applies a join attempt: idempotent success for an existing member,
    /// first-empty-slot-wins for a new caller, `Full` when no slot is free.
    pub fn join(&mut self, caller: PlayerId) -> (r: Result<(), LobbyError>)
        requires
            old(self)@.wf(),
        ensures
            final(self)@ == join_next(old(self)@, caller),
            r == join_result(old(self)@, caller),
            final(self)@.wf(),
    {
        if self.occupies_a(caller) || self.occupies_b(caller) {
            return Ok(());
        }
        if self.slot_a.is_none() {
            self.slot_a = Some(caller);
            return Ok(());
        }
        if self.slot_b.is_none() {
            self.slot_b = Some(caller);
            return Ok(());
        }
        Err(LobbyError::Full)
    }

    /// Applies a selection change to the caller's own slot.
    pub fn set_selection(&mut self, caller: PlayerId, value: Selection) -> (r: Result<
        (),
        LobbyError,
    >)
        requires
            old(self)@.wf(),
        ensures
            final(self)@ == set_selection_next(old(self)@, caller, value@),
            r == set_selection_result(old(self)@, caller, value@),
            final(self)@.wf(),
    {
        if selection_is_blank(&value) {
            return Err(LobbyError::EmptyValue);
        }
        if self.occupies_a(caller) {
            self.sel_a = Some(value);
            Ok(())
        } else if self.occupies_b(caller) {
            self.sel_b = Some(value);
            Ok(())
        } else {
            Err(LobbyError::NotMember)
        }
    }

    /// Applies a readiness change to the caller's own flag and recomputes
    /// `started`.
    pub fn set_ready(&mut self, caller: PlayerId, ready: bool) -> (r: Result<(), LobbyError>)
        requires
            old(self)@.wf(),
        ensures
            final(self)@ == set_ready_next(old(self)@, caller, ready),
            r == set_ready_result(old(self)@, caller),
            final(self)@.wf(),
    {
        if self.occupies_a(caller) {
            self.ready_a = ready;
            self.started = self.ready_a && self.ready_b && self.song_id.is_some();
            Ok(())
        } else if self.occupies_b(caller) {
            self.ready_b = ready;
            self.started = self.ready_a && self.ready_b && self.song_id.is_some();
            Ok(())
        } else {
            Err(LobbyError::NotMember)
        }
    }

    /// Applies a song change: stores the song, stops any running match and
    /// resets both scores.
    pub fn set_song(&mut self, song_id: String) -> (r: Result<(), LobbyError>)
        requires
            old(self)@.wf(),
        ensures
            final(self)@ == set_song_next(old(self)@, song_id@),
            r == set_song_result(song_id@),
            final(self)@.wf(),
    {
        if is_blank(song_id.as_str()) {
            return Err(LobbyError::EmptyValue);
        }
        self.song_id = Some(song_id);
        self.started = false;
        self.score_a = 0;
        self.score_b = 0;
        Ok(())
    }

    /// Applies an explicit start: requires membership, both readiness flags
    /// and a song; resets both scores.
    pub fn start_match(&mut self, caller: PlayerId) -> (r: Result<(), LobbyError>)
        requires
            old(self)@.wf(),
        ensures
            final(self)@ == start_next(old(self)@, caller),
            r == start_result(old(self)@, caller),
            final(self)@.wf(),
    {
        if !(self.occupies_a(caller) || self.occupies_b(caller)) {
            return Err(LobbyError::NotMember);
        }
        if self.ready_a && self.ready_b && self.song_id.is_some() {
            self.started = true;
            self.score_a = 0;
            self.score_b = 0;
            Ok(())
        } else {
            Err(LobbyError::NotReady)
        }
    }

    /// Applies a score report to the caller's own slot only.
    pub fn set_score(&mut self, caller: PlayerId, score: u32) -> (r: Result<(), LobbyError>)
        requires
            old(self)@.wf(),
        ensures
            final(self)@ == set_score_next(old(self)@, caller, score),
            r == set_score_result(old(self)@, caller),
            final(self)@.wf(),
    {
        if self.occupies_a(caller) {
            self.score_a = score;
            Ok(())
        } else if self.occupies_b(caller) {
            self.score_b = score;
            Ok(())
        } else {
            Err(LobbyError::NotMember)
        }
    }
}

} // verus!
