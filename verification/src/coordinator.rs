//! The lobby coordinator: a keyed store of lobbies.
//!
//! The coordinator owns every lobby row and serializes the operations on
//! them: each public method is one atomic read-validate-write transition
//! against the single lobby named by its code, exactly the serializable
//! unit the surrounding system must provide per code. Codes are normalized
//! before every comparison, rows never share a code, and a rejected request
//! leaves the whole store unchanged.
//!
//! Each keyed operation is stated as a `spec` step function over the store
//! snapshot (a sequence of [`LobbyView`]); the executable method is proved
//! to follow its step exactly.

use vstd::prelude::*;
use vstd::string::StringSliceAdditionalSpecFns;

use crate::codes::norm_bytes;
use crate::codes::valid_code_bytes;
use crate::codes::is_blank;
use crate::errors::LobbyError;
use crate::lobby::fresh_lobby;
use crate::lobby::join_next;
use crate::lobby::join_result;
use crate::lobby::opt_sel_view;
use crate::lobby::selection_is_blank;
use crate::lobby::set_ready_next;
use crate::lobby::set_ready_result;
use crate::lobby::set_score_next;
use crate::lobby::set_score_result;
use crate::lobby::set_selection_next;
use crate::lobby::set_selection_result;
use crate::lobby::set_song_next;
use crate::lobby::start_next;
use crate::lobby::start_result;
use crate::lobby::Lobby;
use crate::lobby::LobbyView;
use crate::lobby::PlayerId;
use crate::lobby::Selection;
use crate::lobby::SelectionView;

verus! {

/// Whether the store holds a lobby with the given (already normalized) code.
pub open spec fn has_code(s: Seq<LobbyView>, code: Seq<u8>) -> bool {
    exists|i: int| 0 <= i < s.len() && (#[trigger] s[i]).code == code
}

/// The index of the lobby with the given code; meaningful only under
/// [`store_wf`], which makes it unique.
pub open spec fn idx_of(s: Seq<LobbyView>, code: Seq<u8>) -> int {
    choose|i: int| 0 <= i < s.len() && (#[trigger] s[i]).code == code
}

/// The store invariant: every lobby is well-formed and no two share a code.
pub open spec fn store_wf(s: Seq<LobbyView>) -> bool {
    &&& forall|i: int| 0 <= i < s.len() ==> (#[trigger] s[i]).wf()
    &&& forall|i: int, j: int|
        0 <= i < s.len() && 0 <= j < s.len() && i != j ==> (#[trigger] s[i]).code != (
        #[trigger] s[j]).code
}

/// The store after a creation attempt, with its result. An ill-formed
/// code, a code already in use, and a blank initial selection are rejected
/// in that order: a duplicate code always answers `AlreadyExists`, whatever
/// else the request carries.
pub open spec fn create_step(
    s: Seq<LobbyView>,
    caller: PlayerId,
    code: Seq<u8>,
    sel: Option<SelectionView>,
    now: u64,
) -> (Seq<LobbyView>, Result<(), LobbyError>) {
    if !valid_code_bytes(code) {
        (s, Err(LobbyError::InvalidCode))
    } else if has_code(s, norm_bytes(code)) {
        (s, Err(LobbyError::AlreadyExists))
    } else if sel matches Some(v) && crate::lobby::sel_blank(v) {
        (s, Err(LobbyError::EmptyValue))
    } else {
        (s.push(fresh_lobby(caller, norm_bytes(code), sel, now)), Ok(()))
    }
}

/// The store after a join attempt against the lobby named by `code`.
pub open spec fn join_step(s: Seq<LobbyView>, caller: PlayerId, code: Seq<u8>) -> (
    Seq<LobbyView>,
    Result<(), LobbyError>,
) {
    let norm = norm_bytes(code);
    if !has_code(s, norm) {
        (s, Err(LobbyError::NotFound))
    } else {
        let i = idx_of(s, norm);
        (s.update(i, join_next(s[i], caller)), join_result(s[i], caller))
    }
}

/// The store after a selection attempt. A blank value is rejected before
/// the lobby is even looked up.
pub open spec fn set_selection_step(
    s: Seq<LobbyView>,
    caller: PlayerId,
    code: Seq<u8>,
    v: SelectionView,
) -> (Seq<LobbyView>, Result<(), LobbyError>) {
    let norm = norm_bytes(code);
    if crate::lobby::sel_blank(v) {
        (s, Err(LobbyError::EmptyValue))
    } else if !has_code(s, norm) {
        (s, Err(LobbyError::NotFound))
    } else {
        let i = idx_of(s, norm);
        (s.update(i, set_selection_next(s[i], caller, v)), set_selection_result(s[i], caller, v))
    }
}

/// The store after a readiness change.
pub open spec fn set_ready_step(
    s: Seq<LobbyView>,
    caller: PlayerId,
    code: Seq<u8>,
    ready: bool,
) -> (Seq<LobbyView>, Result<(), LobbyError>) {
    let norm = norm_bytes(code);
    if !has_code(s, norm) {
        (s, Err(LobbyError::NotFound))
    } else {
        let i = idx_of(s, norm);
        (s.update(i, set_ready_next(s[i], caller, ready)), set_ready_result(s[i], caller))
    }
}

/// The store after a song change. A blank song is rejected before the
/// lookup; no membership is required.
pub open spec fn set_song_step(s: Seq<LobbyView>, code: Seq<u8>, song: Seq<char>) -> (
    Seq<LobbyView>,
    Result<(), LobbyError>,
) {
    let norm = norm_bytes(code);
    if crate::codes::blank(song) {
        (s, Err(LobbyError::EmptyValue))
    } else if !has_code(s, norm) {
        (s, Err(LobbyError::NotFound))
    } else {
        let i = idx_of(s, norm);
        (s.update(i, set_song_next(s[i], song)), Ok(()))
    }
}

/// The store after an explicit start attempt.
pub open spec fn start_step(s: Seq<LobbyView>, caller: PlayerId, code: Seq<u8>) -> (
    Seq<LobbyView>,
    Result<(), LobbyError>,
) {
    let norm = norm_bytes(code);
    if !has_code(s, norm) {
        (s, Err(LobbyError::NotFound))
    } else {
        let i = idx_of(s, norm);
        (s.update(i, start_next(s[i], caller)), start_result(s[i], caller))
    }
}

/// The store after a score report.
pub open spec fn set_score_step(
    s: Seq<LobbyView>,
    caller: PlayerId,
    code: Seq<u8>,
    score: u32,
) -> (Seq<LobbyView>, Result<(), LobbyError>) {
    let norm = norm_bytes(code);
    if !has_code(s, norm) {
        (s, Err(LobbyError::NotFound))
    } else {
        let i = idx_of(s, norm);
        (s.update(i, set_score_next(s[i], caller, score)), set_score_result(s[i], caller))
    }
}

/// Compares two code byte strings.
fn codes_equal(a: &Vec<u8>, b: &Vec<u8>) -> (r: bool)
    ensures
        r == (a@ == b@),
{
    if a.len() != b.len() {
        return false;
    }
    let n = a.len();
    let mut i: usize = 0;
    while i < n
        invariant
            n == a@.len() == b@.len(),
            i <= n,
            forall|j: int| 0 <= j < i ==> a@[j] == b@[j],
        decreases n - i,
    {
        if a[i] != b[i] {
            return false;
        }
        i += 1;
    }
    proof {
        assert(a@ =~= b@);
    }
    true
}

/// The lobby coordinator: owns every lobby row and serializes the
/// transitions on each.
pub struct Coordinator {
    /// The lobby rows; no two share a code.
    pub lobbies: Vec<Lobby>,
}

impl View for Coordinator {
    type V = Seq<LobbyView>;

    open spec fn view(&self) -> Seq<LobbyView> {
        self.lobbies@.map_values(|l: Lobby| l@)
    }
}

impl Coordinator {
    /// The coordinator invariant; see [`store_wf`].
    pub open spec fn wf(&self) -> bool {
        store_wf(self@)
    }

    /// An empty coordinator: no lobbies yet.
    pub fn new() -> (r: Coordinator)
        ensures
            r@ == Seq::<LobbyView>::empty(),
            r.wf(),
    {
        let r = Coordinator { lobbies: Vec::new() };
        proof {
            assert(r@ =~= Seq::<LobbyView>::empty());
        }
        r
    }

    /// Finds the row holding the (already normalized) code, if any.
    fn find_index(&self, norm: &Vec<u8>) -> (r: Option<usize>)
        requires
            self.wf(),
        ensures
            match r {
                Some(i) => {
                    &&& i < self.lobbies@.len()
                    &&& has_code(self@, norm@)
                    &&& i as int == idx_of(self@, norm@)
                    &&& self@[i as int].code == norm@
                },
                None => !has_code(self@, norm@),
            },
    {
        let n = self.lobbies.len();
        let mut i: usize = 0;
        while i < n
            invariant
                self.wf(),
                n == self.lobbies@.len(),
                i <= n,
                forall|j: int| 0 <= j < i ==> (#[trigger] self@[j]).code != norm@,
            decreases n - i,
        {
            if codes_equal(&self.lobbies[i].code, norm) {
                proof {
                    assert(self@[i as int].code == norm@);
                    let k = idx_of(self@, norm@);
                    assert(0 <= k < self@.len() && self@[k].code == norm@);
                    assert(k == i as int);
                }
                return Some(i);
            }
            i += 1;
        }
        None
    }

    /// Creates a lobby under the normalized code, with the caller in slot A.
    /// Rejects an ill-formed code, then a code already in use, then a blank
    /// initial selection; a rejection changes nothing.
    pub fn create_lobby(
        &mut self,
        caller: PlayerId,
        code: &str,
        selection: Option<Selection>,
        now: u64,
    ) -> (r: Result<(), LobbyError>)
        requires
            old(self).wf(),
        ensures
            final(self).wf(),
            ({
                let (s2, rr) = create_step(
                    old(self)@,
                    caller,
                    code.spec_bytes(),
                    opt_sel_view(selection),
                    now,
                );
                final(self)@ == s2 && r == rr
            }),
    {
        let norm = match crate::codes::normalize_code(code) {
            None => {
                return Err(LobbyError::InvalidCode);
            },
            Some(v) => v,
        };
        match self.find_index(&norm) {
            Some(_) => {
                return Err(LobbyError::AlreadyExists);
            },
            None => {},
        }
        let l = match Lobby::new(caller, code, selection, now) {
            Err(e) => {
                return Err(e);
            },
            Ok(l) => l,
        };
        self.lobbies.push(l);
        proof {
            assert(self@ =~= old(self)@.push(l@));
        }
        Ok(())
    }

    /// Applies a join attempt against the lobby named by `code`.
    pub fn join_lobby(&mut self, caller: PlayerId, code: &str) -> (r: Result<(), LobbyError>)
        requires
            old(self).wf(),
        ensures
            final(self).wf(),
            ({
                let (s2, rr) = join_step(old(self)@, caller, code.spec_bytes());
                final(self)@ == s2 && r == rr
            }),
    {
        let norm = crate::codes::upper_bytes(code);
        let i = match self.find_index(&norm) {
            None => {
                return Err(LobbyError::NotFound);
            },
            Some(i) => i,
        };
        let mut l = self.lobbies.remove(i);
        let r = l.join(caller);
        self.lobbies.insert(i, l);
        proof {
            self.lemma_reinserted(*old(self), i as int);
        }
        r
    }

    /// Applies a selection change for the caller's own slot in the lobby
    /// named by `code`.
    pub fn set_selection(&mut self, caller: PlayerId, code: &str, value: Selection) -> (r: Result<
        (),
        LobbyError,
    >)
        requires
            old(self).wf(),
        ensures
            final(self).wf(),
            ({
                let (s2, rr) = set_selection_step(old(self)@, caller, code.spec_bytes(), value@);
                final(self)@ == s2 && r == rr
            }),
    {
        if selection_is_blank(&value) {
            return Err(LobbyError::EmptyValue);
        }
        let norm = crate::codes::upper_bytes(code);
        let i = match self.find_index(&norm) {
            None => {
                return Err(LobbyError::NotFound);
            },
            Some(i) => i,
        };
        let mut l = self.lobbies.remove(i);
        let r = l.set_selection(caller, value);
        self.lobbies.insert(i, l);
        proof {
            self.lemma_reinserted(*old(self), i as int);
        }
        r
    }

    /// Applies a character-name selection: the free-form selection scheme.
    pub fn set_character(&mut self, caller: PlayerId, code: &str, character: String) -> (r: Result<
        (),
        LobbyError,
    >)
        requires
            old(self).wf(),
        ensures
            final(self).wf(),
            ({
                let (s2, rr) = set_selection_step(
                    old(self)@,
                    caller,
                    code.spec_bytes(),
                    SelectionView::Character(character@),
                );
                final(self)@ == s2 && r == rr
            }),
    {
        self.set_selection(caller, code, Selection::Character(character))
    }

    /// Applies a readiness change for the caller's own slot; `started` is
    /// recomputed, so this is the auto-start path.
    pub fn set_ready(&mut self, caller: PlayerId, code: &str, ready: bool) -> (r: Result<
        (),
        LobbyError,
    >)
        requires
            old(self).wf(),
        ensures
            final(self).wf(),
            ({
                let (s2, rr) = set_ready_step(old(self)@, caller, code.spec_bytes(), ready);
                final(self)@ == s2 && r == rr
            }),
    {
        let norm = crate::codes::upper_bytes(code);
        let i = match self.find_index(&norm) {
            None => {
                return Err(LobbyError::NotFound);
            },
            Some(i) => i,
        };
        let mut l = self.lobbies.remove(i);
        let r = l.set_ready(caller, ready);
        self.lobbies.insert(i, l);
        proof {
            self.lemma_reinserted(*old(self), i as int);
        }
        r
    }

    /// Applies a song change to the lobby named by `code`. By design no
    /// membership is required: any caller who knows the code may set the
    /// song. The caller is still named so the interface matches the other
    /// operations.
    pub fn set_song(&mut self, _caller: PlayerId, code: &str, song_id: String) -> (r: Result<
        (),
        LobbyError,
    >)
        requires
            old(self).wf(),
        ensures
            final(self).wf(),
            ({
                let (s2, rr) = set_song_step(old(self)@, code.spec_bytes(), song_id@);
                final(self)@ == s2 && r == rr
            }),
    {
        if is_blank(song_id.as_str()) {
            return Err(LobbyError::EmptyValue);
        }
        let norm = crate::codes::upper_bytes(code);
        let i = match self.find_index(&norm) {
            None => {
                return Err(LobbyError::NotFound);
            },
            Some(i) => i,
        };
        let mut l = self.lobbies.remove(i);
        let r = l.set_song(song_id);
        self.lobbies.insert(i, l);
        proof {
            self.lemma_reinserted(*old(self), i as int);
        }
        r
    }

    /// Applies an explicit start attempt by a member of the lobby.
    pub fn start_match(&mut self, caller: PlayerId, code: &str) -> (r: Result<(), LobbyError>)
        requires
            old(self).wf(),
        ensures
            final(self).wf(),
            ({
                let (s2, rr) = start_step(old(self)@, caller, code.spec_bytes());
                final(self)@ == s2 && r == rr
            }),
    {
        let norm = crate::codes::upper_bytes(code);
        let i = match self.find_index(&norm) {
            None => {
                return Err(LobbyError::NotFound);
            },
            Some(i) => i,
        };
        let mut l = self.lobbies.remove(i);
        let r = l.start_match(caller);
        self.lobbies.insert(i, l);
        proof {
            self.lemma_reinserted(*old(self), i as int);
        }
        r
    }

    /// Applies a score report to the caller's own slot in the lobby named
    /// by `code`.
    pub fn set_score(&mut self, caller: PlayerId, code: &str, score: u32) -> (r: Result<
        (),
        LobbyError,
    >)
        requires
            old(self).wf(),
        ensures
            final(self).wf(),
            ({
                let (s2, rr) = set_score_step(old(self)@, caller, code.spec_bytes(), score);
                final(self)@ == s2 && r == rr
            }),
    {
        let norm = crate::codes::upper_bytes(code);
        let i = match self.find_index(&norm) {
            None => {
                return Err(LobbyError::NotFound);
            },
            Some(i) => i,
        };
        let mut l = self.lobbies.remove(i);
        let r = l.set_score(caller, score);
        self.lobbies.insert(i, l);
        proof {
            self.lemma_reinserted(*old(self), i as int);
        }
        r
    }

    /// After a row is taken out at `i`, transformed without changing its
    /// code, and put back at `i`, the store view is the pointwise update of
    /// the old view, and the invariant survives.
    proof fn lemma_reinserted(&self, prev: Coordinator, i: int)
        requires
            prev.wf(),
            0 <= i < prev@.len(),
            self.lobbies@.len() == prev.lobbies@.len(),
            self.lobbies@[i]@.code == prev@[i].code,
            self.lobbies@[i]@.wf(),
            forall|j: int|
                0 <= j < prev@.len() && j != i ==> self.lobbies@[j] == prev.lobbies@[j],
        ensures
            self@ == prev@.update(i, self.lobbies@[i]@),
            self.wf(),
    {
        assert(self@ =~= prev@.update(i, self.lobbies@[i]@));
    }
}

} // verus!
