//! The laws of the lobby state machine, proved once and for all.
//!
//! Each proof function here states one guarantee that relates several
//! transitions, over the same spec functions the executable methods are
//! proved against.

use vstd::prelude::*;

use crate::codes::blank;
use crate::codes::lemma_norm_preserves_valid;
use crate::codes::norm_bytes;
use crate::coordinator::create_step;
use crate::coordinator::has_code;
use crate::coordinator::idx_of;
use crate::coordinator::join_step;
use crate::coordinator::set_ready_step;
use crate::coordinator::set_score_step;
use crate::coordinator::set_selection_step;
use crate::coordinator::set_song_step;
use crate::coordinator::start_step;
use crate::coordinator::store_wf;
use crate::errors::LobbyError;
use crate::lobby::join_next;
use crate::lobby::join_result;
use crate::lobby::member;
use crate::lobby::set_ready_next;
use crate::lobby::set_score_next;
use crate::lobby::set_selection_next;
use crate::lobby::set_song_next;
use crate::lobby::start_next;
use crate::lobby::LobbyView;
use crate::lobby::PlayerId;
use crate::lobby::SelectionView;

verus! {

/// Creating the same lobby twice fails the second time. Whatever two codes
/// normalize alike, once the first creation has succeeded, a second
/// creation attempt — by any caller, whether or not it is the original
/// creator, and with any initial selection — is rejected with
/// `AlreadyExists` and leaves the whole store, the first lobby included,
/// exactly as it was.
pub proof fn lemma_create_twice(
    s: Seq<LobbyView>,
    x: PlayerId,
    y: PlayerId,
    c1: Seq<u8>,
    c2: Seq<u8>,
    sel1: Option<SelectionView>,
    sel2: Option<SelectionView>,
    t1: u64,
    t2: u64,
)
    requires
        norm_bytes(c2) == norm_bytes(c1),
        create_step(s, x, c1, sel1, t1).1 is Ok,
    ensures
        ({
            let s1 = create_step(s, x, c1, sel1, t1).0;
            create_step(s1, y, c2, sel2, t2) == (s1, Err::<(), LobbyError>(
                LobbyError::AlreadyExists,
            ))
        }),
{
    let s1 = create_step(s, x, c1, sel1, t1).0;
    lemma_norm_preserves_valid(c1);
    lemma_norm_preserves_valid(c2);
    assert(s1[s.len() as int].code == norm_bytes(c2));
    assert(has_code(s1, norm_bytes(c2)));
}

/// Joining is idempotent for an existing member: the attempt succeeds and
/// changes nothing, no matter which slot the member occupies.
pub proof fn lemma_join_member_noop(l: LobbyView, caller: PlayerId)
    requires
        member(l, caller),
    ensures
        join_result(l, caller) == Ok::<(), LobbyError>(()),
        join_next(l, caller) == l,
{
}

/// Joining twice with the same caller never changes the store after the
/// first success and never fails: once a join has been accepted, the caller
/// is a member, and the repeated call is the member no-op.
pub proof fn lemma_join_twice(s: Seq<LobbyView>, caller: PlayerId, code: Seq<u8>)
    requires
        store_wf(s),
        join_step(s, caller, code).1 is Ok,
    ensures
        ({
            let s1 = join_step(s, caller, code).0;
            join_step(s1, caller, code) == (s1, Ok::<(), LobbyError>(()))
        }),
{
    let norm = norm_bytes(code);
    let i = idx_of(s, norm);
    let l1 = join_next(s[i], caller);
    let s1 = join_step(s, caller, code).0;
    assert(s1 == s.update(i, l1));
    assert(member(l1, caller));
    assert(s1[i].code == s[i].code);
    assert(has_code(s1, norm));
    let k = idx_of(s1, norm);
    assert(0 <= k < s1.len() && s1[k].code == norm);
    assert(s1[k].code == s[k].code);
    assert(k == i);
    assert(join_next(s1[i], caller) == s1[i]);
    assert(join_step(s1, caller, code).0 =~= s1);
}

/// A running lobby is fully set up: whenever the invariant holds and
/// `started` is true, both slots are occupied, both readiness flags are set
/// and a song is chosen. No committed transition ever exhibits a started
/// lobby with a readiness flag down or the song unset.
pub proof fn lemma_started_fully_set_up(l: LobbyView)
    requires
        l.wf(),
        l.started,
    ensures
        l.slot_a is Some,
        l.slot_b is Some,
        l.ready_a,
        l.ready_b,
        l.song_id is Some,
{
}

/// The store-wide reading of the same guarantee: in a well-formed store —
/// and every coordinator operation ends in one — no lobby row is started
/// without both occupants ready and a song set.
pub proof fn lemma_no_started_lobby_without_setup(s: Seq<LobbyView>, i: int)
    requires
        store_wf(s),
        0 <= i < s.len(),
        s[i].started,
    ensures
        s[i].slot_a is Some,
        s[i].slot_b is Some,
        s[i].ready_a,
        s[i].ready_b,
        s[i].song_id is Some,
{
    lemma_started_fully_set_up(s[i]);
}

/// A song change invalidates the match: immediately after any accepted song
/// change, whatever the prior state, the lobby is not started and both
/// scores are zero.
pub proof fn lemma_song_change_resets(l: LobbyView, song: Seq<char>)
    requires
        !blank(song),
    ensures
        set_song_next(l, song).song_id == Some(song),
        !set_song_next(l, song).started,
        set_song_next(l, song).score_a == 0,
        set_song_next(l, song).score_b == 0,
{
}

/// A score report writes the caller's own slot and nothing else: the
/// opponent's score survives every report, and a non-member changes
/// neither.
pub proof fn lemma_score_writes_own_slot(l: LobbyView, caller: PlayerId, score: u32)
    requires
        l.wf(),
    ensures
        set_score_next(l, caller, score).score_a == if l.slot_a == Some(caller) {
            score
        } else {
            l.score_a
        },
        set_score_next(l, caller, score).score_b == if l.slot_b == Some(caller) {
            score
        } else {
            l.score_b
        },
{
}

/// Two serialized join attempts from distinct new callers against a lobby
/// with exactly one free slot end with exactly one success and one `Full`
/// rejection, never two occupants of the same slot: the first caller claims
/// the free slot, and the second attempt changes nothing. Since the two
/// callers are arbitrary, this covers both serialization orders of the two
/// concurrent calls.
pub proof fn lemma_join_race(l: LobbyView, x: PlayerId, y: PlayerId)
    requires
        l.wf(),
        x != y,
        !member(l, x),
        !member(l, y),
        (l.slot_a is None) != (l.slot_b is None),
    ensures
        join_result(l, x) == Ok::<(), LobbyError>(()),
        member(join_next(l, x), x),
        join_result(join_next(l, x), y) == Err::<(), LobbyError>(LobbyError::Full),
        join_next(join_next(l, x), y) == join_next(l, x),
{
}

/// A lobby's code is immutable for the lobby's lifetime: every transition
/// preserves it, so a row can never migrate to another key.
pub proof fn lemma_code_immutable(
    l: LobbyView,
    caller: PlayerId,
    v: SelectionView,
    song: Seq<char>,
    ready: bool,
    score: u32,
)
    ensures
        join_next(l, caller).code == l.code,
        set_selection_next(l, caller, v).code == l.code,
        set_ready_next(l, caller, ready).code == l.code,
        set_song_next(l, song).code == l.code,
        start_next(l, caller).code == l.code,
        set_score_next(l, caller, score).code == l.code,
{
}

/// A rejected request never mutates: whenever a keyed operation returns an
/// error, the store after it is exactly the store before — no partial
/// writes survive a rejection.
pub proof fn lemma_rejection_changes_nothing(
    s: Seq<LobbyView>,
    caller: PlayerId,
    code: Seq<u8>,
    sel: Option<SelectionView>,
    v: SelectionView,
    song: Seq<char>,
    ready: bool,
    score: u32,
    now: u64,
)
    requires
        store_wf(s),
    ensures
        create_step(s, caller, code, sel, now).1 is Err ==> create_step(
            s,
            caller,
            code,
            sel,
            now,
        ).0 == s,
        join_step(s, caller, code).1 is Err ==> join_step(s, caller, code).0 == s,
        set_selection_step(s, caller, code, v).1 is Err ==> set_selection_step(
            s,
            caller,
            code,
            v,
        ).0 == s,
        set_ready_step(s, caller, code, ready).1 is Err ==> set_ready_step(
            s,
            caller,
            code,
            ready,
        ).0 == s,
        set_song_step(s, code, song).1 is Err ==> set_song_step(s, code, song).0 == s,
        start_step(s, caller, code).1 is Err ==> start_step(s, caller, code).0 == s,
        set_score_step(s, caller, code, score).1 is Err ==> set_score_step(
            s,
            caller,
            code,
            score,
        ).0 == s,
{
    let norm = norm_bytes(code);
    if has_code(s, norm) {
        let i = idx_of(s, norm);
        assert(0 <= i < s.len() && s[i].code == norm);
        if join_step(s, caller, code).1 is Err {
            assert(s.update(i, join_next(s[i], caller)) =~= s);
        }
        if set_selection_step(s, caller, code, v).1 is Err {
            assert(s.update(i, set_selection_next(s[i], caller, v)) =~= s);
        }
        if set_ready_step(s, caller, code, ready).1 is Err {
            assert(s.update(i, set_ready_next(s[i], caller, ready)) =~= s);
        }
        if start_step(s, caller, code).1 is Err {
            assert(s.update(i, start_next(s[i], caller)) =~= s);
        }
        if set_score_step(s, caller, code, score).1 is Err {
            assert(s.update(i, set_score_next(s[i], caller, score)) =~= s);
        }
    }
}

} // verus!
