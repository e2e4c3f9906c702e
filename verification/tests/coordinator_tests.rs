use lobby_core::coordinator::Coordinator;
use lobby_core::errors::LobbyError;
use lobby_core::lobby::PlayerId;
use lobby_core::lobby::Role;
use lobby_core::lobby::Selection;

fn pid(n: u64) -> PlayerId {
    PlayerId { hi: 0, lo: n as u128 }
}

#[test]
fn create_stores_normalized_code() {
    let x = pid(1);
    let mut c = Coordinator::new();
    assert_eq!(c.create_lobby(x, "abCd", None, 7), Ok(()));
    assert_eq!(c.lobbies.len(), 1);
    let l = &c.lobbies[0];
    assert_eq!(l.code, vec![b'A', b'B', b'C', b'D']);
    assert_eq!(l.slot_a, Some(x));
    assert_eq!(l.slot_b, None);
    assert!(!l.ready_a && !l.ready_b && !l.started);
    assert_eq!(l.song_id, None);
    assert_eq!((l.score_a, l.score_b), (0, 0));
    assert_eq!(l.created, 7);
}

#[test]
fn create_rejects_bad_codes() {
    let x = pid(1);
    let mut c = Coordinator::new();
    assert_eq!(c.create_lobby(x, "abc", None, 0), Err(LobbyError::InvalidCode));
    assert_eq!(c.create_lobby(x, "abcdefghijklm", None, 0), Err(LobbyError::InvalidCode));
    assert_eq!(c.create_lobby(x, "ab$d", None, 0), Err(LobbyError::InvalidCode));
    assert_eq!(c.create_lobby(x, "", None, 0), Err(LobbyError::InvalidCode));
    assert_eq!(c.lobbies.len(), 0);
}

#[test]
fn create_rejects_blank_initial_selection() {
    let x = pid(1);
    let mut c = Coordinator::new();
    let r = c.create_lobby(x, "ABCD", Some(Selection::Character("  ".to_string())), 0);
    assert_eq!(r, Err(LobbyError::EmptyValue));
    assert_eq!(c.lobbies.len(), 0);
}

#[test]
fn duplicate_code_wins_over_blank_selection() {
    // The duplicate check comes before the selection check: a second
    // creation under a taken code answers AlreadyExists whatever it carries.
    let x = pid(1);
    let y = pid(2);
    let mut c = Coordinator::new();
    assert_eq!(c.create_lobby(x, "ABCD", None, 0), Ok(()));
    let r = c.create_lobby(y, "abcd", Some(Selection::Character(" ".to_string())), 1);
    assert_eq!(r, Err(LobbyError::AlreadyExists));
    assert_eq!(c.lobbies.len(), 1);
}

#[test]
fn create_twice_same_normalized_code_fails() {
    let x = pid(1);
    let y = pid(2);
    let mut c = Coordinator::new();
    assert_eq!(c.create_lobby(x, "ABCD", None, 3), Ok(()));
    assert_eq!(c.create_lobby(y, "abcd", None, 9), Err(LobbyError::AlreadyExists));
    assert_eq!(c.lobbies.len(), 1);
    let l = &c.lobbies[0];
    assert_eq!(l.slot_a, Some(x));
    assert_eq!(l.created, 3);
}

#[test]
fn join_is_idempotent_for_members() {
    let x = pid(1);
    let y = pid(2);
    let mut c = Coordinator::new();
    assert_eq!(c.create_lobby(x, "ABCD", None, 0), Ok(()));
    assert_eq!(c.join_lobby(x, "ABCD"), Ok(()));
    assert_eq!(c.lobbies[0].slot_a, Some(x));
    assert_eq!(c.lobbies[0].slot_b, None);
    assert_eq!(c.join_lobby(y, "ABCD"), Ok(()));
    assert_eq!(c.lobbies[0].slot_b, Some(y));
    assert_eq!(c.join_lobby(y, "ABCD"), Ok(()));
    assert_eq!(c.lobbies[0].slot_a, Some(x));
    assert_eq!(c.lobbies[0].slot_b, Some(y));
}

#[test]
fn join_lookup_is_case_insensitive() {
    let x = pid(1);
    let y = pid(2);
    let mut c = Coordinator::new();
    assert_eq!(c.create_lobby(x, "abcd", None, 0), Ok(()));
    assert_eq!(c.join_lobby(y, "AbCd"), Ok(()));
    assert_eq!(c.lobbies[0].slot_b, Some(y));
}

#[test]
fn join_unknown_code_not_found() {
    let y = pid(2);
    let mut c = Coordinator::new();
    assert_eq!(c.join_lobby(y, "QQQQ"), Err(LobbyError::NotFound));
}

#[test]
fn third_caller_gets_full_and_state_is_unchanged() {
    let x = pid(1);
    let y = pid(2);
    let z = pid(3);
    let mut c = Coordinator::new();
    assert_eq!(c.create_lobby(x, "ABCD", None, 0), Ok(()));
    assert_eq!(c.join_lobby(y, "ABCD"), Ok(()));
    assert_eq!(c.join_lobby(z, "ABCD"), Err(LobbyError::Full));
    assert_eq!(c.lobbies[0].slot_a, Some(x));
    assert_eq!(c.lobbies[0].slot_b, Some(y));
}

#[test]
fn one_free_slot_admits_exactly_one_of_two_new_callers() {
    // Two serialized join attempts against one free slot, in either order:
    // one success, one Full rejection, never two occupants of one slot.
    for order in 0..2 {
        let x = pid(1);
        let y = pid(2);
        let z = pid(3);
        let mut c = Coordinator::new();
        assert_eq!(c.create_lobby(x, "ABCD", None, 0), Ok(()));
        let (first, second) = if order == 0 { (y, z) } else { (z, y) };
        assert_eq!(c.join_lobby(first, "ABCD"), Ok(()));
        assert_eq!(c.join_lobby(second, "ABCD"), Err(LobbyError::Full));
        assert_eq!(c.lobbies[0].slot_a, Some(x));
        assert_eq!(c.lobbies[0].slot_b, Some(first));
    }
}

#[test]
fn readiness_with_song_auto_starts_after_second_ready() {
    let x = pid(1);
    let y = pid(2);
    let mut c = Coordinator::new();
    assert_eq!(c.create_lobby(x, "ABCD", None, 0), Ok(()));
    assert_eq!(c.join_lobby(y, "ABCD"), Ok(()));
    assert_eq!(c.set_song(x, "ABCD", "song1".to_string()), Ok(()));
    assert_eq!(c.set_ready(x, "ABCD", true), Ok(()));
    assert!(!c.lobbies[0].started);
    assert_eq!(c.set_ready(y, "ABCD", true), Ok(()));
    assert!(c.lobbies[0].started);
}

#[test]
fn readiness_without_song_never_starts() {
    let x = pid(1);
    let y = pid(2);
    let mut c = Coordinator::new();
    assert_eq!(c.create_lobby(x, "ABCD", None, 0), Ok(()));
    assert_eq!(c.join_lobby(y, "ABCD"), Ok(()));
    assert_eq!(c.set_ready(x, "ABCD", true), Ok(()));
    assert_eq!(c.set_ready(y, "ABCD", true), Ok(()));
    assert!(!c.lobbies[0].started);
}

#[test]
fn withdrawing_readiness_stops_the_match() {
    let x = pid(1);
    let y = pid(2);
    let mut c = Coordinator::new();
    assert_eq!(c.create_lobby(x, "ABCD", None, 0), Ok(()));
    assert_eq!(c.join_lobby(y, "ABCD"), Ok(()));
    assert_eq!(c.set_song(x, "ABCD", "song1".to_string()), Ok(()));
    assert_eq!(c.set_ready(x, "ABCD", true), Ok(()));
    assert_eq!(c.set_ready(y, "ABCD", true), Ok(()));
    assert!(c.lobbies[0].started);
    assert_eq!(c.set_ready(x, "ABCD", false), Ok(()));
    assert!(!c.lobbies[0].started);
    assert!(c.lobbies[0].ready_b);
}

#[test]
fn set_ready_requires_membership() {
    let x = pid(1);
    let z = pid(3);
    let mut c = Coordinator::new();
    assert_eq!(c.create_lobby(x, "ABCD", None, 0), Ok(()));
    assert_eq!(c.set_ready(z, "ABCD", true), Err(LobbyError::NotMember));
    assert!(!c.lobbies[0].ready_a && !c.lobbies[0].ready_b);
}

#[test]
fn set_song_needs_no_membership() {
    // Deliberate policy: any caller who knows the code may set the song.
    let x = pid(1);
    let z = pid(3);
    let mut c = Coordinator::new();
    assert_eq!(c.create_lobby(x, "ABCD", None, 0), Ok(()));
    assert_eq!(c.set_song(z, "ABCD", "song9".to_string()), Ok(()));
    assert_eq!(c.lobbies[0].song_id, Some("song9".to_string()));
}

#[test]
fn set_song_rejects_blank_values() {
    let x = pid(1);
    let mut c = Coordinator::new();
    assert_eq!(c.create_lobby(x, "ABCD", None, 0), Ok(()));
    assert_eq!(c.set_song(x, "ABCD", "   ".to_string()), Err(LobbyError::EmptyValue));
    assert_eq!(c.set_song(x, "ABCD", "".to_string()), Err(LobbyError::EmptyValue));
    assert_eq!(c.lobbies[0].song_id, None);
}

#[test]
fn blankness_follows_trimming() {
    // Blank means "trims to nothing": every value below is whitespace-only
    // under str::trim, so each is rejected as empty.
    let x = pid(1);
    let mut c = Coordinator::new();
    assert_eq!(c.create_lobby(x, "ABCD", None, 0), Ok(()));
    for s in ["\u{000C}", "\u{000B}", "\u{0085}", "\u{00A0}", "\u{2003}", "\u{3000}", " \t\r\n"] {
        assert!(s.trim().is_empty());
        assert_eq!(c.set_song(x, "ABCD", s.to_string()), Err(LobbyError::EmptyValue));
        assert_eq!(c.set_character(x, "ABCD", s.to_string()), Err(LobbyError::EmptyValue));
    }
    // A value that does not trim to nothing is accepted, whitespace and all.
    assert_eq!(c.set_song(x, "ABCD", " é \u{000C}".to_string()), Ok(()));
    assert_eq!(c.lobbies[0].song_id, Some(" é \u{000C}".to_string()));
}

#[test]
fn song_change_resets_started_and_scores() {
    let x = pid(1);
    let y = pid(2);
    let mut c = Coordinator::new();
    assert_eq!(c.create_lobby(x, "ABCD", None, 0), Ok(()));
    assert_eq!(c.join_lobby(y, "ABCD"), Ok(()));
    assert_eq!(c.set_song(x, "ABCD", "song1".to_string()), Ok(()));
    assert_eq!(c.set_ready(x, "ABCD", true), Ok(()));
    assert_eq!(c.set_ready(y, "ABCD", true), Ok(()));
    assert_eq!(c.set_score(x, "ABCD", 5), Ok(()));
    assert_eq!(c.set_score(y, "ABCD", 3), Ok(()));
    assert_eq!(c.set_song(x, "ABCD", "song2".to_string()), Ok(()));
    let l = &c.lobbies[0];
    assert!(!l.started);
    assert_eq!((l.score_a, l.score_b), (0, 0));
    assert_eq!(l.song_id, Some("song2".to_string()));
    assert!(l.ready_a && l.ready_b);
}

#[test]
fn scores_go_to_the_callers_own_slot_only() {
    let x = pid(1);
    let y = pid(2);
    let mut c = Coordinator::new();
    assert_eq!(c.create_lobby(x, "ABCD", None, 0), Ok(()));
    assert_eq!(c.join_lobby(y, "ABCD"), Ok(()));
    assert_eq!(c.set_song(x, "ABCD", "song1".to_string()), Ok(()));
    assert_eq!(c.set_ready(x, "ABCD", true), Ok(()));
    assert_eq!(c.set_ready(y, "ABCD", true), Ok(()));
    assert!(c.lobbies[0].started);
    assert_eq!(c.set_score(x, "ABCD", 5), Ok(()));
    assert_eq!(c.set_score(y, "ABCD", 3), Ok(()));
    assert_eq!((c.lobbies[0].score_a, c.lobbies[0].score_b), (5, 3));
    assert_eq!(c.set_score(x, "ABCD", 9), Ok(()));
    assert_eq!((c.lobbies[0].score_a, c.lobbies[0].score_b), (9, 3));
}

#[test]
fn set_score_requires_membership() {
    let x = pid(1);
    let z = pid(3);
    let mut c = Coordinator::new();
    assert_eq!(c.create_lobby(x, "ABCD", None, 0), Ok(()));
    assert_eq!(c.set_score(z, "ABCD", 11), Err(LobbyError::NotMember));
    assert_eq!((c.lobbies[0].score_a, c.lobbies[0].score_b), (0, 0));
}

#[test]
fn explicit_start_requires_readiness_and_song() {
    let x = pid(1);
    let y = pid(2);
    let z = pid(3);
    let mut c = Coordinator::new();
    assert_eq!(c.create_lobby(x, "ABCD", None, 0), Ok(()));
    assert_eq!(c.join_lobby(y, "ABCD"), Ok(()));
    assert_eq!(c.start_match(x, "ABCD"), Err(LobbyError::NotReady));
    assert_eq!(c.set_ready(x, "ABCD", true), Ok(()));
    assert_eq!(c.set_ready(y, "ABCD", true), Ok(()));
    assert_eq!(c.start_match(x, "ABCD"), Err(LobbyError::NotReady));
    assert_eq!(c.set_song(x, "ABCD", "song1".to_string()), Ok(()));
    assert_eq!(c.start_match(z, "ABCD"), Err(LobbyError::NotMember));
    assert!(!c.lobbies[0].started);
    assert_eq!(c.start_match(y, "ABCD"), Ok(()));
    assert!(c.lobbies[0].started);
}

#[test]
fn explicit_start_resets_scores() {
    // Deliberate policy: a match never begins with stale results.
    let x = pid(1);
    let y = pid(2);
    let mut c = Coordinator::new();
    assert_eq!(c.create_lobby(x, "ABCD", None, 0), Ok(()));
    assert_eq!(c.join_lobby(y, "ABCD"), Ok(()));
    assert_eq!(c.set_score(x, "ABCD", 4), Ok(()));
    assert_eq!(c.set_ready(x, "ABCD", true), Ok(()));
    assert_eq!(c.set_ready(y, "ABCD", true), Ok(()));
    assert_eq!(c.set_song(x, "ABCD", "song1".to_string()), Ok(()));
    assert!(!c.lobbies[0].started);
    assert_eq!(c.start_match(x, "ABCD"), Ok(()));
    assert!(c.lobbies[0].started);
    assert_eq!((c.lobbies[0].score_a, c.lobbies[0].score_b), (0, 0));
}

#[test]
fn selections_stick_to_the_callers_slot() {
    let x = pid(1);
    let y = pid(2);
    let z = pid(3);
    let mut c = Coordinator::new();
    assert_eq!(c.create_lobby(x, "ABCD", None, 0), Ok(()));
    assert_eq!(c.join_lobby(y, "ABCD"), Ok(()));
    assert_eq!(c.set_character(x, "ABCD", "Mage".to_string()), Ok(()));
    assert_eq!(c.set_selection(y, "ABCD", Selection::Tag(Role::Bear)), Ok(()));
    match &c.lobbies[0].sel_a {
        Some(Selection::Character(s)) => assert_eq!(s, "Mage"),
        other => panic!("unexpected slot A selection: {:?}", other),
    }
    match &c.lobbies[0].sel_b {
        Some(Selection::Tag(Role::Bear)) => {}
        other => panic!("unexpected slot B selection: {:?}", other),
    }
    assert_eq!(
        c.set_character(z, "ABCD", "Rogue".to_string()),
        Err(LobbyError::NotMember)
    );
    assert_eq!(
        c.set_character(x, "ABCD", " \t ".to_string()),
        Err(LobbyError::EmptyValue)
    );
    match &c.lobbies[0].sel_a {
        Some(Selection::Character(s)) => assert_eq!(s, "Mage"),
        other => panic!("unexpected slot A selection: {:?}", other),
    }
}

#[test]
fn blank_values_are_rejected_before_the_lookup() {
    let x = pid(1);
    let mut c = Coordinator::new();
    assert_eq!(
        c.set_song(x, "QQQQ", " ".to_string()),
        Err(LobbyError::EmptyValue)
    );
    assert_eq!(
        c.set_character(x, "QQQQ", "".to_string()),
        Err(LobbyError::EmptyValue)
    );
    assert_eq!(c.set_song(x, "QQQQ", "song".to_string()), Err(LobbyError::NotFound));
}

#[test]
fn lobbies_progress_independently() {
    let x = pid(1);
    let y = pid(2);
    let mut c = Coordinator::new();
    assert_eq!(c.create_lobby(x, "AAAA", None, 1), Ok(()));
    assert_eq!(c.create_lobby(y, "BBBB", None, 2), Ok(()));
    assert_eq!(c.set_song(x, "AAAA", "left".to_string()), Ok(()));
    assert_eq!(c.lobbies.len(), 2);
    assert_eq!(c.lobbies[0].song_id, Some("left".to_string()));
    assert_eq!(c.lobbies[1].song_id, None);
    assert_eq!(c.lobbies[1].slot_a, Some(y));
}
