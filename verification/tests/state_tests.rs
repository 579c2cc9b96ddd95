use storyvote::messages::ServerEvent;
use storyvote::state::{is_allowed_card, normalize_name, normalize_topic, SharedState};

fn state_parts(ev: ServerEvent) -> (Vec<(String, bool, bool)>, bool, Vec<(String, String)>, String, Option<String>) {
    match ev {
        ServerEvent::State { participants, revealed, votes, topic, host_session_id } => (
            participants.into_iter().map(|p| (p.name, p.voted, p.is_host)).collect(),
            revealed,
            votes,
            topic,
            host_session_id,
        ),
        _ => panic!("expected state snapshot"),
    }
}

fn vote_of(votes: &[(String, String)], name: &str) -> Option<String> {
    votes.iter().find(|(n, _)| n == name).map(|(_, v)| v.clone())
}

#[test]
fn first_participant_becomes_host() {
    let mut state = SharedState::new();

    let (session_id, is_host) = state.add_participant("Alice").unwrap();

    assert!(is_host);
    assert_eq!(state.participant_name(&session_id).as_deref(), Some("Alice"));
}

#[test]
fn duplicate_names_are_rejected_case_insensitively() {
    let mut state = SharedState::new();
    state.add_participant("Alice").unwrap();

    let error = state.add_participant("alice").unwrap_err();

    assert_eq!(error, "That name is already in use for this session.");
}

#[test]
fn votes_are_hidden_until_reveal_and_exposed_after() {
    let mut state = SharedState::new();
    let (alice_id, _) = state.add_participant("Alice").unwrap();
    let (bob_id, _) = state.add_participant("Bob").unwrap();

    state.set_vote(&alice_id, "5").unwrap();
    state.set_vote(&bob_id, "8").unwrap();

    let (_, revealed, votes, _, _) = state_parts(state.snapshot());
    assert!(!revealed);
    assert!(votes.is_empty());

    state.reveal_votes(&alice_id).unwrap();

    let (_, revealed, votes, _, _) = state_parts(state.snapshot());
    assert!(revealed);
    assert_eq!(vote_of(&votes, "Alice").as_deref(), Some("5"));
    assert_eq!(vote_of(&votes, "Bob").as_deref(), Some("8"));
}

#[test]
fn only_host_can_reveal_or_reset() {
    let mut state = SharedState::new();
    let (host_id, _) = state.add_participant("Host").unwrap();
    let (guest_id, _) = state.add_participant("Guest").unwrap();

    let reveal_error = state.reveal_votes(&guest_id).unwrap_err();
    let reset_error = state.reset(&guest_id).unwrap_err();

    assert_eq!(reveal_error, "Only the host can reveal votes.");
    assert_eq!(reset_error, "Only the host can reset the round.");

    state.set_vote(&host_id, "3").unwrap();
    state.reveal_votes(&host_id).unwrap();
    state.reset(&host_id).unwrap();

    let (_, revealed, votes, _, _) = state_parts(state.snapshot());
    assert!(!revealed);
    assert!(votes.is_empty());
}

#[test]
fn host_reassigns_when_current_host_leaves() {
    let mut state = SharedState::new();
    let (host_id, _) = state.add_participant("Alice").unwrap();
    let (_, _) = state.add_participant("Bob").unwrap();

    state.remove_participant(&host_id);

    let (participants, _, _, _, _) = state_parts(state.snapshot());
    assert_eq!(participants.len(), 1);
    assert_eq!(participants[0].0, "Bob");
    assert!(participants[0].2);
}

#[test]
fn only_host_can_set_topic() {
    let mut state = SharedState::new();
    let (host_id, _) = state.add_participant("Host").unwrap();
    let (guest_id, _) = state.add_participant("Guest").unwrap();

    let error = state.set_topic(&guest_id, "Story 123").unwrap_err();
    assert_eq!(error, "Only the host can set the topic.");

    state.set_topic(&host_id, "Story 123").unwrap();
    let (_, _, _, topic, _) = state_parts(state.snapshot());
    assert_eq!(topic, "Story 123");
}

#[test]
fn names_are_trimmed_and_limited_in_bytes() {
    assert_eq!(normalize_name("  Alice \t\n").unwrap(), "Alice");
    assert_eq!(normalize_name("\u{3000}Bob\u{a0}").unwrap(), "Bob");
    assert_eq!(normalize_name("   ").unwrap_err(), "Name is required.");
    assert_eq!(normalize_name("").unwrap_err(), "Name is required.");
    assert_eq!(normalize_name(&"a".repeat(32)).unwrap(), "a".repeat(32));
    assert_eq!(normalize_name(&"a".repeat(33)).unwrap_err(), "Name must be 32 characters or less.");
    // eleven three-byte characters are 33 bytes
    assert_eq!(normalize_name(&"\u{20ac}".repeat(11)).unwrap_err(), "Name must be 32 characters or less.");
    assert_eq!(normalize_name(&"\u{20ac}".repeat(10)).unwrap(), "\u{20ac}".repeat(10));
}

#[test]
fn topics_are_trimmed_and_limited_in_bytes() {
    assert_eq!(normalize_topic("  Story 1  ").unwrap(), "Story 1");
    assert_eq!(normalize_topic("   ").unwrap(), "");
    assert_eq!(normalize_topic(&"t".repeat(120)).unwrap(), "t".repeat(120));
    assert_eq!(normalize_topic(&"t".repeat(121)).unwrap_err(), "Topic must be 120 characters or less.");
}

#[test]
fn deck_holds_exactly_the_fibonacci_cards_and_question_mark() {
    for card in ["0", "1", "2", "3", "5", "8", "13", "21", "34", "55", "?"] {
        assert!(is_allowed_card(card), "{card}");
    }
    for card in ["4", "100", "", " 5", "5 ", "13?", "-1", "89"] {
        assert!(!is_allowed_card(card), "{card}");
    }
}

#[test]
fn invalid_card_and_unknown_participant_are_refused() {
    let mut state = SharedState::new();
    let (id, _) = state.add_participant("Alice").unwrap();
    assert_eq!(state.set_vote(&id, "4").unwrap_err(), "Invalid card value.");
    assert_eq!(state.set_vote("nobody", "4").unwrap_err(), "Invalid card value.");
    assert_eq!(state.set_vote("nobody", "5").unwrap_err(), "Participant not found.");
    let (participants, _, _, _, _) = state_parts(state.snapshot());
    assert!(!participants[0].1);
}

#[test]
fn second_vote_replaces_the_first() {
    let mut state = SharedState::new();
    let (id, _) = state.add_participant("Alice").unwrap();
    state.set_vote(&id, "3").unwrap();
    state.set_vote(&id, "13").unwrap();
    state.reveal_votes(&id).unwrap();
    let (_, _, votes, _, _) = state_parts(state.snapshot());
    assert_eq!(votes, vec![("Alice".to_string(), "13".to_string())]);
}

#[test]
fn topic_errors_come_before_host_check() {
    let mut state = SharedState::new();
    state.add_participant("Host").unwrap();
    let (guest, _) = state.add_participant("Guest").unwrap();
    assert_eq!(state.set_topic(&guest, &"x".repeat(121)).unwrap_err(), "Topic must be 120 characters or less.");
    assert_eq!(state.set_topic(&guest, "ok").unwrap_err(), "Only the host can set the topic.");
}

#[test]
fn host_sets_trimmed_topic() {
    let mut state = SharedState::new();
    let (host, _) = state.add_participant("Host").unwrap();
    state.set_topic(&host, "   Login page   ").unwrap();
    let (_, _, _, topic, host_id) = state_parts(state.snapshot());
    assert_eq!(topic, "Login page");
    assert_eq!(host_id.as_deref(), Some(host.as_str()));
}

#[test]
fn leaving_removes_the_vote_and_unknown_ids_change_nothing() {
    let mut state = SharedState::new();
    let (a, _) = state.add_participant("Alice").unwrap();
    let (b, is_host) = state.add_participant("Bob").unwrap();
    assert!(!is_host);
    state.set_vote(&b, "8").unwrap();
    assert!(!state.remove_participant("unknown"));
    assert!(state.remove_participant(&b));
    assert!(!state.remove_participant(&b));
    state.reveal_votes(&a).unwrap();
    let (participants, _, votes, _, host) = state_parts(state.snapshot());
    assert_eq!(participants, vec![("Alice".to_string(), false, true)]);
    assert!(votes.is_empty());
    assert_eq!(host.as_deref(), Some(a.as_str()));
}

#[test]
fn last_participant_leaving_leaves_no_host_and_next_joiner_is_host() {
    let mut state = SharedState::new();
    let (a, _) = state.add_participant("Alice").unwrap();
    state.remove_participant(&a);
    let (participants, _, _, _, host) = state_parts(state.snapshot());
    assert!(participants.is_empty());
    assert_eq!(host, None);
    let (b, is_host) = state.add_participant("alice").unwrap();
    assert!(is_host);
    assert_eq!(state.participant_name(&b).as_deref(), Some("alice"));
}

#[test]
fn session_ids_are_fresh_uuids() {
    let mut state = SharedState::new();
    let (a, _) = state.add_participant("Alice").unwrap();
    let (b, _) = state.add_participant("Bob").unwrap();
    assert_eq!(a.len(), 36);
    assert_eq!(b.len(), 36);
    assert_ne!(a, b);
    assert_eq!(a.matches('-').count(), 4);
    for id in [&a, &b] {
        let chars: Vec<char> = id.chars().collect();
        for (i, c) in chars.iter().enumerate() {
            if [8, 13, 18, 23].contains(&i) {
                assert_eq!(*c, '-');
            } else {
                assert!(c.is_ascii_digit() || ('a'..='f').contains(c), "{id}");
            }
        }
        assert_eq!(chars[14], '4');
        assert!(['8', '9', 'a', 'b'].contains(&chars[19]));
    }
}

#[test]
fn rows_follow_join_order_with_voted_flags() {
    let mut state = SharedState::new();
    let (a, _) = state.add_participant("Ann").unwrap();
    let (_b, _) = state.add_participant("Ben").unwrap();
    let (c, _) = state.add_participant("Cid").unwrap();
    state.set_vote(&c, "?").unwrap();
    let (participants, revealed, _, _, host) = state_parts(state.snapshot());
    assert!(!revealed);
    assert_eq!(
        participants,
        vec![
            ("Ann".to_string(), false, true),
            ("Ben".to_string(), false, false),
            ("Cid".to_string(), true, false),
        ]
    );
    assert_eq!(host.as_deref(), Some(a.as_str()));
}

#[test]
fn with_explicit_session_id_join_is_exact() {
    let mut state = SharedState::new();
    let r = state.add_participant_with_session_id("  Dana ", "id-1".to_string()).unwrap();
    assert_eq!(r, ("id-1".to_string(), true));
    let r = state.add_participant_with_session_id("Eve", "id-2".to_string()).unwrap();
    assert_eq!(r, ("id-2".to_string(), false));
    assert_eq!(state.participant_name("id-1").as_deref(), Some("Dana"));
    assert_eq!(state.participant_name("id-3"), None);
    assert_eq!(
        state.add_participant_with_session_id("DANA", "id-3".to_string()).unwrap_err(),
        "That name is already in use for this session."
    );
}
