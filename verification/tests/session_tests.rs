use storyvote::messages::{ClientEvent, ParticipantView, ServerEvent};
use storyvote::session::{handle_client_event, join_session, leave_session, socket_step, SocketAction, SocketInput};
use storyvote::state::SharedState;

struct StateEvent {
    participants: Vec<ParticipantView>,
    revealed: bool,
    votes: Vec<(String, String)>,
}

fn as_state(ev: ServerEvent) -> StateEvent {
    match ev {
        ServerEvent::State { participants, revealed, votes, .. } => StateEvent { participants, revealed, votes },
        other => panic!("expected state event, got {other:?}"),
    }
}

fn vote_of(votes: &[(String, String)], name: &str) -> Option<String> {
    votes.iter().find(|(n, _)| n == name).map(|(_, v)| v.clone())
}

fn connect(state: &mut SharedState, name: &str) -> (String, ServerEvent, StateEvent) {
    let (id, connected, snapshot) = join_session(state, name).unwrap();
    (id, connected, as_state(snapshot))
}

fn request(state: &mut SharedState, id: &str, ev: ClientEvent) -> SocketAction {
    socket_step(state, id, SocketInput::Request(Some(ev)))
}

fn broadcast_state(action: SocketAction) -> StateEvent {
    match action {
        SocketAction::BroadcastState(ev) => as_state(ev),
        _ => panic!("expected a state broadcast"),
    }
}

fn sent_error(action: SocketAction) -> String {
    match action {
        SocketAction::Send(ServerEvent::Error { message }) => message,
        _ => panic!("expected an error event"),
    }
}

#[test]
fn websocket_join_vote_reveal_reset_flow_works() {
    let mut state = SharedState::new();
    let (host, _, host_state) = connect(&mut state, "Host");
    let (guest, _, guest_state) = connect(&mut state, "Guest");

    assert!(!host_state.revealed);
    assert_eq!(host_state.participants.len(), 1);
    assert!(host_state.participants.iter().any(|participant| participant.is_host));
    assert_eq!(guest_state.participants.len(), 2);

    let vote_state = broadcast_state(request(&mut state, &host, ClientEvent::Vote { value: "3".to_string() }));
    assert!(vote_state.participants.iter().any(|participant| participant.name == "Host" && participant.voted));
    assert!(vote_state.votes.is_empty());

    let _ = broadcast_state(request(&mut state, &guest, ClientEvent::Vote { value: "5".to_string() }));

    let revealed = broadcast_state(request(&mut state, &host, ClientEvent::Reveal));
    assert!(revealed.revealed);
    assert_eq!(vote_of(&revealed.votes, "Host").as_deref(), Some("3"));
    assert_eq!(vote_of(&revealed.votes, "Guest").as_deref(), Some("5"));

    let reset = broadcast_state(request(&mut state, &host, ClientEvent::Reset));
    assert!(!reset.revealed);
    assert!(reset.votes.is_empty());
}

#[test]
fn duplicate_name_connection_returns_error() {
    let mut state = SharedState::new();
    let _ = connect(&mut state, "Host");

    match join_session(&mut state, "Host") {
        Err(ServerEvent::Error { message }) => {
            assert_eq!(message, "That name is already in use for this session.");
        }
        _ => panic!("expected error event"),
    }
}

#[test]
fn non_host_reveal_returns_error_without_broadcasting_state_change() {
    let mut state = SharedState::new();
    let (host, _, _) = connect(&mut state, "Host");
    let (guest, _, _) = connect(&mut state, "Guest");

    let error = sent_error(request(&mut state, &guest, ClientEvent::Reveal));
    assert_eq!(error, "Only the host can reveal votes.");

    let after = broadcast_state(request(&mut state, &host, ClientEvent::Vote { value: "8".to_string() }));
    assert!(!after.revealed);
}

#[test]
fn non_host_reset_returns_error() {
    let mut state = SharedState::new();
    let (_host, _, _) = connect(&mut state, "Host");
    let (guest, _, _) = connect(&mut state, "Guest");

    let error = sent_error(request(&mut state, &guest, ClientEvent::Reset));
    assert_eq!(error, "Only the host can reset the round.");
}

#[test]
fn host_reassignment_is_broadcast_after_host_disconnect() {
    let mut state = SharedState::new();
    let (host, _, _) = connect(&mut state, "Host");
    let (guest, _, guest_state) = connect(&mut state, "Guest");
    assert_eq!(guest_state.participants.len(), 2);

    let reassigned = as_state(leave_session(&mut state, &host).unwrap());
    assert_eq!(reassigned.participants.len(), 1);
    assert_eq!(reassigned.participants[0].name, "Guest");
    assert!(reassigned.participants[0].is_host);

    let revealed = broadcast_state(request(&mut state, &guest, ClientEvent::Reveal));
    assert!(revealed.revealed);
}

#[test]
fn name_can_rejoin_after_disconnect() {
    let mut state = SharedState::new();
    let (first_id, connected, _) = connect(&mut state, "Alex");
    match connected {
        ServerEvent::Connected { session_id, .. } => assert_eq!(session_id, first_id),
        other => panic!("expected connected event, got {other:?}"),
    }
    assert!(leave_session(&mut state, &first_id).is_some());

    let (second_id, connected_again, state_again) = connect(&mut state, "Alex");
    match connected_again {
        ServerEvent::Connected { session_id, is_host, name } => {
            assert!(is_host);
            assert_eq!(name, "Alex");
            assert_eq!(session_id, second_id);
        }
        other => panic!("expected connected event, got {other:?}"),
    }
    assert_ne!(first_id, second_id);
    assert_eq!(state_again.participants.len(), 1);
    assert_eq!(state_again.participants[0].name, "Alex");
}

#[test]
fn unreadable_message_is_answered_with_format_error() {
    let mut state = SharedState::new();
    let (host, _, _) = connect(&mut state, "Host");
    assert_eq!(handle_client_event(&mut state, &host, None).unwrap_err(), "Invalid message format.");
    assert_eq!(sent_error(socket_step(&mut state, &host, SocketInput::Request(None))), "Invalid message format.");
}

#[test]
fn topic_request_sets_trimmed_topic() {
    let mut state = SharedState::new();
    let (host, _, _) = connect(&mut state, "Host");
    handle_client_event(&mut state, &host, Some(ClientEvent::SetTopic { value: "  Story 7 ".to_string() })).unwrap();
    match state.snapshot() {
        ServerEvent::State { topic, .. } => assert_eq!(topic, "Story 7"),
        _ => panic!("expected state"),
    }
}

#[test]
fn frames_other_than_requests_are_handled_without_touching_the_session() {
    let mut state = SharedState::new();
    let (host, _, _) = connect(&mut state, "Host");
    match socket_step(&mut state, &host, SocketInput::Ping(vec![1, 2, 3])) {
        SocketAction::Pong(p) => assert_eq!(p, vec![1, 2, 3]),
        _ => panic!("expected pong"),
    }
    assert!(matches!(socket_step(&mut state, &host, SocketInput::OtherFrame), SocketAction::Nothing));
    assert!(matches!(socket_step(&mut state, &host, SocketInput::Closed), SocketAction::Stop));
    assert!(matches!(socket_step(&mut state, &host, SocketInput::ReceiveFailed), SocketAction::Stop));
    assert!(matches!(socket_step(&mut state, &host, SocketInput::BroadcastEnded), SocketAction::Stop));
    let ev = ServerEvent::Error { message: "x".to_string() };
    match socket_step(&mut state, &host, SocketInput::Broadcast(ev)) {
        SocketAction::Send(ServerEvent::Error { message }) => assert_eq!(message, "x"),
        _ => panic!("expected forwarded event"),
    }
    assert_eq!(state.participant_name(&host).as_deref(), Some("Host"));
}

#[test]
fn blank_name_join_is_refused() {
    let mut state = SharedState::new();
    match join_session(&mut state, "  ") {
        Err(ServerEvent::Error { message }) => assert_eq!(message, "Name is required."),
        _ => panic!("expected error"),
    }
}

#[test]
fn leaving_twice_broadcasts_once() {
    let mut state = SharedState::new();
    let (a, _, _) = connect(&mut state, "A");
    assert!(leave_session(&mut state, &a).is_some());
    assert!(leave_session(&mut state, &a).is_none());
}

#[test]
fn broadcasts_are_forwarded_in_order_and_pings_answered() {
    let mut state = SharedState::new();
    let (host, _, _) = connect(&mut state, "Host");
    let inputs = vec![
        SocketInput::Broadcast(ServerEvent::Error { message: "one".to_string() }),
        SocketInput::Ping(vec![7]),
        SocketInput::OtherFrame,
        SocketInput::Broadcast(ServerEvent::Error { message: "two".to_string() }),
        SocketInput::Ping(vec![8, 9]),
    ];
    let mut sent = Vec::new();
    let mut pongs = Vec::new();
    for input in inputs {
        match socket_step(&mut state, &host, input) {
            SocketAction::Send(ServerEvent::Error { message }) => sent.push(message),
            SocketAction::Pong(p) => pongs.push(p),
            SocketAction::Nothing => {}
            _ => panic!("unexpected action"),
        }
    }
    assert_eq!(sent, vec!["one".to_string(), "two".to_string()]);
    assert_eq!(pongs, vec![vec![7], vec![8, 9]]);
    assert_eq!(state.participant_name(&host).as_deref(), Some("Host"));
}
