//! The decisions of one websocket connection: joining, applying client
//! requests to the session, reacting to frames and broadcasts, leaving.

use vstd::prelude::*;
use crate::text::trim;
use crate::messages::{ClientEvent, ServerEvent};
use crate::state::{
    SharedState, SessionView, describes, is_v4_uuid_text, join_error, vote_error, topic_change_error,
    msg_only_host_reveal, msg_only_host_reset,
};

verus! {

pub open spec fn msg_invalid_format() -> Seq<char> {
    "Invalid message format."@
}

/// What a client request does to session `s` when it comes from session id
/// `id`: the new session, or the error that answers it. `None` stands for a
/// message that is not a well-formed request.
pub open spec fn request_outcome(s: SessionView, id: Seq<char>, ev: Option<ClientEvent>) -> Result<
    SessionView,
    Seq<char>,
> {
    match ev {
        None => Err(msg_invalid_format()),
        Some(ClientEvent::Vote { value }) => match vote_error(s, id, value@) {
            Some(e) => Err(e),
            None => Ok(s.voted(id, value@)),
        },
        Some(ClientEvent::SetTopic { value }) => match topic_change_error(s, id, value@) {
            Some(e) => Err(e),
            None => Ok(s.with_topic(trim(value@))),
        },
        Some(ClientEvent::Reveal) => if s.is_host(id) {
            Ok(s.with_votes_revealed())
        } else {
            Err(msg_only_host_reveal())
        },
        Some(ClientEvent::Reset) => if s.is_host(id) {
            Ok(s.round_reset())
        } else {
            Err(msg_only_host_reset())
        },
    }
}

/// Applies the request `event` of the participant `session_id`; `None`
/// stands for a message that could not be read as a request.
pub fn handle_client_event(state: &mut SharedState, session_id: &str, event: Option<ClientEvent>) -> (r:
    Result<(), String>)
    requires
        old(state)@.wf(),
    ensures
        final(state)@.wf(),
        match r {
            Ok(()) => request_outcome(old(state)@, session_id@, event) == Ok::<SessionView, Seq<char>>(
                final(state)@,
            ),
            Err(e) => {
                &&& request_outcome(old(state)@, session_id@, event) == Err::<SessionView, Seq<char>>(
                    e@,
                )
                &&& final(state)@ == old(state)@
            },
        },
{
    match event {
        None => Err("Invalid message format.".to_owned()),
        Some(ClientEvent::Vote { value }) => state.set_vote(session_id, value.as_str()),
        Some(ClientEvent::SetTopic { value }) => state.set_topic(session_id, value.as_str()),
        Some(ClientEvent::Reveal) => state.reveal_votes(session_id),
        Some(ClientEvent::Reset) => state.reset(session_id),
    }
}

/// Joins a connection that asked for display name `name`. On success returns
/// the new session id, the `Connected` event for the connection and the
/// state event that every client is to receive; otherwise the `Error` event
/// that answers the connection before it is closed.
pub fn join_session(state: &mut SharedState, name: &str) -> (r: Result<
    (String, ServerEvent, ServerEvent),
    ServerEvent,
>)
    requires
        old(state)@.wf(),
    ensures
        final(state)@.wf(),
        match r {
            Ok((id, connected, snapshot)) => {
                &&& join_error(old(state)@, name@) is None
                &&& is_v4_uuid_text(id@)
                &&& final(state)@ == old(state)@.joined(id@, trim(name@))
                &&& connected matches ServerEvent::Connected { session_id, is_host, name: shown }
                    && session_id@ == id@ && is_host == (old(state)@.host is None) && shown@ == trim(
                    name@,
                )
                &&& describes(snapshot, final(state)@)
            },
            Err(ev) => {
                &&& ev matches ServerEvent::Error { message } && join_error(old(state)@, name@)
                    == Some(message@)
                &&& final(state)@ == old(state)@
            },
        },
{
    let ghost pre = state@;
    match state.add_participant(name) {
        Err(message) => Err(ServerEvent::Error { message }),
        Ok((session_id, is_host)) => {
            proof {
                let s = state@;
                if pre.has_member(session_id@) {
                    let i = pre.index_of(session_id@);
                    assert(s.members[i].id == session_id@);
                } else {
                    assert(s.members[pre.members.len() as int].id == session_id@);
                }
                assert(s.has_member(session_id@));
            }
            let shown = match state.participant_name(session_id.as_str()) {
                Some(n) => n,
                None => name.to_owned(),
            };
            proof {
                let s = state@;
                let i = choose|i: int| 0 <= i < s.members.len() && (#[trigger] s.members[i]).id == session_id@;
                crate::state::lemma_index_of_unique(s, session_id@, i);
            }
            let connected = ServerEvent::Connected {
                session_id: session_id.clone(),
                is_host,
                name: shown,
            };
            let snapshot = state.snapshot();
            Ok((session_id, connected, snapshot))
        },
    }
}

/// Removes the participant `session_id` when its connection ends. Returns
/// the state event to send to the remaining clients when someone left.
pub fn leave_session(state: &mut SharedState, session_id: &str) -> (r: Option<ServerEvent>)
    requires
        old(state)@.wf(),
    ensures
        final(state)@.wf(),
        final(state)@ == old(state)@.left(session_id@),
        match r {
            Some(ev) => old(state)@.has_member(session_id@) && describes(ev, final(state)@),
            None => !old(state)@.has_member(session_id@),
        },
{
    if state.remove_participant(session_id) {
        Some(state.snapshot())
    } else {
        None
    }
}


/// What a connection has just received: a client request (`None` when the
/// text frame was not a well-formed request), a ping with its payload, the
/// end of the client's stream, another kind of frame, a receive failure, a
/// state event broadcast to every client, or the end of the broadcast feed.
pub enum SocketInput {
    Request(Option<ClientEvent>),
    Ping(Vec<u8>),
    Closed,
    OtherFrame,
    ReceiveFailed,
    Broadcast(ServerEvent),
    BroadcastEnded,
}

/// What the connection does next: send a state event to every client, send
/// an event to this client, answer a ping, do nothing, or end the
/// connection.
pub enum SocketAction {
    BroadcastState(ServerEvent),
    Send(ServerEvent),
    Pong(Vec<u8>),
    Nothing,
    Stop,
}

/// What one step of the connection of participant `id` does: from session
/// `pre` and input `input` it leads to session `post` and action `action`.
/// A request is applied and, when granted, the new state is broadcast, else
/// the error is sent back; a ping is answered by a pong with the same
/// payload; a broadcast event is sent on; other frames do nothing; the end of
/// either stream, or a receive failure, stops the connection.
pub open spec fn step_effect(
    pre: SessionView,
    id: Seq<char>,
    input: SocketInput,
    post: SessionView,
    action: SocketAction,
) -> bool {
    match input {
        SocketInput::Request(ev) => match request_outcome(pre, id, ev) {
            Ok(t) => post == t && (action matches SocketAction::BroadcastState(snap) && describes(
                snap,
                t,
            )),
            Err(e) => post == pre && (action matches SocketAction::Send(
                ServerEvent::Error { message },
            ) && message@ == e),
        },
        SocketInput::Ping(payload) => post == pre && (action matches SocketAction::Pong(p) && p@
            == payload@),
        SocketInput::Broadcast(ev) => post == pre && action == SocketAction::Send(ev),
        SocketInput::OtherFrame => post == pre && action is Nothing,
        _ => post == pre && action is Stop,
    }
}

/// One step of the connection of participant `session_id`.
pub fn socket_step(state: &mut SharedState, session_id: &str, input: SocketInput) -> (action:
    SocketAction)
    requires
        old(state)@.wf(),
    ensures
        final(state)@.wf(),
        step_effect(old(state)@, session_id@, input, final(state)@, action),
{
    match input {
        SocketInput::Request(ev) => match handle_client_event(state, session_id, ev) {
            Ok(()) => SocketAction::BroadcastState(state.snapshot()),
            Err(message) => SocketAction::Send(ServerEvent::Error { message }),
        },
        SocketInput::Ping(payload) => SocketAction::Pong(payload),
        SocketInput::Broadcast(ev) => SocketAction::Send(ev),
        SocketInput::OtherFrame => SocketAction::Nothing,
        SocketInput::Closed => SocketAction::Stop,
        SocketInput::ReceiveFailed => SocketAction::Stop,
        SocketInput::BroadcastEnded => SocketAction::Stop,
    }
}

} // verus!
