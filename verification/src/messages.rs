//! The events exchanged with browser clients over the websocket.

use vstd::prelude::*;

verus! {

/// One row of the participant list shown to every client.
#[derive(Debug)]
pub struct ParticipantView {
    pub name: String,
    pub voted: bool,
    pub is_host: bool,
}

/// A request sent by a client.
#[derive(Debug)]
pub enum ClientEvent {
    Vote { value: String },
    SetTopic { value: String },
    Reveal,
    Reset,
}

/// An event sent to clients. In `State`, `votes` holds one
/// `(participant name, card)` pair per revealed vote; names are unique, so
/// the pairs form a map from name to card.
#[derive(Debug)]
pub enum ServerEvent {
    Connected { session_id: String, is_host: bool, name: String },
    State {
        participants: Vec<ParticipantView>,
        revealed: bool,
        votes: Vec<(String, String)>,
        topic: String,
        host_session_id: Option<String>,
    },
    Error { message: String },
}

/// The text of an optional string.
pub open spec fn opt_text(o: Option<String>) -> Option<Seq<char>> {
    match o {
        Some(s) => Some(s@),
        None => None,
    }
}

/// The texts of `(name, card)` pairs.
pub open spec fn pair_texts(v: Seq<(String, String)>) -> Seq<(Seq<char>, Seq<char>)> {
    v.map_values(|p: (String, String)| (p.0@, p.1@))
}


/// The participant rows as `(name, voted, is_host)` triples.
pub open spec fn row_texts(v: Seq<ParticipantView>) -> Seq<(Seq<char>, bool, bool)> {
    v.map_values(|p: ParticipantView| (p.name@, p.voted, p.is_host))
}

} // verus!
