//! StoryVote: a single-session agile story point estimation service.
//!
//! The verified library holds the session's rules (joining, voting,
//! revealing, resetting, host hand-over), the text normalization that
//! those rules rest on, the websocket session decisions and the start-up
//! address and share-URL logic.

pub mod text;
pub mod messages;
pub mod state;
pub mod laws;
pub mod session;
pub mod startup;
pub mod http;
pub mod ui;
