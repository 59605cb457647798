//! A bridge that watches a Misskey account's live stream for mentions and
//! answers them: the wire codec, the stream session's state machine, the
//! reconnect policy, and the REST call's outcome, each with its contract.
pub mod api;
pub mod bridge;
pub mod codec;
pub mod config;
pub mod json;
pub mod retry;
pub mod session;
