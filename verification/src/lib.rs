//! The core of a small chat front-end: the history of submitted queries, the
//! view-models handed to the page templates, the server-push framing of
//! streamed chunks, and the decisions of a streamed chat turn.
//!
//! Nothing here performs I/O. A server owns a [`history::HistoryStore`] behind
//! its lock, calls these functions with plain values and sends what they return.

pub mod chat;
pub mod config;
pub mod fragment;
pub mod history;
pub mod relay;
pub mod submission;
