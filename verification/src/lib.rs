//! Backend logic of a desktop application launcher.
//!
//! The crate turns free text typed by the user into an ordered list of result
//! candidates. It parses the text into an optional keyword and a remainder,
//! routes it to the provider that the keyword selects (search engines, session
//! commands, emojis, bookmarks), and otherwise falls back to the indexed
//! applications and the default search engine. It also holds the rules by which
//! the application index is built and invalidated, and the decisions of the
//! single-instance coordinator.
//!
//! Everything here is pure: reading files, watching directories, sockets and
//! windows are the caller's business. The caller hands in plain values and
//! performs whatever the returned values describe.

pub mod seqs;
pub mod text;
pub mod query;
pub mod fuzzy;
pub mod result;
pub mod config;
pub mod search;
pub mod plugins;
pub mod apps;
pub mod listener;
