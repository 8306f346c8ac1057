//! The providers that a keyword selects.

pub mod bookmarks;
pub mod emojis;
pub mod session;
