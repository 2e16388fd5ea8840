//! Turns syndication feeds into mail: every entry of a feed gets a stable
//! identity, is rendered as a self-contained HTML message and is appended to
//! a mailbox unless a message with that identity is already there.

pub mod config;
pub mod digest;
pub mod fetch;
pub mod imap;
pub mod location;
pub mod model;
pub mod reporter;
pub mod sync;
pub mod transform;
