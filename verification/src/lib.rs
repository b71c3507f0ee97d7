//! Decides which language-server binary an editor extension should launch.
//!
//! The crate holds the decisions of the installation resolver: which platform
//! build to pick, whether a binary that is already on disk can be reused, what
//! to download and which installed versions to evict. It performs no I/O on
//! its own. A driver asks the resolver for the next request, performs it, and
//! hands the reply back.

pub mod command;
pub mod error;
pub mod laws;
pub mod layout;
pub mod platform;
pub mod protocol;
pub mod release;
pub mod resolver;
pub mod text;
