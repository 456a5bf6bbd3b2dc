//! A self-updating installer core for a game-server binary distribution.
//!
//! The library covers the version-resolution and merge-install pipeline:
//! finding the download reference on a vendor page, deriving the latest
//! version from the artifact name and the current version from persisted
//! state or an operator override, comparing the two, and planning a
//! blacklist-aware merge of a freshly expanded archive into a live
//! installation directory.  All filesystem and network work is delegated
//! to a caller that drives the [`pipeline`] state machine and performs
//! the actions it emits.

pub mod args;
pub mod error;
pub mod installer;
pub mod link;
pub mod pipeline;
pub mod resolver;
pub mod version;
