//! Resolution of source locations into local directories.
//!
//! A source is either a local path or a remote git repository at a revision.
//! Remote sources are kept in a cache below the platform's cache directory, one
//! working copy for each host, path and revision. This crate decides where such a
//! working copy lies, which operations bring it up to date, and what is returned
//! when one of them fails. It performs no file or network operation itself: the
//! transitions in [`git`] and [`source_loc`] name the next operation, and the
//! caller reports how it went.

pub mod error;
pub mod git;
pub mod path;
mod platform;
pub mod protocol;
pub mod source_loc;
pub mod source_uri;
