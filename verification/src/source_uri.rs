//! A source as it was named: a local path, or a repository on a host.

use vstd::prelude::*;
use crate::error::{copy_of, text_of};

verus! {

/// A parsed source. It is local where `host` is `None`, and remote otherwise.
#[derive(Debug, PartialEq, Eq, Hash, PartialOrd, Ord)]
pub struct SourceUri {
    /// The source as it was written.
    pub raw: String,
    /// The host of a remote source.
    pub host: Option<String>,
    /// The path: of the directory for a local source, on the host for a remote one.
    pub path: String,
}

/// A [`SourceUri`] with its texts as sequences of characters.
pub struct SourceUriView {
    pub raw: Seq<char>,
    pub host: Option<Seq<char>>,
    pub path: Seq<char>,
}

impl View for SourceUri {
    type V = SourceUriView;

    open spec fn view(&self) -> SourceUriView {
        SourceUriView { raw: self.raw@, host: text_of(self.host), path: self.path@ }
    }
}

impl Clone for SourceUri {
    fn clone(&self) -> (copy: Self)
        ensures
            copy@ == self@,
    {
        SourceUri { raw: self.raw.clone(), host: copy_of(&self.host), path: self.path.clone() }
    }
}

impl SourceUri {
    /// Whether the source is a repository on a host.
    pub fn is_remote(&self) -> (remote: bool)
        ensures
            remote == self@.host.is_some(),
    {
        self.host.is_some()
    }
}

} // verus!
