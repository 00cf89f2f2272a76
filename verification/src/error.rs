//! The errors of a resolution, and what the system said when an operation failed.

use vstd::prelude::*;

verus! {

/// What the system reported when an operation failed, kept as it was reported.
#[derive(Debug, PartialEq, Eq)]
pub enum Cause {
    /// A failure of a git operation: its code, its class and its message.
    Git { code: i32, class: i32, message: String },
    /// A failure of a file operation: the code of the operating system, if it gave
    /// one, and the message.
    Io { os_code: Option<i32>, message: String },
}

/// A [`Cause`] with its texts as sequences of characters.
pub enum CauseView {
    Git { code: i32, class: i32, message: Seq<char> },
    Io { os_code: Option<i32>, message: Seq<char> },
}

impl View for Cause {
    type V = CauseView;

    open spec fn view(&self) -> CauseView {
        match *self {
            Cause::Git { code, class, message } => CauseView::Git {
                code,
                class,
                message: message@,
            },
            Cause::Io { os_code, message } => CauseView::Io { os_code, message: message@ },
        }
    }
}

impl Clone for Cause {
    fn clone(&self) -> (copy: Self)
        ensures
            copy@ == self@,
    {
        match self {
            Cause::Git { code, class, message } => Cause::Git {
                code: *code,
                class: *class,
                message: message.clone(),
            },
            Cause::Io { os_code, message } => Cause::Io {
                os_code: *os_code,
                message: message.clone(),
            },
        }
    }
}

/// Why a source could not be resolved into a local directory.
#[derive(Debug, PartialEq, Eq)]
pub enum Error {
    /// Bringing `url` at `rev` into `dst` failed: a clone, a checkout, a fetch, a
    /// merge or the cleanup after it.
    GitRetrieve { dst: String, url: String, rev: String, source: Cause },
    /// The directory `path` could not be created.
    CreateFolder { path: String, source: Cause },
    /// The directory `path` could not be removed.
    RemoveFolder { path: String, source: Cause },
    /// The platform names no cache directory for the application.
    ApplicationPathNotFound,
    /// The directory that the source resolves to does not exist.
    LocalPathNotFound { path: String, uri: String, subfolder: Option<String> },
    /// A file operation failed.
    Io { source: Cause },
}

/// An [`Error`] with its texts as sequences of characters.
pub enum ErrorView {
    GitRetrieve { dst: Seq<char>, url: Seq<char>, rev: Seq<char>, source: CauseView },
    CreateFolder { path: Seq<char>, source: CauseView },
    RemoveFolder { path: Seq<char>, source: CauseView },
    ApplicationPathNotFound,
    LocalPathNotFound { path: Seq<char>, uri: Seq<char>, subfolder: Option<Seq<char>> },
    Io { source: CauseView },
}

/// The text of an optional string, if there is one.
pub open spec fn text_of(value: Option<String>) -> Option<Seq<char>> {
    match value {
        Some(text) => Some(text@),
        None => None,
    }
}

/// Copies an optional string.
pub fn copy_of(value: &Option<String>) -> (copy: Option<String>)
    ensures
        text_of(copy) == text_of(*value),
{
    match value {
        Some(text) => Some(text.clone()),
        None => None,
    }
}

impl View for Error {
    type V = ErrorView;

    open spec fn view(&self) -> ErrorView {
        match *self {
            Error::GitRetrieve { dst, url, rev, source } => ErrorView::GitRetrieve {
                dst: dst@,
                url: url@,
                rev: rev@,
                source: source@,
            },
            Error::CreateFolder { path, source } => ErrorView::CreateFolder {
                path: path@,
                source: source@,
            },
            Error::RemoveFolder { path, source } => ErrorView::RemoveFolder {
                path: path@,
                source: source@,
            },
            Error::ApplicationPathNotFound => ErrorView::ApplicationPathNotFound,
            Error::LocalPathNotFound { path, uri, subfolder } => ErrorView::LocalPathNotFound {
                path: path@,
                uri: uri@,
                subfolder: text_of(subfolder),
            },
            Error::Io { source } => ErrorView::Io { source: source@ },
        }
    }
}

impl Clone for Error {
    fn clone(&self) -> (copy: Self)
        ensures
            copy@ == self@,
    {
        match self {
            Error::GitRetrieve { dst, url, rev, source } => Error::GitRetrieve {
                dst: dst.clone(),
                url: url.clone(),
                rev: rev.clone(),
                source: source.clone(),
            },
            Error::CreateFolder { path, source } => Error::CreateFolder {
                path: path.clone(),
                source: source.clone(),
            },
            Error::RemoveFolder { path, source } => Error::RemoveFolder {
                path: path.clone(),
                source: source.clone(),
            },
            Error::ApplicationPathNotFound => Error::ApplicationPathNotFound,
            Error::LocalPathNotFound { path, uri, subfolder } => Error::LocalPathNotFound {
                path: path.clone(),
                uri: uri.clone(),
                subfolder: copy_of(subfolder),
            },
            Error::Io { source } => Error::Io { source: source.clone() },
        }
    }
}

} // verus!
