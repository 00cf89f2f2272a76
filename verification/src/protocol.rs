//! What passes between the library and the caller that works for it.
//!
//! The library performs no file, network or console operation. A transition names
//! the next one as an [`Action`]; the caller performs it and reports an [`Event`].

use vstd::prelude::*;
use crate::error::{Cause, CauseView, Error, ErrorView};

verus! {

/// How the authentication challenges of a remote are answered.
#[derive(Debug, PartialEq, Eq)]
pub enum Credentials {
    /// Every challenge, of whatever type, is answered with this name and password.
    UserPass { username: String, password: String },
    /// The challenges go to the credential helpers that git is configured with on
    /// this system, one candidate after the other.
    Helper,
}

/// [`Credentials`] with their texts as sequences of characters.
pub enum CredentialsView {
    UserPass { username: Seq<char>, password: Seq<char> },
    Helper,
}

impl View for Credentials {
    type V = CredentialsView;

    open spec fn view(&self) -> CredentialsView {
        match *self {
            Credentials::UserPass { username, password } => CredentialsView::UserPass {
                username: username@,
                password: password@,
            },
            Credentials::Helper => CredentialsView::Helper,
        }
    }
}

impl Clone for Credentials {
    fn clone(&self) -> (copy: Self)
        ensures
            copy@ == self@,
    {
        match self {
            Credentials::UserPass { username, password } => Credentials::UserPass {
                username: username.clone(),
                password: password.clone(),
            },
            Credentials::Helper => Credentials::Helper,
        }
    }
}

/// How a clone or a fetch reaches its remote.
#[derive(Debug, PartialEq, Eq)]
pub struct FetchOptions {
    /// Who answers the authentication challenges.
    pub credentials: Credentials,
    /// Whether the proxy is taken from the environment; without it none is set.
    pub proxy_auto: bool,
    /// Whether the certificate of the remote is verified.
    pub verify_certificates: bool,
    /// Whether all tags are downloaded beside what was asked for.
    pub download_all_tags: bool,
    /// Whether the fetch records what it brought in the fetch head.
    pub update_fetchhead: bool,
}

/// [`FetchOptions`] with their texts as sequences of characters.
pub struct FetchOptionsView {
    pub credentials: CredentialsView,
    pub proxy_auto: bool,
    pub verify_certificates: bool,
    pub download_all_tags: bool,
    pub update_fetchhead: bool,
}

impl View for FetchOptions {
    type V = FetchOptionsView;

    open spec fn view(&self) -> FetchOptionsView {
        FetchOptionsView {
            credentials: self.credentials@,
            proxy_auto: self.proxy_auto,
            verify_certificates: self.verify_certificates,
            download_all_tags: self.download_all_tags,
            update_fetchhead: self.update_fetchhead,
        }
    }
}

impl Clone for FetchOptions {
    fn clone(&self) -> (copy: Self)
        ensures
            copy@ == self@,
    {
        FetchOptions {
            credentials: self.credentials.clone(),
            proxy_auto: self.proxy_auto,
            verify_certificates: self.verify_certificates,
            download_all_tags: self.download_all_tags,
            update_fetchhead: self.update_fetchhead,
        }
    }
}

/// An operation that the caller performs for the library.
#[derive(Debug, PartialEq, Eq)]
pub enum Action {
    /// Tell whether `path` exists. Answered by [`Event::Exists`].
    Probe { path: String },
    /// Give the canonical, absolute form of `path`, with its links resolved.
    /// Answered by [`Event::Path`], or by [`Event::Failed`] where there is none.
    Canonicalize { path: String },
    /// Print `message` as a notice of progress. Nothing depends on how it went.
    Notice { message: String },
    /// Log a warning that `source` could not be brought to `path`, with the error.
    /// Nothing depends on how it went.
    Warn { source: String, path: String, error: Error },
    /// Create the directory `path` and the directories above it that are missing.
    CreateFolder { path: String },
    /// Remove the directory `path` with all that it holds.
    RemoveFolder { path: String },
    /// Read the text that the git configuration of the system holds under `key`.
    /// Answered by [`Event::Value`], or by [`Event::Failed`] where it holds none.
    ReadConfig { key: String },
    /// Clone the branch `branch` of `url` into the directory `dst`.
    Clone { url: String, dst: String, branch: String, options: FetchOptions },
    /// In the repository at `dst`, check out the tree that `rev` names, which may be
    /// a branch, a tag or an expression for a commit. With `force` local changes
    /// are overwritten; `remove_ignored` and `remove_untracked` remove the files
    /// that the repository ignores or does not track.
    Checkout {
        dst: String,
        rev: String,
        force: bool,
        remove_ignored: bool,
        remove_untracked: bool,
    },
    /// In the repository at `dst`, fetch `refspec` from the remote named `remote`,
    /// then disconnect from it.
    Fetch { dst: String, remote: String, refspec: String, options: FetchOptions },
    /// In the repository at `dst`, merge the commit that `reference` points to into
    /// the current position. No conflict is resolved: a merge that leaves conflicts
    /// has failed.
    Merge { dst: String, reference: String },
    /// In the repository at `dst`, remove the state that a merge or a rebase left.
    Cleanup { dst: String },
}

/// An [`Action`] with its texts as sequences of characters.
pub enum ActionView {
    Probe { path: Seq<char> },
    Canonicalize { path: Seq<char> },
    Notice { message: Seq<char> },
    Warn { source: Seq<char>, path: Seq<char>, error: ErrorView },
    CreateFolder { path: Seq<char> },
    RemoveFolder { path: Seq<char> },
    ReadConfig { key: Seq<char> },
    Clone { url: Seq<char>, dst: Seq<char>, branch: Seq<char>, options: FetchOptionsView },
    Checkout {
        dst: Seq<char>,
        rev: Seq<char>,
        force: bool,
        remove_ignored: bool,
        remove_untracked: bool,
    },
    Fetch { dst: Seq<char>, remote: Seq<char>, refspec: Seq<char>, options: FetchOptionsView },
    Merge { dst: Seq<char>, reference: Seq<char> },
    Cleanup { dst: Seq<char> },
}

impl View for Action {
    type V = ActionView;

    open spec fn view(&self) -> ActionView {
        match *self {
            Action::Probe { path } => ActionView::Probe { path: path@ },
            Action::Canonicalize { path } => ActionView::Canonicalize { path: path@ },
            Action::Notice { message } => ActionView::Notice { message: message@ },
            Action::Warn { source, path, error } => ActionView::Warn {
                source: source@,
                path: path@,
                error: error@,
            },
            Action::CreateFolder { path } => ActionView::CreateFolder { path: path@ },
            Action::RemoveFolder { path } => ActionView::RemoveFolder { path: path@ },
            Action::ReadConfig { key } => ActionView::ReadConfig { key: key@ },
            Action::Clone { url, dst, branch, options } => ActionView::Clone {
                url: url@,
                dst: dst@,
                branch: branch@,
                options: options@,
            },
            Action::Checkout { dst, rev, force, remove_ignored, remove_untracked } => {
                ActionView::Checkout {
                    dst: dst@,
                    rev: rev@,
                    force,
                    remove_ignored,
                    remove_untracked,
                }
            },
            Action::Fetch { dst, remote, refspec, options } => ActionView::Fetch {
                dst: dst@,
                remote: remote@,
                refspec: refspec@,
                options: options@,
            },
            Action::Merge { dst, reference } => ActionView::Merge {
                dst: dst@,
                reference: reference@,
            },
            Action::Cleanup { dst } => ActionView::Cleanup { dst: dst@ },
        }
    }
}

impl Clone for Action {
    fn clone(&self) -> (copy: Self)
        ensures
            copy@ == self@,
    {
        match self {
            Action::Probe { path } => Action::Probe { path: path.clone() },
            Action::Canonicalize { path } => Action::Canonicalize { path: path.clone() },
            Action::Notice { message } => Action::Notice { message: message.clone() },
            Action::Warn { source, path, error } => Action::Warn {
                source: source.clone(),
                path: path.clone(),
                error: error.clone(),
            },
            Action::CreateFolder { path } => Action::CreateFolder { path: path.clone() },
            Action::RemoveFolder { path } => Action::RemoveFolder { path: path.clone() },
            Action::ReadConfig { key } => Action::ReadConfig { key: key.clone() },
            Action::Clone { url, dst, branch, options } => Action::Clone {
                url: url.clone(),
                dst: dst.clone(),
                branch: branch.clone(),
                options: options.clone(),
            },
            Action::Checkout { dst, rev, force, remove_ignored, remove_untracked } => {
                Action::Checkout {
                    dst: dst.clone(),
                    rev: rev.clone(),
                    force: *force,
                    remove_ignored: *remove_ignored,
                    remove_untracked: *remove_untracked,
                }
            },
            Action::Fetch { dst, remote, refspec, options } => Action::Fetch {
                dst: dst.clone(),
                remote: remote.clone(),
                refspec: refspec.clone(),
                options: options.clone(),
            },
            Action::Merge { dst, reference } => Action::Merge {
                dst: dst.clone(),
                reference: reference.clone(),
            },
            Action::Cleanup { dst } => Action::Cleanup { dst: dst.clone() },
        }
    }
}

/// What the caller reports of the action it was asked for.
#[derive(Debug, PartialEq, Eq)]
pub enum Event {
    /// The action was performed.
    Done,
    /// The action failed.
    Failed(Cause),
    /// The path of an [`Action::Probe`] exists, or does not.
    Exists(bool),
    /// The canonical form that an [`Action::Canonicalize`] asked for.
    Path(String),
    /// The text that an [`Action::ReadConfig`] asked for.
    Value(String),
}

/// An [`Event`] with its texts as sequences of characters.
pub enum EventView {
    Done,
    Failed(CauseView),
    Exists(bool),
    Path(Seq<char>),
    Value(Seq<char>),
}

impl View for Event {
    type V = EventView;

    open spec fn view(&self) -> EventView {
        match *self {
            Event::Done => EventView::Done,
            Event::Failed(cause) => EventView::Failed(cause@),
            Event::Exists(found) => EventView::Exists(found),
            Event::Path(path) => EventView::Path(path@),
            Event::Value(text) => EventView::Value(text@),
        }
    }
}

impl Clone for Event {
    fn clone(&self) -> (copy: Self)
        ensures
            copy@ == self@,
    {
        match self {
            Event::Done => Event::Done,
            Event::Failed(cause) => Event::Failed(cause.clone()),
            Event::Exists(found) => Event::Exists(*found),
            Event::Path(path) => Event::Path(path.clone()),
            Event::Value(text) => Event::Value(text.clone()),
        }
    }
}

/// The view of the event that a transition is given, if it is given one.
pub open spec fn reported(event: Option<Event>) -> Option<EventView> {
    match event {
        Some(event) => Some(event@),
        None => None,
    }
}

} // verus!
