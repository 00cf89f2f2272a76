//! Where the content of a source comes from, and the directory it resolves to.

use vstd::pervasive::unreached;
use vstd::prelude::*;
use vstd::string::StringExecFns;
use crate::error::{copy_of, text_of, Cause, CauseView, Error, ErrorView};
use crate::git::{fetch_options, retrieve, Progress, ProgressView, Request, Stage};
use crate::path::{child, child_path, lemma_child_tells_base, lemma_child_tells_segment};
use crate::platform::{cache_dir_of, project_dirs};
use crate::protocol::{reported, Action, ActionView, Event, EventView};
use crate::source_uri::{SourceUri, SourceUriView};

verus! {

/// A source, the revision wanted of it, and how to reach it.
#[derive(Debug, PartialEq, Eq, Hash, PartialOrd, Ord)]
pub struct SourceLoc {
    /// The local path or the repository.
    pub uri: SourceUri,
    /// The git revision: a branch, a tag or an expression for a commit.
    pub rev: String,
    /// The name to authenticate with.
    pub usr: Option<String>,
    /// The password to authenticate with.
    pub pwd: Option<String>,
    /// The directory under the source that holds the content.
    pub subfolder: Option<String>,
    /// Accept a certificate that cannot be verified, such as a self-signed one.
    pub unsecure_certificate: bool,
    /// Do not take the proxy from the environment.
    pub disable_proxy_options: bool,
}

/// A [`SourceLoc`] with its texts as sequences of characters.
pub struct SourceLocView {
    pub uri: SourceUriView,
    pub rev: Seq<char>,
    pub usr: Option<Seq<char>>,
    pub pwd: Option<Seq<char>>,
    pub subfolder: Option<Seq<char>>,
    pub unsecure_certificate: bool,
    pub disable_proxy_options: bool,
}

impl View for SourceLoc {
    type V = SourceLocView;

    open spec fn view(&self) -> SourceLocView {
        SourceLocView {
            uri: self.uri@,
            rev: self.rev@,
            usr: text_of(self.usr),
            pwd: text_of(self.pwd),
            subfolder: text_of(self.subfolder),
            unsecure_certificate: self.unsecure_certificate,
            disable_proxy_options: self.disable_proxy_options,
        }
    }
}

impl Clone for SourceLoc {
    fn clone(&self) -> (copy: Self)
        ensures
            copy@ == self@,
    {
        SourceLoc {
            uri: self.uri.clone(),
            rev: self.rev.clone(),
            usr: copy_of(&self.usr),
            pwd: copy_of(&self.pwd),
            subfolder: copy_of(&self.subfolder),
            unsecure_certificate: self.unsecure_certificate,
            disable_proxy_options: self.disable_proxy_options,
        }
    }
}

/// The source that a builder starts from: an empty local path at the revision
/// `master`, without credentials or subfolder, with certificates verified and the
/// proxy taken from the environment.
pub open spec fn default_source() -> SourceLocView {
    SourceLocView {
        uri: SourceUriView { raw: Seq::empty(), host: None, path: Seq::empty() },
        rev: "master"@,
        usr: None,
        pwd: None,
        subfolder: None,
        unsecure_certificate: false,
        disable_proxy_options: false,
    }
}

impl Default for SourceLoc {
    fn default() -> (source: Self)
        ensures
            source@ == default_source(),
    {
        SourceLoc {
            uri: SourceUri { raw: String::new(), host: None, path: String::new() },
            rev: "master".to_owned(),
            usr: None,
            pwd: None,
            subfolder: None,
            unsecure_certificate: false,
            disable_proxy_options: false,
        }
    }
}

/// Builds a [`SourceLoc`] field by field. Its view is the source that
/// [`SourceLocBuilder::build`] would return.
#[derive(Debug)]
pub struct SourceLocBuilder {
    source: SourceLoc,
}

impl View for SourceLocBuilder {
    type V = SourceLocView;

    closed spec fn view(&self) -> SourceLocView {
        self.source@
    }
}

impl SourceLocBuilder {
    /// Sets the local path or the repository.
    pub fn uri(&mut self, uri: SourceUri) -> (builder: &mut Self)
        ensures
            builder@ == (SourceLocView { uri: uri@, ..old(self)@ }),
            final(self)@ == final(builder)@,
    {
        self.source.uri = uri;
        self
    }

    /// Sets the revision.
    pub fn rev(&mut self, rev: &str) -> (builder: &mut Self)
        ensures
            builder@ == (SourceLocView { rev: rev@, ..old(self)@ }),
            final(self)@ == final(builder)@,
    {
        self.source.rev = rev.to_owned();
        self
    }

    /// Sets the name to authenticate with.
    pub fn usr(&mut self, usr: &str) -> (builder: &mut Self)
        ensures
            builder@ == (SourceLocView { usr: Some(usr@), ..old(self)@ }),
            final(self)@ == final(builder)@,
    {
        self.source.usr = Some(usr.to_owned());
        self
    }

    /// Sets the password to authenticate with.
    pub fn pwd(&mut self, pwd: &str) -> (builder: &mut Self)
        ensures
            builder@ == (SourceLocView { pwd: Some(pwd@), ..old(self)@ }),
            final(self)@ == final(builder)@,
    {
        self.source.pwd = Some(pwd.to_owned());
        self
    }

    /// Sets the directory under the source that holds the content.
    pub fn subfolder(&mut self, subfolder: &str) -> (builder: &mut Self)
        ensures
            builder@ == (SourceLocView { subfolder: Some(subfolder@), ..old(self)@ }),
            final(self)@ == final(builder)@,
    {
        self.source.subfolder = Some(subfolder.to_owned());
        self
    }

    /// Sets whether a certificate that cannot be verified is accepted.
    pub fn unsecure_certificate(&mut self, accept: bool) -> (builder: &mut Self)
        ensures
            builder@ == (SourceLocView { unsecure_certificate: accept, ..old(self)@ }),
            final(self)@ == final(builder)@,
    {
        self.source.unsecure_certificate = accept;
        self
    }

    /// Sets whether the proxy of the environment is left aside.
    pub fn disable_proxy_options(&mut self, disable: bool) -> (builder: &mut Self)
        ensures
            builder@ == (SourceLocView { disable_proxy_options: disable, ..old(self)@ }),
            final(self)@ == final(builder)@,
    {
        self.source.disable_proxy_options = disable;
        self
    }

    /// The source with the fields that were set, and the default for the others.
    pub fn build(&self) -> (source: SourceLoc)
        ensures
            source@ == self@,
    {
        self.source.clone()
    }
}

/// The first segment of a cache key: the host, or `no_host` without one.
pub open spec fn host_segment(host: Option<Seq<char>>) -> Seq<char> {
    match host {
        Some(host) => host,
        None => "no_host"@,
    }
}

/// The directory of the working copy of a repository at a revision, below the
/// folder of the cache: `folder/host/path/rev`. The subfolder has no part in it.
pub open spec fn cache_dir(
    folder: Seq<char>,
    host: Option<Seq<char>>,
    path: Seq<char>,
    rev: Seq<char>,
) -> Seq<char> {
    child(child(child(folder, host_segment(host)), path), rev)
}

/// The directory of the content below `base`: the subfolder in it, or `base`
/// itself without one.
pub open spec fn with_subfolder(base: Seq<char>, subfolder: Option<Seq<char>>) -> Seq<char> {
    match subfolder {
        Some(subfolder) => child(base, subfolder),
        None => base,
    }
}

/// The directory that a source resolves to. A local source resolves to the
/// canonical form of its path, and fails with the cause for which there is none.
/// A remote source resolves to the directory of its working copy in the cache,
/// and fails as the search for the cache folder did. Either way the subfolder is
/// appended.
pub open spec fn local_path(
    source: SourceLocView,
    cache_folder: Result<Seq<char>, ErrorView>,
    canonical: Result<Seq<char>, CauseView>,
) -> Result<Seq<char>, ErrorView> {
    match source.uri.host {
        None => match canonical {
            Ok(path) => Ok(with_subfolder(path, source.subfolder)),
            Err(cause) => Err(ErrorView::Io { source: cause }),
        },
        Some(_) => match cache_folder {
            Ok(folder) => Ok(
                with_subfolder(
                    cache_dir(folder, source.uri.host, source.uri.path, source.rev),
                    source.subfolder,
                ),
            ),
            Err(error) => Err(error),
        },
    }
}

/// The description of a source: `raw (rev: rev)`, or
/// `raw (rev: rev, subfolder: subfolder)` with a subfolder.
pub open spec fn description(source: SourceLocView) -> Seq<char> {
    source.uri.raw + " (rev: "@ + source.rev + match source.subfolder {
        Some(subfolder) => ", subfolder: "@ + subfolder,
        None => Seq::empty(),
    } + ")"@
}

/// The text of a path that was found, or the view of the error.
pub open spec fn found(path: Result<String, Error>) -> Result<Seq<char>, ErrorView> {
    match path {
        Ok(path) => Ok(path@),
        Err(error) => Err(error@),
    }
}

/// The text of a canonical path, or the view of the cause for which there is none.
pub open spec fn canonical_form(path: Result<String, Cause>) -> Result<Seq<char>, CauseView> {
    match path {
        Ok(path) => Ok(path@),
        Err(cause) => Err(cause@),
    }
}

/// Where a download stands: the action whose report it waits for, and what it
/// has to remember until then.
#[derive(Debug, PartialEq, Eq)]
pub enum Session {
    /// The retrieval of the source into `dst` is at `stage`.
    Retrieving { dst: String, stage: Stage },
    /// The retrieval into `dst` failed with `failure`; the warning goes out.
    Warning { dst: String, failure: Error },
    /// After the failure: whether `dst` exists.
    ProbingCache { dst: String, failure: Error },
    /// After the failure: the removal of `dst`.
    Removing { dst: String, failure: Error },
    /// The canonical form of the path of a local source.
    Canonicalizing,
    /// Whether `path`, the directory that the source resolves to, exists.
    ProbingResolved { path: String },
}

/// A [`Session`] with its texts as sequences of characters.
pub enum SessionView {
    Retrieving { dst: Seq<char>, stage: Stage },
    Warning { dst: Seq<char>, failure: ErrorView },
    ProbingCache { dst: Seq<char>, failure: ErrorView },
    Removing { dst: Seq<char>, failure: ErrorView },
    Canonicalizing,
    ProbingResolved { path: Seq<char> },
}

impl View for Session {
    type V = SessionView;

    open spec fn view(&self) -> SessionView {
        match *self {
            Session::Retrieving { dst, stage } => SessionView::Retrieving { dst: dst@, stage },
            Session::Warning { dst, failure } => SessionView::Warning {
                dst: dst@,
                failure: failure@,
            },
            Session::ProbingCache { dst, failure } => SessionView::ProbingCache {
                dst: dst@,
                failure: failure@,
            },
            Session::Removing { dst, failure } => SessionView::Removing {
                dst: dst@,
                failure: failure@,
            },
            Session::Canonicalizing => SessionView::Canonicalizing,
            Session::ProbingResolved { path } => SessionView::ProbingResolved { path: path@ },
        }
    }
}

/// The view of the session that a transition is given, if it is given one.
pub open spec fn begun(session: Option<Session>) -> Option<SessionView> {
    match session {
        Some(session) => Some(session@),
        None => None,
    }
}

/// What a transition of a download decides.
#[derive(Debug, PartialEq, Eq)]
pub enum Resolution {
    /// The caller performs `action` and reports of it with `session`.
    Next { session: Session, action: Action },
    /// The download is over: the directory of the content, or the error.
    Finished(Result<String, Error>),
}

/// A [`Resolution`] with its texts as sequences of characters.
pub enum ResolutionView {
    Next { session: SessionView, action: ActionView },
    Finished(Result<Seq<char>, ErrorView>),
}

impl View for Resolution {
    type V = ResolutionView;

    open spec fn view(&self) -> ResolutionView {
        match *self {
            Resolution::Next { session, action } => ResolutionView::Next {
                session: session@,
                action: action@,
            },
            Resolution::Finished(result) => ResolutionView::Finished(found(result)),
        }
    }
}

/// The name and password of a source that has both.
pub open spec fn credentials(source: SourceLocView) -> Option<(Seq<char>, Seq<char>)> {
    match (source.usr, source.pwd) {
        (Some(username), Some(password)) => Some((username, password)),
        _ => None,
    }
}

/// The retrieval that a download asks for: the source as it was written, at its
/// revision, into `dst`. The certificate of the remote is verified unless the
/// source accepts unsecure ones, and the proxy is taken from the environment
/// unless the source disables that.
pub open spec fn retrieval(source: SourceLocView, dst: Seq<char>) -> Request {
    Request {
        dst,
        url: source.uri.raw,
        rev: source.rev,
        options: fetch_options(
            credentials(source),
            !source.unsecure_certificate,
            !source.disable_proxy_options,
        ),
    }
}

/// The action whose report a download waits for in `session`.
pub open spec fn awaited(source: SourceLocView, session: SessionView) -> ActionView {
    match session {
        SessionView::Retrieving { dst, stage } => crate::git::pending(
            retrieval(source, dst),
            stage,
        ),
        SessionView::Warning { dst, failure } => ActionView::Warn {
            source: description(source),
            path: dst,
            error: failure,
        },
        SessionView::ProbingCache { dst, .. } => ActionView::Probe { path: dst },
        SessionView::Removing { dst, .. } => ActionView::RemoveFolder { path: dst },
        SessionView::Canonicalizing => ActionView::Canonicalize { path: source.uri.path },
        SessionView::ProbingResolved { path } => ActionView::Probe { path },
    }
}

/// The download waits in `session` for the report of its action.
pub open spec fn wait(source: SourceLocView, session: SessionView) -> ResolutionView {
    ResolutionView::Next { session, action: awaited(source, session) }
}

/// The resolution of a source whose content is where it should be, if anywhere:
/// the canonical form of a local path is asked for; the directory of a remote
/// source is known from the folder of the cache, and the download asks whether
/// it exists.
pub open spec fn resolve(
    source: SourceLocView,
    cache_folder: Result<Seq<char>, ErrorView>,
) -> ResolutionView {
    match source.uri.host {
        None => wait(source, SessionView::Canonicalizing),
        Some(_) => match cache_folder {
            Ok(folder) => wait(
                source,
                SessionView::ProbingResolved {
                    path: with_subfolder(
                        cache_dir(folder, source.uri.host, source.uri.path, source.rev),
                        source.subfolder,
                    ),
                },
            ),
            Err(error) => ResolutionView::Finished(Err(error)),
        },
    }
}

/// One transition of the retrieval inside a download. While the retrieval goes
/// on, so does the download. When it has succeeded, the download asks whether the
/// directory of the content exists in the working copy. When it has failed, the
/// download warns of the failure.
pub open spec fn retrieving(
    source: SourceLocView,
    dst: Seq<char>,
    stage: Stage,
    event: Option<EventView>,
) -> ResolutionView {
    match crate::git::step(retrieval(source, dst), stage, event) {
        ProgressView::Next { stage, action } => ResolutionView::Next {
            session: SessionView::Retrieving { dst, stage },
            action,
        },
        ProgressView::Finished(Ok(())) => wait(
            source,
            SessionView::ProbingResolved { path: with_subfolder(dst, source.subfolder) },
        ),
        ProgressView::Finished(Err(failure)) => wait(source, SessionView::Warning { dst, failure }),
    }
}

/// One transition of a download.
///
/// A download begins without a session. A remote source is retrieved first,
/// unless the download is offline, into its directory below the folder of the
/// cache; without that folder the download fails as the search for it did. A
/// local source, and any source offline, is resolved at once.
///
/// After a failed retrieval the download warns, whatever is reported of the
/// warning, and asks whether the directory of the working copy exists. If it does
/// not, the download fails with the error of the retrieval. If it does, the
/// directory is removed, and the download fails with the error of the retrieval,
/// or with that of the removal where the removal failed.
///
/// The canonical form of a local path gets the subfolder appended; where there is
/// none, the download fails with the cause. The directory that the source
/// resolves to is returned if it exists; a source with a missing directory fails
/// with the directory, the source as it was written and the subfolder.
///
/// Without an event, and on an event that does not answer the pending action, the
/// action is asked for again.
pub open spec fn step(
    source: SourceLocView,
    cache_folder: Result<Seq<char>, ErrorView>,
    offline: bool,
    session: Option<SessionView>,
    event: Option<EventView>,
) -> ResolutionView {
    match session {
        None => if !offline && source.uri.host.is_some() {
            match cache_folder {
                Ok(folder) => retrieving(
                    source,
                    cache_dir(folder, source.uri.host, source.uri.path, source.rev),
                    Stage::Probing,
                    None,
                ),
                Err(error) => ResolutionView::Finished(Err(error)),
            }
        } else {
            resolve(source, cache_folder)
        },
        Some(SessionView::Retrieving { dst, stage }) => retrieving(source, dst, stage, event),
        Some(SessionView::Warning { dst, failure }) => match event {
            Some(_) => wait(source, SessionView::ProbingCache { dst, failure }),
            None => wait(source, SessionView::Warning { dst, failure }),
        },
        Some(SessionView::ProbingCache { dst, failure }) => match event {
            Some(EventView::Exists(true)) => wait(source, SessionView::Removing { dst, failure }),
            Some(EventView::Exists(false)) => ResolutionView::Finished(Err(failure)),
            _ => wait(source, SessionView::ProbingCache { dst, failure }),
        },
        Some(SessionView::Removing { dst, failure }) => match event {
            Some(EventView::Done) => ResolutionView::Finished(Err(failure)),
            Some(EventView::Failed(cause)) => ResolutionView::Finished(
                Err(ErrorView::RemoveFolder { path: dst, source: cause }),
            ),
            _ => wait(source, SessionView::Removing { dst, failure }),
        },
        Some(SessionView::Canonicalizing) => match event {
            Some(EventView::Path(path)) => wait(
                source,
                SessionView::ProbingResolved { path: with_subfolder(path, source.subfolder) },
            ),
            Some(EventView::Failed(cause)) => ResolutionView::Finished(
                Err(ErrorView::Io { source: cause }),
            ),
            _ => wait(source, SessionView::Canonicalizing),
        },
        Some(SessionView::ProbingResolved { path }) => match event {
            Some(EventView::Exists(true)) => ResolutionView::Finished(Ok(path)),
            Some(EventView::Exists(false)) => ResolutionView::Finished(
                Err(
                    ErrorView::LocalPathNotFound {
                        path,
                        uri: source.uri.raw,
                        subfolder: source.subfolder,
                    },
                ),
            ),
            _ => wait(source, SessionView::ProbingResolved { path }),
        },
    }
}

impl SourceLoc {
    /// A builder that starts from the default source.
    pub fn builder() -> (builder: SourceLocBuilder)
        ensures
            builder@ == default_source(),
    {
        SourceLocBuilder { source: SourceLoc::default() }
    }

    /// The folder of the cache, from the cache directory that the platform gives
    /// the application, if it gives one: the directory `git` in it.
    pub fn cache_folder_in(cache_base: Option<String>) -> (folder: Result<String, Error>)
        ensures
            found(folder) == match cache_base {
                Some(base) => Ok(child(base@, "git"@)),
                None => Err(ErrorView::ApplicationPathNotFound),
            },
    {
        match cache_base {
            Some(base) => Ok(child_path(base.as_str(), "git")),
            None => Err(Error::ApplicationPathNotFound),
        }
    }

    /// Finds the folder of the cache for the application named `app_name`: the
    /// directory `git` in the cache directory that the platform gives it. Whether
    /// the platform gives one depends on the system; where it gives none, or one
    /// that is no text, the search fails with `ApplicationPathNotFound`.
    pub fn find_remote_cache_folder(app_name: &str) -> (folder: Result<String, Error>)
        ensures
            match folder {
                Ok(folder) => exists|base: Seq<char>| folder@ == child(base, "git"@),
                Err(error) => error@ == ErrorView::ApplicationPathNotFound,
            },
    {
        let cache_base = match project_dirs("", app_name, app_name) {
            Some(dirs) => cache_dir_of(&dirs),
            None => None,
        };
        Self::cache_folder_in(cache_base)
    }

    /// The directory of the working copy of this source below the folder of the
    /// cache.
    pub fn remote_as_local(&self, cache_folder: &str) -> (dir: String)
        ensures
            dir@ == cache_dir(cache_folder@, self@.uri.host, self@.uri.path, self@.rev),
    {
        let below_host = match &self.uri.host {
            Some(host) => child_path(cache_folder, host.as_str()),
            None => child_path(cache_folder, "no_host"),
        };
        let below_path = child_path(below_host.as_str(), self.uri.path.as_str());
        child_path(below_path.as_str(), self.rev.as_str())
    }

    /// Appends the subfolder of this source to `base`, if it has one.
    pub fn in_subfolder(&self, base: String) -> (dir: String)
        ensures
            dir@ == with_subfolder(base@, self@.subfolder),
    {
        match &self.subfolder {
            Some(subfolder) => child_path(base.as_str(), subfolder.as_str()),
            None => base,
        }
    }

    /// The directory that this source resolves to, from what the system said: the
    /// folder of the cache, as [`SourceLoc::find_remote_cache_folder`] gives it,
    /// and the canonical form of the source's own path. Only the first counts for
    /// a remote source, only the second for a local one.
    pub fn as_local_path(
        &self,
        cache_folder: &Result<String, Error>,
        canonical: &Result<String, Cause>,
    ) -> (path: Result<String, Error>)
        ensures
            found(path) == local_path(self@, found(*cache_folder), canonical_form(*canonical)),
    {
        let base = match &self.uri.host {
            None => match canonical {
                Ok(path) => path.clone(),
                Err(cause) => {
                    return Err(Error::Io { source: cause.clone() });
                },
            },
            Some(_) => match cache_folder {
                Ok(folder) => self.remote_as_local(folder.as_str()),
                Err(error) => {
                    return Err(error.clone());
                },
            },
        };
        Ok(self.in_subfolder(base))
    }

    /// Resolves this source into the directory of its content, one transition at
    /// a time.
    ///
    /// `cache_folder` is the folder of the cache as
    /// [`SourceLoc::find_remote_cache_folder`] gives it; `offline` forbids the
    /// retrieval. Both count only when the download begins. A download begins
    /// with neither session nor event. The caller performs the action that comes
    /// back and calls again with the session that came with it and the event
    /// that the action gave, until the result comes back.
    pub fn download(
        &self,
        cache_folder: &Result<String, Error>,
        offline: bool,
        session: Option<Session>,
        event: Option<Event>,
    ) -> (resolution: Resolution)
        ensures
            resolution@ == step(
                self@,
                found(*cache_folder),
                offline,
                begun(session),
                reported(event),
            ),
    {
        match session {
            None => {
                if !offline && self.uri.is_remote() {
                    match cache_folder {
                        Ok(folder) => {
                            let dst = self.remote_as_local(folder.as_str());
                            self.retrieving(dst, Stage::Probing, None)
                        },
                        Err(error) => Resolution::Finished(Err(error.clone())),
                    }
                } else {
                    self.resolve(cache_folder)
                }
            },
            Some(Session::Retrieving { dst, stage }) => self.retrieving(dst, stage, event),
            Some(Session::Warning { dst, failure }) => match event {
                Some(_) => self.wait(Session::ProbingCache { dst, failure }),
                None => self.wait(Session::Warning { dst, failure }),
            },
            Some(Session::ProbingCache { dst, failure }) => match event {
                Some(Event::Exists(true)) => self.wait(Session::Removing { dst, failure }),
                Some(Event::Exists(false)) => Resolution::Finished(Err(failure)),
                _ => self.wait(Session::ProbingCache { dst, failure }),
            },
            Some(Session::Removing { dst, failure }) => match event {
                Some(Event::Done) => Resolution::Finished(Err(failure)),
                Some(Event::Failed(source)) => Resolution::Finished(
                    Err(Error::RemoveFolder { path: dst, source }),
                ),
                _ => self.wait(Session::Removing { dst, failure }),
            },
            Some(Session::Canonicalizing) => match event {
                Some(Event::Path(path)) => {
                    let path = self.in_subfolder(path);
                    self.wait(Session::ProbingResolved { path })
                },
                Some(Event::Failed(source)) => Resolution::Finished(Err(Error::Io { source })),
                _ => self.wait(Session::Canonicalizing),
            },
            Some(Session::ProbingResolved { path }) => match event {
                Some(Event::Exists(true)) => Resolution::Finished(Ok(path)),
                Some(Event::Exists(false)) => Resolution::Finished(
                    Err(
                        Error::LocalPathNotFound {
                            path,
                            uri: self.uri.raw.clone(),
                            subfolder: copy_of(&self.subfolder),
                        },
                    ),
                ),
                _ => self.wait(Session::ProbingResolved { path }),
            },
        }
    }

    /// Asks for the action of `session`.
    fn wait(&self, session: Session) -> (resolution: Resolution)
        ensures
            resolution@ == wait(self@, session@),
    {
        let action = match &session {
            Session::Retrieving { dst, stage } => {
                match self.retrieve_into(dst.as_str(), *stage, None) {
                    Progress::Next { stage: _, action } => action,
                    Progress::Finished(_) => unreached(),
                }
            },
            Session::Warning { dst, failure } => Action::Warn {
                source: self.to_string(),
                path: dst.clone(),
                error: failure.clone(),
            },
            Session::ProbingCache { dst, failure: _ } => Action::Probe { path: dst.clone() },
            Session::Removing { dst, failure: _ } => Action::RemoveFolder { path: dst.clone() },
            Session::Canonicalizing => Action::Canonicalize { path: self.uri.path.clone() },
            Session::ProbingResolved { path } => Action::Probe { path: path.clone() },
        };
        Resolution::Next { session, action }
    }

    /// One transition of the retrieval of this source into `dst`.
    fn retrieve_into(&self, dst: &str, stage: Stage, event: Option<Event>) -> (progress: Progress)
        ensures
            progress@ == crate::git::step(retrieval(self@, dst@), stage, reported(event)),
    {
        let credentials = match (&self.usr, &self.pwd) {
            (Some(username), Some(password)) => Some((username.as_str(), password.as_str())),
            _ => None,
        };
        retrieve(
            dst,
            self.uri.raw.as_str(),
            self.rev.as_str(),
            credentials,
            !self.unsecure_certificate,
            !self.disable_proxy_options,
            stage,
            event,
        )
    }

    /// One transition of the retrieval inside a download.
    fn retrieving(&self, dst: String, stage: Stage, event: Option<Event>) -> (resolution:
        Resolution)
        ensures
            resolution@ == retrieving(self@, dst@, stage, reported(event)),
    {
        match self.retrieve_into(dst.as_str(), stage, event) {
            Progress::Next { stage, action } => Resolution::Next {
                session: Session::Retrieving { dst, stage },
                action,
            },
            Progress::Finished(Ok(())) => {
                let path = self.in_subfolder(dst);
                self.wait(Session::ProbingResolved { path })
            },
            Progress::Finished(Err(failure)) => self.wait(Session::Warning { dst, failure }),
        }
    }

    /// The resolution of this source without a retrieval.
    fn resolve(&self, cache_folder: &Result<String, Error>) -> (resolution: Resolution)
        ensures
            resolution@ == resolve(self@, found(*cache_folder)),
    {
        if self.uri.is_remote() {
            match cache_folder {
                Ok(folder) => {
                    let dst = self.remote_as_local(folder.as_str());
                    let path = self.in_subfolder(dst);
                    self.wait(Session::ProbingResolved { path })
                },
                Err(error) => Resolution::Finished(Err(error.clone())),
            }
        } else {
            self.wait(Session::Canonicalizing)
        }
    }

    /// The source with its revision and its subfolder rendered: `render` is
    /// applied to each of the two texts, and everything else is kept. The source
    /// itself is not changed.
    pub fn transforms_values<F: Fn(&str) -> String>(&self, render: &F) -> (rendered: SourceLoc)
        requires
            forall|text: &str| call_requires(render, (text,)),
        ensures
            exists|rev: &str| rev@ == self@.rev && call_ensures(render, (rev,), rendered.rev),
            match self@.subfolder {
                Some(given) => rendered.subfolder.is_some() && exists|subfolder: &str|
                    subfolder@ == given && call_ensures(
                        render,
                        (subfolder,),
                        rendered.subfolder.unwrap(),
                    ),
                None => rendered.subfolder.is_none(),
            },
            rendered@.uri == self@.uri,
            rendered@.usr == self@.usr,
            rendered@.pwd == self@.pwd,
            rendered@.unsecure_certificate == self@.unsecure_certificate,
            rendered@.disable_proxy_options == self@.disable_proxy_options,
    {
        let rev = render(self.rev.as_str());
        let subfolder = match &self.subfolder {
            Some(subfolder) => Some(render(subfolder.as_str())),
            None => None,
        };
        SourceLoc {
            uri: self.uri.clone(),
            rev,
            usr: copy_of(&self.usr),
            pwd: copy_of(&self.pwd),
            subfolder,
            unsecure_certificate: self.unsecure_certificate,
            disable_proxy_options: self.disable_proxy_options,
        }
    }

    /// The description of this source, as a message shows it.
    pub fn to_string(&self) -> (text: String)
        ensures
            text@ == description(self@),
    {
        let mut text = self.uri.raw.clone();
        text.append(" (rev: ");
        text.append(self.rev.as_str());
        match &self.subfolder {
            Some(subfolder) => {
                text.append(", subfolder: ");
                text.append(subfolder.as_str());
            },
            None => {
                assert(text@ + Seq::<char>::empty() == text@);
            },
        }
        text.append(")");
        text
    }
}

/// A working copy lies below the folder of the cache: its directory begins with
/// the folder and a `/`.
pub proof fn lemma_cache_dir_below_folder(
    folder: Seq<char>,
    host: Option<Seq<char>>,
    path: Seq<char>,
    rev: Seq<char>,
)
    ensures
        (folder + seq!['/']).is_prefix_of(cache_dir(folder, host, path, rev)),
{
    let dir = cache_dir(folder, host, path, rev);
    let head = folder + seq!['/'];
    assert(dir.subrange(0, head.len() as int) =~= head);
}

/// The directory of a working copy tells its cache key. Equal keys give the same
/// directory, and two keys that differ in one of their three parts, the host
/// segment, the path or the revision, give different directories.
pub proof fn lemma_cache_dir_tells_key(
    folder: Seq<char>,
    host: Option<Seq<char>>,
    path: Seq<char>,
    rev: Seq<char>,
    other_host: Option<Seq<char>>,
    other_path: Seq<char>,
    other_rev: Seq<char>,
)
    ensures
        host_segment(host) == host_segment(other_host) && path == other_path && rev == other_rev
            ==> cache_dir(folder, host, path, rev) == cache_dir(
            folder,
            other_host,
            other_path,
            other_rev,
        ),
        host_segment(host) != host_segment(other_host) ==> cache_dir(folder, host, path, rev)
            != cache_dir(folder, other_host, path, rev),
        path != other_path ==> cache_dir(folder, host, path, rev) != cache_dir(
            folder,
            host,
            other_path,
            rev,
        ),
        rev != other_rev ==> cache_dir(folder, host, path, rev) != cache_dir(
            folder,
            host,
            path,
            other_rev,
        ),
{
    let below_host = child(folder, host_segment(host));
    let below_other_host = child(folder, host_segment(other_host));
    lemma_child_tells_segment(folder, host_segment(host), host_segment(other_host));
    lemma_child_tells_base(below_host, below_other_host, path);
    lemma_child_tells_base(child(below_host, path), child(below_other_host, path), rev);
    lemma_child_tells_segment(below_host, path, other_path);
    lemma_child_tells_base(child(below_host, path), child(below_host, other_path), rev);
    lemma_child_tells_segment(child(below_host, path), rev, other_rev);
}

/// What a download asked for, in order, and how it ended if it did.
pub struct Trace {
    pub actions: Seq<ActionView>,
    pub outcome: Option<Result<Seq<char>, ErrorView>>,
}

/// The download of `source` from `session` on, when `events` are what the caller
/// passes to one transition after the other. It stops at the first result.
pub open spec fn run(
    source: SourceLocView,
    cache_folder: Result<Seq<char>, ErrorView>,
    offline: bool,
    session: Option<SessionView>,
    events: Seq<Option<EventView>>,
) -> Trace
    decreases events.len(),
{
    if events.len() == 0 {
        Trace { actions: Seq::empty(), outcome: None }
    } else {
        match step(source, cache_folder, offline, session, events.first()) {
            ResolutionView::Finished(result) => Trace {
                actions: Seq::empty(),
                outcome: Some(result),
            },
            ResolutionView::Next { session, action } => {
                let rest = run(source, cache_folder, offline, Some(session), events.drop_first());
                Trace { actions: seq![action] + rest.actions, outcome: rest.outcome }
            },
        }
    }
}

/// The last action of a run, or `before`, the action that was pending when the
/// run began, where the run asked for none.
pub open spec fn last_action(before: ActionView, trace: Trace) -> ActionView {
    if trace.actions.len() > 0 {
        trace.actions.last()
    } else {
        before
    }
}

/// The event that ended a run: the one that its last transition was given.
pub open spec fn last_event(trace: Trace, events: Seq<Option<EventView>>) -> Option<EventView> {
    events[trace.actions.len() as int]
}

/// A session without retrieval: none yet, or one that waits for the canonical
/// form of a path or to hear whether the resolved directory exists.
pub open spec fn resolving(session: Option<SessionView>) -> bool {
    match session {
        None => true,
        Some(SessionView::Canonicalizing) => true,
        Some(SessionView::ProbingResolved { .. }) => true,
        _ => false,
    }
}

/// Offline, or for a local source, a run from a session without retrieval asks
/// only for canonical forms and probes.
proof fn lemma_run_without_retrieval(
    source: SourceLocView,
    cache_folder: Result<Seq<char>, ErrorView>,
    offline: bool,
    session: Option<SessionView>,
    events: Seq<Option<EventView>>,
)
    requires
        offline || source.uri.host.is_none(),
        resolving(session),
    ensures
        forall|j: int|
            #![trigger run(source, cache_folder, offline, session, events).actions[j]]
            0 <= j < run(source, cache_folder, offline, session, events).actions.len() ==> {
                let action = run(source, cache_folder, offline, session, events).actions[j];
                action is Canonicalize || action is Probe
            },
    decreases events.len(),
{
    if events.len() > 0 {
        match step(source, cache_folder, offline, session, events.first()) {
            ResolutionView::Finished(_) => {},
            ResolutionView::Next { session: next, action } => {
                let rest = events.drop_first();
                lemma_run_without_retrieval(source, cache_folder, offline, Some(next), rest);
                let tail = run(source, cache_folder, offline, Some(next), rest).actions;
                let all = run(source, cache_folder, offline, session, events).actions;
                assert(all == seq![action] + tail);
                assert forall|j: int| 0 <= j < all.len() implies (#[trigger] all[j] is Canonicalize
                    || all[j] is Probe) by {
                    if j > 0 {
                        assert(all[j] == tail[j - 1]);
                    }
                }
            },
        }
    }
}

/// A local source never reaches for a remote, offline or not: whatever the
/// events, its download asks only for the canonical form of a path and whether a
/// path exists. It asks for no clone, checkout, fetch or merge, and creates and
/// removes no directory.
pub proof fn lemma_local_source_stays_local(
    source: SourceLocView,
    cache_folder: Result<Seq<char>, ErrorView>,
    offline: bool,
    events: Seq<Option<EventView>>,
)
    requires
        source.uri.host.is_none(),
    ensures
        forall|j: int|
            #![trigger run(source, cache_folder, offline, None, events).actions[j]]
            0 <= j < run(source, cache_folder, offline, None, events).actions.len() ==> {
                let action = run(source, cache_folder, offline, None, events).actions[j];
                action is Canonicalize || action is Probe
            },
{
    lemma_run_without_retrieval(source, cache_folder, offline, None, events);
}

/// Offline no source reaches for a remote: whatever the source and the events, an
/// offline download asks only for the canonical form of a path and whether a
/// path exists.
pub proof fn lemma_offline_download_stays_local(
    source: SourceLocView,
    cache_folder: Result<Seq<char>, ErrorView>,
    events: Seq<Option<EventView>>,
)
    ensures
        forall|j: int|
            #![trigger run(source, cache_folder, true, None, events).actions[j]]
            0 <= j < run(source, cache_folder, true, None, events).actions.len() ==> {
                let action = run(source, cache_folder, true, None, events).actions[j];
                action is Canonicalize || action is Probe
            },
{
    lemma_run_without_retrieval(source, cache_folder, true, None, events);
}

/// The download of a local source whose directory exists asks for the canonical
/// form of the source's path and whether that form, with the subfolder appended,
/// exists, and returns it. Neither the folder of the cache nor being offline nor
/// the event of the first transition matters.
pub proof fn lemma_local_source_resolves(
    source: SourceLocView,
    cache_folder: Result<Seq<char>, ErrorView>,
    offline: bool,
    first: Option<EventView>,
    canonical: Seq<char>,
)
    requires
        source.uri.host.is_none(),
    ensures
        run(
            source,
            cache_folder,
            offline,
            None,
            seq![first, Some(EventView::Path(canonical)), Some(EventView::Exists(true))],
        ) == (Trace {
            actions: seq![
                ActionView::Canonicalize { path: source.uri.path },
                ActionView::Probe { path: with_subfolder(canonical, source.subfolder) },
            ],
            outcome: Some(Ok(with_subfolder(canonical, source.subfolder))),
        }),
{
    let e0 = seq![first, Some(EventView::Path(canonical)), Some(EventView::Exists(true))];
    let e1 = e0.drop_first();
    let e2 = e1.drop_first();
    let path = with_subfolder(canonical, source.subfolder);
    assert(e2.drop_first().len() == 0);
    assert(run(
        source,
        cache_folder,
        offline,
        Some(SessionView::ProbingResolved { path }),
        e2,
    ).actions =~= Seq::empty());
    assert(run(source, cache_folder, offline, Some(SessionView::Canonicalizing), e1).actions
        =~= seq![ActionView::Probe { path }]);
    assert(run(source, cache_folder, offline, None, e0).actions =~= seq![
        ActionView::Canonicalize { path: source.uri.path },
        ActionView::Probe { path },
    ]);
}

/// A download returns a directory only if it was told that the directory exists:
/// a transition ends in success exactly from the session that waits to hear
/// whether the resolved directory exists, on the event that it does, and returns
/// that directory.
pub proof fn lemma_path_is_returned_only_if_found(
    source: SourceLocView,
    cache_folder: Result<Seq<char>, ErrorView>,
    offline: bool,
    session: Option<SessionView>,
    event: Option<EventView>,
    path: Seq<char>,
)
    ensures
        step(source, cache_folder, offline, session, event) == ResolutionView::Finished(Ok(path))
            <==> session == Some(SessionView::ProbingResolved { path }) && event == Some(
            EventView::Exists(true),
        ),
{
}

/// A directory that is missing is reported with its source: when the download is
/// told that the directory that the source resolves to does not exist, it fails
/// with that directory, the source as it was written and the subfolder. This
/// holds after a retrieval and without one.
pub proof fn lemma_missing_path_is_reported(
    source: SourceLocView,
    cache_folder: Result<Seq<char>, ErrorView>,
    offline: bool,
    path: Seq<char>,
)
    ensures
        step(
            source,
            cache_folder,
            offline,
            Some(SessionView::ProbingResolved { path }),
            Some(EventView::Exists(false)),
        ) == ResolutionView::Finished(
            Err(
                ErrorView::LocalPathNotFound {
                    path,
                    uri: source.uri.raw,
                    subfolder: source.subfolder,
                },
            ),
        ),
{
}

/// A session after the retrieval into `dst` failed with `failure`.
pub open spec fn recovering(session: SessionView, dst: Seq<char>, failure: ErrorView) -> bool {
    session == (SessionView::Warning { dst, failure }) || session == (SessionView::ProbingCache {
        dst,
        failure,
    }) || session == (SessionView::Removing { dst, failure })
}

/// How a download ends after the retrieval into `dst` failed with `failure`,
/// where `asked` is the last action that it asked for and `told` the last event
/// that it was given. It ends on the report that `dst` does not exist, or that
/// `dst` was removed, and then fails with `failure`; or on the report that the
/// removal of `dst` failed, and then fails with the error of the removal.
pub open spec fn ends_cleaned_up(
    asked: ActionView,
    told: Option<EventView>,
    outcome: Option<Result<Seq<char>, ErrorView>>,
    dst: Seq<char>,
    failure: ErrorView,
) -> bool {
    ||| asked == (ActionView::Probe { path: dst }) && told == Some(EventView::Exists(false))
        && outcome == Some(Err::<Seq<char>, ErrorView>(failure))
    ||| asked == (ActionView::RemoveFolder { path: dst }) && told == Some(EventView::Done)
        && outcome == Some(Err::<Seq<char>, ErrorView>(failure))
    ||| asked == (ActionView::RemoveFolder { path: dst }) && exists|cause: CauseView|
        told == Some(EventView::Failed(cause)) && outcome == Some(
            Err::<Seq<char>, ErrorView>(ErrorView::RemoveFolder { path: dst, source: cause }),
        )
}

/// A run that ended cleaned up, after the retrieval into `dst` failed with
/// `failure`.
pub open spec fn cleaned_up(
    trace: Trace,
    events: Seq<Option<EventView>>,
    dst: Seq<char>,
    failure: ErrorView,
) -> bool {
    trace.actions.len() > 0 && ends_cleaned_up(
        trace.actions.last(),
        last_event(trace, events),
        trace.outcome,
        dst,
        failure,
    )
}

/// A warning that the retrieval into `dst` failed with `failure`.
pub open spec fn warns_of(action: ActionView, dst: Seq<char>, failure: ErrorView) -> bool {
    action matches ActionView::Warn { path, error, .. } && path == dst && error == failure
}

/// A run that ended was given more events than it asked for actions.
proof fn lemma_run_ends_on_an_event(
    source: SourceLocView,
    cache_folder: Result<Seq<char>, ErrorView>,
    offline: bool,
    session: Option<SessionView>,
    events: Seq<Option<EventView>>,
)
    requires
        run(source, cache_folder, offline, session, events).outcome.is_some(),
    ensures
        run(source, cache_folder, offline, session, events).actions.len() < events.len(),
    decreases events.len(),
{
    if events.len() > 0 {
        match step(source, cache_folder, offline, session, events.first()) {
            ResolutionView::Finished(_) => {},
            ResolutionView::Next { session: next, action } => {
                lemma_run_ends_on_an_event(
                    source,
                    cache_folder,
                    offline,
                    Some(next),
                    events.drop_first(),
                );
            },
        }
    }
}

/// A run from a session after a failed retrieval ends cleaned up, and warns of
/// nothing but that failure.
proof fn lemma_run_of_recovery(
    source: SourceLocView,
    cache_folder: Result<Seq<char>, ErrorView>,
    offline: bool,
    session: SessionView,
    events: Seq<Option<EventView>>,
    dst: Seq<char>,
    failure: ErrorView,
)
    requires
        recovering(session, dst, failure),
    ensures
        ({
            let trace = run(source, cache_folder, offline, Some(session), events);
            &&& trace.outcome.is_some() ==> ends_cleaned_up(
                last_action(awaited(source, session), trace),
                last_event(trace, events),
                trace.outcome,
                dst,
                failure,
            )
            &&& forall|j: int|
                0 <= j < trace.actions.len() && #[trigger] trace.actions[j] is Warn ==> warns_of(
                    trace.actions[j],
                    dst,
                    failure,
                )
        }),
    decreases events.len(),
{
    if events.len() > 0 {
        assert(events.first() == events[0]);
        match step(source, cache_folder, offline, Some(session), events.first()) {
            ResolutionView::Finished(_) => {},
            ResolutionView::Next { session: next, action } => {
                let rest = events.drop_first();
                lemma_run_of_recovery(source, cache_folder, offline, next, rest, dst, failure);
                let tail = run(source, cache_folder, offline, Some(next), rest);
                let trace = run(source, cache_folder, offline, Some(session), events);
                assert(trace.actions == seq![action] + tail.actions);
                assert(action == awaited(source, next));
                assert(last_action(awaited(source, session), trace) == last_action(
                    awaited(source, next),
                    tail,
                ));
                if tail.outcome.is_some() {
                    lemma_run_ends_on_an_event(source, cache_folder, offline, Some(next), rest);
                    let last = tail.actions.len() as int;
                    assert(rest[last] == events[last + 1]);
                    assert(last_event(trace, events) == last_event(tail, rest));
                }
                assert forall|j: int|
                    0 <= j < trace.actions.len()
                        && #[trigger] trace.actions[j] is Warn implies warns_of(
                    trace.actions[j],
                    dst,
                    failure,
                ) by {
                    if j > 0 {
                        assert(trace.actions[j] == tail.actions[j - 1]);
                    }
                }
            },
        }
    }
}

/// A run from a session that resolves the directory asks for no warning.
proof fn lemma_run_without_warning(
    source: SourceLocView,
    cache_folder: Result<Seq<char>, ErrorView>,
    offline: bool,
    session: SessionView,
    events: Seq<Option<EventView>>,
)
    requires
        session == SessionView::Canonicalizing || session is ProbingResolved,
    ensures
        forall|j: int|
            0 <= j < run(source, cache_folder, offline, Some(session), events).actions.len()
                ==> !(#[trigger] run(
                source,
                cache_folder,
                offline,
                Some(session),
                events,
            ).actions[j] is Warn),
    decreases events.len(),
{
    if events.len() > 0 {
        match step(source, cache_folder, offline, Some(session), events.first()) {
            ResolutionView::Finished(_) => {},
            ResolutionView::Next { session: next, action } => {
                let rest = events.drop_first();
                lemma_run_without_warning(source, cache_folder, offline, next, rest);
                let tail = run(source, cache_folder, offline, Some(next), rest).actions;
                let all = run(source, cache_folder, offline, Some(session), events).actions;
                assert(all == seq![action] + tail);
                assert forall|j: int| 0 <= j < all.len() implies !(#[trigger] all[j] is Warn) by {
                    if j > 0 {
                        assert(all[j] == tail[j - 1]);
                    }
                }
            },
        }
    }
}

/// A run from the beginning, or from a retrieval, that warned of a failed
/// retrieval and ended, ended cleaned up.
proof fn lemma_run_with_warning(
    source: SourceLocView,
    cache_folder: Result<Seq<char>, ErrorView>,
    offline: bool,
    session: Option<SessionView>,
    events: Seq<Option<EventView>>,
    warning: int,
    dst: Seq<char>,
    failure: ErrorView,
)
    requires
        session is None || session matches Some(SessionView::Retrieving { .. }),
        0 <= warning < run(source, cache_folder, offline, session, events).actions.len(),
        warns_of(
            run(source, cache_folder, offline, session, events).actions[warning],
            dst,
            failure,
        ),
        run(source, cache_folder, offline, session, events).outcome.is_some(),
    ensures
        cleaned_up(run(source, cache_folder, offline, session, events), events, dst, failure),
    decreases events.len(),
{
    assert(events.first() == events[0]);
    let trace = run(source, cache_folder, offline, session, events);
    match step(source, cache_folder, offline, session, events.first()) {
        ResolutionView::Finished(_) => {},
        ResolutionView::Next { session: next, action } => {
            let rest = events.drop_first();
            let tail = run(source, cache_folder, offline, Some(next), rest);
            assert(trace.actions == seq![action] + tail.actions);
            lemma_run_ends_on_an_event(source, cache_folder, offline, Some(next), rest);
            let last = tail.actions.len() as int;
            assert(rest[last] == events[last + 1]);
            assert(last_event(trace, events) == last_event(tail, rest));
            if next is Retrieving {
                assert(!(action is Warn));
                assert(trace.actions[warning] == tail.actions[warning - 1]);
                lemma_run_with_warning(
                    source,
                    cache_folder,
                    offline,
                    Some(next),
                    rest,
                    warning - 1,
                    dst,
                    failure,
                );
                assert(trace.actions.last() == tail.actions.last());
            } else if let SessionView::Warning { dst: into, failure: error } = next {
                lemma_run_of_recovery(source, cache_folder, offline, next, rest, into, error);
                if warning > 0 {
                    assert(trace.actions[warning] == tail.actions[warning - 1]);
                }
                assert(into == dst && error == failure);
                assert(trace.actions.last() == last_action(awaited(source, next), tail));
            } else {
                lemma_run_without_warning(source, cache_folder, offline, next, rest);
                assert(!(action is Warn));
                assert(trace.actions[warning] == tail.actions[warning - 1]);
            }
        },
    }
}

/// A failed retrieval leaves no working copy behind. In every download that
/// warned that the retrieval into `dst` failed with `failure`, and that ended, the
/// last thing reported was that `dst` does not exist, that `dst` was removed, or
/// that its removal failed. The download fails with `failure` after the first
/// two, and with the error of the removal after the third.
pub proof fn lemma_failed_retrieval_is_cleaned_up(
    source: SourceLocView,
    cache_folder: Result<Seq<char>, ErrorView>,
    offline: bool,
    events: Seq<Option<EventView>>,
    warning: int,
    dst: Seq<char>,
    failure: ErrorView,
)
    requires
        0 <= warning < run(source, cache_folder, offline, None, events).actions.len(),
        warns_of(run(source, cache_folder, offline, None, events).actions[warning], dst, failure),
        run(source, cache_folder, offline, None, events).outcome.is_some(),
    ensures
        cleaned_up(run(source, cache_folder, offline, None, events), events, dst, failure),
{
    lemma_run_with_warning(source, cache_folder, offline, None, events, warning, dst, failure);
}

/// A failure of the retrieval is warned of: when the retrieval inside a download
/// fails, the download does not end there. It asks for a warning with the
/// description of the source, the directory of the working copy and the error,
/// and goes on to the cleanup.
pub proof fn lemma_failed_retrieval_is_warned_of(
    source: SourceLocView,
    cache_folder: Result<Seq<char>, ErrorView>,
    offline: bool,
    dst: Seq<char>,
    stage: Stage,
    event: Option<EventView>,
    failure: ErrorView,
)
    requires
        crate::git::step(retrieval(source, dst), stage, event) == ProgressView::Finished(
            Err(failure),
        ),
    ensures
        step(source, cache_folder, offline, Some(SessionView::Retrieving { dst, stage }), event)
            == (ResolutionView::Next {
            session: SessionView::Warning { dst, failure },
            action: ActionView::Warn { source: description(source), path: dst, error: failure },
        }),
{
}

/// An error that only a retrieval gives.
pub open spec fn from_retrieval(error: ErrorView) -> bool {
    error is GitRetrieve || error is CreateFolder
}

/// A run from a session that resolves the directory ends with no error of a
/// retrieval.
proof fn lemma_run_of_resolution(
    source: SourceLocView,
    cache_folder: Result<Seq<char>, ErrorView>,
    offline: bool,
    session: SessionView,
    events: Seq<Option<EventView>>,
    error: ErrorView,
)
    requires
        session == SessionView::Canonicalizing || session is ProbingResolved,
        run(source, cache_folder, offline, Some(session), events).outcome == Some(
            Err::<Seq<char>, ErrorView>(error),
        ),
    ensures
        !from_retrieval(error),
    decreases events.len(),
{
    if events.len() > 0 {
        match step(source, cache_folder, offline, Some(session), events.first()) {
            ResolutionView::Finished(_) => {},
            ResolutionView::Next { session: next, action } => {
                lemma_run_of_resolution(
                    source,
                    cache_folder,
                    offline,
                    next,
                    events.drop_first(),
                    error,
                );
            },
        }
    }
}

/// A run from the beginning, or from a retrieval, that ends with an error of a
/// retrieval has warned of that error; the result is where.
proof fn lemma_run_to_retrieval_error(
    source: SourceLocView,
    cache_folder: Result<Seq<char>, ErrorView>,
    offline: bool,
    session: Option<SessionView>,
    events: Seq<Option<EventView>>,
    dst: Seq<char>,
    error: ErrorView,
) -> (warning: int)
    requires
        match session {
            None => cache_folder == Ok::<Seq<char>, ErrorView>(cache_folder->Ok_0) && dst
                == cache_dir(cache_folder->Ok_0, source.uri.host, source.uri.path, source.rev),
            Some(SessionView::Retrieving { dst: into, .. }) => into == dst,
            _ => false,
        },
        run(source, cache_folder, offline, session, events).outcome == Some(
            Err::<Seq<char>, ErrorView>(error),
        ),
        from_retrieval(error),
    ensures
        0 <= warning < run(source, cache_folder, offline, session, events).actions.len(),
        warns_of(run(source, cache_folder, offline, session, events).actions[warning], dst, error),
    decreases events.len(),
{
    let trace = run(source, cache_folder, offline, session, events);
    match step(source, cache_folder, offline, session, events.first()) {
        ResolutionView::Finished(_) => 0,
        ResolutionView::Next { session: next, action } => {
            let rest = events.drop_first();
            let tail = run(source, cache_folder, offline, Some(next), rest);
            assert(trace.actions == seq![action] + tail.actions);
            if next is Retrieving {
                let found = lemma_run_to_retrieval_error(
                    source,
                    cache_folder,
                    offline,
                    Some(next),
                    rest,
                    dst,
                    error,
                );
                assert(trace.actions[found + 1] == tail.actions[found]);
                found + 1
            } else if let SessionView::Warning { dst: into, failure } = next {
                lemma_run_of_recovery(source, cache_folder, offline, next, rest, into, failure);
                assert(failure == error);
                0
            } else {
                lemma_run_of_resolution(source, cache_folder, offline, next, rest, error);
                0
            }
        },
    }
}

/// A download that fails as its retrieval did has seen the working copy gone.
/// Whatever the events, a download that ends with an error of a retrieval was
/// last told that the directory of the working copy does not exist, or that it
/// was removed. Were its removal to fail, the download would end with the error
/// of the removal instead.
pub proof fn lemma_retrieval_error_leaves_no_cache(
    source: SourceLocView,
    folder: Seq<char>,
    offline: bool,
    events: Seq<Option<EventView>>,
    error: ErrorView,
)
    requires
        run(source, Ok(folder), offline, None, events).outcome == Some(
            Err::<Seq<char>, ErrorView>(error),
        ),
        from_retrieval(error),
    ensures
        cleaned_up(
            run(source, Ok(folder), offline, None, events),
            events,
            cache_dir(folder, source.uri.host, source.uri.path, source.rev),
            error,
        ),
{
    let dst = cache_dir(folder, source.uri.host, source.uri.path, source.rev);
    let warning = lemma_run_to_retrieval_error(
        source,
        Ok(folder),
        offline,
        None,
        events,
        dst,
        error,
    );
    lemma_failed_retrieval_is_cleaned_up(source, Ok(folder), offline, events, warning, dst, error);
}

/// The subfolder has no part in what is retrieved: sources that differ only in
/// their subfolder ask for the same retrieval.
pub proof fn lemma_subfolder_has_no_part_in_retrieval(
    source: SourceLocView,
    subfolder: Option<Seq<char>>,
    dst: Seq<char>,
)
    ensures
        retrieval(SourceLocView { subfolder, ..source }, dst) == retrieval(source, dst),
{
}

/// The number of actions that a download in `session` still has to hear of, at
/// most, before it ends.
pub open spec fn remaining(session: SessionView) -> nat {
    match session {
        SessionView::Retrieving { stage, .. } => 3 + crate::git::remaining(stage),
        SessionView::Warning { .. } => 3,
        SessionView::ProbingCache { .. } => 2,
        SessionView::Removing { .. } => 1,
        SessionView::Canonicalizing => 2,
        SessionView::ProbingResolved { .. } => 1,
    }
}

/// The event answers the action that a download waits for in `session`.
pub open spec fn answers(session: SessionView, event: Option<EventView>) -> bool {
    match session {
        SessionView::Retrieving { stage, .. } => crate::git::answers(stage, event),
        SessionView::Warning { .. } => event.is_some(),
        SessionView::ProbingCache { .. } => event matches Some(EventView::Exists(_)),
        SessionView::Removing { .. } => event == Some(EventView::Done) || event matches Some(
            EventView::Failed(_),
        ),
        SessionView::Canonicalizing => event matches Some(EventView::Path(_)) || event matches Some(
            EventView::Failed(_),
        ),
        SessionView::ProbingResolved { .. } => event matches Some(EventView::Exists(_)),
    }
}

/// A download whose actions are answered comes to an end: an event that answers
/// the pending action ends the download or leads to a session with fewer actions
/// remaining. Any other event leaves the download where it is.
pub proof fn lemma_answered_download_advances(
    source: SourceLocView,
    cache_folder: Result<Seq<char>, ErrorView>,
    offline: bool,
    session: SessionView,
    event: Option<EventView>,
)
    ensures
        match step(source, cache_folder, offline, Some(session), event) {
            ResolutionView::Finished(_) => answers(session, event),
            ResolutionView::Next { session: next, .. } => if answers(session, event) {
                remaining(next) < remaining(session)
            } else {
                next == session
            },
        },
{
    if let SessionView::Retrieving { dst, stage } = session {
        crate::git::lemma_answered_retrieval_advances(retrieval(source, dst), stage, event);
    }
}

} // verus!
