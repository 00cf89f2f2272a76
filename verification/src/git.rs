//! Bringing a repository at a revision into a directory.
//!
//! A directory that does not exist yet is created and the repository is cloned
//! into it, on the branch of the revision. A directory that exists holds a working
//! copy: the revision is checked out in it, then fetched from the remote `origin`
//! and merged. The first failure ends the retrieval.
//!
//! [`retrieve`] is one transition of that procedure. It is given the stage that
//! the retrieval has reached and the event that the caller reports of the last
//! action, and names the next action or the result.

use vstd::prelude::*;
use vstd::string::StringExecFns;
use crate::error::{Cause, CauseView, Error, ErrorView};
use crate::protocol::{
    reported, Action, ActionView, Credentials, CredentialsView, Event, EventView, FetchOptions,
    FetchOptionsView,
};

verus! {

/// Where a retrieval stands: the action whose report it waits for.
#[derive(Clone, Copy, Debug, PartialEq, Eq, Structural)]
pub enum Stage {
    /// Whether the destination exists. Every retrieval starts here.
    Probing,
    /// The notice that a clone begins.
    Announcing,
    /// The creation of the destination.
    CreatingFolder,
    /// The clone.
    Cloning,
    /// The checkout of the revision in the working copy.
    CheckingOut,
    /// The fetch of the revision from the remote.
    Fetching,
    /// The merge of what was fetched.
    Merging,
    /// The cleanup after the merge.
    CleaningUp,
}

/// What a transition of a retrieval decides.
#[derive(Debug, PartialEq, Eq)]
pub enum Progress {
    /// The caller performs `action` and reports of it at `stage`.
    Next { stage: Stage, action: Action },
    /// The retrieval is over.
    Finished(Result<(), Error>),
}

/// A [`Progress`] with its texts as sequences of characters.
pub enum ProgressView {
    Next { stage: Stage, action: ActionView },
    Finished(Result<(), ErrorView>),
}

impl View for Progress {
    type V = ProgressView;

    open spec fn view(&self) -> ProgressView {
        match *self {
            Progress::Next { stage, action } => ProgressView::Next { stage, action: action@ },
            Progress::Finished(Ok(())) => ProgressView::Finished(Ok(())),
            Progress::Finished(Err(error)) => ProgressView::Finished(Err(error@)),
        }
    }
}

/// What a retrieval is asked for: the directory, the repository, the revision and
/// the way to the remote.
pub struct Request {
    pub dst: Seq<char>,
    pub url: Seq<char>,
    pub rev: Seq<char>,
    pub options: FetchOptionsView,
}

/// The name and password that a caller gave, as texts.
pub open spec fn given(credentials: Option<(&str, &str)>) -> Option<(Seq<char>, Seq<char>)> {
    match credentials {
        Some((username, password)) => Some((username@, password@)),
        None => None,
    }
}

/// The fetch options of a retrieval. A name and password that were given answer
/// every challenge; without them the credential helpers of the system do. The
/// proxy is taken from the environment if `use_proxy`, the certificate of the
/// remote is verified if `verify_tls`, all tags are downloaded and the fetch head
/// is updated.
pub open spec fn fetch_options(
    credentials: Option<(Seq<char>, Seq<char>)>,
    verify_tls: bool,
    use_proxy: bool,
) -> FetchOptionsView {
    FetchOptionsView {
        credentials: match credentials {
            Some((username, password)) => CredentialsView::UserPass { username, password },
            None => CredentialsView::Helper,
        },
        proxy_auto: use_proxy,
        verify_certificates: verify_tls,
        download_all_tags: true,
        update_fetchhead: true,
    }
}

/// Chooses, once for a retrieval, who answers the authentication challenges and
/// how the remote is reached.
pub fn make_fetch_options(
    credentials: Option<(&str, &str)>,
    verify_tls: bool,
    use_proxy: bool,
) -> (options: FetchOptions)
    ensures
        options@ == fetch_options(given(credentials), verify_tls, use_proxy),
{
    let credentials = match credentials {
        Some((username, password)) => Credentials::UserPass {
            username: username.to_owned(),
            password: password.to_owned(),
        },
        None => Credentials::Helper,
    };
    FetchOptions {
        credentials,
        proxy_auto: use_proxy,
        verify_certificates: verify_tls,
        download_all_tags: true,
        update_fetchhead: true,
    }
}

/// The notice that a clone begins.
pub open spec fn notice(dst: Seq<char>, url: Seq<char>) -> Seq<char> {
    "dst: "@ + dst + ", url: "@ + url
}

/// The action whose report a retrieval waits for at `stage`.
pub open spec fn pending(request: Request, stage: Stage) -> ActionView {
    match stage {
        Stage::Probing => ActionView::Probe { path: request.dst },
        Stage::Announcing => ActionView::Notice { message: notice(request.dst, request.url) },
        Stage::CreatingFolder => ActionView::CreateFolder { path: request.dst },
        Stage::Cloning => ActionView::Clone {
            url: request.url,
            dst: request.dst,
            branch: request.rev,
            options: request.options,
        },
        Stage::CheckingOut => ActionView::Checkout {
            dst: request.dst,
            rev: request.rev,
            force: true,
            remove_ignored: true,
            remove_untracked: true,
        },
        Stage::Fetching => ActionView::Fetch {
            dst: request.dst,
            remote: "origin"@,
            refspec: request.rev,
            options: request.options,
        },
        Stage::Merging => ActionView::Merge { dst: request.dst, reference: "FETCH_HEAD"@ },
        Stage::CleaningUp => ActionView::Cleanup { dst: request.dst },
    }
}

/// The stage that follows when the action of `stage` was performed, for the
/// actions that can fail; none where the retrieval is then complete.
pub open spec fn following(stage: Stage) -> Option<Stage> {
    match stage {
        Stage::CreatingFolder => Some(Stage::Cloning),
        Stage::CheckingOut => Some(Stage::Fetching),
        Stage::Fetching => Some(Stage::Merging),
        Stage::Merging => Some(Stage::CleaningUp),
        _ => None,
    }
}

/// The error of a retrieval whose action at `stage` failed with `cause`. It names
/// the directory that could not be created, or else the directory, the repository
/// and the revision of the retrieval.
pub open spec fn failure(request: Request, stage: Stage, cause: CauseView) -> ErrorView {
    if stage == Stage::CreatingFolder {
        ErrorView::CreateFolder { path: request.dst, source: cause }
    } else {
        ErrorView::GitRetrieve {
            dst: request.dst,
            url: request.url,
            rev: request.rev,
            source: cause,
        }
    }
}

/// The retrieval waits at `stage` for the report of its action.
pub open spec fn wait(request: Request, stage: Stage) -> ProgressView {
    ProgressView::Next { stage, action: pending(request, stage) }
}

/// One transition of a retrieval.
///
/// While probing, the report that the destination exists leads to the checkout,
/// the report that it does not to the notice of a clone. The notice is followed
/// by the creation of the destination whatever is reported of it. At every other
/// stage a performed action leads to the stage that follows or, after the last,
/// to success, and a failed action ends the retrieval with its error. Without an
/// event, and on an event that does not answer the pending action, the action is
/// asked for again.
pub open spec fn step(request: Request, stage: Stage, event: Option<EventView>) -> ProgressView {
    match stage {
        Stage::Probing => match event {
            Some(EventView::Exists(found)) => wait(
                request,
                if found {
                    Stage::CheckingOut
                } else {
                    Stage::Announcing
                },
            ),
            _ => wait(request, stage),
        },
        Stage::Announcing => match event {
            Some(_) => wait(request, Stage::CreatingFolder),
            None => wait(request, stage),
        },
        _ => match event {
            Some(EventView::Done) => match following(stage) {
                Some(next) => wait(request, next),
                None => ProgressView::Finished(Ok(())),
            },
            Some(EventView::Failed(cause)) => ProgressView::Finished(
                Err(failure(request, stage, cause)),
            ),
            _ => wait(request, stage),
        },
    }
}

/// The request that the arguments of [`retrieve`] make.
pub open spec fn request_of(
    dst: &str,
    url: &str,
    rev: &str,
    credentials: Option<(&str, &str)>,
    verify_tls: bool,
    use_proxy: bool,
) -> Request {
    Request {
        dst: dst@,
        url: url@,
        rev: rev@,
        options: fetch_options(given(credentials), verify_tls, use_proxy),
    }
}

/// Brings the repository `url` at `rev` into the directory `dst`, one transition
/// at a time.
///
/// A retrieval starts at [`Stage::Probing`] without an event. The caller performs
/// the action that comes back and calls again with the stage that came with it
/// and the event that the action gave, until the result comes back.
pub fn retrieve(
    dst: &str,
    url: &str,
    rev: &str,
    credentials: Option<(&str, &str)>,
    verify_tls: bool,
    use_proxy: bool,
    stage: Stage,
    event: Option<Event>,
) -> (progress: Progress)
    ensures
        progress@ == step(
            request_of(dst, url, rev, credentials, verify_tls, use_proxy),
            stage,
            reported(event),
        ),
{
    let options = make_fetch_options(credentials, verify_tls, use_proxy);
    match stage {
        Stage::Probing => match event {
            Some(Event::Exists(true)) => ask(dst, url, rev, options, Stage::CheckingOut),
            Some(Event::Exists(false)) => ask(dst, url, rev, options, Stage::Announcing),
            _ => ask(dst, url, rev, options, stage),
        },
        Stage::Announcing | Stage::CreatingFolder | Stage::Cloning => clone(
            dst,
            url,
            rev,
            options,
            stage,
            event,
        ),
        Stage::CheckingOut => checkout(dst, url, rev, options, event),
        Stage::Fetching | Stage::Merging | Stage::CleaningUp => pull(
            dst,
            url,
            rev,
            options,
            stage,
            event,
        ),
    }
}

/// Asks for the action of `stage`.
fn ask(dst: &str, url: &str, rev: &str, options: FetchOptions, stage: Stage) -> (progress: Progress)
    ensures
        progress@ == wait(Request { dst: dst@, url: url@, rev: rev@, options: options@ }, stage),
{
    let action = match stage {
        Stage::Probing => Action::Probe { path: dst.to_owned() },
        Stage::Announcing => {
            let mut message = "dst: ".to_owned();
            message.append(dst);
            message.append(", url: ");
            message.append(url);
            Action::Notice { message }
        },
        Stage::CreatingFolder => Action::CreateFolder { path: dst.to_owned() },
        Stage::Cloning => Action::Clone {
            url: url.to_owned(),
            dst: dst.to_owned(),
            branch: rev.to_owned(),
            options,
        },
        Stage::CheckingOut => Action::Checkout {
            dst: dst.to_owned(),
            rev: rev.to_owned(),
            force: true,
            remove_ignored: true,
            remove_untracked: true,
        },
        Stage::Fetching => Action::Fetch {
            dst: dst.to_owned(),
            remote: "origin".to_owned(),
            refspec: rev.to_owned(),
            options,
        },
        Stage::Merging => Action::Merge {
            dst: dst.to_owned(),
            reference: "FETCH_HEAD".to_owned(),
        },
        Stage::CleaningUp => Action::Cleanup { dst: dst.to_owned() },
    };
    Progress::Next { stage, action }
}

/// The error of a retrieval that a git operation ended.
fn retrieval_error(dst: &str, url: &str, rev: &str, source: Cause) -> (error: Error)
    ensures
        error@ == (ErrorView::GitRetrieve { dst: dst@, url: url@, rev: rev@, source: source@ }),
{
    Error::GitRetrieve { dst: dst.to_owned(), url: url.to_owned(), rev: rev.to_owned(), source }
}

/// The transitions of a clone: the notice, the creation of the destination, and
/// the clone of the branch `rev` into it, which completes the retrieval.
fn clone(
    dst: &str,
    url: &str,
    rev: &str,
    options: FetchOptions,
    stage: Stage,
    event: Option<Event>,
) -> (progress: Progress)
    requires
        stage == Stage::Announcing || stage == Stage::CreatingFolder || stage == Stage::Cloning,
    ensures
        progress@ == step(
            Request { dst: dst@, url: url@, rev: rev@, options: options@ },
            stage,
            reported(event),
        ),
{
    match (stage, event) {
        (Stage::Announcing, Some(_)) => ask(dst, url, rev, options, Stage::CreatingFolder),
        (Stage::CreatingFolder, Some(Event::Done)) => ask(dst, url, rev, options, Stage::Cloning),
        (Stage::CreatingFolder, Some(Event::Failed(source))) => Progress::Finished(
            Err(Error::CreateFolder { path: dst.to_owned(), source }),
        ),
        (Stage::Cloning, Some(Event::Done)) => Progress::Finished(Ok(())),
        (Stage::Cloning, Some(Event::Failed(source))) => Progress::Finished(
            Err(retrieval_error(dst, url, rev, source)),
        ),
        _ => ask(dst, url, rev, options, stage),
    }
}

/// The transition of the checkout: once the revision is checked out in the
/// working copy, it is fetched.
fn checkout(
    dst: &str,
    url: &str,
    rev: &str,
    options: FetchOptions,
    event: Option<Event>,
) -> (progress: Progress)
    ensures
        progress@ == step(
            Request { dst: dst@, url: url@, rev: rev@, options: options@ },
            Stage::CheckingOut,
            reported(event),
        ),
{
    match event {
        Some(Event::Done) => ask(dst, url, rev, options, Stage::Fetching),
        Some(Event::Failed(source)) => Progress::Finished(
            Err(retrieval_error(dst, url, rev, source)),
        ),
        _ => ask(dst, url, rev, options, Stage::CheckingOut),
    }
}

/// The transitions of a pull: the fetch from `origin`, the merge of the fetch
/// head, and the cleanup, which completes the retrieval.
fn pull(
    dst: &str,
    url: &str,
    rev: &str,
    options: FetchOptions,
    stage: Stage,
    event: Option<Event>,
) -> (progress: Progress)
    requires
        stage == Stage::Fetching || stage == Stage::Merging || stage == Stage::CleaningUp,
    ensures
        progress@ == step(
            Request { dst: dst@, url: url@, rev: rev@, options: options@ },
            stage,
            reported(event),
        ),
{
    match event {
        Some(Event::Done) => match stage {
            Stage::Fetching => ask(dst, url, rev, options, Stage::Merging),
            Stage::Merging => ask(dst, url, rev, options, Stage::CleaningUp),
            _ => Progress::Finished(Ok(())),
        },
        Some(Event::Failed(source)) => Progress::Finished(
            Err(retrieval_error(dst, url, rev, source)),
        ),
        _ => ask(dst, url, rev, options, stage),
    }
}

/// Where the search for the command of a tool stands.
#[derive(Debug, PartialEq, Eq)]
pub enum Lookup {
    /// The name of the tool is being read.
    Tool,
    /// The command of the tool `tool` is being read.
    Command { tool: String },
}

/// A [`Lookup`] with its texts as sequences of characters.
pub enum LookupView {
    Tool,
    Command { tool: Seq<char> },
}

impl View for Lookup {
    type V = LookupView;

    open spec fn view(&self) -> LookupView {
        match *self {
            Lookup::Tool => LookupView::Tool,
            Lookup::Command { tool } => LookupView::Command { tool: tool@ },
        }
    }
}

/// What a transition of the search for a command decides.
#[derive(Debug, PartialEq, Eq)]
pub enum Search {
    /// The caller performs `action` and reports of it at `lookup`.
    Next { lookup: Lookup, action: Action },
    /// The search is over: the command, or why there is none.
    Finished(Result<String, Cause>),
}

/// A [`Search`] with its texts as sequences of characters.
pub enum SearchView {
    Next { lookup: LookupView, action: ActionView },
    Finished(Result<Seq<char>, CauseView>),
}

impl View for Search {
    type V = SearchView;

    open spec fn view(&self) -> SearchView {
        match *self {
            Search::Next { lookup, action } => SearchView::Next {
                lookup: lookup@,
                action: action@,
            },
            Search::Finished(Ok(command)) => SearchView::Finished(Ok(command@)),
            Search::Finished(Err(cause)) => SearchView::Finished(Err(cause@)),
        }
    }
}

/// The key under which the git configuration names the tool of a kind:
/// `<kind>.tool`.
pub open spec fn tool_key(kind: Seq<char>) -> Seq<char> {
    kind + ".tool"@
}

/// The key under which the git configuration holds the command of a tool:
/// `<kind>tool.<tool>.cmd`.
pub open spec fn command_key(kind: Seq<char>, tool: Seq<char>) -> Seq<char> {
    kind + "tool."@ + tool + ".cmd"@
}

/// The search waits at `lookup` for the text under its key.
pub open spec fn read(kind: Seq<char>, lookup: LookupView) -> SearchView {
    SearchView::Next {
        lookup,
        action: ActionView::ReadConfig {
            key: match lookup {
                LookupView::Tool => tool_key(kind),
                LookupView::Command { tool } => command_key(kind, tool),
            },
        },
    }
}

/// One transition of the search for the command of the tool of `kind`. The name
/// of the tool is read first, then the command under that name, which is the
/// result. A read that fails ends the search with its cause. Without an event,
/// and on an event that does not answer the read, the read is asked for again.
pub open spec fn search(
    kind: Seq<char>,
    lookup: LookupView,
    event: Option<EventView>,
) -> SearchView {
    match event {
        Some(EventView::Value(text)) => match lookup {
            LookupView::Tool => read(kind, LookupView::Command { tool: text }),
            LookupView::Command { .. } => SearchView::Finished(Ok(text)),
        },
        Some(EventView::Failed(cause)) => SearchView::Finished(Err(cause)),
        _ => read(kind, lookup),
    }
}

/// Finds the command that git is configured to run as the tool of `kind`, which
/// is `merge` or `diff`, one transition at a time.
///
/// A search starts at [`Lookup::Tool`] without an event. The caller performs the
/// read that comes back and calls again with the lookup that came with it and the
/// event that the read gave, until the result comes back.
pub fn find_cmd_tool(kind: &str, lookup: Lookup, event: Option<Event>) -> (found: Search)
    ensures
        found@ == search(kind@, lookup@, reported(event)),
{
    match event {
        Some(Event::Value(text)) => match lookup {
            Lookup::Tool => read_config(kind, Lookup::Command { tool: text }),
            Lookup::Command { tool: _ } => Search::Finished(Ok(text)),
        },
        Some(Event::Failed(cause)) => Search::Finished(Err(cause)),
        _ => read_config(kind, lookup),
    }
}

/// Asks for the text under the key of `lookup`.
fn read_config(kind: &str, lookup: Lookup) -> (found: Search)
    ensures
        found@ == read(kind@, lookup@),
{
    let mut key = kind.to_owned();
    match &lookup {
        Lookup::Tool => {
            key.append(".tool");
        },
        Lookup::Command { tool } => {
            key.append("tool.");
            key.append(tool.as_str());
            key.append(".cmd");
        },
    }
    Search::Next { lookup, action: Action::ReadConfig { key } }
}

/// What a retrieval asked for, in order, and how it ended if it did.
pub struct Trace {
    pub actions: Seq<ActionView>,
    pub outcome: Option<Result<(), ErrorView>>,
}

/// The retrieval of `request` from `stage` on, when `events` are what the caller
/// passes to one transition after the other. It stops at the first result.
pub open spec fn run(request: Request, stage: Stage, events: Seq<Option<EventView>>) -> Trace
    decreases events.len(),
{
    if events.len() == 0 {
        Trace { actions: Seq::empty(), outcome: None }
    } else {
        match step(request, stage, events.first()) {
            ProgressView::Finished(result) => Trace {
                actions: Seq::empty(),
                outcome: Some(result),
            },
            ProgressView::Next { stage, action } => {
                let rest = run(request, stage, events.drop_first());
                Trace { actions: seq![action] + rest.actions, outcome: rest.outcome }
            },
        }
    }
}

/// An action of a clone: its notice, the creation of the destination, the clone.
pub open spec fn belongs_to_clone(action: ActionView) -> bool {
    action is Notice || action is CreateFolder || action is Clone
}

/// An action that brings an existing working copy up to date: a checkout, a
/// fetch, a merge or the cleanup after it.
pub open spec fn belongs_to_update(action: ActionView) -> bool {
    action is Checkout || action is Fetch || action is Merge || action is Cleanup
}

/// A stage of a clone.
pub open spec fn cloning(stage: Stage) -> bool {
    stage == Stage::Announcing || stage == Stage::CreatingFolder || stage == Stage::Cloning
}

/// A stage of an update.
pub open spec fn updating(stage: Stage) -> bool {
    stage == Stage::CheckingOut || stage == Stage::Fetching || stage == Stage::Merging || stage
        == Stage::CleaningUp
}

/// From a stage outside a clone, a run that is never told that the destination is
/// absent asks for no action of a clone.
proof fn lemma_run_without_clone(request: Request, stage: Stage, events: Seq<Option<EventView>>)
    requires
        !cloning(stage),
        forall|i: int| 0 <= i < events.len() ==> events[i] != Some(EventView::Exists(false)),
    ensures
        forall|j: int|
            0 <= j < run(request, stage, events).actions.len() ==> !belongs_to_clone(
                #[trigger] run(request, stage, events).actions[j],
            ),
    decreases events.len(),
{
    if events.len() > 0 {
        assert(events.first() == events[0]);
        match step(request, stage, events.first()) {
            ProgressView::Finished(_) => {},
            ProgressView::Next { stage: next, action } => {
                let rest = events.drop_first();
                assert forall|i: int| 0 <= i < rest.len() implies rest[i] != Some(
                    EventView::Exists(false),
                ) by {
                    assert(rest[i] == events[i + 1]);
                }
                lemma_run_without_clone(request, next, rest);
                let tail = run(request, next, rest).actions;
                let all = run(request, stage, events).actions;
                assert(all == seq![action] + tail);
                assert forall|j: int| 0 <= j < all.len() implies !belongs_to_clone(
                    #[trigger] all[j],
                ) by {
                    if j > 0 {
                        assert(all[j] == tail[j - 1]);
                    }
                }
            },
        }
    }
}

/// From a stage outside an update, a run that is never told that the destination
/// exists asks for no action of an update.
proof fn lemma_run_without_update(request: Request, stage: Stage, events: Seq<Option<EventView>>)
    requires
        !updating(stage),
        forall|i: int| 0 <= i < events.len() ==> events[i] != Some(EventView::Exists(true)),
    ensures
        forall|j: int|
            0 <= j < run(request, stage, events).actions.len() ==> !belongs_to_update(
                #[trigger] run(request, stage, events).actions[j],
            ),
    decreases events.len(),
{
    if events.len() > 0 {
        assert(events.first() == events[0]);
        match step(request, stage, events.first()) {
            ProgressView::Finished(_) => {},
            ProgressView::Next { stage: next, action } => {
                let rest = events.drop_first();
                assert forall|i: int| 0 <= i < rest.len() implies rest[i] != Some(
                    EventView::Exists(true),
                ) by {
                    assert(rest[i] == events[i + 1]);
                }
                lemma_run_without_update(request, next, rest);
                let tail = run(request, next, rest).actions;
                let all = run(request, stage, events).actions;
                assert(all == seq![action] + tail);
                assert forall|j: int| 0 <= j < all.len() implies !belongs_to_update(
                    #[trigger] all[j],
                ) by {
                    if j > 0 {
                        assert(all[j] == tail[j - 1]);
                    }
                }
            },
        }
    }
}

/// A retrieval clones only into a destination that was reported absent: as long
/// as no event says that the destination does not exist, it asks for no notice of
/// a clone, creates no directory and clones nothing, whatever else is reported.
pub proof fn lemma_clone_only_when_absent(request: Request, events: Seq<Option<EventView>>)
    requires
        forall|i: int| 0 <= i < events.len() ==> events[i] != Some(EventView::Exists(false)),
    ensures
        forall|j: int|
            0 <= j < run(request, Stage::Probing, events).actions.len() ==> !belongs_to_clone(
                #[trigger] run(request, Stage::Probing, events).actions[j],
            ),
{
    lemma_run_without_clone(request, Stage::Probing, events);
}

/// A retrieval touches only a working copy that was reported present: as long as
/// no event says that the destination exists, it asks for no checkout, fetch,
/// merge or cleanup, whatever else is reported.
pub proof fn lemma_update_only_when_present(request: Request, events: Seq<Option<EventView>>)
    requires
        forall|i: int| 0 <= i < events.len() ==> events[i] != Some(EventView::Exists(true)),
    ensures
        forall|j: int|
            0 <= j < run(request, Stage::Probing, events).actions.len() ==> !belongs_to_update(
                #[trigger] run(request, Stage::Probing, events).actions[j],
            ),
{
    lemma_run_without_update(request, Stage::Probing, events);
}

/// Into a destination that does not exist, a retrieval whose actions all succeed
/// asks for the notice, the creation of the destination and the clone of the
/// revision's branch, and then succeeds. What is reported of the notice does not
/// matter.
pub proof fn lemma_absent_destination_is_cloned(request: Request, noticed: EventView)
    ensures
        run(
            request,
            Stage::Probing,
            seq![
                None,
                Some(EventView::Exists(false)),
                Some(noticed),
                Some(EventView::Done),
                Some(EventView::Done),
            ],
        ) == (Trace {
            actions: seq![
                ActionView::Probe { path: request.dst },
                ActionView::Notice { message: notice(request.dst, request.url) },
                ActionView::CreateFolder { path: request.dst },
                ActionView::Clone {
                    url: request.url,
                    dst: request.dst,
                    branch: request.rev,
                    options: request.options,
                },
            ],
            outcome: Some(Ok(())),
        }),
{
    let e0 = seq![
        None,
        Some(EventView::Exists(false)),
        Some(noticed),
        Some(EventView::Done),
        Some(EventView::Done),
    ];
    let e1 = e0.drop_first();
    let e2 = e1.drop_first();
    let e3 = e2.drop_first();
    let e4 = e3.drop_first();
    assert(e4.drop_first().len() == 0);
    assert(run(request, Stage::Cloning, e4).actions =~= Seq::empty());
    assert(run(request, Stage::CreatingFolder, e3).actions =~= seq![
        pending(request, Stage::Cloning),
    ]);
    assert(run(request, Stage::Announcing, e2).actions =~= seq![
        pending(request, Stage::CreatingFolder),
        pending(request, Stage::Cloning),
    ]);
    assert(run(request, Stage::Probing, e1).actions =~= seq![
        pending(request, Stage::Announcing),
        pending(request, Stage::CreatingFolder),
        pending(request, Stage::Cloning),
    ]);
    assert(run(request, Stage::Probing, e0).actions =~= seq![
        pending(request, Stage::Probing),
        pending(request, Stage::Announcing),
        pending(request, Stage::CreatingFolder),
        pending(request, Stage::Cloning),
    ]);
}

/// In a destination that exists, a retrieval whose actions all succeed asks for
/// the forced checkout of the revision, its fetch from `origin`, the merge of the
/// fetch head and the cleanup, and then succeeds. It asks for no clone.
pub proof fn lemma_present_destination_is_updated(request: Request)
    ensures
        run(
            request,
            Stage::Probing,
            seq![
                None,
                Some(EventView::Exists(true)),
                Some(EventView::Done),
                Some(EventView::Done),
                Some(EventView::Done),
                Some(EventView::Done),
            ],
        ) == (Trace {
            actions: seq![
                ActionView::Probe { path: request.dst },
                ActionView::Checkout {
                    dst: request.dst,
                    rev: request.rev,
                    force: true,
                    remove_ignored: true,
                    remove_untracked: true,
                },
                ActionView::Fetch {
                    dst: request.dst,
                    remote: "origin"@,
                    refspec: request.rev,
                    options: request.options,
                },
                ActionView::Merge { dst: request.dst, reference: "FETCH_HEAD"@ },
                ActionView::Cleanup { dst: request.dst },
            ],
            outcome: Some(Ok(())),
        }),
{
    let e0 = seq![
        None,
        Some(EventView::Exists(true)),
        Some(EventView::Done),
        Some(EventView::Done),
        Some(EventView::Done),
        Some(EventView::Done),
    ];
    let e1 = e0.drop_first();
    let e2 = e1.drop_first();
    let e3 = e2.drop_first();
    let e4 = e3.drop_first();
    let e5 = e4.drop_first();
    assert(e5.drop_first().len() == 0);
    assert(run(request, Stage::CleaningUp, e5).actions =~= Seq::empty());
    assert(run(request, Stage::Merging, e4).actions =~= seq![pending(request, Stage::CleaningUp)]);
    assert(run(request, Stage::Fetching, e3).actions =~= seq![
        pending(request, Stage::Merging),
        pending(request, Stage::CleaningUp),
    ]);
    assert(run(request, Stage::CheckingOut, e2).actions =~= seq![
        pending(request, Stage::Fetching),
        pending(request, Stage::Merging),
        pending(request, Stage::CleaningUp),
    ]);
    assert(run(request, Stage::Probing, e1).actions =~= seq![
        pending(request, Stage::CheckingOut),
        pending(request, Stage::Fetching),
        pending(request, Stage::Merging),
        pending(request, Stage::CleaningUp),
    ]);
    assert(run(request, Stage::Probing, e0).actions =~= seq![
        pending(request, Stage::Probing),
        pending(request, Stage::CheckingOut),
        pending(request, Stage::Fetching),
        pending(request, Stage::Merging),
        pending(request, Stage::CleaningUp),
    ]);
}

/// The error of a failed retrieval tells what was being retrieved. Whatever the
/// events, it is the failure of the stage that was reached with the cause that was
/// reported there: it names the destination that could not be created, or the
/// destination, the repository and the revision.
pub proof fn lemma_error_names_the_request(
    request: Request,
    stage: Stage,
    events: Seq<Option<EventView>>,
    error: ErrorView,
)
    requires
        run(request, stage, events).outcome == Some(Err::<(), ErrorView>(error)),
    ensures
        (error matches ErrorView::CreateFolder { path, .. } && path == request.dst) || (
        error matches ErrorView::GitRetrieve { dst, url, rev, .. } && dst == request.dst && url
            == request.url && rev == request.rev),
    decreases events.len(),
{
    if events.len() > 0 {
        match step(request, stage, events.first()) {
            ProgressView::Finished(_) => {},
            ProgressView::Next { stage: next, action } => {
                lemma_error_names_the_request(request, next, events.drop_first(), error);
            },
        }
    }
}

/// The number of actions that a retrieval at `stage` still has to hear of, at
/// most, before it ends.
pub open spec fn remaining(stage: Stage) -> nat {
    match stage {
        Stage::Probing => 5,
        Stage::CheckingOut => 4,
        Stage::Announcing | Stage::Fetching => 3,
        Stage::CreatingFolder | Stage::Merging => 2,
        Stage::Cloning | Stage::CleaningUp => 1,
    }
}

/// The event answers the action that a retrieval waits for at `stage`.
pub open spec fn answers(stage: Stage, event: Option<EventView>) -> bool {
    match stage {
        Stage::Probing => event matches Some(EventView::Exists(_)),
        Stage::Announcing => event.is_some(),
        _ => event == Some(EventView::Done) || event matches Some(EventView::Failed(_)),
    }
}

/// A retrieval whose actions are answered comes to an end: an event that answers
/// the pending action ends the retrieval or leads to a stage with fewer actions
/// remaining. Any other event leaves the retrieval where it is.
pub proof fn lemma_answered_retrieval_advances(
    request: Request,
    stage: Stage,
    event: Option<EventView>,
)
    ensures
        match step(request, stage, event) {
            ProgressView::Finished(_) => answers(stage, event),
            ProgressView::Next { stage: next, .. } => if answers(stage, event) {
                remaining(next) < remaining(stage)
            } else {
                next == stage
            },
        },
{
}

} // verus!
