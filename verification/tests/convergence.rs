use std::path::Path;

use git2::build::{CheckoutBuilder, RepoBuilder};
use git2::{Commit, Repository, RepositoryInitOptions, Signature};
use source_cache::error::{Cause, Error};
use source_cache::git::{retrieve, Progress, Stage};
use source_cache::protocol::{Action, Event};

fn cause(error: git2::Error) -> Cause {
    Cause::Git {
        code: error.raw_code() as i32,
        class: error.raw_class() as i32,
        message: error.message().to_string(),
    }
}

fn report(result: Result<(), git2::Error>) -> Event {
    match result {
        Ok(()) => Event::Done,
        Err(error) => Event::Failed(cause(error)),
    }
}

fn checkout(dst: &str, rev: &str) -> Result<(), git2::Error> {
    let repository = Repository::discover(dst)?;
    let mut builder = CheckoutBuilder::new();
    builder.force().remove_ignored(true).remove_untracked(true);
    let treeish = repository.revparse_single(rev)?;
    repository.checkout_tree(&treeish, Some(&mut builder))
}

fn fetch(dst: &str, remote: &str, refspec: &str) -> Result<(), git2::Error> {
    let repository = Repository::discover(dst)?;
    let mut remote = repository.find_remote(remote)?;
    let mut options = git2::FetchOptions::new();
    options.download_tags(git2::AutotagOption::All).update_fetchhead(true);
    remote.fetch(&[refspec], Some(&mut options), None)?;
    remote.disconnect()
}

fn merge(dst: &str, reference: &str) -> Result<(), git2::Error> {
    let repository = Repository::discover(dst)?;
    let reference = repository.find_reference(reference)?;
    let commit = repository.reference_to_annotated_commit(&reference)?;
    repository.merge(&[&commit], None, None)
}

/// Performs an action of a retrieval with git. The clone creates its directory
/// itself, so the creation of the folder has nothing left to do.
fn perform(action: &Action) -> Event {
    match action {
        Action::Probe { path } => Event::Exists(Path::new(path).exists()),
        Action::Notice { .. } => Event::Done,
        Action::CreateFolder { .. } => Event::Done,
        Action::Clone { url, dst, branch, .. } => {
            report(RepoBuilder::new().branch(branch).clone(url, Path::new(dst)).map(|_| ()))
        }
        Action::Checkout { dst, rev, .. } => report(checkout(dst, rev)),
        Action::Fetch { dst, remote, refspec, .. } => report(fetch(dst, remote, refspec)),
        Action::Merge { dst, reference } => report(merge(dst, reference)),
        Action::Cleanup { dst } => {
            report(Repository::discover(dst).and_then(|repository| repository.cleanup_state()))
        }
        other => panic!("a retrieval does not ask for {:?}", other),
    }
}

/// Runs a retrieval to its end, and tells what it asked for.
fn retrieve_with_git(dst: &str, url: &str, rev: &str) -> (Result<(), Error>, Vec<Action>) {
    let mut asked = Vec::new();
    let mut stage = Stage::Probing;
    let mut event = None;
    loop {
        match retrieve(dst, url, rev, None, true, true, stage, event) {
            Progress::Finished(result) => return (result, asked),
            Progress::Next { stage: next, action } => {
                event = Some(perform(&action));
                asked.push(action);
                stage = next;
            }
        }
    }
}

/// Commits `content` as `foo.txt` on the current branch of `repository`.
fn commit(repository: &Repository, content: &str) {
    let blob = repository.blob(content.as_bytes()).unwrap();
    let mut builder = repository.treebuilder(None).unwrap();
    builder.insert("foo.txt", blob, 0o100644).unwrap();
    let tree = repository.find_tree(builder.write().unwrap()).unwrap();
    let signature = Signature::now("Test Name", "test@example.com").unwrap();
    let parent = repository.head().ok().map(|head| head.peel_to_commit().unwrap());
    let parents: Vec<&Commit> = parent.iter().collect();
    repository
        .commit(Some("HEAD"), &signature, &signature, "add foo.txt", &tree, &parents)
        .unwrap();
}

/// The content of `foo.txt` in the working copy at `dst`.
fn read_foo(dst: &Path) -> String {
    let repository = Repository::open(dst).unwrap();
    let blob = repository.blob_path(&dst.join("foo.txt")).unwrap();
    let content = repository.find_blob(blob).unwrap().content().to_vec();
    String::from_utf8(content).unwrap()
}

#[test]
fn retrieve_should_update_existing_template() {
    let tmp_dir = tempfile::tempdir().unwrap();

    // template v1
    let src_path = tmp_dir.path().join("src");
    let mut options = RepositoryInitOptions::new();
    options.initial_head("master");
    let source = Repository::init_opts(&src_path, &options).unwrap();
    commit(&source, "v1: Lorem ipsum\n");

    let dst_path = tmp_dir.path().join("dst");
    let dst = dst_path.to_str().unwrap();
    let url = src_path.to_str().unwrap();
    let (result, asked) = retrieve_with_git(dst, url, "master");
    assert_eq!(result, Ok(()));
    assert!(matches!(asked.last(), Some(Action::Clone { .. })));
    assert_eq!(read_foo(&dst_path), "v1: Lorem ipsum\n");

    // template v2
    commit(&source, "v2: Hello\n");
    let (result, asked) = retrieve_with_git(dst, url, "master");
    assert_eq!(result, Ok(()));
    assert!(asked.iter().all(|action| !matches!(action, Action::Clone { .. })));
    assert_eq!(read_foo(&dst_path), "v2: Hello\n");

    // template v3
    commit(&source, "v3: Hourra\n");
    let (result, _) = retrieve_with_git(dst, url, "master");
    assert_eq!(result, Ok(()));
    assert_eq!(read_foo(&dst_path), "v3: Hourra\n");

    // one working copy, with one directory of metadata
    assert!(dst_path.join(".git").exists());
    assert!(!dst_path.join(".git").join(".git").exists());
}

#[test]
fn a_retrieval_of_a_missing_repository_fails_with_its_request() {
    let tmp_dir = tempfile::tempdir().unwrap();
    let dst_path = tmp_dir.path().join("dst");
    let missing = tmp_dir.path().join("nowhere");
    let (result, asked) =
        retrieve_with_git(dst_path.to_str().unwrap(), missing.to_str().unwrap(), "master");
    match result {
        Err(Error::GitRetrieve { dst, url, rev, source: Cause::Git { .. } }) => {
            assert_eq!(dst, dst_path.to_str().unwrap());
            assert_eq!(url, missing.to_str().unwrap());
            assert_eq!(rev, "master");
        }
        other => panic!("unexpected {:?}", other),
    }
    assert!(matches!(asked.last(), Some(Action::Clone { .. })));
}

#[test]
fn a_retrieval_of_an_unknown_revision_fails_at_the_checkout() {
    let tmp_dir = tempfile::tempdir().unwrap();
    let src_path = tmp_dir.path().join("src");
    let mut options = RepositoryInitOptions::new();
    options.initial_head("master");
    let source = Repository::init_opts(&src_path, &options).unwrap();
    commit(&source, "v1\n");
    let dst_path = tmp_dir.path().join("dst");
    let dst = dst_path.to_str().unwrap();
    let url = src_path.to_str().unwrap();
    assert_eq!(retrieve_with_git(dst, url, "master").0, Ok(()));

    let (result, asked) = retrieve_with_git(dst, url, "no-such-revision");
    assert!(matches!(result, Err(Error::GitRetrieve { .. })));
    assert!(matches!(asked.last(), Some(Action::Checkout { .. })));
}
