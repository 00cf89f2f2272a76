use source_cache::error::{Cause, Error};
use source_cache::git::Stage;
use source_cache::protocol::{Action, Credentials, Event, FetchOptions};
use source_cache::source_loc::{Resolution, Session, SourceLoc};
use source_cache::source_uri::SourceUri;

fn github() -> SourceUri {
    SourceUri {
        raw: "https://github.com/acme/templates.git".to_string(),
        host: Some("github.com".to_string()),
        path: "acme/templates".to_string(),
    }
}

fn local(path: &str) -> SourceUri {
    SourceUri { raw: path.to_string(), host: None, path: path.to_string() }
}

fn folder() -> Result<String, Error> {
    Ok("/c/git".to_string())
}

const DST: &str = "/c/git/github.com/acme/templates/master";

fn unreachable_remote() -> Cause {
    Cause::Git { code: -1, class: 12, message: "failed to resolve address".to_string() }
}

fn denied() -> Cause {
    Cause::Io { os_code: Some(13), message: "Permission denied".to_string() }
}

fn retrieval_error() -> Error {
    Error::GitRetrieve {
        dst: DST.to_string(),
        url: "https://github.com/acme/templates.git".to_string(),
        rev: "master".to_string(),
        source: unreachable_remote(),
    }
}

/// Runs a download to its end. `answer` performs the actions; what was asked for
/// is written to `log`.
fn download_with(
    source: &SourceLoc,
    cache_folder: &Result<String, Error>,
    offline: bool,
    log: &mut Vec<Action>,
    answer: &mut dyn FnMut(&Action) -> Event,
) -> Result<String, Error> {
    let mut session = None;
    let mut event = None;
    loop {
        match source.download(cache_folder, offline, session, event) {
            Resolution::Finished(result) => return result,
            Resolution::Next { session: next, action } => {
                event = Some(answer(&action));
                log.push(action);
                session = Some(next);
                assert!(log.len() < 100, "the download does not end");
            }
        }
    }
}

fn is_remote_work(action: &Action) -> bool {
    matches!(
        action,
        Action::Clone { .. }
            | Action::Checkout { .. }
            | Action::Fetch { .. }
            | Action::Merge { .. }
            | Action::Cleanup { .. }
            | Action::CreateFolder { .. }
            | Action::RemoveFolder { .. }
            | Action::Notice { .. }
            | Action::Warn { .. }
    )
}

#[test]
fn a_local_source_is_resolved_without_any_retrieval() {
    let source = SourceLoc::builder().uri(local("../templates")).subfolder("rust").build();
    for offline in [false, true] {
        let mut log = Vec::new();
        let result = download_with(&source, &folder(), offline, &mut log, &mut |action| match action {
            Action::Canonicalize { path } => {
                assert_eq!(path, "../templates");
                Event::Path("/home/alice/templates".to_string())
            }
            Action::Probe { .. } => Event::Exists(true),
            other => panic!("unexpected {:?}", other),
        });
        assert_eq!(result, Ok("/home/alice/templates/rust".to_string()));
        assert_eq!(
            log,
            vec![
                Action::Canonicalize { path: "../templates".to_string() },
                Action::Probe { path: "/home/alice/templates/rust".to_string() },
            ]
        );
        assert!(log.iter().all(|action| !is_remote_work(action)));
    }
}

#[test]
fn a_local_source_needs_no_cache_folder() {
    let source = SourceLoc::builder().uri(local("here")).build();
    let mut log = Vec::new();
    let result = download_with(
        &source,
        &Err(Error::ApplicationPathNotFound),
        false,
        &mut log,
        &mut |action| match action {
            Action::Canonicalize { .. } => Event::Path("/work/here".to_string()),
            _ => Event::Exists(true),
        },
    );
    assert_eq!(result, Ok("/work/here".to_string()));
}

#[test]
fn a_local_path_that_cannot_be_canonicalized_fails_with_io() {
    let source = SourceLoc::builder().uri(local("missing")).build();
    let mut log = Vec::new();
    let result = download_with(&source, &folder(), false, &mut log, &mut |_| {
        Event::Failed(Cause::Io { os_code: Some(2), message: "not found".to_string() })
    });
    assert_eq!(
        result,
        Err(Error::Io { source: Cause::Io { os_code: Some(2), message: "not found".to_string() } })
    );
    assert_eq!(log, vec![Action::Canonicalize { path: "missing".to_string() }]);
}

#[test]
fn a_missing_local_directory_is_reported_with_the_source() {
    let source = SourceLoc::builder().uri(local("../templates")).subfolder("rust").build();
    let mut log = Vec::new();
    let result = download_with(&source, &folder(), false, &mut log, &mut |action| match action {
        Action::Canonicalize { .. } => Event::Path("/home/alice/templates".to_string()),
        _ => Event::Exists(false),
    });
    assert_eq!(
        result,
        Err(Error::LocalPathNotFound {
            path: "/home/alice/templates/rust".to_string(),
            uri: "../templates".to_string(),
            subfolder: Some("rust".to_string()),
        })
    );
}

#[test]
fn a_missing_directory_after_a_retrieval_is_reported_with_the_source() {
    let source = SourceLoc::builder().uri(github()).subfolder("nowhere").build();
    let mut log = Vec::new();
    let mut probes = 0;
    let result = download_with(&source, &folder(), false, &mut log, &mut |action| match action {
        Action::Probe { .. } => {
            probes += 1;
            // the working copy exists, the subfolder in it does not
            Event::Exists(probes == 1)
        }
        _ => Event::Done,
    });
    assert_eq!(
        result,
        Err(Error::LocalPathNotFound {
            path: format!("{}/nowhere", DST),
            uri: "https://github.com/acme/templates.git".to_string(),
            subfolder: Some("nowhere".to_string()),
        })
    );
}

#[test]
fn offline_a_remote_source_is_only_looked_up_in_the_cache() {
    let source = SourceLoc::builder().uri(github()).build();
    let mut log = Vec::new();
    let result = download_with(&source, &folder(), true, &mut log, &mut |_| Event::Exists(true));
    assert_eq!(result, Ok(DST.to_string()));
    assert_eq!(log, vec![Action::Probe { path: DST.to_string() }]);

    let mut log = Vec::new();
    let result = download_with(&source, &folder(), true, &mut log, &mut |_| Event::Exists(false));
    assert_eq!(
        result,
        Err(Error::LocalPathNotFound {
            path: DST.to_string(),
            uri: "https://github.com/acme/templates.git".to_string(),
            subfolder: None,
        })
    );
}

#[test]
fn a_remote_source_without_cache_folder_fails_before_any_action() {
    let source = SourceLoc::builder().uri(github()).build();
    for offline in [false, true] {
        assert_eq!(
            source.download(&Err(Error::ApplicationPathNotFound), offline, None, None),
            Resolution::Finished(Err(Error::ApplicationPathNotFound))
        );
    }
}

#[test]
fn a_remote_source_is_cloned_into_the_cache_then_resolved() {
    let source = SourceLoc::builder().uri(github()).subfolder("templates").build();
    let mut log = Vec::new();
    let mut exists = false;
    let result = download_with(&source, &folder(), false, &mut log, &mut |action| match action {
        Action::Probe { .. } => Event::Exists(exists),
        Action::Clone { .. } => {
            exists = true;
            Event::Done
        }
        _ => Event::Done,
    });
    assert_eq!(result, Ok(format!("{}/templates", DST)));
    let options = FetchOptions {
        credentials: Credentials::Helper,
        proxy_auto: true,
        verify_certificates: true,
        download_all_tags: true,
        update_fetchhead: true,
    };
    assert_eq!(
        log,
        vec![
            Action::Probe { path: DST.to_string() },
            Action::Notice {
                message: format!("dst: {}, url: https://github.com/acme/templates.git", DST)
            },
            Action::CreateFolder { path: DST.to_string() },
            Action::Clone {
                url: "https://github.com/acme/templates.git".to_string(),
                dst: DST.to_string(),
                branch: "master".to_string(),
                options,
            },
            Action::Probe { path: format!("{}/templates", DST) },
        ]
    );
}

#[test]
fn the_subfolder_has_no_part_in_what_is_retrieved() {
    let plain = SourceLoc::builder().uri(github()).build();
    let deep = SourceLoc::builder().uri(github()).subfolder("a/b").build();
    let first = plain.download(&folder(), false, None, None);
    let second = deep.download(&folder(), false, None, None);
    assert_eq!(first, second);
    assert_eq!(
        first,
        Resolution::Next {
            session: Session::Retrieving { dst: DST.to_string(), stage: Stage::Probing },
            action: Action::Probe { path: DST.to_string() },
        }
    );
}

#[test]
fn the_source_decides_how_the_remote_is_reached() {
    let source = SourceLoc::builder()
        .uri(github())
        .rev("1.0")
        .usr("alice")
        .pwd("secret")
        .unsecure_certificate(true)
        .disable_proxy_options(true)
        .build();
    let dst = "/c/git/github.com/acme/templates/1.0";
    let session = Session::Retrieving { dst: dst.to_string(), stage: Stage::CheckingOut };
    assert_eq!(
        source.download(&folder(), false, Some(session), Some(Event::Done)),
        Resolution::Next {
            session: Session::Retrieving { dst: dst.to_string(), stage: Stage::Fetching },
            action: Action::Fetch {
                dst: dst.to_string(),
                remote: "origin".to_string(),
                refspec: "1.0".to_string(),
                options: FetchOptions {
                    credentials: Credentials::UserPass {
                        username: "alice".to_string(),
                        password: "secret".to_string()
                    },
                    proxy_auto: false,
                    verify_certificates: false,
                    download_all_tags: true,
                    update_fetchhead: true,
                },
            },
        }
    );
}

#[test]
fn a_name_without_password_leaves_the_answer_to_the_helpers() {
    let source = SourceLoc::builder().uri(github()).usr("alice").build();
    let session = Session::Retrieving { dst: DST.to_string(), stage: Stage::CreatingFolder };
    match source.download(&folder(), false, Some(session), Some(Event::Done)) {
        Resolution::Next { action: Action::Clone { options, .. }, .. } => {
            assert_eq!(options.credentials, Credentials::Helper)
        }
        other => panic!("unexpected {:?}", other),
    }
}

#[test]
fn a_failed_retrieval_removes_the_working_copy() {
    let source = SourceLoc::builder().uri(github()).build();
    let mut log = Vec::new();
    let mut exists = false;
    let result = download_with(&source, &folder(), false, &mut log, &mut |action| match action {
        Action::Probe { .. } => Event::Exists(exists),
        Action::CreateFolder { .. } => {
            exists = true;
            Event::Done
        }
        Action::Clone { .. } => Event::Failed(unreachable_remote()),
        Action::RemoveFolder { .. } => {
            exists = false;
            Event::Done
        }
        _ => Event::Done,
    });
    assert_eq!(result, Err(retrieval_error()));
    assert!(!exists);
    assert_eq!(
        log[4..],
        [
            Action::Warn {
                source: "https://github.com/acme/templates.git (rev: master)".to_string(),
                path: DST.to_string(),
                error: retrieval_error(),
            },
            Action::Probe { path: DST.to_string() },
            Action::RemoveFolder { path: DST.to_string() },
        ]
    );
}

#[test]
fn after_a_failed_retrieval_an_absent_working_copy_is_left_alone() {
    let source = SourceLoc::builder().uri(github()).build();
    let mut log = Vec::new();
    let result = download_with(&source, &folder(), false, &mut log, &mut |action| match action {
        Action::Probe { .. } => Event::Exists(false),
        Action::CreateFolder { .. } => Event::Failed(denied()),
        _ => Event::Done,
    });
    assert_eq!(result, Err(Error::CreateFolder { path: DST.to_string(), source: denied() }));
    assert!(log.iter().all(|action| !matches!(action, Action::RemoveFolder { .. })));
    assert_eq!(log.last(), Some(&Action::Probe { path: DST.to_string() }));
}

#[test]
fn a_failed_removal_takes_the_place_of_the_retrieval_error() {
    let source = SourceLoc::builder().uri(github()).build();
    let mut log = Vec::new();
    let result = download_with(&source, &folder(), false, &mut log, &mut |action| match action {
        Action::Probe { .. } => Event::Exists(true),
        Action::Checkout { .. } => Event::Failed(unreachable_remote()),
        Action::RemoveFolder { .. } => Event::Failed(denied()),
        _ => Event::Done,
    });
    assert_eq!(result, Err(Error::RemoveFolder { path: DST.to_string(), source: denied() }));
}

#[test]
fn the_warning_is_best_effort() {
    let source = SourceLoc::builder().uri(github()).build();
    let session = || Session::Warning { dst: DST.to_string(), failure: retrieval_error() };
    let probing = Resolution::Next {
        session: Session::ProbingCache { dst: DST.to_string(), failure: retrieval_error() },
        action: Action::Probe { path: DST.to_string() },
    };
    assert_eq!(source.download(&folder(), false, Some(session()), Some(Event::Done)), probing);
    assert_eq!(
        source.download(&folder(), false, Some(session()), Some(Event::Failed(denied()))),
        probing
    );
}

#[test]
fn a_download_repeats_an_action_that_was_not_answered() {
    let source = SourceLoc::builder().uri(local("here")).build();
    assert_eq!(
        source.download(&folder(), false, Some(Session::Canonicalizing), Some(Event::Done)),
        Resolution::Next {
            session: Session::Canonicalizing,
            action: Action::Canonicalize { path: "here".to_string() },
        }
    );
    let probing = || Session::ProbingResolved { path: "/work/here".to_string() };
    assert_eq!(
        source.download(&folder(), false, Some(probing()), None),
        Resolution::Next {
            session: probing(),
            action: Action::Probe { path: "/work/here".to_string() },
        }
    );
    let removing = || Session::Removing { dst: DST.to_string(), failure: retrieval_error() };
    assert_eq!(
        source.download(&folder(), false, Some(removing()), Some(Event::Exists(true))),
        Resolution::Next {
            session: removing(),
            action: Action::RemoveFolder { path: DST.to_string() },
        }
    );
}

#[test]
fn an_existing_working_copy_is_updated_then_resolved() {
    let source = SourceLoc::builder().uri(github()).build();
    let mut log = Vec::new();
    let result = download_with(&source, &folder(), false, &mut log, &mut |action| match action {
        Action::Probe { .. } => Event::Exists(true),
        _ => Event::Done,
    });
    assert_eq!(result, Ok(DST.to_string()));
    assert_eq!(log.len(), 6);
    assert!(matches!(log[1], Action::Checkout { .. }));
    assert!(matches!(log[2], Action::Fetch { .. }));
    assert!(matches!(log[3], Action::Merge { .. }));
    assert!(matches!(log[4], Action::Cleanup { .. }));
    assert_eq!(log[5], Action::Probe { path: DST.to_string() });
}
