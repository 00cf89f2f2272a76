use source_cache::error::{Cause, Error};
use source_cache::path::child_path;
use source_cache::source_loc::SourceLoc;
use source_cache::source_uri::SourceUri;

fn github() -> SourceUri {
    SourceUri {
        raw: "git@github.com:acme/templates.git".to_string(),
        host: Some("github.com".to_string()),
        path: "acme/templates".to_string(),
    }
}

fn local(path: &str) -> SourceUri {
    SourceUri { raw: path.to_string(), host: None, path: path.to_string() }
}

fn remote_source() -> SourceLoc {
    SourceLoc::builder().uri(github()).build()
}

fn folder() -> Result<String, Error> {
    Ok("/home/alice/.cache/app/git".to_string())
}

fn no_canonical() -> Result<String, Cause> {
    Err(Cause::Io { os_code: Some(2), message: "No such file or directory".to_string() })
}

#[test]
fn a_child_is_its_base_a_slash_and_its_segment() {
    assert_eq!(child_path("/a/b", "c"), "/a/b/c");
    assert_eq!(child_path("", "c"), "/c");
    assert_eq!(child_path("/a", ""), "/a/");
    assert_eq!(child_path("/a", "b/c"), "/a/b/c");
}

#[test]
fn as_local_path_on_git() {
    let sut = remote_source();
    let path = sut.as_local_path(&folder(), &no_canonical()).unwrap();
    assert_eq!(path, "/home/alice/.cache/app/git/github.com/acme/templates/master");
    assert!(path.ends_with("/git/github.com/acme/templates/master"));
}

#[test]
fn the_cache_directory_is_what_joining_the_segments_gives() {
    let sut = remote_source();
    let joined = std::path::Path::new("/home/alice/.cache/app")
        .join("git")
        .join("github.com")
        .join("acme/templates")
        .join("master");
    let folder = SourceLoc::cache_folder_in(Some("/home/alice/.cache/app".to_string())).unwrap();
    assert_eq!(std::path::PathBuf::from(sut.remote_as_local(&folder)), joined);
}

#[test]
fn a_source_without_host_is_cached_under_no_host() {
    let sut = SourceLoc::builder().uri(local("some/where")).rev("v1").build();
    assert_eq!(sut.remote_as_local("/c/git"), "/c/git/no_host/some/where/v1");
}

#[test]
fn equal_keys_give_the_same_cache_directory() {
    let first = SourceLoc::builder().uri(github()).rev("1.0").build();
    let again = SourceLoc::builder().uri(github()).rev("1.0").subfolder("templates").build();
    assert_eq!(first.remote_as_local("/c/git"), first.remote_as_local("/c/git"));
    assert_eq!(first.remote_as_local("/c/git"), again.remote_as_local("/c/git"));
}

#[test]
fn each_part_of_the_key_changes_the_cache_directory() {
    let base = SourceLoc::builder().uri(github()).rev("1.0").build();
    let other_rev = SourceLoc::builder().uri(github()).rev("1.1").build();
    let other_host = SourceLoc::builder()
        .uri(SourceUri { host: Some("gitlab.com".to_string()), ..github() })
        .rev("1.0")
        .build();
    let other_path = SourceLoc::builder()
        .uri(SourceUri { path: "acme/scaffolds".to_string(), ..github() })
        .rev("1.0")
        .build();
    let dir = base.remote_as_local("/c/git");
    assert_eq!(dir, "/c/git/github.com/acme/templates/1.0");
    assert_eq!(other_rev.remote_as_local("/c/git"), "/c/git/github.com/acme/templates/1.1");
    assert_eq!(other_host.remote_as_local("/c/git"), "/c/git/gitlab.com/acme/templates/1.0");
    assert_eq!(other_path.remote_as_local("/c/git"), "/c/git/github.com/acme/scaffolds/1.0");
    assert_ne!(other_rev.remote_as_local("/c/git"), dir);
    assert_ne!(other_host.remote_as_local("/c/git"), dir);
    assert_ne!(other_path.remote_as_local("/c/git"), dir);
}

#[test]
fn a_segment_that_starts_with_a_slash_stays_below_the_folder() {
    let sut = SourceLoc::builder()
        .uri(SourceUri { path: "/etc".to_string(), ..github() })
        .build();
    let dir = sut.remote_as_local("/c/git");
    assert_eq!(dir, "/c/git/github.com//etc/master");
    assert!(dir.starts_with("/c/git/"));
    let other = SourceLoc::builder()
        .uri(SourceUri { host: Some("gitlab.com".to_string()), path: "/etc".to_string(), ..github() })
        .build();
    assert_ne!(other.remote_as_local("/c/git"), dir);
}

#[test]
fn the_subfolder_is_appended_to_the_cache_directory() {
    let sut = SourceLoc::builder().uri(github()).subfolder("templates/rust").build();
    assert_eq!(
        sut.as_local_path(&folder(), &no_canonical()),
        Ok("/home/alice/.cache/app/git/github.com/acme/templates/master/templates/rust".to_string())
    );
    assert_eq!(
        sut.in_subfolder("/anywhere".to_string()),
        "/anywhere/templates/rust"
    );
    assert_eq!(remote_source().in_subfolder("/anywhere".to_string()), "/anywhere");
}

#[test]
fn a_local_source_resolves_to_its_canonical_path() {
    let sut = SourceLoc::builder().uri(local("../templates")).build();
    let canonical = Ok("/home/alice/templates".to_string());
    assert_eq!(sut.as_local_path(&folder(), &canonical), Ok("/home/alice/templates".to_string()));
    assert_eq!(
        sut.as_local_path(&Err(Error::ApplicationPathNotFound), &canonical),
        Ok("/home/alice/templates".to_string())
    );
    let sut = SourceLoc::builder().uri(local("../templates")).subfolder("rust").build();
    assert_eq!(
        sut.as_local_path(&folder(), &canonical),
        Ok("/home/alice/templates/rust".to_string())
    );
}

#[test]
fn a_local_path_without_canonical_form_is_an_io_error() {
    let sut = SourceLoc::builder().uri(local("missing")).build();
    assert_eq!(
        sut.as_local_path(&folder(), &no_canonical()),
        Err(Error::Io {
            source: Cause::Io {
                os_code: Some(2),
                message: "No such file or directory".to_string()
            }
        })
    );
}

#[test]
fn a_remote_source_without_cache_folder_has_no_path() {
    assert_eq!(
        remote_source().as_local_path(
            &Err(Error::ApplicationPathNotFound),
            &Ok("/ignored".to_string())
        ),
        Err(Error::ApplicationPathNotFound)
    );
}

#[test]
fn the_cache_folder_is_git_in_the_cache_directory() {
    assert_eq!(
        SourceLoc::cache_folder_in(Some("/home/alice/.cache/app".to_string())),
        Ok("/home/alice/.cache/app/git".to_string())
    );
    assert_eq!(SourceLoc::cache_folder_in(None), Err(Error::ApplicationPathNotFound));
}

#[test]
fn the_cache_folder_is_found_where_the_platform_says() {
    let expected = directories::ProjectDirs::from("", "sample-app", "sample-app")
        .and_then(|dirs| dirs.cache_dir().to_str().map(|dir| format!("{}/git", dir)));
    match SourceLoc::find_remote_cache_folder("sample-app") {
        Ok(folder) => {
            assert_eq!(Some(folder.clone()), expected);
            assert!(folder.ends_with("/git"));
            assert_ne!(folder, "sample-app");
        }
        Err(error) => {
            assert_eq!(error, Error::ApplicationPathNotFound);
            assert_eq!(expected, None);
        }
    }
}

#[test]
fn the_default_source_is_at_master() {
    let sut = SourceLoc::default();
    assert_eq!(sut.rev, "master");
    assert_eq!(sut.uri, SourceUri { raw: String::new(), host: None, path: String::new() });
    assert_eq!(sut.usr, None);
    assert_eq!(sut.pwd, None);
    assert_eq!(sut.subfolder, None);
    assert!(!sut.unsecure_certificate);
    assert!(!sut.disable_proxy_options);
    assert_eq!(SourceLoc::builder().build(), sut);
}

#[test]
fn the_builder_sets_each_field() {
    let sut = SourceLoc::builder()
        .uri(github())
        .rev("develop")
        .usr("alice")
        .pwd("secret")
        .subfolder("sub")
        .unsecure_certificate(true)
        .disable_proxy_options(true)
        .build();
    assert_eq!(
        sut,
        SourceLoc {
            uri: github(),
            rev: "develop".to_string(),
            usr: Some("alice".to_string()),
            pwd: Some("secret".to_string()),
            subfolder: Some("sub".to_string()),
            unsecure_certificate: true,
            disable_proxy_options: true,
        }
    );
}

#[test]
fn a_builder_can_build_more_than_once() {
    let mut builder = SourceLoc::builder();
    builder.rev("a");
    let first = builder.build();
    builder.rev("b");
    let second = builder.build();
    assert_eq!(first.rev, "a");
    assert_eq!(second.rev, "b");
}

#[test]
fn a_source_is_described_with_its_revision() {
    assert_eq!(remote_source().to_string(), "git@github.com:acme/templates.git (rev: master)");
}

#[test]
fn a_source_is_described_with_its_subfolder() {
    let sut = SourceLoc::builder().uri(github()).rev("1.0").subfolder("templates").build();
    assert_eq!(
        sut.to_string(),
        "git@github.com:acme/templates.git (rev: 1.0, subfolder: templates)"
    );
}

#[test]
fn rendering_transforms_the_revision_and_the_subfolder() {
    let sut = SourceLoc::builder()
        .uri(github())
        .rev("{{version}}")
        .usr("{{version}}")
        .subfolder("templates/{{version}}")
        .build();
    let rendered = sut.transforms_values(&|text: &str| text.replace("{{version}}", "1.2"));
    assert_eq!(rendered.rev, "1.2");
    assert_eq!(rendered.subfolder, Some("templates/1.2".to_string()));
    assert_eq!(rendered.uri, github());
    assert_eq!(rendered.usr, Some("{{version}}".to_string()));
    assert_eq!(sut.rev, "{{version}}");
}

#[test]
fn rendering_keeps_a_source_without_subfolder_without_one() {
    let rendered = remote_source().transforms_values(&|text: &str| text.to_uppercase());
    assert_eq!(rendered.rev, "MASTER");
    assert_eq!(rendered.subfolder, None);
}

#[test]
fn a_copy_of_a_source_equals_it() {
    let sut = SourceLoc::builder().uri(github()).usr("alice").subfolder("sub").build();
    assert_eq!(sut.clone(), sut);
    assert!(github().is_remote());
    assert!(!local(".").is_remote());
}
