//! What the platform says of the directories of an application.
//!
//! Nothing here is proved: the two functions hand on what the crate `directories`
//! returns, and their contracts claim nothing of it.

use vstd::prelude::*;

verus! {

/// The directories of a project, as `directories` computes them. Nothing is known
/// of a value but what the functions below return for it.
#[verifier::external_type_specification]
#[verifier::external_body]
pub struct ExProjectDirs(directories::ProjectDirs);

/// Calls `directories::ProjectDirs::from`. The result depends on the operating
/// system and on the environment of the process: it is `None` where no home
/// directory is found. Nothing is claimed of it.
#[verifier::external_body]
pub(crate) fn project_dirs(qualifier: &str, organization: &str, application: &str) -> (dirs: Option<
    directories::ProjectDirs,
>) {
    directories::ProjectDirs::from(qualifier, organization, application)
}

/// Calls `directories::ProjectDirs::cache_dir` and gives the path as text, or
/// `None` for a path that is not valid Unicode. Nothing is claimed of it.
#[verifier::external_body]
pub(crate) fn cache_dir_of(dirs: &directories::ProjectDirs) -> (dir: Option<String>) {
    dirs.cache_dir().to_str().map(str::to_owned)
}

} // verus!
