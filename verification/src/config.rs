use crate::github_api;
use vstd::prelude::*;

verus! {

/// Top-level configuration of this application.
///
/// Currently, only GitHub-API-specific configuration options are available.
#[derive(Debug, PartialEq, Eq)]
pub struct Config {
    /// Configuration options specific to the GitHub API and authentication.
    pub github_api: github_api::Config,
}

} // verus!
