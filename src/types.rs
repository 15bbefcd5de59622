//! Records as the hosting service's REST endpoints describe them.

use vstd::prelude::*;
use crate::time::UtcTime;

verus! {

/// One commit of the commit listing.
#[derive(Debug)]
pub struct CommitInfo {
    pub sha: String,
    pub commit: CommitMeta,
}

/// The authorship and message of a commit.
#[derive(Debug)]
pub struct CommitMeta {
    pub author: AuthorMeta,
    pub message: String,
}

/// Who wrote a commit, and when.
#[derive(Debug)]
pub struct AuthorMeta {
    pub name: String,
    pub email: String,
    pub date: UtcTime,
}

/// The body of the commit search endpoint.
#[derive(Clone, Copy, Debug, PartialEq, Eq)]
pub struct SearchCommitsResp {
    pub total_count: usize,
}

/// The body of the issue search endpoint.
#[derive(Clone, Copy, Debug, PartialEq, Eq)]
pub struct SearchIssuesResp {
    pub total_count: usize,
}

/// The latest published release of a repository.
#[derive(Debug)]
pub struct ReleaseInfo {
    pub tag_name: String,
    pub name: Option<String>,
    pub published_at: Option<UtcTime>,
    pub prerelease: bool,
    pub draft: bool,
}

} // verus!
