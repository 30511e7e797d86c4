//! What the remote service reports, as plain values.
//!
//! A timestamp is the number of seconds since 1970-01-01T00:00:00Z.

use vstd::prelude::*;

verus! {

/// The text inside an optional string, if there is one.
pub open spec fn opt_text(o: Option<String>) -> Option<Seq<char>> {
    match o {
        Some(s) => Some(s@),
        None => None,
    }
}

/// A repository as the remote listing describes it. A field the service left
/// out is `None`.
#[derive(Debug, Clone)]
pub struct GhRepository {
    pub name: String,
    pub owner: Option<GhUser>,
    pub description: Option<String>,
    pub private: Option<bool>,
    pub fork: Option<bool>,
    pub archived: Option<bool>,
    pub language: Option<String>,
    pub pushed_at: Option<i64>,
    pub ssh_url: Option<String>,
    pub html_url: Option<String>,
    pub parent_ssh_url: Option<String>,
    pub parent_html_url: Option<String>,
    pub has_parent: bool,
    pub allow_rebase_merge: Option<bool>,
    pub allow_squash_merge: Option<bool>,
    pub allow_auto_merge: Option<bool>,
    pub delete_branch_on_merge: Option<bool>,
    pub allow_merge_commit: Option<bool>,
}

impl GhRepository {
    /// The login of the owner, where the listing names one.
    pub open spec fn owner_login(self) -> Option<Seq<char>> {
        match self.owner {
            Some(user) => Some(user.login@),
            None => None,
        }
    }
}

#[derive(Debug, Clone)]
pub struct GhCommit {
    pub sha: String,
    pub commit: GhCommitDetail,
    pub author: Option<GhUser>,
    pub committer: Option<GhUser>,
}

#[derive(Debug, Clone)]
pub struct GhCommitDetail {
    pub author: GhCommitActor,
    pub committer: GhCommitActor,
    pub message: String,
}

#[derive(Debug, Clone)]
pub struct GhCommitActor {
    pub name: Option<String>,
    pub email: Option<String>,
    pub date: i64,
}

#[derive(Debug, Clone)]
pub struct GhUser {
    pub login: String,
    pub id: u64,
    pub kind: String,
}

/// One job of the build service for one commit.
#[derive(Debug, Clone)]
pub struct GhCheckRun {
    pub id: u64,
    pub head_sha: String,
    pub status: String,
    pub conclusion: Option<String>,
    pub started_at: i64,
    pub completed_at: Option<i64>,
    pub output: Option<GhCheckRunOutput>,
    pub name: String,
}

#[derive(Debug, Clone)]
pub struct GhCheckRunOutput {
    pub title: Option<String>,
    pub summary: Option<String>,
    pub text: Option<String>,
}

/// An issue or a pull request assigned to the user.
#[derive(Debug, Clone)]
pub struct GhIssue {
    pub title: String,
    pub state: String,
    pub is_pull_request: bool,
    pub repository: GhIssueRepository,
}

#[derive(Debug, Clone)]
pub struct GhIssueRepository {
    pub name: String,
    pub full_name: String,
}

} // verus!
