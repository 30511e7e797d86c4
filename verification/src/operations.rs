//! What the commands on repositories and on the workspace decide.

use crate::github_models::{GhCheckRun, GhRepository};
use crate::text::{
    concat3, find_char, find_str, is_first, is_first_occurrence, owned, pad_left, pad_right,
    padded_left, padded_right, str_eq,
};
use vstd::prelude::*;
use vstd::string::{StrSliceExecFns, StringExecFns};

verus! {

/// The settings of a repository that can be copied to another.
#[derive(PartialEq, Eq, Copy, Clone, Debug, Structural)]
pub struct RepositorySettings {
    pub allow_rebase_merge: bool,
    pub allow_squash_merge: bool,
    pub allow_auto_merge: bool,
    pub delete_branch_on_merge: bool,
    pub allow_merge_commit: bool,
}

/// `true` or `false`.
pub open spec fn bool_text(b: bool) -> Seq<char> {
    if b {
        "true"@
    } else {
        "false"@
    }
}

fn bool_str(b: bool) -> (r: &'static str)
    ensures
        r@ == bool_text(b),
{
    if b {
        "true"
    } else {
        "false"
    }
}

/// The line for one setting: its key, set to the right in 25 places, and
/// its value, in 5.
pub open spec fn setting_line(key: Seq<char>, value: bool) -> Seq<char> {
    padded_left(key, 25) + " = "@ + padded_right(bool_text(value), 5) + "\n"@
}

fn write_key(r: &mut String, key: &str, value: bool)
    ensures
        final(r)@ == old(r)@ + setting_line(key@, value),
{
    let line = concat3(pad_left(key, 25).as_str(), " = ", pad_right(bool_str(value), 5).as_str());
    r.append(line.as_str());
    r.append("\n");
    assert(r@ =~= old(r)@ + setting_line(key@, value));
}

/// The line for one setting that changes: its key, set to the right in 25
/// places, the old value set to the right in 5, and the new one.
pub open spec fn diff_line(key: Seq<char>, old: bool, new: bool) -> Seq<char> {
    padded_left(key, 25) + " = "@ + padded_left(bool_text(old), 5) + " -> "@ + padded_right(
        bool_text(new),
        5,
    ) + "\n"@
}

fn diff_key(r: &mut String, key: &str, old_value: bool, new_value: bool)
    ensures
        final(r)@ == old(r)@ + diff_line(key@, old_value, new_value),
{
    let mut line = concat3(
        pad_left(key, 25).as_str(),
        " = ",
        pad_left(bool_str(old_value), 5).as_str(),
    );
    line.append(" -> ");
    line.append(pad_right(bool_str(new_value), 5).as_str());
    r.append(line.as_str());
    r.append("\n");
    assert(r@ =~= old(r)@ + diff_line(key@, old_value, new_value));
}

impl RepositorySettings {
    /// The settings, a line for each.
    pub open spec fn text(self) -> Seq<char> {
        Seq::<char>::empty() + setting_line("allow_rebase_merge"@, self.allow_rebase_merge)
            + setting_line("allow_squash_merge"@, self.allow_squash_merge) + setting_line(
            "allow_auto_merge"@,
            self.allow_auto_merge,
        ) + setting_line("delete_branch_on_merge"@, self.delete_branch_on_merge) + setting_line(
            "allow_merge_commit"@,
            self.allow_merge_commit,
        )
    }

    pub fn to_string(&self) -> (r: String)
        ensures
            r@ == self.text(),
    {
        let mut r = String::new();
        write_key(&mut r, "allow_rebase_merge", self.allow_rebase_merge);
        write_key(&mut r, "allow_squash_merge", self.allow_squash_merge);
        write_key(&mut r, "allow_auto_merge", self.allow_auto_merge);
        write_key(&mut r, "delete_branch_on_merge", self.delete_branch_on_merge);
        write_key(&mut r, "allow_merge_commit", self.allow_merge_commit);
        r
    }
}

/// A repository does not say how one of its settings stands.
#[derive(PartialEq, Eq, Copy, Clone, Debug, Structural)]
pub enum MissingSetting {
    AllowRebaseMerge,
    AllowSquashMerge,
    AllowAutoMerge,
    DeleteBranchOnMerge,
    AllowMergeCommit,
}

impl MissingSetting {
    /// The key of the setting.
    pub open spec fn key(self) -> Seq<char> {
        match self {
            MissingSetting::AllowRebaseMerge => "allow_rebase_merge"@,
            MissingSetting::AllowSquashMerge => "allow_squash_merge"@,
            MissingSetting::AllowAutoMerge => "allow_auto_merge"@,
            MissingSetting::DeleteBranchOnMerge => "delete_branch_on_merge"@,
            MissingSetting::AllowMergeCommit => "allow_merge_commit"@,
        }
    }

    pub fn to_string(&self) -> (r: String)
        ensures
            r@ == "Missing value for key `"@ + self.key() + "`."@,
    {
        let key = match self {
            MissingSetting::AllowRebaseMerge => "allow_rebase_merge",
            MissingSetting::AllowSquashMerge => "allow_squash_merge",
            MissingSetting::AllowAutoMerge => "allow_auto_merge",
            MissingSetting::DeleteBranchOnMerge => "delete_branch_on_merge",
            MissingSetting::AllowMergeCommit => "allow_merge_commit",
        };
        concat3("Missing value for key `", key, "`.")
    }
}

/// The settings of `repo`, or the first of them that `repo` leaves out, in
/// the order rebase merge, squash merge, auto merge, branch deletion, merge
/// commit.
pub fn extract_repository_settings(repo: &GhRepository) -> (r: Result<
    RepositorySettings,
    MissingSetting,
>)
    ensures
        match r {
            Ok(s) => {
                &&& repo.allow_rebase_merge == Some(s.allow_rebase_merge)
                &&& repo.allow_squash_merge == Some(s.allow_squash_merge)
                &&& repo.allow_auto_merge == Some(s.allow_auto_merge)
                &&& repo.delete_branch_on_merge == Some(s.delete_branch_on_merge)
                &&& repo.allow_merge_commit == Some(s.allow_merge_commit)
            },
            Err(MissingSetting::AllowRebaseMerge) => repo.allow_rebase_merge is None,
            Err(MissingSetting::AllowSquashMerge) => repo.allow_rebase_merge is Some
                && repo.allow_squash_merge is None,
            Err(MissingSetting::AllowAutoMerge) => repo.allow_rebase_merge is Some
                && repo.allow_squash_merge is Some && repo.allow_auto_merge is None,
            Err(MissingSetting::DeleteBranchOnMerge) => repo.allow_rebase_merge is Some
                && repo.allow_squash_merge is Some && repo.allow_auto_merge is Some
                && repo.delete_branch_on_merge is None,
            Err(MissingSetting::AllowMergeCommit) => repo.allow_rebase_merge is Some
                && repo.allow_squash_merge is Some && repo.allow_auto_merge is Some
                && repo.delete_branch_on_merge is Some && repo.allow_merge_commit is None,
        },
{
    let allow_rebase_merge = match repo.allow_rebase_merge {
        Some(b) => b,
        None => {
            return Err(MissingSetting::AllowRebaseMerge);
        },
    };
    let allow_squash_merge = match repo.allow_squash_merge {
        Some(b) => b,
        None => {
            return Err(MissingSetting::AllowSquashMerge);
        },
    };
    let allow_auto_merge = match repo.allow_auto_merge {
        Some(b) => b,
        None => {
            return Err(MissingSetting::AllowAutoMerge);
        },
    };
    let delete_branch_on_merge = match repo.delete_branch_on_merge {
        Some(b) => b,
        None => {
            return Err(MissingSetting::DeleteBranchOnMerge);
        },
    };
    let allow_merge_commit = match repo.allow_merge_commit {
        Some(b) => b,
        None => {
            return Err(MissingSetting::AllowMergeCommit);
        },
    };
    Ok(
        RepositorySettings {
            allow_rebase_merge,
            allow_squash_merge,
            allow_auto_merge,
            delete_branch_on_merge,
            allow_merge_commit,
        },
    )
}

/// The settings of a repository as they are and as they are to be.
#[derive(PartialEq, Eq, Clone, Debug)]
pub struct RepositorySettingsDiff<'a> {
    pub old: &'a RepositorySettings,
    pub new: &'a RepositorySettings,
}

impl<'a> RepositorySettingsDiff<'a> {
    pub fn new(old: &'a RepositorySettings, new: &'a RepositorySettings) -> (r: Self)
        ensures
            r.old == old,
            r.new == new,
    {
        RepositorySettingsDiff { old, new }
    }

    /// The settings, a line for each, with the old and the new value.
    pub open spec fn text(self) -> Seq<char> {
        Seq::<char>::empty() + diff_line(
            "allow_rebase_merge"@,
            self.old.allow_rebase_merge,
            self.new.allow_rebase_merge,
        ) + diff_line(
            "allow_squash_merge"@,
            self.old.allow_squash_merge,
            self.new.allow_squash_merge,
        ) + diff_line("allow_auto_merge"@, self.old.allow_auto_merge, self.new.allow_auto_merge)
            + diff_line(
            "delete_branch_on_merge"@,
            self.old.delete_branch_on_merge,
            self.new.delete_branch_on_merge,
        ) + diff_line(
            "allow_merge_commit"@,
            self.old.allow_merge_commit,
            self.new.allow_merge_commit,
        )
    }

    pub fn to_string(&self) -> (r: String)
        ensures
            r@ == self.text(),
    {
        let mut r = String::new();
        diff_key(
            &mut r,
            "allow_rebase_merge",
            self.old.allow_rebase_merge,
            self.new.allow_rebase_merge,
        );
        diff_key(
            &mut r,
            "allow_squash_merge",
            self.old.allow_squash_merge,
            self.new.allow_squash_merge,
        );
        diff_key(&mut r, "allow_auto_merge", self.old.allow_auto_merge, self.new.allow_auto_merge);
        diff_key(
            &mut r,
            "delete_branch_on_merge",
            self.old.delete_branch_on_merge,
            self.new.delete_branch_on_merge,
        );
        diff_key(
            &mut r,
            "allow_merge_commit",
            self.old.allow_merge_commit,
            self.new.allow_merge_commit,
        );
        r
    }
}

/// The part of the address `url` of a git remote that names the repository:
/// what stands between the first `:` and the first `.git`. `None` where the
/// address has no `:`, no `.git`, or its first `.git` before the end of its
/// first `:`.
pub fn remote_repo_path(url: &str) -> (r: Option<String>)
    ensures
        match r {
            Some(path) => exists|start: int, end: int|
                {
                    &&& is_first(url@, ':', start)
                    &&& is_first_occurrence(url@, ".git"@, end)
                    &&& start + 1 <= end
                    &&& path@ == url@.subrange(start + 1, end)
                },
            None => {
                ||| !url@.contains(':')
                ||| forall|j: int| !crate::text::occurs_at(url@, ".git"@, j)
                ||| exists|start: int, end: int|
                    is_first(url@, ':', start) && is_first_occurrence(url@, ".git"@, end) && end
                        <= start
            },
        },
{
    let start = match find_char(url, ':') {
        Some(i) => i,
        None => {
            return None;
        },
    };
    let end = match find_str(url, ".git") {
        Some(i) => i,
        None => {
            return None;
        },
    };
    if end <= start {
        return None;
    }
    Some(owned(url.substring_char(start + 1, end)))
}

/// What is needed to clone a repository.
#[derive(PartialEq, Eq, Clone, Debug)]
pub struct ClonePlan {
    /// Where the repository is cloned from.
    pub ssh_url: String,
    /// Where the repository it was forked from is fetched from, if it is a
    /// fork.
    pub upstream_url: Option<String>,
}

/// Why a repository cannot be cloned.
#[derive(PartialEq, Eq, Copy, Clone, Debug, Structural)]
pub enum CloneError {
    NoSshUrl,
    NoUpstreamSshUrl,
}

impl CloneError {
    pub fn to_string(&self) -> (r: String)
        ensures
            r@ == match *self {
                CloneError::NoSshUrl => "Expecting repository to have ssh url, but was not."@,
                CloneError::NoUpstreamSshUrl =>
                    "Expecting upstream repository to have ssh url, but was not."@,
            },
    {
        match self {
            CloneError::NoSshUrl => owned("Expecting repository to have ssh url, but was not."),
            CloneError::NoUpstreamSshUrl => owned(
                "Expecting upstream repository to have ssh url, but was not.",
            ),
        }
    }
}

/// Plans the clone of `repo`: it needs an address to clone from, and a fork
/// needs the address of the repository it was forked from as well.
pub fn plan_clone(repo: &GhRepository) -> (r: Result<ClonePlan, CloneError>)
    ensures
        match r {
            Ok(plan) => {
                &&& repo.ssh_url == Some(plan.ssh_url)
                &&& if repo.has_parent {
                    plan.upstream_url is Some && plan.upstream_url == repo.parent_ssh_url
                } else {
                    plan.upstream_url is None
                }
            },
            Err(CloneError::NoSshUrl) => repo.ssh_url is None,
            Err(CloneError::NoUpstreamSshUrl) => repo.ssh_url is Some && repo.has_parent
                && repo.parent_ssh_url is None,
        },
{
    let ssh_url = match &repo.ssh_url {
        Some(url) => url.clone(),
        None => {
            return Err(CloneError::NoSshUrl);
        },
    };
    let upstream_url = if repo.has_parent {
        match &repo.parent_ssh_url {
            Some(url) => Some(url.clone()),
            None => {
                return Err(CloneError::NoUpstreamSshUrl);
            },
        }
    } else {
        None
    };
    Ok(ClonePlan { ssh_url, upstream_url })
}

/// Why the repository that a repository was forked from cannot be shown.
#[derive(PartialEq, Eq, Clone, Debug)]
pub enum UpstreamError {
    /// The repository is no fork. Holds what is said of it.
    NotAFork(String),
    /// The repository is a fork, but the page of the repository it was
    /// forked from is not known.
    NoParentUrl,
}

/// The page of the repository that `repo` was forked from. `repo_id` is the
/// identity of `repo` as text.
pub fn upstream_page(repo: &GhRepository, repo_id: &str) -> (r: Result<String, UpstreamError>)
    ensures
        match r {
            Ok(url) => repo.fork == Some(true) && repo.parent_html_url == Some(url),
            Err(UpstreamError::NotAFork(message)) => repo.fork != Some(true) && message@
                == "Repository "@ + repo_id@ + " is not a fork."@,
            Err(UpstreamError::NoParentUrl) => repo.fork == Some(true)
                && repo.parent_html_url is None,
        },
{
    let fork = match repo.fork {
        Some(true) => true,
        _ => false,
    };
    if !fork {
        return Err(UpstreamError::NotAFork(concat3("Repository ", repo_id, " is not a fork.")));
    }
    match &repo.parent_html_url {
        Some(url) => Ok(url.clone()),
        None => Err(UpstreamError::NoParentUrl),
    }
}

/// Whether every one of `runs` has ended. While one has not, the build
/// status is polled again.
pub fn all_completed(runs: &Vec<GhCheckRun>) -> (b: bool)
    ensures
        b == forall|i: int| 0 <= i < runs@.len() ==> (#[trigger] runs@[i]).completed_at is Some,
{
    let mut k: usize = 0;
    while k < runs.len()
        invariant
            k <= runs@.len(),
            forall|i: int| 0 <= i < k ==> (#[trigger] runs@[i]).completed_at is Some,
        decreases runs@.len() - k,
    {
        if runs[k].completed_at.is_none() {
            return false;
        }
        k = k + 1;
    }
    true
}

/// What is said where the workspace holds no project of the name.
pub fn project_missing_message(project_name: &str) -> (r: String)
    ensures
        r@ == "project `"@ + project_name@ + "` does not exists"@,
{
    concat3("project `", project_name, "` does not exists")
}

/// The place of the project `project_name` among the directories of the
/// workspace, of which `names` are the names: the first of that name.
pub fn find_project(names: &Vec<String>, project_name: &str) -> (r: Result<usize, String>)
    ensures
        match r {
            Ok(i) => i < names@.len() && names@[i as int]@ == project_name@ && forall|j: int|
                0 <= j < i ==> (#[trigger] names@[j])@ != project_name@,
            Err(message) => {
                &&& forall|j: int| 0 <= j < names@.len() ==> (#[trigger] names@[j])@
                    != project_name@
                &&& message@ == "project `"@ + project_name@ + "` does not exists"@
            },
        },
{
    let mut k: usize = 0;
    while k < names.len()
        invariant
            k <= names@.len(),
            forall|j: int| 0 <= j < k ==> (#[trigger] names@[j])@ != project_name@,
        decreases names@.len() - k,
    {
        if str_eq(names[k].as_str(), project_name) {
            return Ok(k);
        }
        k = k + 1;
    }
    Err(project_missing_message(project_name))
}

/// What is said of a repository without commits. `repo_id` is its identity
/// as text.
pub fn no_commit_message(repo_id: &str) -> (r: String)
    ensures
        r@ == "Repository "@ + repo_id@ + " doesn't have a commit yet."@,
{
    concat3("Repository ", repo_id, " doesn't have a commit yet.")
}

} // verus!
