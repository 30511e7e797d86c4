//! The values the dashboard is about: a repository and its build status.

use crate::github_models::GhRepository;
use crate::repository_id::IsRepositoryId;
use crate::text::{concat3, owned, str_eq};
use core::cmp::Ordering;
use vstd::prelude::*;

verus! {

/// Summary of the check runs of one commit.
///
/// The variants are ordered by severity: `Success` is the least severe,
/// `Failure` the most.
#[derive(Debug, PartialEq, Eq, Clone, Copy, Structural)]
pub enum BuildStatus {
    Success,
    InProgress,
    Failure,
}

/// A text was given where the name of a build status was expected.
#[derive(Debug, Clone)]
pub struct ParseBuildStatusError(pub String);

impl BuildStatus {
    /// Position in the severity order, from 0 for `Success` to 2 for `Failure`.
    pub open spec fn severity(self) -> nat {
        match self {
            BuildStatus::Success => 0,
            BuildStatus::InProgress => 1,
            BuildStatus::Failure => 2,
        }
    }

    /// The lowercase name under which the status is stored and shown.
    pub open spec fn name(self) -> Seq<char> {
        match self {
            BuildStatus::Success => "success"@,
            BuildStatus::Failure => "failure"@,
            BuildStatus::InProgress => "in_progress"@,
        }
    }

    /// The more severe of two statuses.
    pub open spec fn spec_worst(self, other: BuildStatus) -> BuildStatus {
        if self.severity() >= other.severity() {
            self
        } else {
            other
        }
    }

    pub fn rank(&self) -> (r: u8)
        ensures
            r == self.severity(),
    {
        match self {
            BuildStatus::Success => 0,
            BuildStatus::InProgress => 1,
            BuildStatus::Failure => 2,
        }
    }

    /// The more severe of two statuses.
    pub fn worst(self, other: BuildStatus) -> (r: BuildStatus)
        ensures
            r == self.spec_worst(other),
    {
        if self.rank() >= other.rank() {
            self
        } else {
            other
        }
    }

    pub fn as_str(&self) -> (r: &'static str)
        ensures
            r@ == self.name(),
    {
        match self {
            BuildStatus::Success => "success",
            BuildStatus::Failure => "failure",
            BuildStatus::InProgress => "in_progress",
        }
    }

    pub fn to_string(&self) -> (r: String)
        ensures
            r@ == self.name(),
    {
        owned(self.as_str())
    }

    /// Reads a status from its name. Any other text is refused, and the error
    /// quotes it.
    pub fn parse(s: &str) -> (r: Result<BuildStatus, ParseBuildStatusError>)
        ensures
            match r {
                Ok(status) => s@ == status.name(),
                Err(e) => {
                    &&& forall|status: BuildStatus| s@ != status.name()
                    &&& e.0@ == unexpected_string_message(s@)
                },
            },
    {
        if str_eq(s, "success") {
            Ok(BuildStatus::Success)
        } else if str_eq(s, "failure") {
            Ok(BuildStatus::Failure)
        } else if str_eq(s, "in_progress") {
            Ok(BuildStatus::InProgress)
        } else {
            let message = concat3("unexpected string, was `", s, "`");
            Err(ParseBuildStatusError(message))
        }
    }
}

impl PartialOrd for BuildStatus {
    /// Statuses are ordered by severity.
    fn partial_cmp(&self, other: &Self) -> (r: Option<Ordering>) {
        let a = self.rank();
        let b = other.rank();
        if a < b {
            Some(Ordering::Less)
        } else if a > b {
            Some(Ordering::Greater)
        } else {
            Some(Ordering::Equal)
        }
    }
}

impl vstd::std_specs::cmp::PartialOrdSpecImpl for BuildStatus {
    open spec fn obeys_partial_cmp_spec() -> bool {
        true
    }

    open spec fn partial_cmp_spec(&self, other: &Self) -> Option<Ordering> {
        if self.severity() < other.severity() {
            Some(Ordering::Less)
        } else if self.severity() > other.severity() {
            Some(Ordering::Greater)
        } else {
            Some(Ordering::Equal)
        }
    }
}

/// Severity puts the statuses in one line: of two different statuses one is
/// the more severe, and `Success`, `InProgress`, `Failure` is their order.
pub proof fn lemma_severity_is_total(a: BuildStatus, b: BuildStatus)
    ensures
        a.severity() == b.severity() <==> a == b,
        a.severity() < b.severity() || a == b || b.severity() < a.severity(),
        BuildStatus::Success.severity() < BuildStatus::InProgress.severity()
            < BuildStatus::Failure.severity(),
        a.spec_worst(b) == b.spec_worst(a),
        a.spec_worst(b) == a || a.spec_worst(b) == b,
{
}

/// What `ParseBuildStatusError` says of a text `s` that names no status.
pub open spec fn unexpected_string_message(s: Seq<char>) -> Seq<char> {
    "unexpected string, was `"@ + s + "`"@
}

impl ParseBuildStatusError {
    pub fn to_string(&self) -> (r: String)
        ensures
            r@ == self.0@,
    {
        self.0.clone()
    }
}

/// No two statuses share a name, so a name read back gives the status that
/// wrote it.
pub proof fn lemma_name_injective(a: BuildStatus, b: BuildStatus)
    requires
        a.name() == b.name(),
    ensures
        a == b,
{
    reveal_strlit("success");
    reveal_strlit("failure");
    reveal_strlit("in_progress");
    assert("success"@[0] == 's' && "failure"@[0] == 'f' && "in_progress"@[0] == 'i');
}

/// A repository as the dashboard knows it. Owner and name together
/// identify it.
#[derive(Debug, PartialEq, Eq)]
pub struct Repository {
    pub name: String,
    pub owner: String,
    pub a_fork: bool,
    pub archived: bool,
    pub build_status: Option<BuildStatus>,
}

/// What a `Repository` holds.
pub struct RepositoryView {
    pub name: Seq<char>,
    pub owner: Seq<char>,
    pub a_fork: bool,
    pub archived: bool,
    pub build_status: Option<BuildStatus>,
}

impl RepositoryView {
    /// This record stands for the repository `name` of `owner`.
    pub open spec fn is_keyed(self, owner: Seq<char>, name: Seq<char>) -> bool {
        self.owner == owner && self.name == name
    }

    /// Both records stand for the same repository.
    pub open spec fn same_key(self, other: RepositoryView) -> bool {
        self.is_keyed(other.owner, other.name)
    }

    /// The record is one that a listing brings to the dashboard: it is
    /// neither a fork nor archived.
    pub open spec fn on_dashboard(self) -> bool {
        !self.a_fork && !self.archived
    }
}

impl View for Repository {
    type V = RepositoryView;

    open spec fn view(&self) -> RepositoryView {
        RepositoryView {
            name: self.name@,
            owner: self.owner@,
            a_fork: self.a_fork,
            archived: self.archived,
            build_status: self.build_status,
        }
    }
}

impl Clone for Repository {
    fn clone(&self) -> (r: Self)
        ensures
            r == *self,
    {
        Repository {
            name: self.name.clone(),
            owner: self.owner.clone(),
            a_fork: self.a_fork,
            archived: self.archived,
            build_status: self.build_status,
        }
    }
}

impl IsRepositoryId for Repository {
    open spec fn owner_text(&self) -> Seq<char> {
        self.owner@
    }

    open spec fn name_text(&self) -> Seq<char> {
        self.name@
    }

    fn owner(&self) -> (r: &str) {
        self.owner.as_str()
    }

    fn name(&self) -> (r: &str) {
        self.name.as_str()
    }
}

/// A listed repository names no owner.
#[derive(Debug, Clone, Copy, PartialEq, Eq)]
pub struct MissingOwnerError;

impl MissingOwnerError {
    pub fn to_string(&self) -> (r: String)
        ensures
            r@ == "owner can not be none, was `None`"@,
    {
        owned("owner can not be none, was `None`")
    }
}

/// The flag, or `false` where the listing left it out.
pub open spec fn flag(o: Option<bool>) -> bool {
    match o {
        Some(b) => b,
        None => false,
    }
}

pub fn flag_or_false(o: Option<bool>) -> (r: bool)
    ensures
        r == flag(o),
{
    match o {
        Some(b) => b,
        None => false,
    }
}

impl Repository {
    /// The record for a repository of the remote listing. The listing must
    /// name the owner. A flag that the listing left out counts as not set,
    /// and the record has no build status yet.
    pub fn try_from(x: GhRepository) -> (r: Result<Repository, MissingOwnerError>)
        ensures
            match r {
                Ok(repo) => {
                    &&& x.owner_login() == Some(repo.owner@)
                    &&& repo.name == x.name
                    &&& repo.a_fork == flag(x.fork)
                    &&& repo.archived == flag(x.archived)
                    &&& repo.build_status is None
                },
                Err(_) => x.owner is None,
            },
    {
        let GhRepository { name, owner, fork, archived, .. } = x;
        match owner {
            Some(user) => Ok(
                Repository {
                    name,
                    owner: user.login,
                    a_fork: flag_or_false(fork),
                    archived: flag_or_false(archived),
                    build_status: None,
                },
            ),
            None => Err(MissingOwnerError),
        }
    }
}

} // verus!
