//! What the client sends.

use vstd::prelude::*;

verus! {

/// The settings of a repository that are to be changed. A setting that is
/// `None` stays as it is.
#[derive(PartialEq, Eq, Clone, Copy, Debug)]
pub struct UpdateRepository {
    pub allow_squash_merge: Option<bool>,
    pub allow_merge_commit: Option<bool>,
    pub allow_rebase_merge: Option<bool>,
    pub allow_auto_merge: Option<bool>,
    pub delete_branch_on_merge: Option<bool>,
}

impl Default for UpdateRepository {
    fn default() -> (r: Self)
        ensures
            r.allow_squash_merge is None,
            r.allow_merge_commit is None,
            r.allow_rebase_merge is None,
            r.allow_auto_merge is None,
            r.delete_branch_on_merge is None,
    {
        UpdateRepository {
            allow_squash_merge: None,
            allow_merge_commit: None,
            allow_rebase_merge: None,
            allow_auto_merge: None,
            delete_branch_on_merge: None,
        }
    }
}

/// Which of the user's repositories a listing holds.
#[derive(PartialEq, Eq, Copy, Clone, Debug, Structural)]
pub enum RepositoryType {
    All,
    Owner,
    Public,
    Private,
    Member,
}

impl RepositoryType {
    /// The word for the kind in a request.
    pub open spec fn word(self) -> Seq<char> {
        match self {
            RepositoryType::All => "all"@,
            RepositoryType::Owner => "owner"@,
            RepositoryType::Public => "public"@,
            RepositoryType::Private => "private"@,
            RepositoryType::Member => "member"@,
        }
    }

    pub fn to_str(self) -> (r: &'static str)
        ensures
            r@ == self.word(),
    {
        match self {
            RepositoryType::All => "all",
            RepositoryType::Owner => "owner",
            RepositoryType::Public => "public",
            RepositoryType::Private => "private",
            RepositoryType::Member => "member",
        }
    }
}

} // verus!
