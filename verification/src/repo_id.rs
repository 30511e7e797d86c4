//! Repository identities as commands take and hand them on: owned values,
//! and the traits through which a client reads owner and name.

use crate::github_models::GhRepository;
use crate::repository_id::{
    full_format_message, partial_format_message, split_at_slash, RepoIdError,
};
use crate::text::{concat3, is_first, owned};
use std::str::FromStr;
use vstd::prelude::*;

verus! {

/// An identity with both parts.
#[derive(PartialEq, Eq, Clone, Debug)]
pub struct FullRepoId {
    pub owner: String,
    pub name: String,
}

/// An identity whose owner may be left out.
#[derive(PartialEq, Eq, Clone, Debug)]
pub struct PartialRepoId {
    pub owner: Option<String>,
    pub name: String,
}

impl FullRepoId {
    pub fn new(owner: &str, name: &str) -> (r: Self)
        ensures
            r.owner@ == owner@,
            r.name@ == name@,
    {
        FullRepoId { owner: owned(owner), name: owned(name) }
    }

    /// Fills in `default_owner` where `partial` names no owner.
    pub fn from_partial(partial: PartialRepoId, default_owner: String) -> (r: Self)
        ensures
            r.name == partial.name,
            r.owner == match partial.owner {
                Some(owner) => owner,
                None => default_owner,
            },
    {
        let PartialRepoId { owner, name } = partial;
        FullRepoId {
            owner: match owner {
                Some(owner) => owner,
                None => default_owner,
            },
            name,
        }
    }

    pub fn owner(&self) -> (r: &str)
        ensures
            r@ == self.owner@,
    {
        self.owner.as_str()
    }

    pub fn name(&self) -> (r: &str)
        ensures
            r@ == self.name@,
    {
        self.name.as_str()
    }

    /// The identity as text: owner, `/`, name.
    pub fn to_string(&self) -> (r: String)
        ensures
            r@ == self.owner@ + "/"@ + self.name@,
    {
        concat3(self.owner.as_str(), "/", self.name.as_str())
    }

    /// Reads `owner/name`. The owner is what stands before the first `/`,
    /// the name what follows it. A text without `/`, or with nothing after
    /// the first `/`, is refused.
    pub fn parse(s: &str) -> (r: Result<FullRepoId, RepoIdError>)
        ensures
            match r {
                Ok(id) => {
                    &&& is_first(s@, '/', id.owner@.len() as int)
                    &&& id.owner@ == s@.take(id.owner@.len() as int)
                    &&& id.name@ == s@.skip(id.owner@.len() as int + 1)
                    &&& id.name@.len() > 0
                },
                Err(e) => {
                    &&& forall|i: int| is_first(s@, '/', i) ==> i + 1 == s@.len()
                    &&& e.0@ == full_format_message(s@)
                },
            },
    {
        match split_at_slash(s) {
            Some((owner, name)) => {
                if name.as_str().is_empty() {
                    Err(
                        RepoIdError(
                            concat3("Expecting in `:owner/:name` format, but was `", s, "`."),
                        ),
                    )
                } else {
                    Ok(FullRepoId { owner, name })
                }
            },
            None => Err(
                RepoIdError(concat3("Expecting in `:owner/:name` format, but was `", s, "`.")),
            ),
        }
    }
}

impl FromStr for FullRepoId {
    type Err = RepoIdError;

    /// Reads `owner/name`, as `FullRepoId::parse` does.
    fn from_str(s: &str) -> (r: Result<Self, Self::Err>)
        ensures
            match r {
                Ok(id) => {
                    &&& is_first(s@, '/', id.owner@.len() as int)
                    &&& id.owner@ == s@.take(id.owner@.len() as int)
                    &&& id.name@ == s@.skip(id.owner@.len() as int + 1)
                    &&& id.name@.len() > 0
                },
                Err(e) => {
                    &&& forall|i: int| is_first(s@, '/', i) ==> i + 1 == s@.len()
                    &&& e.0@ == full_format_message(s@)
                },
            },
    {
        FullRepoId::parse(s)
    }
}

impl PartialRepoId {
    /// The full identity, with `default_owner` where no owner is named.
    pub fn complete(self, default_owner: &str) -> (r: FullRepoId)
        ensures
            r.name == self.name,
            r.owner@ == match self.owner {
                Some(owner) => owner@,
                None => default_owner@,
            },
    {
        FullRepoId::from_partial(self, owned(default_owner))
    }

    /// Reads `owner/name` or a name alone. A text without `/` is a name
    /// without owner. A text with nothing after its first `/` is refused.
    pub fn parse(s: &str) -> (r: Result<PartialRepoId, RepoIdError>)
        ensures
            match r {
                Ok(id) => match id.owner {
                    Some(owner) => {
                        &&& is_first(s@, '/', owner@.len() as int)
                        &&& owner@ == s@.take(owner@.len() as int)
                        &&& id.name@ == s@.skip(owner@.len() as int + 1)
                        &&& id.name@.len() > 0
                    },
                    None => !s@.contains('/') && id.name@ == s@,
                },
                Err(e) => {
                    &&& exists|i: int| is_first(s@, '/', i) && i + 1 == s@.len()
                    &&& e.0@ == partial_format_message(s@)
                },
            },
    {
        match split_at_slash(s) {
            Some((owner, name)) => {
                if name.as_str().is_empty() {
                    assert(is_first(s@, '/', owner@.len() as int));
                    Err(
                        RepoIdError(
                            concat3("Expecting in `:owner?/:name` format, but was `", s, "`."),
                        ),
                    )
                } else {
                    Ok(PartialRepoId { owner: Some(owner), name })
                }
            },
            None => Ok(PartialRepoId { owner: None, name: owned(s) }),
        }
    }
}

impl FromStr for PartialRepoId {
    type Err = RepoIdError;

    /// Reads `owner/name` or a name alone, as `PartialRepoId::parse` does.
    fn from_str(s: &str) -> (r: Result<Self, Self::Err>)
        ensures
            match r {
                Ok(id) => match id.owner {
                    Some(owner) => {
                        &&& is_first(s@, '/', owner@.len() as int)
                        &&& owner@ == s@.take(owner@.len() as int)
                        &&& id.name@ == s@.skip(owner@.len() as int + 1)
                        &&& id.name@.len() > 0
                    },
                    None => !s@.contains('/') && id.name@ == s@,
                },
                Err(e) => {
                    &&& exists|i: int| is_first(s@, '/', i) && i + 1 == s@.len()
                    &&& e.0@ == partial_format_message(s@)
                },
            },
    {
        PartialRepoId::parse(s)
    }
}

/// What a full identity can be read from.
pub trait GetRepoId {
    /// The value names its owner.
    spec fn names_owner(&self) -> bool;

    /// The identity as text, `owner/name`.
    spec fn repo_id_text(&self) -> Seq<char>;

    fn get_repo_id(&self) -> (r: Result<FullRepoId, RepoIdError>)
        requires
            self.names_owner(),
        ensures
            r matches Ok(id) && id.owner@ + "/"@ + id.name@ == self.repo_id_text(),
    ;
}

impl GetRepoId for GhRepository {
    open spec fn names_owner(&self) -> bool {
        self.owner is Some
    }

    open spec fn repo_id_text(&self) -> Seq<char> {
        self.owner->0.login@ + "/"@ + self.name@
    }

    fn get_repo_id(&self) -> (r: Result<FullRepoId, RepoIdError>) {
        match &self.owner {
            Some(user) => Ok(FullRepoId::new(user.login.as_str(), self.name.as_str())),
            None => Err(RepoIdError(owned(""))),
        }
    }
}

/// What has the identity of a repository.
pub trait RepoId {
    /// The owner.
    spec fn owner_text(&self) -> Seq<char>;

    /// The name.
    spec fn name_text(&self) -> Seq<char>;

    fn owner(&self) -> (r: &str)
        ensures
            r@ == self.owner_text(),
    ;

    fn name(&self) -> (r: &str)
        ensures
            r@ == self.name_text(),
    ;
}

/// What has the name of a repository and may have its owner.
pub trait PartialRepoId2 {
    /// The owner, where there is one.
    spec fn partial_owner_text(&self) -> Option<Seq<char>>;

    /// The name.
    spec fn partial_name_text(&self) -> Seq<char>;

    fn owner(&self) -> (r: Option<&str>)
        ensures
            match r {
                Some(owner) => self.partial_owner_text() == Some(owner@),
                None => self.partial_owner_text() is None,
            },
    ;

    fn name(&self) -> (r: &str)
        ensures
            r@ == self.partial_name_text(),
    ;

    /// The full identity, with `default_owner` where no owner is known.
    fn into_full<'a>(&'a self, default_owner: &'a str) -> (r: RepositoryId2<'a>)
        ensures
            r.name_text() == self.partial_name_text(),
            r.owner_text() == match self.partial_owner_text() {
                Some(owner) => owner,
                None => default_owner@,
            },
    {
        let owner = match self.owner() {
            Some(owner) => owner,
            None => default_owner,
        };
        let name = self.name();
        RepositoryId2 { owner, name }
    }
}

impl<T> PartialRepoId2 for T where T: RepoId {
    open spec fn partial_owner_text(&self) -> Option<Seq<char>> {
        Some(self.owner_text())
    }

    open spec fn partial_name_text(&self) -> Seq<char> {
        self.name_text()
    }

    fn owner(&self) -> (r: Option<&str>) {
        Some(RepoId::owner(self))
    }

    fn name(&self) -> (r: &str) {
        RepoId::name(self)
    }
}

impl PartialRepoId2 for GhRepository {
    open spec fn partial_owner_text(&self) -> Option<Seq<char>> {
        self.owner_login()
    }

    open spec fn partial_name_text(&self) -> Seq<char> {
        self.name@
    }

    fn owner(&self) -> (r: Option<&str>) {
        match &self.owner {
            Some(user) => Some(user.login.as_str()),
            None => None,
        }
    }

    fn name(&self) -> (r: &str) {
        self.name.as_str()
    }
}

/// A borrowed identity.
#[derive(Debug, PartialEq, Eq)]
pub struct RepositoryId2<'a> {
    owner: &'a str,
    name: &'a str,
}

impl RepoId for RepositoryId2<'_> {
    closed spec fn owner_text(&self) -> Seq<char> {
        self.owner@
    }

    closed spec fn name_text(&self) -> Seq<char> {
        self.name@
    }

    fn owner(&self) -> (r: &str) {
        self.owner
    }

    fn name(&self) -> (r: &str) {
        self.name
    }
}

} // verus!
