//! The identity of a repository: who owns it and what it is called.
//!
//! In text an identity is written `owner/name`. The first `/` separates the
//! two, so a name may hold further slashes and an owner none.

use crate::text::{concat3, find_char, is_first, owned};
use std::str::FromStr;
use vstd::prelude::*;
use vstd::string::StrSliceExecFns;

verus! {

/// A text is not the identity of a repository.
#[derive(Debug, Clone, PartialEq, Eq)]
pub struct RepoIdError(pub String);

impl RepoIdError {
    pub fn to_string(&self) -> (r: String)
        ensures
            r@ == self.0@,
    {
        self.0.clone()
    }
}

/// What is said of a text `s` that is no `owner/name`.
pub open spec fn full_format_message(s: Seq<char>) -> Seq<char> {
    "Expecting in `:owner/:name` format, but was `"@ + s + "`."@
}

/// What is said of a text `s` that is neither `owner/name` nor a name.
pub open spec fn partial_format_message(s: Seq<char>) -> Seq<char> {
    "Expecting in `:owner?/:name` format, but was `"@ + s + "`."@
}

/// The text before the first `/` of `s` and the text after it, or `None`
/// where `s` holds no `/`.
pub fn split_at_slash(s: &str) -> (r: Option<(String, String)>)
    ensures
        match r {
            Some((owner, name)) => {
                &&& is_first(s@, '/', owner@.len() as int)
                &&& owner@ == s@.take(owner@.len() as int)
                &&& name@ == s@.skip(owner@.len() as int + 1)
            },
            None => !s@.contains('/'),
        },
{
    match find_char(s, '/') {
        Some(i) => {
            let n = s.unicode_len();
            let owner = owned(s.substring_char(0, i));
            let name = owned(s.substring_char(i + 1, n));
            assert(owner@ =~= s@.take(i as int));
            assert(name@ =~= s@.skip(i as int + 1));
            Some((owner, name))
        },
        None => None,
    }
}

/// An identity with both parts.
#[derive(PartialEq, Eq, Clone, Debug)]
pub struct FullRepoId {
    pub owner: String,
    pub name: String,
}

/// An identity whose owner may be left out.
#[derive(PartialEq, Eq, Clone, Debug)]
pub struct PartialRepoId {
    pub owner: Option<String>,
    pub name: String,
}

impl FullRepoId {
    /// Fills in `default_owner` where `partial` names no owner.
    pub fn from_partial(partial: PartialRepoId, default_owner: String) -> (r: Self)
        ensures
            r.name == partial.name,
            r.owner == match partial.owner {
                Some(owner) => owner,
                None => default_owner,
            },
    {
        let PartialRepoId { owner, name } = partial;
        FullRepoId {
            owner: match owner {
                Some(owner) => owner,
                None => default_owner,
            },
            name,
        }
    }

    /// The identity as text: owner, `/`, name.
    pub fn to_string(&self) -> (r: String)
        ensures
            r@ == self.owner@ + "/"@ + self.name@,
    {
        concat3(self.owner.as_str(), "/", self.name.as_str())
    }

    /// Reads `owner/name`. The owner is what stands before the first `/`,
    /// the name what follows it. A text without `/`, or with nothing after
    /// the first `/`, is refused.
    pub fn parse(s: &str) -> (r: Result<FullRepoId, RepoIdError>)
        ensures
            match r {
                Ok(id) => {
                    &&& is_first(s@, '/', id.owner@.len() as int)
                    &&& id.owner@ == s@.take(id.owner@.len() as int)
                    &&& id.name@ == s@.skip(id.owner@.len() as int + 1)
                    &&& id.name@.len() > 0
                },
                Err(e) => {
                    &&& forall|i: int| is_first(s@, '/', i) ==> i + 1 == s@.len()
                    &&& e.0@ == full_format_message(s@)
                },
            },
    {
        match split_at_slash(s) {
            Some((owner, name)) => {
                if name.as_str().is_empty() {
                    Err(full_format_error(s))
                } else {
                    Ok(FullRepoId { owner, name })
                }
            },
            None => Err(full_format_error(s)),
        }
    }
}

fn full_format_error(s: &str) -> (e: RepoIdError)
    ensures
        e.0@ == full_format_message(s@),
{
    RepoIdError(concat3("Expecting in `:owner/:name` format, but was `", s, "`."))
}

impl FromStr for FullRepoId {
    type Err = RepoIdError;

    /// Reads `owner/name`, as `FullRepoId::parse` does.
    fn from_str(s: &str) -> (r: Result<Self, Self::Err>)
        ensures
            match r {
                Ok(id) => {
                    &&& is_first(s@, '/', id.owner@.len() as int)
                    &&& id.owner@ == s@.take(id.owner@.len() as int)
                    &&& id.name@ == s@.skip(id.owner@.len() as int + 1)
                    &&& id.name@.len() > 0
                },
                Err(e) => {
                    &&& forall|i: int| is_first(s@, '/', i) ==> i + 1 == s@.len()
                    &&& e.0@ == full_format_message(s@)
                },
            },
    {
        FullRepoId::parse(s)
    }
}

impl PartialRepoId {
    /// The full identity, with `default_owner` where no owner is named.
    pub fn complete(self, default_owner: &str) -> (r: FullRepoId)
        ensures
            r.name == self.name,
            r.owner@ == match self.owner {
                Some(owner) => owner@,
                None => default_owner@,
            },
    {
        FullRepoId::from_partial(self, owned(default_owner))
    }

    /// Reads `owner/name` or a name alone. A text without `/` is a name
    /// without owner. A text with nothing after its first `/` is refused.
    pub fn parse(s: &str) -> (r: Result<PartialRepoId, RepoIdError>)
        ensures
            match r {
                Ok(id) => match id.owner {
                    Some(owner) => {
                        &&& is_first(s@, '/', owner@.len() as int)
                        &&& owner@ == s@.take(owner@.len() as int)
                        &&& id.name@ == s@.skip(owner@.len() as int + 1)
                        &&& id.name@.len() > 0
                    },
                    None => !s@.contains('/') && id.name@ == s@,
                },
                Err(e) => {
                    &&& exists|i: int| is_first(s@, '/', i) && i + 1 == s@.len()
                    &&& e.0@ == partial_format_message(s@)
                },
            },
    {
        match split_at_slash(s) {
            Some((owner, name)) => {
                if name.as_str().is_empty() {
                    assert(is_first(s@, '/', owner@.len() as int));
                    Err(
                        RepoIdError(
                            concat3("Expecting in `:owner?/:name` format, but was `", s, "`."),
                        ),
                    )
                } else {
                    Ok(PartialRepoId { owner: Some(owner), name })
                }
            },
            None => Ok(PartialRepoId { owner: None, name: owned(s) }),
        }
    }
}

impl FromStr for PartialRepoId {
    type Err = RepoIdError;

    /// Reads `owner/name` or a name alone, as `PartialRepoId::parse` does.
    fn from_str(s: &str) -> (r: Result<Self, Self::Err>)
        ensures
            match r {
                Ok(id) => match id.owner {
                    Some(owner) => {
                        &&& is_first(s@, '/', owner@.len() as int)
                        &&& owner@ == s@.take(owner@.len() as int)
                        &&& id.name@ == s@.skip(owner@.len() as int + 1)
                        &&& id.name@.len() > 0
                    },
                    None => !s@.contains('/') && id.name@ == s@,
                },
                Err(e) => {
                    &&& exists|i: int| is_first(s@, '/', i) && i + 1 == s@.len()
                    &&& e.0@ == partial_format_message(s@)
                },
            },
    {
        PartialRepoId::parse(s)
    }
}

/// An identity written as text and read back is the same identity, as long
/// as the owner holds no `/` and the name is not empty.
pub proof fn lemma_text_determines_id(owner: Seq<char>, name: Seq<char>)
    requires
        !owner.contains('/'),
        name.len() > 0,
    ensures
        is_first(owner + "/"@ + name, '/', owner.len() as int),
        (owner + "/"@ + name).take(owner.len() as int) == owner,
        (owner + "/"@ + name).skip(owner.len() as int + 1) == name,
{
    reveal_strlit("/");
    let s = owner + "/"@ + name;
    assert(s[owner.len() as int] == '/');
    assert forall|j: int| 0 <= j < owner.len() implies s[j] != '/' by {
        assert(s[j] == owner[j]);
        assert(owner.contains(owner[j]));
    }
    assert(s.take(owner.len() as int) =~= owner);
    assert(s.skip(owner.len() as int + 1) =~= name);
}

/// A borrowed identity.
#[derive(Debug, PartialEq, Eq)]
pub struct RepositoryId<'a> {
    owner: &'a str,
    name: &'a str,
}

impl<'a> RepositoryId<'a> {
    pub fn new(owner: &'a str, name: &'a str) -> (r: Self)
        ensures
            r.owner_text() == owner@,
            r.name_text() == name@,
    {
        RepositoryId { owner, name }
    }
}

/// What has the identity of a repository.
pub trait IsRepositoryId {
    /// The owner.
    spec fn owner_text(&self) -> Seq<char>;

    /// The name.
    spec fn name_text(&self) -> Seq<char>;

    fn owner(&self) -> (r: &str)
        ensures
            r@ == self.owner_text(),
    ;

    fn name(&self) -> (r: &str)
        ensures
            r@ == self.name_text(),
    ;
}

/// What has the name of a repository and may have its owner.
pub trait IsPartialRepositoryId {
    /// The owner, where there is one.
    spec fn partial_owner_text(&self) -> Option<Seq<char>>;

    /// The name.
    spec fn partial_name_text(&self) -> Seq<char>;

    fn owner(&self) -> (r: Option<&str>)
        ensures
            match r {
                Some(owner) => self.partial_owner_text() == Some(owner@),
                None => self.partial_owner_text() is None,
            },
    ;

    fn name(&self) -> (r: &str)
        ensures
            r@ == self.partial_name_text(),
    ;
}

impl IsRepositoryId for RepositoryId<'_> {
    closed spec fn owner_text(&self) -> Seq<char> {
        self.owner@
    }

    closed spec fn name_text(&self) -> Seq<char> {
        self.name@
    }

    fn owner(&self) -> (r: &str) {
        self.owner
    }

    fn name(&self) -> (r: &str) {
        self.name
    }
}

impl<T: IsRepositoryId> IsPartialRepositoryId for T {
    open spec fn partial_owner_text(&self) -> Option<Seq<char>> {
        Some(self.owner_text())
    }

    open spec fn partial_name_text(&self) -> Seq<char> {
        self.name_text()
    }

    fn owner(&self) -> (r: Option<&str>) {
        Some(IsRepositoryId::owner(self))
    }

    fn name(&self) -> (r: &str) {
        IsRepositoryId::name(self)
    }
}

} // verus!
