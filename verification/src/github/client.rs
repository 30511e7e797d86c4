//! Where the client sends its requests, and how it finds the next page of
//! an answer that comes in pages.

use super::requests::RepositoryType;
use crate::text::{concat3, signed_decimal, signed_decimal_string, str_eq};
use vstd::prelude::*;
use vstd::string::StringExecFns;

verus! {

/// A way to prove to the remote service who the client is.
pub trait Authentication {
    /// The value of the HTTP header `Authorization`.
    spec fn authz_value(&self) -> Seq<char>;

    /// Encode authentication into HTTP authorization header.
    fn to_authz_value(&self) -> (r: String)
        ensures
            r@ == self.authz_value(),
    ;
}

/// One parameter of a link of an answer's `Link` header.
#[derive(PartialEq, Eq, Clone, Debug)]
pub struct Param {
    pub name: String,
    pub value: Option<String>,
}

/// One link of an answer's `Link` header.
#[derive(PartialEq, Eq, Clone, Debug)]
pub struct Link {
    pub uri: String,
    pub params: Vec<Param>,
}

/// The parameter says that its link leads to the next page.
pub open spec fn is_rel_next(param: Param) -> bool {
    param.name@ == "rel"@ && match param.value {
        Some(v) => v@ == "next"@,
        None => false,
    }
}

/// The link leads to the next page: one of its parameters says so.
pub open spec fn leads_on(link: Link) -> bool {
    exists|k: int| 0 <= k < link.params@.len() && is_rel_next(#[trigger] link.params@[k])
}

/// Whether `link` leads to the next page.
pub fn is_next_link(link: &Link) -> (b: bool)
    ensures
        b == leads_on(*link),
{
    let mut k: usize = 0;
    while k < link.params.len()
        invariant
            k <= link.params@.len(),
            forall|j: int| 0 <= j < k ==> !is_rel_next(#[trigger] link.params@[j]),
        decreases link.params@.len() - k,
    {
        let param = &link.params[k];
        let next = str_eq(param.name.as_str(), "rel") && match &param.value {
            Some(v) => str_eq(v.as_str(), "next"),
            None => false,
        };
        if next {
            return true;
        }
        k = k + 1;
    }
    false
}

/// The address of the next page of an answer with the links `links`: that
/// of the first link that leads to the next page, or `None` where no link
/// does, which is the case on the last page.
pub fn get_next_page_url(links: &Vec<Link>) -> (r: Option<String>)
    ensures
        match r {
            Some(uri) => exists|i: int|
                0 <= i < links@.len() && leads_on(#[trigger] links@[i]) && links@[i].uri@ == uri@
                    && forall|j: int| 0 <= j < i ==> !leads_on(#[trigger] links@[j]),
            None => forall|i: int| 0 <= i < links@.len() ==> !leads_on(#[trigger] links@[i]),
        },
{
    let mut i: usize = 0;
    while i < links.len()
        invariant
            i <= links@.len(),
            forall|j: int| 0 <= j < i ==> !leads_on(#[trigger] links@[j]),
        decreases links@.len() - i,
    {
        if is_next_link(&links[i]) {
            return Some(links[i].uri.clone());
        }
        i = i + 1;
    }
    None
}

/// The path of the workflow runs of a repository.
pub fn workflow_runs_path(owner: &str, repo: &str) -> (r: String)
    ensures
        r@ == "/repos/"@ + owner@ + "/"@ + repo@ + "/actions/runs"@,
{
    let mut r = concat3("/repos/", owner, "/");
    r.append(repo);
    r.append("/actions/runs");
    r
}

/// The path of one workflow run of a repository.
pub fn workflow_run_path(owner: &str, repo: &str, run_id: i32) -> (r: String)
    ensures
        r@ == "/repos/"@ + owner@ + "/"@ + repo@ + "/actions/runs"@ + "/"@ + signed_decimal(
            run_id as int,
        ),
{
    let mut r = workflow_runs_path(owner, repo);
    r.append("/");
    r.append(signed_decimal_string(run_id as i64).as_str());
    r
}

/// The path of a repository.
pub fn repository_path(owner: &str, repo: &str) -> (r: String)
    ensures
        r@ == "/repos/"@ + owner@ + "/"@ + repo@,
{
    let mut r = concat3("/repos/", owner, "/");
    r.append(repo);
    r
}

/// The path of the repositories of an organization.
pub fn organization_repositories_path(organization: &str) -> (r: String)
    ensures
        r@ == "/orgs/"@ + organization@ + "/repos"@,
{
    concat3("/orgs/", organization, "/repos")
}

/// The parameters of a request for the user's repositories: the kind, where
/// one is asked for, and a hundred repositories to the page.
pub fn my_repositories_query(kind: Option<RepositoryType>) -> (r: Vec<(&'static str, &'static str)>)
    ensures
        match kind {
            Some(k) => {
                &&& r@.len() == 2
                &&& r@[0].0@ == "type"@
                &&& r@[0].1@ == k.word()
                &&& r@[1].0@ == "per_page"@
                &&& r@[1].1@ == "100"@
            },
            None => {
                &&& r@.len() == 1
                &&& r@[0].0@ == "per_page"@
                &&& r@[0].1@ == "100"@
            },
        },
{
    let mut r: Vec<(&'static str, &'static str)> = Vec::new();
    match kind {
        Some(k) => {
            r.push(("type", k.to_str()));
        },
        None => {},
    }
    r.push(("per_page", "100"));
    r
}

} // verus!
