//! The routes of the remote service that the client asks, and how it walks
//! the pages of the list of the user's tasks.

use crate::text::{concat3, decimal, decimal_string, owned, str_eq};
use vstd::prelude::*;
use vstd::string::StringExecFns;

verus! {

/// The route `base` for the page `page_num`: `base` itself for the first
/// request, which names no page, and `base` with the page number after it
/// for the others. `base` holds a query already.
pub open spec fn paged_route(base: Seq<char>, page_num: Option<u64>) -> Seq<char> {
    match page_num {
        Some(n) => base + "&page="@ + decimal(n as nat),
        None => base,
    }
}

/// The route `base` for the page `page_num`.
pub fn paged(base: &str, page_num: Option<u64>) -> (r: String)
    ensures
        r@ == paged_route(base@, page_num),
{
    match page_num {
        Some(n) => concat3(base, "&page=", decimal_string(n).as_str()),
        None => owned(base),
    }
}

/// The page to ask for after the page `page_num` has reported that more
/// follow. The request without a page number returns page 1.
pub fn next_page_num(page_num: Option<u64>) -> (r: Option<u64>)
    requires
        page_num matches Some(n) ==> n < u64::MAX,
    ensures
        r == Some(
            (match page_num {
                Some(n) => n + 1,
                None => 2,
            }) as u64,
        ),
{
    match page_num {
        Some(n) => Some(n + 1),
        None => Some(2),
    }
}

/// The route of the repositories that the user owns, the one pushed to last
/// first, a hundred to the page.
pub fn owned_repositories_route(page_num: Option<u64>) -> (r: String)
    ensures
        r@ == paged_route("user/repos?type=owner&sort=pushed&per_page=100"@, page_num),
{
    paged("user/repos?type=owner&sort=pushed&per_page=100", page_num)
}

/// The route of the repositories that the user has starred, the one updated
/// last first, a hundred to the page.
pub fn starred_repositories_route(page_num: Option<u64>) -> (r: String)
    ensures
        r@ == paged_route("user/starred?sort=updated&per_page=100"@, page_num),
{
    paged("user/starred?sort=updated&per_page=100", page_num)
}

/// The route of the commits of a repository, a hundred to the page.
pub fn repository_commits_route(owner: &str, name: &str, page_num: Option<u64>) -> (r: String)
    ensures
        r@ == paged_route(
            "repos/"@ + owner@ + "/"@ + name@ + "/commits?per_page=100"@,
            page_num,
        ),
{
    let mut base = concat3("repos/", owner, "/");
    base.append(name);
    base.append("/commits?per_page=100");
    paged(base.as_str(), page_num)
}

/// The route of the commits of a repository, of which the first is the
/// latest.
pub fn latest_commit_route(owner: &str, name: &str) -> (r: String)
    ensures
        r@ == "repos/"@ + owner@ + "/"@ + name@ + "/commits"@,
{
    let mut r = concat3("repos/", owner, "/");
    r.append(name);
    r.append("/commits");
    r
}

/// The route of the check runs of a commit, a hundred to the page.
pub fn check_runs_route(owner: &str, name: &str, gitref: &str) -> (r: String)
    ensures
        r@ == "repos/"@ + owner@ + "/"@ + name@ + "/commits/"@ + gitref@
            + "/check-runs?per_page=100"@,
{
    let mut r = concat3("repos/", owner, "/");
    r.append(name);
    r.append("/commits/");
    r.append(gitref);
    r.append("/check-runs?per_page=100");
    r
}

/// Whether the message of an error of the remote service says that what
/// was asked for does not exist.
pub fn is_not_found(message: &str) -> (b: bool)
    ensures
        b == (message@ == "Not Found"@),
{
    str_eq(message, "Not Found")
}

/// What is said of a repository that the remote service does not know.
/// `repo_id` is its identity as text.
pub fn repository_missing_message(repo_id: &str) -> (r: String)
    ensures
        r@ == "Repository "@ + repo_id@ + " does not exist."@,
{
    concat3("Repository ", repo_id, " does not exist.")
}

/// The route of the repositories that the user owns, the one updated last
/// first, a hundred to the page.
pub fn authenticated_repositories_route(page_num: Option<u64>) -> (r: String)
    ensures
        r@ == paged_route(
            "user/repos?affiliation=owner&sort=updated&direction=desc&per_page=100"@,
            page_num,
        ),
{
    paged("user/repos?affiliation=owner&sort=updated&direction=desc&per_page=100", page_num)
}

/// Where the client stands in the pages of the list of the user's tasks.
#[derive(PartialEq, Eq, Copy, Clone, Debug, Structural)]
pub enum PageNum {
    /// Nothing was asked for yet. The first request names no page and is
    /// answered with page 1.
    Init,
    /// The page with this number is the next to ask for.
    Num(u64),
    /// The last page was read.
    End,
}

impl PageNum {
    /// The position after this one: page 2 at the start, since the first
    /// request is answered with page 1, and the following page after a page.
    pub open spec fn spec_succ(self) -> PageNum {
        match self {
            PageNum::Init => PageNum::Num(2),
            PageNum::Num(x) => PageNum::Num((x + 1) as u64),
            PageNum::End => PageNum::End,
        }
    }

    /// The position after this one. There is none after the end, nor after
    /// the last page whose number can be written down.
    pub fn succ(self) -> (r: PageNum)
        requires
            !(self is End),
            self matches PageNum::Num(x) ==> x < u64::MAX,
        ensures
            r == self.spec_succ(),
            r is Num,
    {
        match self {
            PageNum::Init => PageNum::Num(2),
            PageNum::Num(x) => PageNum::Num(x + 1),
            PageNum::End => PageNum::End,
        }
    }

    /// The position after the page at this one was read: the next page
    /// where the answer led on to one, the end where it did not.
    pub fn after_page(self, has_next: bool) -> (r: PageNum)
        requires
            has_next ==> !(self is End) && (self matches PageNum::Num(x) ==> x < u64::MAX),
        ensures
            r == if has_next {
                self.spec_succ()
            } else {
                PageNum::End
            },
    {
        if has_next {
            self.succ()
        } else {
            PageNum::End
        }
    }

    /// The page number that a request at this position carries.
    pub open spec fn page(self) -> Option<u64> {
        match self {
            PageNum::Num(x) => Some(x),
            _ => None,
        }
    }

    /// The route of the user's tasks at this position, a hundred to the
    /// page, or `None` at the end.
    pub fn issues_route(self) -> (r: Option<String>)
        ensures
            match self {
                PageNum::End => r is None,
                _ => r matches Some(route) && route@ == paged_route(
                    "issues?per_page=100"@,
                    self.page(),
                ),
            },
    {
        match self {
            PageNum::Init => Some(paged("issues?per_page=100", None)),
            PageNum::Num(x) => Some(paged("issues?per_page=100", Some(x))),
            PageNum::End => None,
        }
    }
}

/// The pages of the task list are asked for one after the other, none
/// twice: the first request is answered with page 1, and each position
/// after it asks for the page after the one before.
pub proof fn lemma_task_pages_follow(position: PageNum)
    requires
        !(position is End),
        position matches PageNum::Num(x) ==> x < u64::MAX,
    ensures
        position.spec_succ().page() == Some(
            (match position.page() {
                Some(x) => x + 1,
                None => 2,
            }) as u64,
        ),
{
}

} // verus!
