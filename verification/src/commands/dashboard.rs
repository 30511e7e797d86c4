//! The dashboard: the user's repositories, each with its build status.
//!
//! This module decides which repositories of a listing the dashboard shows,
//! how the status of one repository is looked up, and how the table is laid
//! out. `crate::refresh` puts the steps of one refresh in order.

use crate::github_models::{GhCheckRun, GhCommit, GhRepository};
use crate::reducer::{reduce, summary};
use crate::text::{blanks, concat3, display_width, owned, spaces, str_eq, width};
use crate::types::{flag, flag_or_false, BuildStatus, MissingOwnerError, Repository, RepositoryView};
use vstd::prelude::*;

verus! {

/// How many spaces stand between the widest name and the status column.
pub const COLUMN_MARGIN: usize = 2;

/// The dashboard of `username` shows `repo`: it is owned by `username` and
/// is neither a fork nor archived.
pub open spec fn shown(repo: GhRepository, username: Seq<char>) -> bool {
    repo.owner_login() == Some(username) && !flag(repo.fork) && !flag(repo.archived)
}

/// The record under which `repo` is cached. A repository that names no owner
/// is taken to be owned by `username`. The record has no build status yet.
pub open spec fn record_of(repo: GhRepository, username: Seq<char>) -> RepositoryView {
    RepositoryView {
        name: repo.name@,
        owner: match repo.owner_login() {
            Some(login) => login,
            None => username,
        },
        a_fork: flag(repo.fork),
        archived: flag(repo.archived),
        build_status: None,
    }
}

/// The records of the repositories of `listing` that the dashboard of
/// `username` shows, in the order of the listing.
pub open spec fn selected(listing: Seq<GhRepository>, username: Seq<char>) -> Seq<RepositoryView>
    decreases listing.len(),
{
    if listing.len() == 0 {
        Seq::empty()
    } else {
        let before = selected(listing.drop_last(), username);
        if shown(listing.last(), username) {
            before.push(record_of(listing.last(), username))
        } else {
            before
        }
    }
}

/// Whether the dashboard of `username` shows `repo`.
pub fn is_shown(repo: &GhRepository, username: &str) -> (b: bool)
    ensures
        b == shown(*repo, username@),
{
    let owned_by_user = match &repo.owner {
        Some(user) => str_eq(user.login.as_str(), username),
        None => false,
    };
    owned_by_user && !flag_or_false(repo.fork) && !flag_or_false(repo.archived)
}

/// The record under which `repo` is cached.
pub fn to_record(repo: &GhRepository, username: &str) -> (r: Repository)
    ensures
        r@ == record_of(*repo, username@),
{
    Repository {
        name: repo.name.clone(),
        owner: match &repo.owner {
            Some(user) => user.login.clone(),
            None => owned(username),
        },
        a_fork: flag_or_false(repo.fork),
        archived: flag_or_false(repo.archived),
        build_status: None,
    }
}

/// The records of the repositories of `listing` that the dashboard of
/// `username` shows, in the order of the listing.
pub fn select_repositories(listing: &Vec<GhRepository>, username: &str) -> (r: Vec<Repository>)
    ensures
        crate::database::views(r@) == selected(listing@, username@),
{
    let mut out: Vec<Repository> = Vec::new();
    let mut k: usize = 0;
    assert(listing@.take(0) =~= Seq::empty());
    assert(crate::database::views(out@) =~= Seq::empty());
    while k < listing.len()
        invariant
            k <= listing@.len(),
            crate::database::views(out@) == selected(listing@.take(k as int), username@),
        decreases listing@.len() - k,
    {
        assert(listing@.take(k + 1).drop_last() =~= listing@.take(k as int));
        if is_shown(&listing[k], username) {
            let record = to_record(&listing[k], username);
            assert(crate::database::views(out@.push(record)) =~= crate::database::views(
                out@,
            ).push(record@));
            out.push(record);
        }
        k = k + 1;
    }
    assert(listing@.take(k as int) =~= listing@);
    out
}

/// The record for each repository of `listing`, where every one names its
/// owner.
pub open spec fn all_records(listing: Seq<GhRepository>) -> Seq<RepositoryView> {
    Seq::new(
        listing.len(),
        |i: int|
            RepositoryView {
                name: listing[i].name@,
                owner: listing[i].owner_login()->0,
                a_fork: flag(listing[i].fork),
                archived: flag(listing[i].archived),
                build_status: None,
            },
    )
}

/// The record for each repository of `listing`, in the order of the listing.
/// Fails where a repository names no owner.
pub fn records_from_listing(listing: Vec<GhRepository>) -> (r: Result<
    Vec<Repository>,
    MissingOwnerError,
>)
    ensures
        match r {
            Ok(records) => {
                &&& forall|i: int| 0 <= i < listing@.len() ==> listing@[i].owner is Some
                &&& crate::database::views(records@) == all_records(listing@)
            },
            Err(_) => exists|i: int| 0 <= i < listing@.len() && listing@[i].owner is None,
        },
{
    let mut rest = listing;
    let mut reversed: Vec<Repository> = Vec::new();
    let ghost all = rest@;
    // The listing is taken apart from its end, so the records come out in
    // reverse and are turned round below.
    while rest.len() > 0
        invariant
            all == listing@,
            rest@.len() + reversed@.len() == all.len(),
            forall|i: int| 0 <= i < rest@.len() ==> rest@[i] == all[i],
            forall|i: int| rest@.len() <= i < all.len() ==> all[i].owner is Some,
            forall|j: int|
                0 <= j < reversed@.len() ==> (#[trigger] reversed@[j])@ == all_records(all)[all.len()
                    - 1 - j],
        decreases rest@.len(),
    {
        let repo = rest.pop().unwrap();
        match Repository::try_from(repo) {
            Ok(record) => {
                reversed.push(record);
            },
            Err(e) => {
                assert(listing@[rest@.len() as int].owner is None);
                return Err(e);
            },
        }
    }
    let mut records: Vec<Repository> = Vec::new();
    while reversed.len() > 0
        invariant
            records@.len() + reversed@.len() == all.len(),
            forall|j: int|
                0 <= j < reversed@.len() ==> (#[trigger] reversed@[j])@ == all_records(all)[all.len()
                    - 1 - j],
            forall|i: int|
                0 <= i < records@.len() ==> (#[trigger] records@[i])@ == all_records(all)[i],
        decreases reversed@.len(),
    {
        let record = reversed.pop().unwrap();
        records.push(record);
    }
    assert(crate::database::views(records@) =~= all_records(all));
    Ok(records)
}

/// The test for a record that the dashboard shows: it is neither a fork nor
/// archived.
pub open spec fn on_dashboard() -> spec_fn(RepositoryView) -> bool {
    |r: RepositoryView| r.on_dashboard()
}

/// Those of `records` that the dashboard shows, in their order.
pub open spec fn shown_records(records: Seq<RepositoryView>) -> Seq<RepositoryView> {
    records.filter(on_dashboard())
}

/// Those of `records` that are neither forks nor archived, in their order.
pub fn keep_shown(records: &Vec<Repository>) -> (r: Vec<Repository>)
    ensures
        crate::database::views(r@) == shown_records(crate::database::views(records@)),
{
    let mut out: Vec<Repository> = Vec::new();
    let mut k: usize = 0;
    let ghost all = crate::database::views(records@);
    proof {
        reveal(Seq::filter);
        assert(all.take(0) =~= Seq::empty());
        assert(crate::database::views(out@) =~= Seq::empty());
    }
    while k < records.len()
        invariant
            k <= records@.len(),
            all == crate::database::views(records@),
            crate::database::views(out@) == all.take(k as int).filter(on_dashboard()),
        decreases records@.len() - k,
    {
        let record = &records[k];
        proof {
            let upto = all.take(k + 1);
            let test = on_dashboard();
            assert(upto.drop_last() =~= all.take(k as int));
            assert(upto.last() == record@);
            reveal(Seq::filter);
            assert(upto.filter(test) == if test(upto.last()) {
                upto.drop_last().filter(test).push(upto.last())
            } else {
                upto.drop_last().filter(test)
            });
            assert(test(record@) == record@.on_dashboard());
        }
        if !record.a_fork && !record.archived {
            assert(crate::database::views(out@.push(*record)) =~= crate::database::views(
                out@,
            ).push(record@));
            out.push(record.clone());
        }
        k = k + 1;
    }
    assert(all.take(k as int) =~= all);
    out
}

/// Where the lookup of one repository's build status stands.
#[derive(Debug, Clone, PartialEq, Eq)]
pub enum StatusLookup {
    /// The latest commit has to be fetched.
    NeedCommit,
    /// The check runs of the commit with this hash have to be fetched.
    NeedRuns(String),
    /// The lookup has ended with this status, or with none.
    Done(Option<BuildStatus>),
}

impl StatusLookup {
    /// A lookup that has fetched nothing yet.
    pub fn start() -> (r: StatusLookup)
        ensures
            r is NeedCommit,
    {
        StatusLookup::NeedCommit
    }

    /// Takes the latest commit of the repository, or `None` where it has no
    /// commit. Without a commit there is no status; with one, its check runs
    /// are needed.
    pub fn commit_fetched(self, commit: Option<GhCommit>) -> (r: StatusLookup)
        requires
            self is NeedCommit,
        ensures
            match commit {
                Some(c) => r == StatusLookup::NeedRuns(c.sha),
                None => r == StatusLookup::Done(None),
            },
    {
        match commit {
            Some(c) => StatusLookup::NeedRuns(c.sha),
            None => StatusLookup::Done(None),
        }
    }

    /// Takes the check runs of the commit and ends the lookup with their
    /// summary.
    pub fn runs_fetched(self, runs: &Vec<GhCheckRun>) -> (r: StatusLookup)
        requires
            self is NeedRuns,
        ensures
            r == StatusLookup::Done(summary(runs@)),
    {
        StatusLookup::Done(reduce(runs))
    }

    /// What a lookup comes to whose fetch of the commit or of the check runs
    /// has failed: the error of that fetch, as it is.
    pub fn fetch_failed<E>(self, error: E) -> (r: Result<Option<BuildStatus>, E>)
        requires
            self is NeedCommit || self is NeedRuns,
        ensures
            r == Err::<Option<BuildStatus>, E>(error),
    {
        Err(error)
    }

    /// What a lookup that has ended comes to: its status, or none.
    pub fn outcome<E>(self) -> (r: Result<Option<BuildStatus>, E>)
        requires
            self is Done,
        ensures
            r == Ok::<Option<BuildStatus>, E>(self->Done_0),
    {
        match self {
            StatusLookup::Done(status) => Ok(status),
            _ => Ok(None),
        }
    }
}

/// The text of a build status on the dashboard: its name, or nothing where
/// there is none.
pub open spec fn status_text(status: Option<BuildStatus>) -> Seq<char> {
    match status {
        Some(s) => s.name(),
        None => Seq::empty(),
    }
}

/// Name and status text of each of `repos`.
pub fn dashboard_rows(repos: &Vec<Repository>) -> (rows: Vec<(String, String)>)
    ensures
        rows@.len() == repos@.len(),
        forall|i: int|
            0 <= i < repos@.len() ==> (#[trigger] rows@[i]).0@ == repos@[i].name@ && rows@[i].1@
                == status_text(repos@[i].build_status),
{
    let mut rows: Vec<(String, String)> = Vec::new();
    let mut k: usize = 0;
    while k < repos.len()
        invariant
            k <= repos@.len(),
            rows@.len() == k,
            forall|i: int|
                0 <= i < k ==> (#[trigger] rows@[i]).0@ == repos@[i].name@ && rows@[i].1@
                    == status_text(repos@[i].build_status),
        decreases repos@.len() - k,
    {
        let status = match &repos[k].build_status {
            Some(s) => s.to_string(),
            None => String::new(),
        };
        rows.push((repos[k].name.clone(), status));
        k = k + 1;
    }
    rows
}

/// The largest of `widths`, and 0 where there is none.
pub open spec fn widest(widths: Seq<usize>) -> nat
    decreases widths.len(),
{
    if widths.len() == 0 {
        0
    } else {
        let before = widest(widths.drop_last());
        if widths.last() > before {
            widths.last() as nat
        } else {
            before
        }
    }
}

/// One line of the table: the name, filled with spaces up to a column of
/// `column` places, the margin, and the status. `name_width` says how many
/// places the name takes.
pub open spec fn table_line(
    name: Seq<char>,
    status: Seq<char>,
    name_width: nat,
    column: nat,
) -> Seq<char> {
    name + blanks((column - name_width) as nat) + blanks(COLUMN_MARGIN as nat) + status
}

/// No width is larger than the largest.
pub proof fn lemma_widest_bounds(widths: Seq<usize>, i: int)
    requires
        0 <= i < widths.len(),
    ensures
        widths[i] <= widest(widths) <= usize::MAX,
    decreases widths.len(),
{
    let before = widths.drop_last();
    if i < widths.len() - 1 {
        lemma_widest_bounds(before, i);
        assert(before[i] == widths[i]);
    } else if widths.len() > 1 {
        lemma_widest_bounds(before, 0);
    } else {
        assert(widest(before) == 0);
    }
}

fn largest(widths: &Vec<usize>) -> (m: usize)
    ensures
        m == widest(widths@),
{
    let mut m: usize = 0;
    let mut k: usize = 0;
    assert(widths@.take(0) =~= Seq::empty());
    while k < widths.len()
        invariant
            k <= widths@.len(),
            m == widest(widths@.take(k as int)),
        decreases widths@.len() - k,
    {
        assert(widths@.take(k + 1).drop_last() =~= widths@.take(k as int));
        if widths[k] > m {
            m = widths[k];
        }
        k = k + 1;
    }
    assert(widths@.take(k as int) =~= widths@);
    m
}

/// Lays out the table: `rows` holds name and status of each line, `widths`
/// how many places each name takes. Every status starts in the same column,
/// `COLUMN_MARGIN` places after the end of the widest name.
pub fn render_columns(rows: &Vec<(String, String)>, widths: &Vec<usize>) -> (lines: Vec<String>)
    requires
        widths@.len() == rows@.len(),
    ensures
        lines@.len() == rows@.len(),
        forall|i: int|
            0 <= i < rows@.len() ==> (#[trigger] lines@[i])@ == table_line(
                rows@[i].0@,
                rows@[i].1@,
                widths@[i] as nat,
                widest(widths@),
            ),
{
    let column = largest(widths);
    let mut lines: Vec<String> = Vec::new();
    let mut k: usize = 0;
    while k < rows.len()
        invariant
            widths@.len() == rows@.len(),
            column == widest(widths@),
            k <= rows@.len(),
            lines@.len() == k,
            forall|i: int|
                0 <= i < k ==> (#[trigger] lines@[i])@ == table_line(
                    rows@[i].0@,
                    rows@[i].1@,
                    widths@[i] as nat,
                    widest(widths@),
                ),
        decreases rows@.len() - k,
    {
        proof {
            lemma_widest_bounds(widths@, k as int);
        }
        let fill = spaces(column - widths[k]);
        let margin = spaces(COLUMN_MARGIN);
        let mut line = concat3(rows[k].0.as_str(), fill.as_str(), margin.as_str());
        vstd::string::StringExecFns::append(&mut line, rows[k].1.as_str());
        lines.push(line);
        k = k + 1;
    }
    lines
}

/// How many places each name of `rows` takes on screen.
pub open spec fn name_widths(rows: Seq<(String, String)>) -> Seq<usize> {
    Seq::new(rows.len(), |i: int| width(rows[i].0@) as usize)
}

/// Lays out the table for `rows`, which holds name and status of each line.
/// A name takes one place for each of its grapheme clusters.
pub fn render_dashboard(rows: &Vec<(String, String)>) -> (lines: Vec<String>)
    ensures
        lines@.len() == rows@.len(),
        forall|i: int|
            0 <= i < rows@.len() ==> (#[trigger] lines@[i])@ == table_line(
                rows@[i].0@,
                rows@[i].1@,
                width(rows@[i].0@),
                widest(name_widths(rows@)),
            ),
{
    let mut widths: Vec<usize> = Vec::new();
    let mut k: usize = 0;
    while k < rows.len()
        invariant
            k <= rows@.len(),
            widths@.len() == k,
            forall|i: int| 0 <= i < k ==> widths@[i] == width(rows@[i].0@),
        decreases rows@.len() - k,
    {
        widths.push(display_width(rows[k].0.as_str()));
        k = k + 1;
    }
    assert(widths@ =~= name_widths(rows@));
    render_columns(rows, &widths)
}

} // verus!
