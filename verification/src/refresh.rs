//! One refresh of the dashboard, step by step.
//!
//! A refresh goes through five phases: it starts `Idle`; once the list of
//! repositories is in the cache it is `ListLoaded`; once the build statuses
//! have come back, `StatusesFetched`; once they are written to the cache,
//! `Persisted`; and once the table is laid out, `Rendered`. `Refresh` owns
//! the cache for the time of the refresh and does every read and write of it.
//! Fetching from the remote service is the caller's part: each step says
//! what it needs and takes what the caller has fetched.
//!
//! A refresh that only shows what is cached goes from `ListLoaded` straight
//! to `Rendered`.

use crate::commands::dashboard::{
    all_records, dashboard_rows, keep_shown, name_widths, records_from_listing, render_dashboard,
    selected, select_repositories, shown_records, status_text, table_line, widest,
};
use crate::database::{views, CacheError, CacheState, Database, StatusUpdate};
use crate::fetcher::Fetched;
use crate::github_models::GhRepository;
use crate::text::{owned, texts, width};
use crate::types::{BuildStatus, MissingOwnerError, Repository, RepositoryView};
use vstd::prelude::*;

verus! {

/// How far a refresh has come.
#[derive(Debug, PartialEq, Eq, Clone, Copy, Structural)]
pub enum Phase {
    Idle,
    ListLoaded,
    StatusesFetched,
    Persisted,
    Rendered,
}

/// What the look into the cache at the start of a refresh has found.
#[derive(Debug, PartialEq, Eq, Clone, Copy, Structural)]
pub enum ListStep {
    /// The cache holds repositories of the user: the list is loaded, and
    /// the remote listing is not fetched.
    Loaded,
    /// The cache holds none: the remote listing has to be fetched and
    /// handed to `Refresh::store_listing`.
    FetchListing,
}

/// Why a step of a refresh failed.
#[derive(Debug, PartialEq, Eq, Clone, Copy, Structural)]
pub enum RefreshError {
    /// The cache refused the operation.
    Cache(CacheError),
    /// A repository of the listing names no owner.
    MissingOwner,
}

impl RefreshError {
    pub fn to_string(&self) -> (r: String)
        ensures
            r@ == match *self {
                RefreshError::Cache(_) => "no such table: repositories"@,
                RefreshError::MissingOwner => "owner can not be none, was `None`"@,
            },
    {
        match self {
            RefreshError::Cache(e) => e.to_string(),
            RefreshError::MissingOwner => MissingOwnerError.to_string(),
        }
    }
}

/// The updates that the fetched statuses `fetched` ask for, where each is
/// for the repository at its place in `targets`.
pub open spec fn updates_for(targets: Seq<RepositoryView>, fetched: Seq<Fetched>) -> Seq<
    StatusUpdate,
> {
    Seq::new(
        fetched.len(),
        |i: int|
            StatusUpdate {
                owner: targets[fetched[i].0 as int].owner,
                name: targets[fetched[i].0 as int].name,
                status: fetched[i].1,
            },
    )
}

/// How many places the name of each of `rows` takes on screen.
pub open spec fn widths_of(rows: Seq<RepositoryView>) -> Seq<usize> {
    Seq::new(rows.len(), |i: int| width(rows[i].name) as usize)
}

/// The table for `rows`: one line for each, with the name, spaces up to
/// the column after the widest name, and the status.
pub open spec fn dashboard_table(rows: Seq<RepositoryView>) -> Seq<Seq<char>> {
    Seq::new(
        rows.len(),
        |i: int|
            table_line(
                rows[i].name,
                status_text(rows[i].build_status),
                width(rows[i].name),
                widest(widths_of(rows)),
            ),
    )
}

/// What a refresh holds.
pub struct RefreshState {
    pub phase: Phase,
    /// Whose dashboard is refreshed.
    pub username: Seq<char>,
    pub cache: CacheState,
    /// The cache was found to hold no repository of the user, and the
    /// remote listing was not stored yet.
    pub listing_needed: bool,
    /// The repositories whose status is fetched.
    pub targets: Seq<RepositoryView>,
    /// The statuses that came back and are not written to the cache yet.
    pub fetched: Seq<StatusUpdate>,
}

impl RefreshState {
    pub open spec fn wf(self) -> bool {
        self.cache.wf()
    }
}

/// One refresh of the dashboard. See the module's description.
pub struct Refresh {
    phase: Phase,
    username: String,
    database: Database,
    listing_needed: bool,
    targets: Vec<Repository>,
    fetched: Vec<(Repository, BuildStatus)>,
}

impl View for Refresh {
    type V = RefreshState;

    closed spec fn view(&self) -> RefreshState {
        RefreshState {
            phase: self.phase,
            username: self.username@,
            cache: self.database@,
            listing_needed: self.listing_needed,
            targets: views(self.targets@),
            fetched: crate::database::updates(self.fetched@),
        }
    }
}

impl Refresh {
    /// A refresh of the dashboard of `username` over the cache `database`.
    pub fn new(database: Database, username: &str) -> (r: Refresh)
        requires
            database@.wf(),
        ensures
            r@ == (RefreshState {
                phase: Phase::Idle,
                username: username@,
                cache: database@,
                listing_needed: false,
                targets: Seq::empty(),
                fetched: Seq::empty(),
            }),
            r@.wf(),
    {
        let r = Refresh {
            phase: Phase::Idle,
            username: owned(username),
            database,
            listing_needed: false,
            targets: Vec::new(),
            fetched: Vec::new(),
        };
        assert(r@.targets =~= Seq::empty());
        assert(r@.fetched =~= Seq::empty());
        r
    }

    pub fn phase(&self) -> (p: Phase)
        ensures
            p == self@.phase,
    {
        self.phase
    }

    /// The cache as the refresh has left it.
    pub fn database(&self) -> (db: &Database)
        ensures
            db@ == self@.cache,
            self@.wf() ==> db@.wf(),
    {
        &self.database
    }

    /// Ends the refresh and hands the cache back.
    pub fn into_database(self) -> (db: Database)
        ensures
            db@ == self@.cache,
            self@.wf() ==> db@.wf(),
    {
        self.database
    }

    /// Looks for the user's repositories in the cache and says whether the
    /// remote listing is to be fetched. Where the cache holds repositories
    /// of the user the list counts as loaded, and the listing is not needed.
    /// Where it holds none, the listing has to be fetched and handed to
    /// `store_listing`.
    pub fn load_list(&mut self) -> (r: Result<ListStep, CacheError>)
        requires
            old(self)@.wf(),
            old(self)@.phase == Phase::Idle,
        ensures
            final(self)@.wf(),
            match r {
                Ok(step) => {
                    &&& old(self)@.cache.migrated
                    &&& step == if old(self)@.cache.of_owner(old(self)@.username).len() > 0 {
                        ListStep::Loaded
                    } else {
                        ListStep::FetchListing
                    }
                    &&& final(self)@ == match step {
                        ListStep::Loaded => RefreshState {
                            phase: Phase::ListLoaded,
                            listing_needed: false,
                            ..old(self)@
                        },
                        ListStep::FetchListing => RefreshState {
                            listing_needed: true,
                            ..old(self)@
                        },
                    }
                },
                Err(e) => {
                    &&& !old(self)@.cache.migrated
                    &&& e == CacheError::NoSuchTable
                    &&& final(self)@ == old(self)@
                },
            },
    {
        match self.database.get_dashboard_repositories(self.username.as_str()) {
            Ok(repos) => {
                if repos.len() > 0 {
                    self.phase = Phase::ListLoaded;
                    self.listing_needed = false;
                    Ok(ListStep::Loaded)
                } else {
                    self.listing_needed = true;
                    Ok(ListStep::FetchListing)
                }
            },
            Err(e) => Err(e),
        }
    }

    /// Takes the cache as it is for the list, without asking the remote
    /// service.
    pub fn use_cached(&mut self)
        requires
            old(self)@.phase == Phase::Idle,
        ensures
            final(self)@ == (RefreshState { phase: Phase::ListLoaded, ..old(self)@ }),
    {
        self.phase = Phase::ListLoaded;
    }

    /// Takes the remote listing that `load_list` asked for and puts those of
    /// its repositories that the dashboard shows into the cache: forks,
    /// archived repositories and repositories of other owners are left out.
    pub fn store_listing(&mut self, listing: &Vec<GhRepository>) -> (r: Result<(), CacheError>)
        requires
            old(self)@.wf(),
            old(self)@.phase == Phase::Idle,
            old(self)@.listing_needed,
        ensures
            final(self)@.wf(),
            match r {
                Ok(_) => {
                    &&& old(self)@.cache.migrated
                    &&& final(self)@ == (RefreshState {
                        phase: Phase::ListLoaded,
                        listing_needed: false,
                        cache: old(self)@.cache.put_all(selected(listing@, old(self)@.username)),
                        ..old(self)@
                    })
                },
                Err(e) => {
                    &&& !old(self)@.cache.migrated
                    &&& e == CacheError::NoSuchTable
                    &&& final(self)@ == old(self)@
                },
            },
    {
        let records = select_repositories(listing, self.username.as_str());
        match self.database.put_repositories(records.as_slice()) {
            Ok(_) => {
                self.phase = Phase::ListLoaded;
                self.listing_needed = false;
                Ok(())
            },
            Err(e) => Err(e),
        }
    }

    /// Resyncs the cache with the remote listing on request, whatever the
    /// cache holds: every repository of the listing that is neither a fork
    /// nor archived is put. A record that was cached is replaced and loses
    /// its build status, so a refresh that is to keep what it knows goes
    /// through `load_list` instead. Nothing is put where a repository of the
    /// listing names no owner.
    pub fn resync_listing(&mut self, listing: Vec<GhRepository>) -> (r: Result<(), RefreshError>)
        requires
            old(self)@.wf(),
            old(self)@.phase == Phase::Idle,
        ensures
            final(self)@.wf(),
            match r {
                Ok(_) => {
                    &&& forall|i: int| 0 <= i < listing@.len() ==> listing@[i].owner is Some
                    &&& old(self)@.cache.migrated
                    &&& final(self)@ == (RefreshState {
                        phase: Phase::ListLoaded,
                        listing_needed: false,
                        cache: old(self)@.cache.put_all(shown_records(all_records(listing@))),
                        ..old(self)@
                    })
                },
                Err(RefreshError::MissingOwner) => {
                    &&& exists|i: int| 0 <= i < listing@.len() && listing@[i].owner is None
                    &&& final(self)@ == old(self)@
                },
                Err(RefreshError::Cache(e)) => {
                    &&& forall|i: int| 0 <= i < listing@.len() ==> listing@[i].owner is Some
                    &&& !old(self)@.cache.migrated
                    &&& e == CacheError::NoSuchTable
                    &&& final(self)@ == old(self)@
                },
            },
    {
        match records_from_listing(listing) {
            Ok(records) => {
                let shown = keep_shown(&records);
                match self.database.put_repositories(shown.as_slice()) {
                    Ok(_) => {
                        self.phase = Phase::ListLoaded;
                        self.listing_needed = false;
                        Ok(())
                    },
                    Err(e) => Err(RefreshError::Cache(e)),
                }
            },
            Err(_) => Err(RefreshError::MissingOwner),
        }
    }

    /// Reads from the cache the repositories whose build status is to be
    /// fetched, and remembers them: a status that comes back is known by the
    /// place of its repository in this list.
    pub fn begin_fetch(&mut self) -> (r: Result<Vec<Repository>, CacheError>)
        requires
            old(self)@.wf(),
            old(self)@.phase == Phase::ListLoaded,
        ensures
            final(self)@.wf(),
            match r {
                Ok(targets) => {
                    &&& old(self)@.cache.migrated
                    &&& views(targets@) == old(self)@.cache.of_owner(old(self)@.username)
                    &&& final(self)@ == (RefreshState { targets: views(targets@), ..old(self)@ })
                },
                Err(e) => {
                    &&& !old(self)@.cache.migrated
                    &&& e == CacheError::NoSuchTable
                    &&& final(self)@ == old(self)@
                },
            },
    {
        match self.database.get_dashboard_repositories(self.username.as_str()) {
            Ok(repos) => {
                let mut copies: Vec<Repository> = Vec::new();
                let mut k: usize = 0;
                while k < repos.len()
                    invariant
                        k <= repos@.len(),
                        copies@ == repos@.take(k as int),
                    decreases repos@.len() - k,
                {
                    copies.push(repos[k].clone());
                    assert(copies@ =~= repos@.take(k + 1));
                    k = k + 1;
                }
                assert(copies@ =~= repos@);
                self.targets = copies;
                Ok(repos)
            },
            Err(e) => Err(e),
        }
    }

    /// Takes the statuses that were fetched. Each is for the repository at
    /// its place in the list that `begin_fetch` handed out. Nothing is
    /// written to the cache yet.
    pub fn statuses_fetched(&mut self, fetched: &Vec<Fetched>)
        requires
            old(self)@.phase == Phase::ListLoaded,
            forall|i: int|
                0 <= i < fetched@.len() ==> (#[trigger] fetched@[i]).0 < old(self)@.targets.len(),
        ensures
            final(self)@ == (RefreshState {
                phase: Phase::StatusesFetched,
                fetched: updates_for(old(self)@.targets, fetched@),
                ..old(self)@
            }),
    {
        let mut pairs: Vec<(Repository, BuildStatus)> = Vec::new();
        let mut k: usize = 0;
        while k < fetched.len()
            invariant
                k <= fetched@.len(),
                pairs@.len() == k,
                views(self.targets@) == old(self)@.targets,
                forall|i: int|
                    0 <= i < fetched@.len() ==> (#[trigger] fetched@[i]).0 < self.targets@.len(),
                forall|i: int|
                    0 <= i < k ==> (#[trigger] pairs@[i]).0@ == self.targets@[fetched@[i].0 as int]@
                        && pairs@[i].1 == fetched@[i].1,
            decreases fetched@.len() - k,
        {
            let (index, status) = fetched[k];
            assert(fetched@[k as int].0 < self.targets@.len());
            pairs.push((self.targets[index].clone(), status));
            k = k + 1;
        }
        self.fetched = pairs;
        self.phase = Phase::StatusesFetched;
        assert(self@.fetched =~= updates_for(old(self)@.targets, fetched@));
    }

    /// Writes the fetched statuses to the cache. The status of a repository
    /// for which none came back stays what it was.
    pub fn persist(&mut self) -> (r: Result<(), CacheError>)
        requires
            old(self)@.wf(),
            old(self)@.phase == Phase::StatusesFetched,
        ensures
            final(self)@.wf(),
            match r {
                Ok(_) => {
                    &&& old(self)@.cache.migrated
                    &&& final(self)@ == (RefreshState {
                        phase: Phase::Persisted,
                        cache: old(self)@.cache.set_statuses(old(self)@.fetched),
                        ..old(self)@
                    })
                },
                Err(e) => {
                    &&& !old(self)@.cache.migrated
                    &&& e == CacheError::NoSuchTable
                    &&& final(self)@ == old(self)@
                },
            },
    {
        match self.database.set_build_statuses(self.fetched.as_slice()) {
            Ok(_) => {
                self.phase = Phase::Persisted;
                Ok(())
            },
            Err(e) => Err(e),
        }
    }

    /// Reads the user's repositories from the cache and lays out the table,
    /// one line for each record of the user that the cache holds.
    pub fn render(&mut self) -> (r: Result<Vec<String>, CacheError>)
        requires
            old(self)@.wf(),
            old(self)@.phase == Phase::ListLoaded || old(self)@.phase == Phase::Persisted,
        ensures
            final(self)@.wf(),
            match r {
                Ok(lines) => {
                    &&& old(self)@.cache.migrated
                    &&& texts(lines@) == dashboard_table(
                        old(self)@.cache.of_owner(old(self)@.username),
                    )
                    &&& final(self)@ == (RefreshState { phase: Phase::Rendered, ..old(self)@ })
                },
                Err(e) => {
                    &&& !old(self)@.cache.migrated
                    &&& e == CacheError::NoSuchTable
                    &&& final(self)@ == old(self)@
                },
            },
    {
        match self.database.get_dashboard_repositories(self.username.as_str()) {
            Ok(repos) => {
                let rows = dashboard_rows(&repos);
                let lines = render_dashboard(&rows);
                proof {
                    assert(name_widths(rows@) =~= widths_of(views(repos@)));
                    assert(texts(lines@) =~= dashboard_table(views(repos@)));
                }
                self.phase = Phase::Rendered;
                Ok(lines)
            },
            Err(e) => Err(e),
        }
    }
}

} // verus!
