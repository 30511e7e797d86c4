//! The local cache of repositories.
//!
//! The cache is one table of `Repository` records in which owner and name
//! together are the key: no two records share it. A record that is put under
//! a key that is taken replaces what was there, whole. The table has to be
//! set up by `migrate` before anything is put or read. Every operation either
//! takes effect completely or fails and changes nothing.
//!
//! The order of the records is the order in which their keys were first put.

use crate::repository_id::IsRepositoryId;
use crate::text::{owned, str_eq};
use crate::types::{BuildStatus, Repository, RepositoryView};
use vstd::prelude::*;

verus! {

/// Why an operation on the cache failed.
#[derive(Debug, PartialEq, Eq, Clone, Copy, Structural)]
pub enum CacheError {
    /// The table of repositories was not set up.
    NoSuchTable,
}

impl CacheError {
    pub fn to_string(&self) -> (r: String)
        ensures
            r@ == "no such table: repositories"@,
    {
        owned("no such table: repositories")
    }
}

/// What each of `records` holds.
pub open spec fn views(records: Seq<Repository>) -> Seq<RepositoryView> {
    records.map_values(|r: Repository| r@)
}

/// The test by which records are read: the owner is `owner`.
pub open spec fn owned_by(owner: Seq<char>) -> spec_fn(RepositoryView) -> bool {
    |r: RepositoryView| r.owner == owner
}

/// A key and the status to store under it.
pub struct StatusUpdate {
    pub owner: Seq<char>,
    pub name: Seq<char>,
    pub status: BuildStatus,
}

/// The updates that `pairs` ask for.
pub open spec fn updates<T: IsRepositoryId>(pairs: Seq<(T, BuildStatus)>) -> Seq<StatusUpdate> {
    pairs.map_values(
        |p: (T, BuildStatus)|
            StatusUpdate { owner: p.0.owner_text(), name: p.0.name_text(), status: p.1 },
    )
}

/// What the cache holds.
pub struct CacheState {
    /// The table was set up.
    pub migrated: bool,
    /// The records, in the order in which their keys were first put.
    pub rows: Seq<RepositoryView>,
}

impl CacheState {
    /// No two records share a key, and a table that was not set up is empty.
    pub open spec fn wf(self) -> bool {
        &&& forall|i: int, j: int|
            0 <= i < j < self.rows.len() ==> !(#[trigger] self.rows[i]).same_key(
                #[trigger] self.rows[j],
            )
        &&& !self.migrated ==> self.rows.len() == 0
    }

    /// A record is stored under the key.
    pub open spec fn has(self, owner: Seq<char>, name: Seq<char>) -> bool {
        exists|i: int| 0 <= i < self.rows.len() && (#[trigger] self.rows[i]).is_keyed(owner, name)
    }

    /// Where the record under the key is stored.
    pub open spec fn position(self, owner: Seq<char>, name: Seq<char>) -> int {
        choose|i: int| 0 <= i < self.rows.len() && (#[trigger] self.rows[i]).is_keyed(owner, name)
    }

    /// The cache after its table is set up. Setting up keeps what is there.
    pub open spec fn migrate(self) -> CacheState {
        CacheState { migrated: true, rows: self.rows }
    }

    /// The cache after `record` is put: it replaces the record under its
    /// key, or is added where the key is new.
    pub open spec fn put(self, record: RepositoryView) -> CacheState {
        if self.has(record.owner, record.name) {
            CacheState {
                rows: self.rows.update(self.position(record.owner, record.name), record),
                ..self
            }
        } else {
            CacheState { rows: self.rows.push(record), ..self }
        }
    }

    /// The cache after each of `records` is put, the first one first.
    pub open spec fn put_all(self, records: Seq<RepositoryView>) -> CacheState
        decreases records.len(),
    {
        if records.len() == 0 {
            self
        } else {
            self.put_all(records.drop_last()).put(records.last())
        }
    }

    /// The cache after the status of the record under the key is set. The
    /// rest of the record stays, and without a record under the key nothing
    /// changes.
    pub open spec fn set_status(self, update: StatusUpdate) -> CacheState {
        if self.has(update.owner, update.name) {
            let i = self.position(update.owner, update.name);
            CacheState {
                rows: self.rows.update(
                    i,
                    RepositoryView { build_status: Some(update.status), ..self.rows[i] },
                ),
                ..self
            }
        } else {
            self
        }
    }

    /// The cache after each of `updates` is made, the first one first.
    pub open spec fn set_statuses(self, updates: Seq<StatusUpdate>) -> CacheState
        decreases updates.len(),
    {
        if updates.len() == 0 {
            self
        } else {
            self.set_statuses(updates.drop_last()).set_status(updates.last())
        }
    }

    /// The records of `owner`, each as it is stored, in the order of the
    /// cache.
    pub open spec fn of_owner(self, owner: Seq<char>) -> Seq<RepositoryView> {
        self.rows.filter(owned_by(owner))
    }
}

/// The local cache of repositories. See the module's description.
pub struct Database {
    migrated: bool,
    rows: Vec<Repository>,
}

impl View for Database {
    type V = CacheState;

    closed spec fn view(&self) -> CacheState {
        CacheState { migrated: self.migrated, rows: views(self.rows@) }
    }
}

impl Database {
    /// An empty cache whose table is set up.
    pub fn new() -> (db: Self)
        ensures
            db@ == (CacheState { migrated: true, rows: Seq::empty() }),
            db@.wf(),
    {
        let db = Database { migrated: true, rows: Vec::new() };
        assert(db@.rows =~= Seq::empty());
        db
    }

    /// An empty cache whose table is not set up yet.
    pub fn connect() -> (db: Self)
        ensures
            db@ == (CacheState { migrated: false, rows: Seq::empty() }),
            db@.wf(),
    {
        let db = Database { migrated: false, rows: Vec::new() };
        assert(db@.rows =~= Seq::empty());
        db
    }

    /// Sets up the table. Safe to call again: a table that is set up stays
    /// as it is.
    pub fn migrate(&mut self) -> (r: Result<(), CacheError>)
        requires
            old(self)@.wf(),
        ensures
            r is Ok,
            final(self)@ == old(self)@.migrate(),
            final(self)@.wf(),
    {
        self.migrated = true;
        Ok(())
    }

    /// Where the record under the key is stored, if there is one.
    fn find(&self, owner: &str, name: &str) -> (r: Option<usize>)
        requires
            self@.wf(),
        ensures
            match r {
                Some(i) => self@.has(owner@, name@) && i == self@.position(owner@, name@) && i
                    < self.rows@.len(),
                None => !self@.has(owner@, name@),
            },
    {
        let mut i: usize = 0;
        while i < self.rows.len()
            invariant
                self@.wf(),
                i <= self.rows@.len(),
                forall|j: int| 0 <= j < i ==> !(#[trigger] self@.rows[j]).is_keyed(owner@, name@),
            decreases self.rows@.len() - i,
        {
            if str_eq(self.rows[i].owner.as_str(), owner) && str_eq(
                self.rows[i].name.as_str(),
                name,
            ) {
                proof {
                    lemma_position_unique(self@, owner@, name@, i as int);
                }
                return Some(i);
            }
            i = i + 1;
        }
        None
    }

    /// Puts one record.
    fn put(&mut self, record: &Repository)
        requires
            old(self)@.wf(),
            old(self)@.migrated,
        ensures
            final(self)@ == old(self)@.put(record@),
            final(self)@.wf(),
    {
        proof {
            lemma_put_keeps_wf(self@, record@);
        }
        match self.find(record.owner.as_str(), record.name.as_str()) {
            Some(i) => {
                assert(views(self.rows@.update(i as int, *record)) =~= self@.rows.update(
                    i as int,
                    record@,
                ));
                self.rows[i] = record.clone();
            },
            None => {
                assert(views(self.rows@.push(*record)) =~= self@.rows.push(record@));
                self.rows.push(record.clone());
            },
        }
    }

    /// Puts `repositories` into the cache, the first one first. A record
    /// whose key is taken replaces what was stored under it, the build status
    /// too. Fails, and changes nothing, where the table is not set up.
    pub fn put_repositories(&mut self, repositories: &[Repository]) -> (r: Result<(), CacheError>)
        requires
            old(self)@.wf(),
        ensures
            final(self)@.wf(),
            match r {
                Ok(_) => old(self)@.migrated && final(self)@ == old(self)@.put_all(
                    views(repositories@),
                ),
                Err(e) => !old(self)@.migrated && e == CacheError::NoSuchTable && final(self)@
                    == old(self)@,
            },
    {
        if !self.migrated {
            return Err(CacheError::NoSuchTable);
        }
        let mut k: usize = 0;
        assert(views(repositories@).take(0) =~= Seq::empty());
        while k < repositories.len()
            invariant
                k <= repositories@.len(),
                self@.migrated,
                self@.wf(),
                self@ == old(self)@.put_all(views(repositories@).take(k as int)),
            decreases repositories@.len() - k,
        {
            assert(views(repositories@).take(k + 1).drop_last() =~= views(repositories@).take(
                k as int,
            ));
            self.put(&repositories[k]);
            k = k + 1;
        }
        assert(views(repositories@).take(k as int) =~= views(repositories@));
        Ok(())
    }

    /// Every record, in the order of the cache. Fails where the table is not
    /// set up.
    pub fn all_repositories(&self) -> (r: Result<Vec<Repository>, CacheError>)
        ensures
            match r {
                Ok(found) => self@.migrated && views(found@) == self@.rows,
                Err(e) => !self@.migrated && e == CacheError::NoSuchTable,
            },
    {
        if !self.migrated {
            return Err(CacheError::NoSuchTable);
        }
        let mut out: Vec<Repository> = Vec::new();
        let mut k: usize = 0;
        while k < self.rows.len()
            invariant
                k <= self.rows@.len(),
                out@ == self.rows@.take(k as int),
            decreases self.rows@.len() - k,
        {
            out.push(self.rows[k].clone());
            assert(out@ =~= self.rows@.take(k + 1));
            k = k + 1;
        }
        assert(out@ =~= self.rows@);
        Ok(out)
    }

    /// The records of `owner`, every one of them with its flags and its
    /// status as they are stored, in the order of the cache. The dashboard
    /// reads its list through this, and takes a list that is not empty as a
    /// sign that the cache is filled. Fails where the table is not set up.
    pub fn get_dashboard_repositories(&self, owner: &str) -> (r: Result<
        Vec<Repository>,
        CacheError,
    >)
        ensures
            match r {
                Ok(found) => self@.migrated && views(found@) == self@.of_owner(owner@),
                Err(e) => !self@.migrated && e == CacheError::NoSuchTable,
            },
    {
        if !self.migrated {
            return Err(CacheError::NoSuchTable);
        }
        let mut out: Vec<Repository> = Vec::new();
        let mut k: usize = 0;
        proof {
            reveal(Seq::filter);
            assert(self@.rows.take(0) =~= Seq::empty());
            assert(views(out@) =~= Seq::empty());
        }
        while k < self.rows.len()
            invariant
                k <= self.rows@.len(),
                views(out@) == self@.rows.take(k as int).filter(owned_by(owner@)),
            decreases self.rows@.len() - k,
        {
            let row = &self.rows[k];
            proof {
                let upto = self@.rows.take(k + 1);
                let test = owned_by(owner@);
                assert(upto.drop_last() =~= self@.rows.take(k as int));
                assert(upto.last() == row@);
                reveal(Seq::filter);
                assert(upto.filter(test) == if test(upto.last()) {
                    upto.drop_last().filter(test).push(upto.last())
                } else {
                    upto.drop_last().filter(test)
                });
                assert(test(row@) == (row.owner@ == owner@));
            }
            if str_eq(row.owner.as_str(), owner) {
                assert(views(out@.push(*row)) =~= views(out@).push(row@));
                out.push(row.clone());
            }
            k = k + 1;
        }
        assert(self@.rows.take(k as int) =~= self@.rows);
        Ok(out)
    }

    /// Sets the build status of one record.
    fn set_build_status(&mut self, owner: &str, name: &str, status: BuildStatus)
        requires
            old(self)@.wf(),
        ensures
            final(self)@ == old(self)@.set_status(
                StatusUpdate { owner: owner@, name: name@, status },
            ),
            final(self)@.wf(),
    {
        proof {
            lemma_set_status_keeps_wf(self@, StatusUpdate { owner: owner@, name: name@, status });
        }
        match self.find(owner, name) {
            Some(i) => {
                let mut row = self.rows[i].clone();
                row.build_status = Some(status);
                assert(views(self.rows@.update(i as int, row)) =~= self@.rows.update(
                    i as int,
                    row@,
                ));
                self.rows[i] = row;
            },
            None => {},
        }
    }

    /// Sets the build status of each repository in `build_statuses`, the
    /// first one first. Only the status of a record changes, and a key
    /// without a record is passed over. Fails, and changes nothing, where
    /// the table is not set up.
    pub fn set_build_statuses<T: IsRepositoryId>(
        &mut self,
        build_statuses: &[(T, BuildStatus)],
    ) -> (r: Result<(), CacheError>)
        requires
            old(self)@.wf(),
        ensures
            final(self)@.wf(),
            match r {
                Ok(_) => old(self)@.migrated && final(self)@ == old(self)@.set_statuses(
                    updates(build_statuses@),
                ),
                Err(e) => !old(self)@.migrated && e == CacheError::NoSuchTable && final(self)@
                    == old(self)@,
            },
    {
        if !self.migrated {
            return Err(CacheError::NoSuchTable);
        }
        let mut k: usize = 0;
        assert(updates(build_statuses@).take(0) =~= Seq::empty());
        while k < build_statuses.len()
            invariant
                k <= build_statuses@.len(),
                self@.migrated,
                self@.wf(),
                self@ == old(self)@.set_statuses(updates(build_statuses@).take(k as int)),
            decreases build_statuses@.len() - k,
        {
            assert(updates(build_statuses@).take(k + 1).drop_last() =~= updates(
                build_statuses@,
            ).take(k as int));
            let pair = &build_statuses[k];
            self.set_build_status(pair.0.owner(), pair.0.name(), pair.1);
            k = k + 1;
        }
        assert(updates(build_statuses@).take(k as int) =~= updates(build_statuses@));
        Ok(())
    }
}

/// Sets up the table of `db`. See `Database::migrate`.
pub fn migrate(db: &mut Database) -> (r: Result<(), CacheError>)
    requires
        old(db)@.wf(),
    ensures
        r is Ok,
        final(db)@ == old(db)@.migrate(),
        final(db)@.wf(),
{
    db.migrate()
}

/// The records of `owner`. See `Database::get_dashboard_repositories`.
pub fn get_dashboard_repositories(db: &Database, owner: &str) -> (r: Result<
    Vec<Repository>,
    CacheError,
>)
    ensures
        match r {
            Ok(found) => db@.migrated && views(found@) == db@.of_owner(owner@),
            Err(e) => !db@.migrated && e == CacheError::NoSuchTable,
        },
{
    db.get_dashboard_repositories(owner)
}

/// Puts `repositories` into `db`. See `Database::put_repositories`.
pub fn put_repositories(db: &mut Database, repositories: &[Repository]) -> (r: Result<
    (),
    CacheError,
>)
    requires
        old(db)@.wf(),
    ensures
        final(db)@.wf(),
        match r {
            Ok(_) => old(db)@.migrated && final(db)@ == old(db)@.put_all(views(repositories@)),
            Err(e) => !old(db)@.migrated && e == CacheError::NoSuchTable && final(db)@ == old(
                db,
            )@,
        },
{
    db.put_repositories(repositories)
}

/// In a well-formed cache a key has one place.
pub proof fn lemma_position_unique(state: CacheState, owner: Seq<char>, name: Seq<char>, i: int)
    requires
        state.wf(),
        0 <= i < state.rows.len(),
        state.rows[i].is_keyed(owner, name),
    ensures
        state.has(owner, name),
        state.position(owner, name) == i,
{
    let p = state.position(owner, name);
    if p < i {
        assert(!state.rows[p].same_key(state.rows[i]));
    } else if i < p {
        assert(!state.rows[i].same_key(state.rows[p]));
    }
}

/// Putting a record keeps the cache well formed.
pub proof fn lemma_put_keeps_wf(state: CacheState, record: RepositoryView)
    requires
        state.wf(),
        state.migrated,
    ensures
        state.put(record).wf(),
{
    let after = state.put(record);
    if state.has(record.owner, record.name) {
        let p = state.position(record.owner, record.name);
        assert forall|i: int, j: int| 0 <= i < j < after.rows.len() implies !(
        #[trigger] after.rows[i]).same_key(#[trigger] after.rows[j]) by {
            assert(!state.rows[i].same_key(state.rows[j]));
        }
    } else {
        assert forall|i: int, j: int| 0 <= i < j < after.rows.len() implies !(
        #[trigger] after.rows[i]).same_key(#[trigger] after.rows[j]) by {
            if j < state.rows.len() {
                assert(!state.rows[i].same_key(state.rows[j]));
            } else {
                assert(!state.rows[i].is_keyed(record.owner, record.name));
            }
        }
    }
}

/// Setting a status keeps the cache well formed.
pub proof fn lemma_set_status_keeps_wf(state: CacheState, update: StatusUpdate)
    requires
        state.wf(),
    ensures
        state.set_status(update).wf(),
{
    let after = state.set_status(update);
    assert forall|i: int, j: int| 0 <= i < j < after.rows.len() implies !(
    #[trigger] after.rows[i]).same_key(#[trigger] after.rows[j]) by {
        assert(!state.rows[i].same_key(state.rows[j]));
    }
}

/// Setting up the table twice is the same as setting it up once, and
/// setting it up loses no record.
pub proof fn lemma_migrate_idempotent(state: CacheState)
    ensures
        state.migrate().migrate() == state.migrate(),
        state.migrate().rows == state.rows,
        state.wf() ==> state.migrate().wf(),
{
}

/// Putting a list of one record is putting that record.
pub proof fn lemma_put_all_single(state: CacheState, record: RepositoryView)
    ensures
        state.put_all(seq![record]) == state.put(record),
{
    let one = seq![record];
    assert(one.drop_last() =~= Seq::empty());
    assert(state.put_all(one.drop_last()) == state);
}

/// A record put under the key of the record put just before replaces it:
/// the cache is as if only the second had been put, and the second is the
/// only record under that key.
pub proof fn lemma_put_replaces(state: CacheState, first: RepositoryView, second: RepositoryView)
    requires
        state.wf(),
        state.migrated,
        first.same_key(second),
    ensures
        state.put(first).put(second) == state.put(second),
        state.put(second).has(second.owner, second.name),
        forall|i: int|
            0 <= i < state.put(second).rows.len() && (#[trigger] state.put(second).rows[i]).same_key(
                second,
            ) ==> state.put(second).rows[i] == second,
{
    let once = state.put(first);
    let twice = once.put(second);
    let direct = state.put(second);
    lemma_put_keeps_wf(state, first);
    lemma_put_keeps_wf(state, second);
    if state.has(first.owner, first.name) {
        let p = state.position(first.owner, first.name);
        assert(once.rows[p].is_keyed(second.owner, second.name));
        lemma_position_unique(once, second.owner, second.name, p);
        assert(twice.rows =~= direct.rows);
        assert(direct.rows[p].is_keyed(second.owner, second.name));
        lemma_position_unique(direct, second.owner, second.name, p);
    } else {
        let p = state.rows.len() as int;
        assert(once.rows[p].is_keyed(second.owner, second.name));
        lemma_position_unique(once, second.owner, second.name, p);
        assert(twice.rows =~= direct.rows);
        assert(direct.rows[p].is_keyed(second.owner, second.name));
        lemma_position_unique(direct, second.owner, second.name, p);
    }
    assert forall|i: int|
        0 <= i < direct.rows.len() && (#[trigger] direct.rows[i]).same_key(
            second,
        ) implies direct.rows[i] == second by {
        lemma_position_unique(direct, second.owner, second.name, i);
    }
}

/// An empty cache into which a record and then another with the same key
/// is put hands out the second, and nothing else, for their owner.
pub proof fn lemma_second_put_is_read(first: RepositoryView, second: RepositoryView)
    requires
        first.same_key(second),
    ensures
        (CacheState { migrated: true, rows: Seq::empty() }).put_all(seq![first]).put_all(
            seq![second],
        ).of_owner(second.owner) == seq![second],
{
    let empty = CacheState { migrated: true, rows: Seq::empty() };
    lemma_put_all_single(empty, first);
    lemma_put_all_single(empty.put(first), second);
    lemma_put_replaces(empty, first, second);
    let after = empty.put(second);
    assert(!empty.has(second.owner, second.name));
    assert(after.rows =~= seq![second]);
    reveal_with_fuel(Seq::filter, 2);
    assert(after.rows.drop_last() =~= Seq::empty());
    assert(owned_by(second.owner)(second));
    assert(after.of_owner(second.owner) =~= seq![second]);
}

/// Setting one status changes the status of the record under the key and
/// nothing else: every record keeps its place, its key and its flags, and a
/// record under another key keeps its status too.
pub proof fn lemma_set_status_changes_status_only(state: CacheState, update: StatusUpdate)
    requires
        state.wf(),
    ensures
        state.set_status(update).migrated == state.migrated,
        state.set_status(update).rows.len() == state.rows.len(),
        forall|i: int|
            0 <= i < state.rows.len() ==> (#[trigger] state.set_status(update).rows[i])
                == (RepositoryView {
                build_status: if state.rows[i].is_keyed(update.owner, update.name) {
                    Some(update.status)
                } else {
                    state.rows[i].build_status
                },
                ..state.rows[i]
            }),
{
    let after = state.set_status(update);
    assert forall|i: int| 0 <= i < state.rows.len() implies (#[trigger] after.rows[i])
        == (RepositoryView {
        build_status: if state.rows[i].is_keyed(update.owner, update.name) {
            Some(update.status)
        } else {
            state.rows[i].build_status
        },
        ..state.rows[i]
    }) by {
        if state.rows[i].is_keyed(update.owner, update.name) {
            lemma_position_unique(state, update.owner, update.name, i);
        }
    }
}

/// Setting statuses in bulk leaves every record in its place with its key
/// and its flags: only build statuses change.
pub proof fn lemma_set_statuses_keep_flags(state: CacheState, updates: Seq<StatusUpdate>)
    requires
        state.wf(),
    ensures
        state.set_statuses(updates).wf(),
        state.set_statuses(updates).migrated == state.migrated,
        state.set_statuses(updates).rows.len() == state.rows.len(),
        forall|i: int|
            0 <= i < state.rows.len() ==> (#[trigger] state.set_statuses(updates).rows[i])
                == (RepositoryView {
                build_status: state.set_statuses(updates).rows[i].build_status,
                ..state.rows[i]
            }),
    decreases updates.len(),
{
    if updates.len() > 0 {
        let before = state.set_statuses(updates.drop_last());
        lemma_set_statuses_keep_flags(state, updates.drop_last());
        lemma_set_status_keeps_wf(before, updates.last());
        lemma_set_status_changes_status_only(before, updates.last());
    }
}

/// A status that was set is the status that is read: after the update the
/// record under its key, if there is one, has that status.
pub proof fn lemma_status_is_stored(state: CacheState, update: StatusUpdate)
    requires
        state.wf(),
        state.has(update.owner, update.name),
    ensures
        state.set_status(update).has(update.owner, update.name),
        state.set_status(update).rows[state.set_status(update).position(
            update.owner,
            update.name,
        )].build_status == Some(update.status),
{
    let after = state.set_status(update);
    let p = state.position(update.owner, update.name);
    lemma_set_status_keeps_wf(state, update);
    assert(after.rows[p].is_keyed(update.owner, update.name));
    lemma_position_unique(after, update.owner, update.name, p);
}

/// What is read for an owner is the owner's records and nothing else: every
/// record that is read is stored and is the owner's, and every stored record
/// of the owner is read.
pub proof fn lemma_read_by_owner(state: CacheState, owner: Seq<char>)
    ensures
        forall|i: int|
            0 <= i < state.of_owner(owner).len() ==> (#[trigger] state.of_owner(owner)[i]).owner
                == owner && state.rows.contains(state.of_owner(owner)[i]),
        forall|i: int|
            0 <= i < state.rows.len() && (#[trigger] state.rows[i]).owner == owner
                ==> state.of_owner(owner).contains(state.rows[i]),
        state.of_owner(owner).len() <= state.rows.len(),
{
    let test = owned_by(owner);
    state.rows.lemma_filter_len(test);
    assert forall|i: int| 0 <= i < state.of_owner(owner).len() implies (
    #[trigger] state.of_owner(owner)[i]).owner == owner && state.rows.contains(
        state.of_owner(owner)[i],
    ) by {
        state.rows.lemma_filter_pred(test, i);
        lemma_filtered_is_stored(state.rows, test, i);
    }
    assert forall|i: int|
        0 <= i < state.rows.len() && (#[trigger] state.rows[i]).owner
            == owner implies state.of_owner(owner).contains(state.rows[i]) by {
        state.rows.lemma_filter_contains(test, i);
    }
}

proof fn lemma_filtered_is_stored(
    rows: Seq<RepositoryView>,
    test: spec_fn(RepositoryView) -> bool,
    i: int,
)
    requires
        0 <= i < rows.filter(test).len(),
    ensures
        rows.contains(rows.filter(test)[i]),
    decreases rows.len(),
{
    reveal(Seq::filter);
    if rows.len() > 0 {
        let before = rows.drop_last();
        if i < before.filter(test).len() {
            lemma_filtered_is_stored(before, test, i);
            let j = choose|j: int| 0 <= j < before.len() && before[j] == before.filter(test)[i];
            assert(rows[j] == before.filter(test)[i]);
        } else {
            assert(rows.filter(test)[i] == rows.last());
            assert(rows[rows.len() - 1] == rows.last());
        }
    }
}

/// A record whose key none of `updates` names keeps its status through
/// them: a status that did not come back stays what it was.
pub proof fn lemma_unnamed_key_keeps_status(
    state: CacheState,
    updates: Seq<StatusUpdate>,
    i: int,
)
    requires
        state.wf(),
        0 <= i < state.rows.len(),
        forall|k: int|
            0 <= k < updates.len() ==> !state.rows[i].is_keyed(
                (#[trigger] updates[k]).owner,
                updates[k].name,
            ),
    ensures
        state.set_statuses(updates).rows.len() == state.rows.len(),
        state.set_statuses(updates).rows[i] == state.rows[i],
    decreases updates.len(),
{
    if updates.len() > 0 {
        let before = state.set_statuses(updates.drop_last());
        assert forall|k: int| 0 <= k < updates.drop_last().len() implies !state.rows[i].is_keyed(
            (#[trigger] updates.drop_last()[k]).owner,
            updates.drop_last()[k].name,
        ) by {
            assert(updates.drop_last()[k] == updates[k]);
        }
        lemma_unnamed_key_keeps_status(state, updates.drop_last(), i);
        lemma_set_statuses_keep_flags(state, updates.drop_last());
        lemma_set_status_changes_status_only(before, updates.last());
        assert(updates[updates.len() - 1] == updates.last());
    }
}

} // verus!
