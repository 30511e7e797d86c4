use shub::commands::dashboard::{
    dashboard_rows, is_shown, keep_shown, records_from_listing, render_columns, render_dashboard,
    select_repositories, to_record, StatusLookup, COLUMN_MARGIN,
};
use shub::database::{CacheError, Database};
use shub::fetcher::{FetchPool, Step, DEFAULT_POOL_SIZE, DEFAULT_QUEUE_CAPACITY};
use shub::github_models::{
    GhCheckRun, GhCommit, GhCommitActor, GhCommitDetail, GhRepository, GhUser,
};
use shub::pagination::{PageStream, Pull};
use shub::refresh::{ListStep, Phase, Refresh, RefreshError};
use shub::types::{BuildStatus, MissingOwnerError, Repository};

fn listed(owner: Option<&str>, name: &str, fork: Option<bool>, archived: Option<bool>) -> GhRepository {
    GhRepository {
        name: name.to_owned(),
        owner: owner.map(|login| GhUser { login: login.to_owned(), id: 1, kind: "User".to_owned() }),
        description: None,
        private: None,
        fork,
        archived,
        language: None,
        pushed_at: None,
        ssh_url: None,
        html_url: None,
        parent_ssh_url: None,
        parent_html_url: None,
        has_parent: false,
        allow_rebase_merge: None,
        allow_squash_merge: None,
        allow_auto_merge: None,
        delete_branch_on_merge: None,
        allow_merge_commit: None,
    }
}

fn repo(owner: &str, name: &str, status: Option<BuildStatus>) -> Repository {
    Repository {
        name: name.to_owned(),
        owner: owner.to_owned(),
        a_fork: false,
        archived: false,
        build_status: status,
    }
}

fn commit(sha: &str) -> GhCommit {
    let actor = GhCommitActor { name: None, email: None, date: 0 };
    GhCommit {
        sha: sha.to_owned(),
        commit: GhCommitDetail {
            author: actor.clone(),
            committer: actor,
            message: "message".to_owned(),
        },
        author: None,
        committer: None,
    }
}

fn run(status: &str, conclusion: Option<&str>) -> GhCheckRun {
    GhCheckRun {
        id: 1,
        head_sha: "abc".to_owned(),
        status: status.to_owned(),
        conclusion: conclusion.map(|c| c.to_owned()),
        started_at: 0,
        completed_at: None,
        output: None,
        name: "ci".to_owned(),
    }
}

#[test]
fn dashboard_takes_own_repositories_that_are_neither_forks_nor_archived() {
    let listing = vec![
        listed(Some("kafji"), "shub", Some(false), None),
        listed(Some("kafji"), "fork", Some(true), Some(false)),
        listed(Some("kafji"), "old", None, Some(true)),
        listed(Some("other"), "theirs", None, None),
        listed(None, "nobody", None, None),
        listed(Some("kafji"), "plain", None, None),
    ];
    assert!(is_shown(&listing[0], "kafji"));
    assert!(!is_shown(&listing[1], "kafji"));
    assert!(!is_shown(&listing[2], "kafji"));
    assert!(!is_shown(&listing[3], "kafji"));
    assert!(!is_shown(&listing[4], "kafji"));
    assert_eq!(
        select_repositories(&listing, "kafji"),
        [repo("kafji", "shub", None), repo("kafji", "plain", None)]
    );
    assert_eq!(to_record(&listing[4], "kafji"), repo("kafji", "nobody", None));
    assert_eq!(
        to_record(&listing[1], "kafji"),
        Repository { a_fork: true, ..repo("kafji", "fork", None) }
    );
}

#[test]
fn records_from_listing_need_every_owner() {
    let listing = vec![
        listed(Some("kafji"), "shub", None, None),
        listed(Some("other"), "fork", Some(true), None),
    ];
    assert_eq!(
        records_from_listing(listing).unwrap(),
        [
            repo("kafji", "shub", None),
            Repository { a_fork: true, ..repo("other", "fork", None) },
        ]
    );
    let listing = vec![listed(Some("kafji"), "shub", None, None), listed(None, "x", None, None)];
    assert_eq!(records_from_listing(listing), Err(MissingOwnerError));
    assert_eq!(MissingOwnerError.to_string(), "owner can not be none, was `None`");
    assert_eq!(
        Repository::try_from(listed(Some("kafji"), "old", None, Some(true))),
        Ok(Repository { archived: true, ..repo("kafji", "old", None) })
    );
}

#[test]
fn status_lookup_goes_from_commit_to_runs() {
    assert_eq!(StatusLookup::start(), StatusLookup::NeedCommit);
    assert_eq!(StatusLookup::start().commit_fetched(None), StatusLookup::Done(None));
    let lookup = StatusLookup::start().commit_fetched(Some(commit("deadbeef")));
    assert_eq!(lookup, StatusLookup::NeedRuns("deadbeef".to_owned()));
    let runs = vec![run("completed", Some("success")), run("in_progress", None)];
    let done = lookup.clone().runs_fetched(&runs);
    assert_eq!(done, StatusLookup::Done(Some(BuildStatus::InProgress)));
    assert_eq!(done.outcome::<String>(), Ok(Some(BuildStatus::InProgress)));
    // An error of the remote service is handed on as it is.
    assert_eq!(lookup.fetch_failed("timeout".to_owned()), Err("timeout".to_owned()));
    assert_eq!(StatusLookup::start().fetch_failed(7), Err(7));
}

#[test]
fn table_is_padded_to_the_widest_name() {
    let rows = vec![
        ("a".to_owned(), "success".to_owned()),
        ("longer".to_owned(), String::new()),
        ("mid".to_owned(), "failure".to_owned()),
    ];
    assert_eq!(COLUMN_MARGIN, 2);
    assert_eq!(render_dashboard(&rows), ["a       success", "longer  ", "mid     failure"]);
    assert_eq!(render_dashboard(&vec![]), Vec::<String>::new());
    // A name takes one place for each grapheme cluster, not for each character.
    let rows = vec![("e\u{301}".to_owned(), "x".to_owned()), ("ab".to_owned(), "y".to_owned())];
    assert_eq!(render_dashboard(&rows), ["e\u{301}   x", "ab  y"]);
    assert_eq!(render_columns(&rows, &vec![5, 1]), ["e\u{301}  x", "ab      y"]);
}

#[test]
fn rows_show_name_and_status() {
    let repos = vec![
        repo("kafji", "a", Some(BuildStatus::InProgress)),
        repo("kafji", "b", None),
    ];
    assert_eq!(
        dashboard_rows(&repos),
        [("a".to_owned(), "in_progress".to_owned()), ("b".to_owned(), String::new())]
    );
}

/// Fetches the status of each of `targets` through a pool, as a driver
/// would: `runs_of` is what the remote service knows.
fn fetch_statuses(
    targets: &[Repository],
    runs_of: &dyn Fn(&str) -> Option<Vec<GhCheckRun>>,
) -> Vec<(usize, BuildStatus)> {
    let mut pool: FetchPool<String> =
        FetchPool::new(targets.len(), DEFAULT_POOL_SIZE, DEFAULT_QUEUE_CAPACITY);
    let mut running = Vec::new();
    loop {
        match pool.next_step() {
            Step::Start => running.push(pool.start()),
            Step::Collect => pool.collect(),
            Step::Wait => {
                let index = running.remove(0);
                let lookup = StatusLookup::start();
                let lookup = match runs_of(&targets[index].name) {
                    Some(runs) => lookup.commit_fetched(Some(commit("c0ffee"))).runs_fetched(&runs),
                    None => lookup.commit_fetched(None),
                };
                let status = match lookup {
                    StatusLookup::Done(status) => status,
                    _ => unreachable!(),
                };
                pool.complete(index, Ok(status));
            }
            Step::Finish => break,
        }
    }
    pool.finish().unwrap()
}

#[test]
fn end_to_end_scenario() {
    // The remote listing comes in two pages.
    let mut stream: PageStream<GhRepository, String> = PageStream::new();
    let mut pages = vec![
        (vec![listed(Some("kafji"), "A", None, None)], true),
        (vec![listed(Some("kafji"), "Bravo", None, None), listed(Some("kafji"), "F", Some(true), None)], false),
    ]
    .into_iter();
    let mut refresh = Refresh::new(Database::new(), "kafji");
    assert_eq!(refresh.phase(), Phase::Idle);
    assert_eq!(refresh.load_list(), Ok(ListStep::FetchListing));
    let mut listing = Vec::new();
    loop {
        match stream.poll() {
            Pull::Item(item) => listing.push(item.unwrap()),
            Pull::Fetch(_) => {
                let (items, has_more) = pages.next().unwrap();
                stream.feed(items, has_more);
            }
            Pull::Done => break,
        }
    }
    refresh.store_listing(&listing).unwrap();
    assert_eq!(refresh.phase(), Phase::ListLoaded);

    let targets = refresh.begin_fetch().unwrap();
    assert_eq!(targets, [repo("kafji", "A", None), repo("kafji", "Bravo", None)]);
    let fetched = fetch_statuses(&targets, &|name| match name {
        "A" => Some(vec![run("completed", Some("success"))]),
        "Bravo" => Some(vec![run("completed", Some("failure")), run("in_progress", None)]),
        _ => None,
    });
    refresh.statuses_fetched(&fetched);
    assert_eq!(refresh.phase(), Phase::StatusesFetched);
    refresh.persist().unwrap();
    assert_eq!(refresh.phase(), Phase::Persisted);

    let mut lines = refresh.render().unwrap();
    assert_eq!(refresh.phase(), Phase::Rendered);
    lines.sort();
    assert_eq!(lines, ["A      success", "Bravo  failure"]);

    let db = refresh.into_database();
    let mut rows = db.get_dashboard_repositories("kafji").unwrap();
    rows.sort_by(|a, b| a.name.cmp(&b.name));
    assert_eq!(
        rows,
        [
            repo("kafji", "A", Some(BuildStatus::Success)),
            repo("kafji", "Bravo", Some(BuildStatus::Failure)),
        ]
    );
}

#[test]
fn status_that_did_not_come_back_stays() {
    let mut db = Database::new();
    db.put_repositories(&[
        repo("kafji", "a", Some(BuildStatus::Failure)),
        repo("kafji", "b", Some(BuildStatus::Success)),
    ])
    .unwrap();
    let mut refresh = Refresh::new(db, "kafji");
    assert_eq!(refresh.load_list(), Ok(ListStep::Loaded));
    assert_eq!(refresh.phase(), Phase::ListLoaded);
    let targets = refresh.begin_fetch().unwrap();
    assert_eq!(targets.len(), 2);
    refresh.statuses_fetched(&vec![(1, BuildStatus::InProgress)]);
    refresh.persist().unwrap();
    assert_eq!(refresh.render().unwrap(), ["a  failure", "b  in_progress"]);
}

#[test]
fn display_only_shows_what_is_cached() {
    let mut db = Database::new();
    db.put_repositories(&[repo("kafji", "shub", Some(BuildStatus::Success))]).unwrap();
    let mut refresh = Refresh::new(db, "kafji");
    refresh.use_cached();
    assert_eq!(refresh.render().unwrap(), ["shub  success"]);
    let mut refresh = Refresh::new(Database::new(), "kafji");
    refresh.use_cached();
    assert_eq!(refresh.render().unwrap(), Vec::<String>::new());
}

#[test]
fn resync_replaces_records_and_resets_their_status() {
    let mut db = Database::new();
    db.put_repositories(&[repo("kafji", "shub", Some(BuildStatus::Success))]).unwrap();
    let mut refresh = Refresh::new(db, "kafji");
    refresh
        .resync_listing(vec![
            listed(Some("kafji"), "shub", None, None),
            listed(Some("kafji"), "fork", Some(true), None),
        ])
        .unwrap();
    assert_eq!(refresh.phase(), Phase::ListLoaded);
    // The fork of the listing is left out where the listing is stored.
    assert_eq!(
        refresh.database().all_repositories().unwrap(),
        [repo("kafji", "shub", None)]
    );
    let mut refresh = Refresh::new(Database::new(), "kafji");
    assert_eq!(
        refresh.resync_listing(vec![listed(None, "x", None, None)]),
        Err(RefreshError::MissingOwner)
    );
    assert_eq!(refresh.phase(), Phase::Idle);
}

#[test]
fn cache_errors_stop_the_refresh() {
    let mut refresh = Refresh::new(Database::connect(), "kafji");
    assert_eq!(refresh.load_list(), Err(CacheError::NoSuchTable));
    assert_eq!(
        refresh.resync_listing(vec![listed(Some("kafji"), "x", None, None)]),
        Err(RefreshError::Cache(CacheError::NoSuchTable))
    );
    assert_eq!(
        RefreshError::Cache(CacheError::NoSuchTable).to_string(),
        "no such table: repositories"
    );
    assert_eq!(refresh.phase(), Phase::Idle);
}

#[test]
fn filled_cache_is_not_fetched_again_and_keeps_its_statuses() {
    let mut db = Database::new();
    db.put_repositories(&[
        repo("kafji", "x", Some(BuildStatus::Success)),
        repo("kafji", "y", None),
    ])
    .unwrap();
    let mut refresh = Refresh::new(db, "kafji");
    // The cache holds repositories of the user: no listing is asked for.
    assert_eq!(refresh.load_list(), Ok(ListStep::Loaded));
    let targets = refresh.begin_fetch().unwrap();
    // The fetch for `x` comes back without a status, the one for `y` with one.
    let fetched = fetch_statuses(&targets, &|name| match name {
        "y" => Some(vec![run("in_progress", None)]),
        _ => None,
    });
    assert_eq!(fetched, [(1, BuildStatus::InProgress)]);
    refresh.statuses_fetched(&fetched);
    refresh.persist().unwrap();
    assert_eq!(
        refresh.database().get_dashboard_repositories("kafji").unwrap(),
        [
            repo("kafji", "x", Some(BuildStatus::Success)),
            repo("kafji", "y", Some(BuildStatus::InProgress)),
        ]
    );
}

#[test]
fn display_only_prints_a_line_for_every_cached_record_of_the_user() {
    let mut db = Database::new();
    db.put_repositories(&[
        Repository { a_fork: true, ..repo("kafji", "fork", Some(BuildStatus::Failure)) },
        Repository { archived: true, ..repo("kafji", "old", None) },
        repo("other", "theirs", Some(BuildStatus::Success)),
    ])
    .unwrap();
    let mut refresh = Refresh::new(db, "kafji");
    refresh.use_cached();
    assert_eq!(refresh.render().unwrap(), ["fork  failure", "old   "]);
    // Nothing was written.
    assert_eq!(refresh.database().all_repositories().unwrap().len(), 3);
}

#[test]
fn forks_and_archived_repositories_are_left_out_when_a_listing_is_stored() {
    let records = vec![
        repo("kafji", "a", None),
        Repository { a_fork: true, ..repo("kafji", "b", None) },
        Repository { archived: true, ..repo("kafji", "c", None) },
        repo("kafji", "d", Some(BuildStatus::Success)),
    ];
    assert_eq!(
        keep_shown(&records),
        [repo("kafji", "a", None), repo("kafji", "d", Some(BuildStatus::Success))]
    );
    assert_eq!(keep_shown(&vec![]), []);
}
