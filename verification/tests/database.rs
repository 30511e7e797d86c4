use shub::database::{
    get_dashboard_repositories, migrate, put_repositories, CacheError, Database,
};
use shub::repository_id::RepositoryId;
use shub::types::{BuildStatus, Repository};

fn connect() -> Database {
    Database::connect()
}

fn migrate_(db: &mut Database) {
    migrate(db).unwrap()
}

fn repo(owner: &str, name: &str) -> Repository {
    Repository {
        name: name.to_owned(),
        owner: owner.to_owned(),
        a_fork: false,
        archived: false,
        build_status: None,
    }
}

#[test]
fn test_migration_safe_to_run_multiple_time() {
    let mut db = connect();
    for _ in 0..3 {
        migrate(&mut db).unwrap();
    }
}

#[test]
fn test_get_dashboard_repositories() {
    let mut db = connect();
    migrate_(&mut db);

    {
        let rs = [Repository {
            name: "World".to_owned(),
            owner: "Hello".to_owned(),
            a_fork: false,
            archived: false,
            build_status: None,
        }];
        put_repositories(&mut db, &rs).unwrap();
    };

    let rs = get_dashboard_repositories(&db, "Hello").unwrap();
    assert_eq!(
        rs,
        [Repository {
            name: "World".to_owned(),
            owner: "Hello".to_owned(),
            a_fork: false,
            archived: false,
            build_status: None,
        }]
    );
}

#[test]
fn migration_keeps_what_is_stored() {
    let mut db = Database::new();
    db.put_repositories(&[repo("Hello", "World")]).unwrap();
    db.migrate().unwrap();
    db.migrate().unwrap();
    assert_eq!(db.get_dashboard_repositories("Hello").unwrap(), [repo("Hello", "World")]);
}

#[test]
fn nothing_works_before_migration() {
    let mut db = connect();
    assert_eq!(db.put_repositories(&[repo("a", "b")]), Err(CacheError::NoSuchTable));
    assert_eq!(db.get_dashboard_repositories("a"), Err(CacheError::NoSuchTable));
    assert_eq!(db.all_repositories(), Err(CacheError::NoSuchTable));
    assert_eq!(
        db.set_build_statuses(&[(repo("a", "b"), BuildStatus::Success)]),
        Err(CacheError::NoSuchTable)
    );
    assert_eq!(CacheError::NoSuchTable.to_string(), "no such table: repositories");
    migrate_(&mut db);
    assert_eq!(db.get_dashboard_repositories("a").unwrap(), []);
}

#[test]
fn put_with_the_same_key_replaces_the_row() {
    let mut db = Database::new();
    let first = Repository { build_status: Some(BuildStatus::Success), ..repo("kafji", "shub") };
    let second = Repository { a_fork: true, ..repo("kafji", "shub") };
    db.put_repositories(&[first]).unwrap();
    db.put_repositories(&[second.clone()]).unwrap();
    assert_eq!(db.get_dashboard_repositories("kafji").unwrap(), [second]);
}

#[test]
fn put_in_bulk_takes_the_last_record_of_a_key() {
    let mut db = Database::new();
    let a = repo("kafji", "a");
    let b = repo("kafji", "b");
    let a2 = Repository { archived: true, ..repo("kafji", "a") };
    db.put_repositories(&[a, b.clone(), a2.clone()]).unwrap();
    assert_eq!(db.get_dashboard_repositories("kafji").unwrap(), [a2.clone(), b.clone()]);
    assert_eq!(db.all_repositories().unwrap(), [a2, b]);
}

#[test]
fn records_are_read_by_owner() {
    let mut db = Database::new();
    db.put_repositories(&[repo("kafji", "shub"), repo("other", "shub"), repo("kafji", "x")])
        .unwrap();
    assert_eq!(db.get_dashboard_repositories("kafji").unwrap(), [repo("kafji", "shub"), repo("kafji", "x")]);
    assert_eq!(db.get_dashboard_repositories("other").unwrap(), [repo("other", "shub")]);
    assert_eq!(db.get_dashboard_repositories("nobody").unwrap(), []);
}

#[test]
fn set_build_statuses_changes_the_status_only() {
    let mut db = Database::new();
    let fork = Repository { a_fork: true, ..repo("kafji", "fork") };
    let old = Repository { archived: true, build_status: Some(BuildStatus::Success), ..repo("kafji", "old") };
    db.put_repositories(&[fork, old, repo("kafji", "shub")]).unwrap();
    db.set_build_statuses(&[
        (RepositoryId::new("kafji", "fork"), BuildStatus::Failure),
        (RepositoryId::new("kafji", "old"), BuildStatus::InProgress),
        (RepositoryId::new("kafji", "missing"), BuildStatus::Failure),
    ])
    .unwrap();
    let rows = db.get_dashboard_repositories("kafji").unwrap();
    assert_eq!(
        rows,
        [
            Repository { a_fork: true, build_status: Some(BuildStatus::Failure), ..repo("kafji", "fork") },
            Repository { archived: true, build_status: Some(BuildStatus::InProgress), ..repo("kafji", "old") },
            repo("kafji", "shub"),
        ]
    );
}

#[test]
fn later_status_of_a_key_wins() {
    let mut db = Database::new();
    db.put_repositories(&[repo("kafji", "shub")]).unwrap();
    db.set_build_statuses(&[
        (repo("kafji", "shub"), BuildStatus::Failure),
        (repo("kafji", "shub"), BuildStatus::Success),
    ])
    .unwrap();
    assert_eq!(
        db.get_dashboard_repositories("kafji").unwrap(),
        [Repository { build_status: Some(BuildStatus::Success), ..repo("kafji", "shub") }]
    );
}

#[test]
fn read_hands_out_every_record_of_the_owner_with_its_flags() {
    let mut db = Database::new();
    let fork = Repository { a_fork: true, ..repo("Hello", "fork") };
    let old = Repository { archived: true, build_status: Some(BuildStatus::Failure), ..repo("Hello", "old") };
    db.put_repositories(&[fork.clone(), repo("other", "x"), old.clone()]).unwrap();
    assert_eq!(get_dashboard_repositories(&db, "Hello").unwrap(), [fork, old]);
    assert_eq!(get_dashboard_repositories(&db, "nobody").unwrap(), []);
    assert_eq!(db.all_repositories().unwrap().len(), 3);
}
