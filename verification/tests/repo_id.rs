use shub::repo_id::{FullRepoId, PartialRepoId};

#[test]
fn test_repository_id_display() {
    assert_eq!(FullRepoId::new("kafji", "shub").to_string(), "kafji/shub");
}

#[test]
fn repo_id_test_parse_repository_id() {
    // trivial case
    assert_eq!(
        FullRepoId {
            owner: "kafji".to_owned().into(),
            name: "shub".to_owned()
        },
        "kafji/shub".parse().unwrap()
    );
    // missing owner
    assert_eq!(
        "Expecting in `:owner/:name` format, but was `shub`.",
        "shub".parse::<FullRepoId>().unwrap_err().to_string()
    );
    // missing name
    assert_eq!(
        "Expecting in `:owner/:name` format, but was `kafji/`.",
        "kafji/".parse::<FullRepoId>().unwrap_err().to_string()
    );
    // double separator
    assert_eq!(
        FullRepoId {
            owner: "kafji".to_owned().into(),
            name: "sh/ub".to_owned()
        },
        "kafji/sh/ub".parse().unwrap()
    );
}

#[test]
fn repo_id_test_parse_partial_repository_id() {
    // trivial case
    assert_eq!(
        PartialRepoId {
            owner: "kafji".to_owned().into(),
            name: "shub".to_owned()
        },
        "kafji/shub".parse().unwrap()
    );
    // missing owner
    assert_eq!(
        PartialRepoId {
            owner: None,
            name: "shub".to_owned()
        },
        "shub".parse().unwrap()
    );
    // missing name
    assert_eq!(
        "Expecting in `:owner?/:name` format, but was `kafji/`.",
        "kafji/".parse::<PartialRepoId>().unwrap_err().to_string()
    );
    // double separator
    assert_eq!(
        PartialRepoId {
            owner: "kafji".to_owned().into(),
            name: "sh/ub".to_owned()
        },
        "kafji/sh/ub".parse().unwrap()
    );
}

#[test]
fn full_id_from_partial_takes_the_default_owner_only_when_needed() {
    let named = PartialRepoId { owner: Some("kafji".to_owned()), name: "shub".to_owned() };
    assert_eq!(named.complete("other"), FullRepoId::new("kafji", "shub"));
    let bare = PartialRepoId { owner: None, name: "shub".to_owned() };
    assert_eq!(bare.complete("other"), FullRepoId::new("other", "shub"));
    let id = FullRepoId::new("kafji", "shub");
    assert_eq!(id.owner(), "kafji");
    assert_eq!(id.name(), "shub");
}

#[test]
fn text_of_an_id_reads_back_as_the_id() {
    let id = FullRepoId::new("kafji", "sh/ub");
    let read: FullRepoId = id.to_string().parse().unwrap();
    assert_eq!(read, id);
}
