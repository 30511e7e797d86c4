use shub::github::auth::PersonalAccessToken;
use shub::github::client::{
    get_next_page_url, is_next_link, my_repositories_query, organization_repositories_path,
    repository_path, workflow_run_path, workflow_runs_path, Authentication, Link, Param,
};
use shub::github::requests::{RepositoryType, UpdateRepository};
use shub::github::responses::{
    ActionsRuns, MyRepository, Repository, RepositoryVisibility, WorkflowRun,
};
use shub::github_client::{
    authenticated_repositories_route, check_runs_route, is_not_found, latest_commit_route, next_page_num, owned_repositories_route,
    paged, repository_commits_route, repository_missing_message, starred_repositories_route,
    PageNum,
};
use shub::github_models::{GhRepository, GhUser};
use shub::operations::{
    all_completed, extract_repository_settings, find_project, no_commit_message, plan_clone,
    remote_repo_path, upstream_page, CloneError, ClonePlan, MissingSetting, RepositorySettings,
    RepositorySettingsDiff, UpstreamError,
};
use shub::repo_id::{FullRepoId, GetRepoId, PartialRepoId2, RepoId};

#[test]
fn token_is_sent_as_basic_authentication() {
    let token = PersonalAccessToken::new("kafji", "t0k3n");
    assert_eq!(token.to_authz_value(), "Basic a2Fmamk6dDBrM24=");
    assert_eq!(PersonalAccessToken::new("", "").to_authz_value(), "Basic Og==");
    assert_eq!(token, PersonalAccessToken::new("kafji", "t0k3n"));
}

#[test]
fn repository_types_have_their_words() {
    assert_eq!(RepositoryType::All.to_str(), "all");
    assert_eq!(RepositoryType::Owner.to_str(), "owner");
    assert_eq!(RepositoryType::Public.to_str(), "public");
    assert_eq!(RepositoryType::Private.to_str(), "private");
    assert_eq!(RepositoryType::Member.to_str(), "member");
    assert_eq!(my_repositories_query(None), [("per_page", "100")]);
    assert_eq!(
        my_repositories_query(Some(RepositoryType::Owner)),
        [("type", "owner"), ("per_page", "100")]
    );
    let fields = UpdateRepository { allow_merge_commit: false.into(), ..Default::default() };
    assert_eq!(fields.allow_merge_commit, Some(false));
    assert_eq!(fields.allow_squash_merge, None);
    assert_eq!(UpdateRepository::default().delete_branch_on_merge, None);
}

#[test]
fn answers_are_plain_values() {
    let runs = ActionsRuns { total_count: 1, workflow_runs: vec![WorkflowRun { id: 5 }] };
    assert_eq!(runs.workflow_runs[0].id, 5);
    let repo = Repository {
        id: 1,
        name: "shub".to_owned(),
        allow_rebase_merge: true,
        allow_squash_merge: true,
        allow_auto_merge: false,
        delete_branch_on_merge: true,
        allow_merge_commit: false,
    };
    assert_eq!(repo.clone(), repo);
    let mine = MyRepository {
        id: 1,
        name: "shub".to_owned(),
        full_name: "kafji/shub".to_owned(),
        html_url: "https://example.com/kafji/shub".to_owned(),
        description: None,
        language: None,
        archived: false,
        visibility: RepositoryVisibility::Public,
        fork: false,
    };
    assert_ne!(mine.visibility, RepositoryVisibility::Private);
}

fn link(uri: &str, params: &[(&str, Option<&str>)]) -> Link {
    Link {
        uri: uri.to_owned(),
        params: params
            .iter()
            .map(|(name, value)| Param { name: (*name).to_owned(), value: value.map(|v| v.to_owned()) })
            .collect(),
    }
}

#[test]
fn next_page_is_the_first_link_that_says_so() {
    let links = vec![
        link("https://h/?page=1", &[("rel", Some("prev"))]),
        link("https://h/?page=3", &[("title", Some("x")), ("rel", Some("next"))]),
        link("https://h/?page=9", &[("rel", Some("next"))]),
    ];
    assert!(!is_next_link(&links[0]));
    assert!(is_next_link(&links[1]));
    assert_eq!(get_next_page_url(&links), Some("https://h/?page=3".to_owned()));
    assert_eq!(get_next_page_url(&vec![link("u", &[("rel", None)]), link("v", &[])]), None);
    assert_eq!(get_next_page_url(&vec![]), None);
}

#[test]
fn routes_are_spelled_out() {
    assert_eq!(workflow_runs_path("kafji", "shub"), "/repos/kafji/shub/actions/runs");
    assert_eq!(workflow_run_path("kafji", "shub", 42), "/repos/kafji/shub/actions/runs/42");
    assert_eq!(workflow_run_path("kafji", "shub", -1), "/repos/kafji/shub/actions/runs/-1");
    assert_eq!(repository_path("kafji", "shub"), "/repos/kafji/shub");
    assert_eq!(organization_repositories_path("rust-lang"), "/orgs/rust-lang/repos");
    assert_eq!(paged("a?b=c", None), "a?b=c");
    assert_eq!(paged("a?b=c", Some(255)), "a?b=c&page=255");
    assert_eq!(paged("a?b=c", Some(70_000)), "a?b=c&page=70000");
    assert_eq!(owned_repositories_route(None), "user/repos?type=owner&sort=pushed&per_page=100");
    assert_eq!(
        owned_repositories_route(Some(2)),
        "user/repos?type=owner&sort=pushed&per_page=100&page=2"
    );
    assert_eq!(starred_repositories_route(None), "user/starred?sort=updated&per_page=100");
    assert_eq!(
        starred_repositories_route(Some(10)),
        "user/starred?sort=updated&per_page=100&page=10"
    );
    assert_eq!(
        repository_commits_route("kafji", "shub", Some(3)),
        "repos/kafji/shub/commits?per_page=100&page=3"
    );
    assert_eq!(repository_commits_route("kafji", "shub", None), "repos/kafji/shub/commits?per_page=100");
    assert_eq!(latest_commit_route("kafji", "shub"), "repos/kafji/shub/commits");
    assert_eq!(
        check_runs_route("kafji", "shub", "abc123"),
        "repos/kafji/shub/commits/abc123/check-runs?per_page=100"
    );
    assert_eq!(
        authenticated_repositories_route(None),
        "user/repos?affiliation=owner&sort=updated&direction=desc&per_page=100"
    );
    assert_eq!(
        authenticated_repositories_route(Some(300)),
        "user/repos?affiliation=owner&sort=updated&direction=desc&per_page=100&page=300"
    );
    assert_eq!(next_page_num(None), Some(2));
    assert_eq!(next_page_num(Some(255)), Some(256));
    assert_eq!(next_page_num(Some(2)), Some(3));
    assert!(is_not_found("Not Found"));
    assert!(!is_not_found("not found"));
    assert_eq!(repository_missing_message("kafji/shub"), "Repository kafji/shub does not exist.");
}

#[test]
fn task_pages_follow_the_first_answer() {
    assert_eq!(PageNum::Init.succ(), PageNum::Num(2));
    assert_eq!(PageNum::Num(2).succ(), PageNum::Num(3));
    assert_eq!(PageNum::Num(255).succ(), PageNum::Num(256));
    assert_eq!(PageNum::Init.after_page(true), PageNum::Num(2));
    assert_eq!(PageNum::Num(4).after_page(false), PageNum::End);
    assert_eq!(PageNum::End.after_page(false), PageNum::End);
    assert_eq!(PageNum::Init.issues_route(), Some("issues?per_page=100".to_owned()));
    assert_eq!(PageNum::Num(3).issues_route(), Some("issues?per_page=100&page=3".to_owned()));
    assert_eq!(PageNum::End.issues_route(), None);
}

#[test]
fn task_list_asks_for_no_page_twice() {
    // A remote list of four pages; the request without a page is answered
    // with page 1.
    let mut position = PageNum::Init;
    let mut asked = Vec::new();
    while let Some(route) = position.issues_route() {
        let page = match position {
            PageNum::Num(n) => n,
            _ => 1,
        };
        asked.push((page, route));
        position = position.after_page(page < 4);
    }
    assert_eq!(
        asked,
        [
            (1, "issues?per_page=100".to_owned()),
            (2, "issues?per_page=100&page=2".to_owned()),
            (3, "issues?per_page=100&page=3".to_owned()),
            (4, "issues?per_page=100&page=4".to_owned()),
        ]
    );
}

fn repository() -> GhRepository {
    GhRepository {
        name: "shub".to_owned(),
        owner: Some(GhUser { login: "kafji".to_owned(), id: 7, kind: "User".to_owned() }),
        description: None,
        private: None,
        fork: Some(true),
        archived: None,
        language: None,
        pushed_at: None,
        ssh_url: Some("git@host:kafji/shub.git".to_owned()),
        html_url: None,
        parent_ssh_url: Some("git@host:up/shub.git".to_owned()),
        parent_html_url: Some("https://host/up/shub".to_owned()),
        has_parent: true,
        allow_rebase_merge: Some(true),
        allow_squash_merge: Some(false),
        allow_auto_merge: Some(false),
        delete_branch_on_merge: Some(true),
        allow_merge_commit: Some(false),
    }
}

#[test]
fn settings_are_read_and_shown() {
    let repo = repository();
    let settings = extract_repository_settings(&repo).unwrap();
    assert_eq!(
        settings,
        RepositorySettings {
            allow_rebase_merge: true,
            allow_squash_merge: false,
            allow_auto_merge: false,
            delete_branch_on_merge: true,
            allow_merge_commit: false,
        }
    );
    assert_eq!(
        settings.to_string(),
        "       allow_rebase_merge = true \n       allow_squash_merge = false\n         allow_auto_merge = false\n   delete_branch_on_merge = true \n       allow_merge_commit = false\n"
    );
    let other = RepositorySettings { allow_squash_merge: true, ..settings };
    assert_eq!(
        RepositorySettingsDiff::new(&settings, &other).to_string(),
        "       allow_rebase_merge =  true -> true \n       allow_squash_merge = false -> true \n         allow_auto_merge = false -> false\n   delete_branch_on_merge =  true -> true \n       allow_merge_commit = false -> false\n"
    );
    let mut partial = repository();
    partial.allow_auto_merge = None;
    partial.allow_merge_commit = None;
    let missing = extract_repository_settings(&partial).unwrap_err();
    assert_eq!(missing, MissingSetting::AllowAutoMerge);
    assert_eq!(missing.to_string(), "Missing value for key `allow_auto_merge`.");
    partial.allow_rebase_merge = None;
    assert_eq!(extract_repository_settings(&partial), Err(MissingSetting::AllowRebaseMerge));
}

#[test]
fn clone_needs_addresses() {
    let repo = repository();
    assert_eq!(
        plan_clone(&repo),
        Ok(ClonePlan {
            ssh_url: "git@host:kafji/shub.git".to_owned(),
            upstream_url: Some("git@host:up/shub.git".to_owned()),
        })
    );
    let mut alone = repository();
    alone.has_parent = false;
    assert_eq!(plan_clone(&alone).unwrap().upstream_url, None);
    let mut broken = repository();
    broken.parent_ssh_url = None;
    assert_eq!(plan_clone(&broken), Err(CloneError::NoUpstreamSshUrl));
    assert_eq!(
        CloneError::NoUpstreamSshUrl.to_string(),
        "Expecting upstream repository to have ssh url, but was not."
    );
    broken.ssh_url = None;
    assert_eq!(plan_clone(&broken), Err(CloneError::NoSshUrl));
    assert_eq!(CloneError::NoSshUrl.to_string(), "Expecting repository to have ssh url, but was not.");
}

#[test]
fn upstream_is_shown_for_forks() {
    let repo = repository();
    assert_eq!(upstream_page(&repo, "kafji/shub"), Ok("https://host/up/shub".to_owned()));
    let mut plain = repository();
    plain.fork = None;
    assert_eq!(
        upstream_page(&plain, "kafji/shub"),
        Err(UpstreamError::NotAFork("Repository kafji/shub is not a fork.".to_owned()))
    );
    let mut lost = repository();
    lost.parent_html_url = None;
    assert_eq!(upstream_page(&lost, "kafji/shub"), Err(UpstreamError::NoParentUrl));
}

#[test]
fn remote_address_names_the_repository() {
    assert_eq!(remote_repo_path("git@host:kafji/shub.git"), Some("kafji/shub".to_owned()));
    assert_eq!(remote_repo_path("git@host:.git"), Some(String::new()));
    assert_eq!(remote_repo_path("https://host/kafji/shub.git"), Some("//host/kafji/shub".to_owned()));
    assert_eq!(remote_repo_path("host/kafji/shub.git"), None);
    assert_eq!(remote_repo_path("git@host:kafji/shub"), None);
    assert_eq!(remote_repo_path("a.git:b"), None);
    let id: FullRepoId = remote_repo_path("git@host:kafji/shub.git").unwrap().parse().unwrap();
    assert_eq!(id, FullRepoId::new("kafji", "shub"));
}

#[test]
fn projects_are_found_by_name() {
    let names = vec!["a".to_owned(), "shub".to_owned(), "shub".to_owned()];
    assert_eq!(find_project(&names, "shub"), Ok(1));
    assert_eq!(find_project(&names, "x"), Err("project `x` does not exists".to_owned()));
    assert_eq!(no_commit_message("kafji/shub"), "Repository kafji/shub doesn't have a commit yet.");
    assert!(all_completed(&vec![]));
}

#[test]
fn identities_are_read_from_listed_repositories() {
    let repo = repository();
    assert_eq!(repo.get_repo_id().unwrap(), FullRepoId::new("kafji", "shub"));
    assert_eq!(PartialRepoId2::owner(&repo), Some("kafji"));
    assert_eq!(PartialRepoId2::name(&repo), "shub");
    let full = repo.into_full("other");
    assert_eq!(RepoId::owner(&full), "kafji");
    assert_eq!(RepoId::name(&full), "shub");
    let mut ownerless = repository();
    ownerless.owner = None;
    let full = ownerless.into_full("other");
    assert_eq!(RepoId::owner(&full), "other");
}
