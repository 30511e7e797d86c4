use shub::display::{
    first_line, owned_repository_line, starred_repository_line, BuildInfo, BuildsInfo,
    CommitInfo, RepositoryAttrs, RepositoryDescription, RepositoryName, Since, table_cell, TaskInfo,
    TaskInfos, TaskState, TaskType,
};
use shub::github_models::{
    GhCheckRun, GhCommit, GhCommitActor, GhCommitDetail, GhIssue, GhIssueRepository,
    GhRepository, GhUser,
};
use shub::text::{
    concat2, concat3, decimal_string, display_width, find_char, find_str, pad_left, pad_right,
    signed_decimal_string, spaces, to_ascii_upper, trim_chars,
};

fn repository(name: &str) -> GhRepository {
    GhRepository {
        name: name.to_owned(),
        owner: Some(GhUser { login: "kafji".to_owned(), id: 7, kind: "User".to_owned() }),
        description: Some("A command line\nclient for a code host".to_owned()),
        private: Some(true),
        fork: Some(true),
        archived: Some(true),
        language: Some("Rust".to_owned()),
        pushed_at: Some(1_000),
        ssh_url: None,
        html_url: None,
        parent_ssh_url: None,
        parent_html_url: None,
        has_parent: false,
        allow_rebase_merge: None,
        allow_squash_merge: None,
        allow_auto_merge: None,
        delete_branch_on_merge: None,
        allow_merge_commit: None,
    }
}

fn commit(message: &str) -> GhCommit {
    let actor = GhCommitActor {
        name: Some("Kafji".to_owned()),
        email: Some("k@example.com".to_owned()),
        date: 100,
    };
    GhCommit {
        sha: "0123456789abcdef".to_owned(),
        commit: GhCommitDetail { author: actor.clone(), committer: actor, message: message.to_owned() },
        author: None,
        committer: None,
    }
}

#[test]
fn since_tells_time_in_steps() {
    assert_eq!(Since(-5).to_string(), "just now");
    assert_eq!(Since(0).to_string(), "just now");
    assert_eq!(Since(59).to_string(), "just now");
    assert_eq!(Since(60).to_string(), "1 minutes ago");
    assert_eq!(Since(3_599).to_string(), "59 minutes ago");
    assert_eq!(Since(3_600).to_string(), "1 hours ago");
    assert_eq!(Since(86_399).to_string(), "23 hours ago");
    assert_eq!(Since(86_400).to_string(), "this week");
    assert_eq!(Since(7 * 86_400 - 1).to_string(), "this week");
    assert_eq!(Since(7 * 86_400).to_string(), "this month");
    assert_eq!(Since(30 * 86_400).to_string(), "this year");
    assert_eq!(Since(365 * 86_400 - 1).to_string(), "this year");
    assert_eq!(Since(365 * 86_400).to_string(), "1 year ago");
    assert_eq!(Since(2 * 365 * 86_400 - 1).to_string(), "1 year ago");
    assert_eq!(Since(2 * 365 * 86_400).to_string(), "2 years ago");
    assert_eq!(Since(12 * 365 * 86_400 + 5).to_string(), "12 years ago");
    assert_eq!(Since::between(500, 200), Since(300));
    assert_eq!(Since::between(200, 500), Since(-300));
    assert_eq!(Since::between(i64::MAX, -1), Since(i64::MAX));
    assert_eq!(Since::between(i64::MIN, 1), Since(i64::MIN));
}

#[test]
fn numbers_are_written_in_decimal() {
    assert_eq!(decimal_string(0), "0");
    assert_eq!(decimal_string(7), "7");
    assert_eq!(decimal_string(10), "10");
    assert_eq!(decimal_string(1_234_567_890), "1234567890");
    assert_eq!(decimal_string(u64::MAX), "18446744073709551615");
    assert_eq!(signed_decimal_string(0), "0");
    assert_eq!(signed_decimal_string(-42), "-42");
    assert_eq!(signed_decimal_string(i64::MIN), "-9223372036854775808");
    assert_eq!(signed_decimal_string(i64::MAX), "9223372036854775807");
}

#[test]
fn small_text_tools() {
    assert_eq!(concat2("ab", "cd"), "abcd");
    assert_eq!(concat3("a", "", "b"), "ab");
    assert_eq!(spaces(0), "");
    assert_eq!(spaces(3), "   ");
    assert_eq!(pad_right("ab", 4), "ab  ");
    assert_eq!(pad_right("abcd", 2), "abcd");
    assert_eq!(pad_left("ab", 4), "  ab");
    assert_eq!(pad_left("\u{e9}", 2), " \u{e9}");
    assert_eq!(to_ascii_upper('a'), 'A');
    assert_eq!(to_ascii_upper('z'), 'Z');
    assert_eq!(to_ascii_upper('A'), 'A');
    assert_eq!(to_ascii_upper('{'), '{');
    assert_eq!(to_ascii_upper('\u{e9}'), '\u{e9}');
    assert_eq!(find_char("a/b/c", '/'), Some(1));
    assert_eq!(find_char("\u{e9}/b", '/'), Some(1));
    assert_eq!(find_char("abc", '/'), None);
    assert_eq!(find_str("git@host:kafji/shub.git", ".git"), Some(19));
    assert_eq!(find_str("abc", ""), Some(0));
    assert_eq!(find_str("", "a"), None);
    assert_eq!(find_str("aab", "ab"), Some(1));
    assert_eq!(find_str("abc", "abd"), None);
    assert_eq!(trim_chars(&" \t a b \n".chars().collect()), "a b");
    assert_eq!(trim_chars(&"   ".chars().collect()), "");
    assert_eq!(trim_chars(&"\u{a0}x\u{2003}".chars().collect()), "x");
    assert_eq!(display_width(""), 0);
    assert_eq!(display_width("abc"), 3);
    assert_eq!(display_width("e\u{301}\r\n"), 2);
}

#[test]
fn cells_are_cut_and_filled() {
    assert_eq!(table_cell("abc", 5), "abc  ");
    assert_eq!(table_cell("abcdef", 5), "abc..");
    assert_eq!(table_cell("private", 6), "priv..");
    assert_eq!(table_cell("a bcdefg", 4), "a.. ");
    let repo = repository("shub");
    assert_eq!(RepositoryName::from(&repo).to_string(), "shub           ");
    assert_eq!(RepositoryAttrs::from(&repo).to_string(), "archived, fork ");
    assert_eq!(RepositoryAttrs::from(&repository("x")).0, "archived, fork");
    let mut plain = repository("x");
    plain.archived = Some(false);
    assert_eq!(RepositoryAttrs::from(&plain).0, "fork");
    plain.fork = None;
    assert_eq!(RepositoryAttrs::from(&plain).0, "");
    plain.archived = Some(true);
    assert_eq!(RepositoryAttrs::from(&plain).0, "archived");
    assert_eq!(
        RepositoryDescription::from_repository(&repo, 20).to_string(),
        "A command line cli.."
    );
    plain.description = None;
    assert_eq!(RepositoryDescription::from_repository(&plain, 4).to_string(), "    ");
}

#[test]
fn repository_lines_have_their_columns() {
    let repo = repository("shub");
    let latest = Some(commit("Fix the thing"));
    assert_eq!(
        owned_repository_line(&repo, &latest, 1_090),
        "priv.. | shub            | A command line client for a..  | 1 minutes..  | Fix the thing                            | Rust       | archived, fork "
    );
    let mut bare = repository("bare");
    bare.private = None;
    bare.description = None;
    bare.pushed_at = None;
    bare.language = None;
    bare.fork = None;
    bare.archived = None;
    bare.owner = None;
    assert_eq!(
        owned_repository_line(&bare, &None, 0),
        format!("{:6} | {:15} | {:30} | {:12} | {:40} | {:10} | {:15}", "", "bare", "", "", "", "", "")
    );
    assert_eq!(
        starred_repository_line(&bare, 0),
        format!("{:15} | {:60} | {:15} | {:12} | {:10} | {:15}", "bare", "", "", "", "", "")
    );
    assert_eq!(
        starred_repository_line(&repo, 1_000 + 3 * 86_400),
        format!(
            "{:15} | {:60} | {:15} | {:12} | {:10} | {:15}",
            // A text that fits its cell keeps its line feed.
            "shub", "A command line\nclient for a code host", "kafji", "this week", "Rust", "archived, fork"
        )
    );
}

#[test]
fn commit_is_described_in_three_lines() {
    let c = commit("Fix the thing\n\nIt was broken.");
    let info = CommitInfo::from_github_commit(&c);
    assert_eq!(info.author_name, Some("Kafji"));
    assert_eq!(info.hash, "0123456789abcdef");
    assert_eq!(info.to_string(7_300), "Kafji <k@example.com> - 2 hours ago\n01234567\nFix the thing\n");
    let info = CommitInfo { author_email: None, ..info };
    assert_eq!(info.to_string(100), "Kafji - just now\n01234567\nFix the thing\n");
    let info = CommitInfo { author_name: None, author_email: Some("k@example.com"), ..info };
    assert_eq!(info.to_string(100), "k@example.com - just now\n01234567\nFix the thing\n");
    let info = CommitInfo { author_email: None, message: "\nx", ..info };
    assert_eq!(info.to_string(100), "just now\n01234567\n\n");
    let clusters = vec!["a".to_owned(), "\r\n".to_owned(), "b".to_owned(), "\n".to_owned(), "c".to_owned()];
    assert_eq!(first_line(&clusters), "a\r\nb");
    assert_eq!(first_line(&vec![]), "");
}

fn check_run(name: &str, status: &str, conclusion: Option<&str>, completed_at: Option<i64>) -> GhCheckRun {
    GhCheckRun {
        id: 1,
        head_sha: "0123456789abcdef".to_owned(),
        status: status.to_owned(),
        conclusion: conclusion.map(|c| c.to_owned()),
        started_at: 1_000,
        completed_at,
        output: None,
        name: name.to_owned(),
    }
}

#[test]
fn builds_are_listed_with_state_and_time() {
    let runs = vec![
        check_run("test", "completed", Some("success"), Some(1_600)),
        check_run("lint", "in_progress", None, None),
        check_run("docs", "completed", Some("timed_out"), Some(1_200)),
    ];
    let first = BuildInfo::from_github_check_run(&runs[0]);
    assert_eq!(first, BuildInfo { name: "test", status: "success", timestamp: 1_600 });
    assert_eq!(first.to_string(1_600 + 120), "test: Success - 2 minutes ago");
    let builds = BuildsInfo::from_github_check_runs(&runs);
    assert_eq!(builds.builds[1], BuildInfo { name: "lint", status: "in_progress", timestamp: 1_000 });
    assert_eq!(
        builds.to_string(1_000 + 3_600),
        "test: Success - 50 minutes ago\nlint: In progress - 1 hours ago\ndocs: Timed out - 56 minutes ago\n"
    );
    assert_eq!(BuildsInfo::from_github_check_runs(&vec![]).to_string(0), "");
}

fn issue(repo: &str, title: &str, is_pull_request: bool) -> GhIssue {
    GhIssue {
        title: title.to_owned(),
        state: "open".to_owned(),
        is_pull_request,
        repository: GhIssueRepository { name: "shub".to_owned(), full_name: repo.to_owned() },
    }
}

#[test]
fn tasks_are_set_in_columns() {
    let issues = vec![issue("kafji/shub", "Crash", false), issue("rust-lang/rust", "Add x", true)];
    let first = TaskInfo::from_github_issue(&issues[0]);
    assert_eq!(
        first,
        TaskInfo { title: "Crash", state: TaskState::Open, repository: "kafji/shub", task_type: TaskType::Issue }
    );
    let infos = TaskInfos::from_github_issues(&issues);
    assert_eq!(infos.infos[1].task_type, TaskType::PullRequest);
    assert_eq!(
        infos.rows(),
        "kafji/shub\tCrash\tOpen\tIssue\nrust-lang/rust\tAdd x\tOpen\tPull request\n"
    );
    assert_eq!(
        infos.to_string(),
        "kafji/shub      Crash  Open  Issue\nrust-lang/rust  Add x  Open  Pull request\n"
    );
    assert_eq!(TaskInfos::from_github_issues(&vec![]).to_string(), "");
    assert_eq!(TaskState::parse("open"), Ok(TaskState::Open));
    assert_eq!(
        TaskState::parse("closed").unwrap_err().to_string(),
        "unexpected task state, was `closed`"
    );
    assert_eq!(TaskState::Open.to_string(), "Open");
    assert_eq!(TaskType::Issue.to_string(), "Issue");
    assert_eq!(TaskType::PullRequest.to_string(), "Pull request");
}
