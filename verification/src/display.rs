//! The texts that the client shows: shortened cells, relative times and the
//! lines of its lists.

use crate::github_models::{opt_text, GhCheckRun, GhCommit, GhIssue, GhRepository};
use crate::text::{
    concat2, concat3, decimal, decimal_string, graphemes, grapheme_clusters, owned, pad_right,
    padded_right, str_eq, tab_aligned, tabulate, texts, to_uppercase, trim_chars, trimmed,
    uppercased,
};
use vstd::prelude::*;
use vstd::string::{StrSliceExecFns, StringExecFns};

verus! {

/// `s` with every line feed replaced by a space.
pub open spec fn on_one_line(s: Seq<char>) -> Seq<char> {
    Seq::new(
        s.len(),
        |i: int|
            if s[i] == '\n' {
                ' '
            } else {
                s[i]
            },
    )
}

/// What is left of a text that is cut for a cell of `threshold` places: its
/// first `threshold - 2` characters on one line, without white space at
/// either end, and two dots.
pub open spec fn cut_short(text: Seq<char>, threshold: nat) -> Seq<char> {
    let kept = if text.len() <= threshold - 2 {
        text.len() as int
    } else {
        threshold - 2
    };
    trimmed(on_one_line(text).take(kept)) + ".."@
}

/// The text takes at most `threshold` bytes in UTF-8.
pub open spec fn fits(text: Seq<char>, threshold: usize) -> bool {
    (vstd::utf8::encode_utf8(text).len() as usize) <= threshold
}

/// `text` as a cell of `threshold` places shows it: as it is where it fits,
/// and cut short where it does not.
pub open spec fn ellipsized(text: Seq<char>, threshold: usize) -> Seq<char> {
    if fits(text, threshold) {
        text
    } else {
        cut_short(text, threshold as nat)
    }
}

/// Shortens `text` for a cell of `threshold` places. A text of at most
/// `threshold` bytes is returned as it is; a longer one is cut, and ends in
/// two dots.
pub fn ellipsize(text: &str, threshold: usize) -> (r: String)
    requires
        threshold > 2,
    ensures
        r@ == ellipsized(text@, threshold),
        text.len() <= threshold <==> fits(text@, threshold),
{
    broadcast use vstd::string::axiom_spec_iter;

    if text.len() <= threshold {
        return owned(text);
    }
    let limit = threshold - 2;
    let n = text.unicode_len();
    let mut kept: Vec<char> = Vec::new();
    let mut i: usize = 0;
    for c in it: text.chars()
        invariant
            it.seq() == text@,
            n == text@.len(),
            i == it.index(),
            limit == threshold - 2,
            kept@ == on_one_line(text@).take(
                if i <= limit {
                    i as int
                } else {
                    limit as int
                },
            ),
    {
        if i < limit {
            let c = if c == '\n' {
                ' '
            } else {
                c
            };
            kept.push(c);
            assert(kept@ =~= on_one_line(text@).take(i + 1));
        }
        i = i + 1;
    }
    let head = trim_chars(&kept);
    concat2(head.as_str(), "..")
}

/// The statement for a name that is cut into the grapheme clusters
/// `clusters`: the first cluster in capitals, and after it every cluster as
/// it is, but for `_`, which gives way to a space.
pub open spec fn statement_of(clusters: Seq<Seq<char>>) -> Seq<char>
    decreases clusters.len(),
{
    if clusters.len() == 0 {
        Seq::empty()
    } else if clusters.len() == 1 {
        uppercased(clusters[0])
    } else {
        statement_of(clusters.drop_last()) + (if clusters.last() == "_"@ {
            " "@
        } else {
            clusters.last()
        })
    }
}

/// Joins the grapheme clusters of a snake-case name into a statement.
pub fn statement_from_graphemes(clusters: &Vec<String>) -> (r: String)
    ensures
        r@ == statement_of(texts(clusters@)),
{
    let mut r = String::new();
    let mut k: usize = 0;
    assert(texts(clusters@).take(0) =~= Seq::empty());
    while k < clusters.len()
        invariant
            k <= clusters@.len(),
            r@ == statement_of(texts(clusters@).take(k as int)),
        decreases clusters@.len() - k,
    {
        proof {
            let upto = texts(clusters@).take(k + 1);
            assert(upto.drop_last() =~= texts(clusters@).take(k as int));
            assert(upto.last() == clusters@[k as int]@);
        }
        let cluster = clusters[k].as_str();
        if k == 0 {
            let capital = to_uppercase(cluster);
            r.append(capital.as_str());
            assert(r@ =~= uppercased(clusters@[0]@));
        } else if str_eq(cluster, "_") {
            r.append(" ");
        } else {
            r.append(cluster);
        }
        k = k + 1;
    }
    assert(texts(clusters@).take(k as int) =~= texts(clusters@));
    r
}

/// Transform `snake_case` to `Statement`.
pub fn snake_case_to_statement(text: &str) -> (r: String)
    ensures
        r@ == statement_of(grapheme_clusters(text@)),
{
    let clusters = graphemes(text);
    statement_from_graphemes(&clusters)
}

/// Time that has passed since a moment, in whole seconds.
#[derive(PartialEq, Eq, Copy, Clone, Debug, Structural)]
pub struct Since(pub i64);

/// The seconds from `then` to `now`, kept within what `Since` can hold.
pub open spec fn elapsed(now: int, then: int) -> int {
    if now - then > i64::MAX {
        i64::MAX as int
    } else if now - then < i64::MIN {
        i64::MIN as int
    } else {
        now - then
    }
}

/// How a time that passed `seconds` ago is told. Less than a minute is
/// "just now", and so is a moment that is yet to come. Up to a day the
/// minutes or the hours are counted, a day having 86400 seconds; up to a
/// year the week, month or year is named, a month having 30 days and a year
/// 365; from there on the years are counted.
pub open spec fn since_text(seconds: int) -> Seq<char> {
    if seconds < 60 {
        "just now"@
    } else if seconds < 3600 {
        decimal((seconds / 60) as nat) + " minutes ago"@
    } else if seconds < 86400 {
        decimal((seconds / 3600) as nat) + " hours ago"@
    } else if seconds < 7 * 86400 {
        "this week"@
    } else if seconds < 30 * 86400 {
        "this month"@
    } else if seconds < 365 * 86400 {
        "this year"@
    } else if seconds < 2 * 31536000 {
        decimal(1) + " year ago"@
    } else {
        decimal((seconds / 31536000) as nat) + " years ago"@
    }
}

impl Since {
    /// The time from `then` to `now`, both in seconds since the same moment.
    pub fn between(now: i64, then: i64) -> (r: Since)
        ensures
            r.0 == elapsed(now as int, then as int),
    {
        let d: i128 = now as i128 - then as i128;
        if d > i64::MAX as i128 {
            Since(i64::MAX)
        } else if d < i64::MIN as i128 {
            Since(i64::MIN)
        } else {
            Since(d as i64)
        }
    }

    pub fn to_string(&self) -> (r: String)
        ensures
            r@ == since_text(self.0 as int),
    {
        if self.0 < 60 {
            return owned("just now");
        }
        let seconds: u64 = self.0 as u64;
        if seconds < 3600 {
            let mut r = decimal_string(seconds / 60);
            r.append(" minutes ago");
            r
        } else if seconds < 86400 {
            let mut r = decimal_string(seconds / 3600);
            r.append(" hours ago");
            r
        } else if seconds < 7 * 86400 {
            owned("this week")
        } else if seconds < 30 * 86400 {
            owned("this month")
        } else if seconds < 365 * 86400 {
            owned("this year")
        } else {
            let years = seconds / 31536000;
            let mut r = decimal_string(years);
            if years == 1 {
                r.append(" year ago");
            } else {
                r.append(" years ago");
            }
            r
        }
    }
}

/// The cell of a table column of `len` places for `text`: the text,
/// shortened where it does not fit, and filled up with spaces.
pub open spec fn cell_text(text: Seq<char>, len: usize) -> Seq<char> {
    padded_right(ellipsized(text, len), len as nat)
}

/// The cell of a table column of `len` places for `text`.
pub fn table_cell(text: &str, len: usize) -> (r: String)
    requires
        len > 2,
    ensures
        r@ == cell_text(text@, len),
{
    let shown = ellipsize(text, len);
    pad_right(shown.as_str(), len)
}

/// The text of an optional text: nothing where there is none.
pub open spec fn text_or_empty(o: Option<String>) -> Seq<char> {
    match o {
        Some(s) => s@,
        None => Seq::empty(),
    }
}

fn str_or_empty(o: &Option<String>) -> (r: &str)
    ensures
        r@ == text_or_empty(*o),
{
    match o {
        Some(s) => s.as_str(),
        None => {
            proof {
                reveal_strlit("");
            }
            assert(""@ =~= Seq::<char>::empty());
            ""
        },
    }
}

/// How a time in the past is told, or nothing where no time is known.
pub open spec fn pushed_text(pushed_at: Option<i64>, now: i64) -> Seq<char> {
    match pushed_at {
        Some(then) => since_text(elapsed(now as int, then as int)),
        None => Seq::empty(),
    }
}

fn pushed(pushed_at: Option<i64>, now: i64) -> (r: String)
    ensures
        r@ == pushed_text(pushed_at, now),
{
    match pushed_at {
        Some(then) => Since::between(now, then).to_string(),
        None => String::new(),
    }
}

/// The marks of a repository: whether it is archived, and whether it is a
/// fork.
pub open spec fn attrs_text(repo: GhRepository) -> Seq<char> {
    if repo.archived == Some(true) && repo.fork == Some(true) {
        "archived, fork"@
    } else if repo.archived == Some(true) {
        "archived"@
    } else if repo.fork == Some(true) {
        "fork"@
    } else {
        Seq::empty()
    }
}

/// The name of a repository as a cell of its list.
#[derive(Debug)]
pub struct RepositoryName<'a>(pub &'a str);

impl<'a> RepositoryName<'a> {
    pub fn from(repo: &'a GhRepository) -> (r: Self)
        ensures
            r.0@ == repo.name@,
    {
        RepositoryName(repo.name.as_str())
    }

    pub fn to_string(&self) -> (r: String)
        ensures
            r@ == cell_text(self.0@, 15),
    {
        table_cell(self.0, 15)
    }
}

/// The marks of a repository as a cell of its list.
#[derive(Debug)]
pub struct RepositoryAttrs(pub String);

impl RepositoryAttrs {
    pub fn from(repo: &GhRepository) -> (r: Self)
        ensures
            r.0@ == attrs_text(*repo),
    {
        let archived = match repo.archived {
            Some(true) => true,
            _ => false,
        };
        let fork = match repo.fork {
            Some(true) => true,
            _ => false,
        };
        if archived && fork {
            RepositoryAttrs(owned("archived, fork"))
        } else if archived {
            RepositoryAttrs(owned("archived"))
        } else if fork {
            RepositoryAttrs(owned("fork"))
        } else {
            RepositoryAttrs(String::new())
        }
    }

    pub fn to_string(&self) -> (r: String)
        ensures
            r@ == cell_text(self.0@, 15),
    {
        table_cell(self.0.as_str(), 15)
    }
}

/// The description of a repository as a cell; the second field says how
/// many places the cell has.
#[derive(Debug)]
pub struct RepositoryDescription<'a>(pub &'a str, pub usize);

impl<'a> RepositoryDescription<'a> {
    pub fn from_repository(repository: &'a GhRepository, length: usize) -> (r: Self)
        ensures
            r.0@ == text_or_empty(repository.description),
            r.1 == length,
    {
        RepositoryDescription(str_or_empty(&repository.description), length)
    }

    pub fn to_string(&self) -> (r: String)
        requires
            self.1 > 2,
        ensures
            r@ == cell_text(self.0@, self.1),
    {
        table_cell(self.0, self.1)
    }
}

/// Whether a repository is private, in words; nothing where it is not known.
pub open spec fn visibility_text(private: Option<bool>) -> Seq<char> {
    match private {
        Some(true) => "private"@,
        Some(false) => "public"@,
        None => Seq::empty(),
    }
}

fn visibility(private: Option<bool>) -> (r: String)
    ensures
        r@ == visibility_text(private),
{
    match private {
        Some(true) => owned("private"),
        Some(false) => owned("public"),
        None => String::new(),
    }
}

/// The message of a commit, or nothing where there is no commit.
pub open spec fn message_text(commit: Option<GhCommit>) -> Seq<char> {
    match commit {
        Some(c) => c.commit.message@,
        None => Seq::empty(),
    }
}

/// The line for one of the user's own repositories: visibility, name,
/// description, time of the last push, message of the last commit, language
/// and marks, each in its column, with ` | ` between them.
pub open spec fn owned_repository_text(
    repo: GhRepository,
    commit: Option<GhCommit>,
    now: i64,
) -> Seq<char> {
    cell_text(visibility_text(repo.private), 6) + " | "@ + cell_text(repo.name@, 15) + " | "@
        + cell_text(text_or_empty(repo.description), 30) + " | "@ + cell_text(
        pushed_text(repo.pushed_at, now),
        12,
    ) + " | "@ + cell_text(message_text(commit), 40) + " | "@ + cell_text(
        text_or_empty(repo.language),
        10,
    ) + " | "@ + cell_text(attrs_text(repo), 15)
}

/// The line for one of the user's own repositories. `now` is the time at
/// which the line is shown.
pub fn owned_repository_line(repo: &GhRepository, commit: &Option<GhCommit>, now: i64) -> (r:
    String)
    ensures
        r@ == owned_repository_text(*repo, *commit, now),
{
    let shown = visibility(repo.private);
    let mut r = table_cell(shown.as_str(), 6);
    r.append(" | ");
    r.append(RepositoryName::from(repo).to_string().as_str());
    r.append(" | ");
    r.append(RepositoryDescription::from_repository(repo, 30).to_string().as_str());
    r.append(" | ");
    r.append(table_cell(pushed(repo.pushed_at, now).as_str(), 12).as_str());
    r.append(" | ");
    let message = match commit {
        Some(c) => c.commit.message.as_str(),
        None => {
            proof {
                reveal_strlit("");
            }
            assert(""@ =~= Seq::<char>::empty());
            ""
        },
    };
    r.append(table_cell(message, 40).as_str());
    r.append(" | ");
    r.append(table_cell(str_or_empty(&repo.language), 10).as_str());
    r.append(" | ");
    r.append(RepositoryAttrs::from(repo).to_string().as_str());
    r
}

/// The line for a repository that the user has starred: name, description,
/// owner, time of the last push, language and marks, each in its column,
/// with ` | ` between them.
pub open spec fn starred_repository_text(repo: GhRepository, now: i64) -> Seq<char> {
    cell_text(repo.name@, 15) + " | "@ + cell_text(text_or_empty(repo.description), 60)
        + " | "@ + cell_text(
        match repo.owner_login() {
            Some(login) => login,
            None => Seq::empty(),
        },
        15,
    ) + " | "@ + cell_text(pushed_text(repo.pushed_at, now), 12) + " | "@ + cell_text(
        text_or_empty(repo.language),
        10,
    ) + " | "@ + cell_text(attrs_text(repo), 15)
}

/// The line for a repository that the user has starred. `now` is the time
/// at which the line is shown.
pub fn starred_repository_line(repo: &GhRepository, now: i64) -> (r: String)
    ensures
        r@ == starred_repository_text(*repo, now),
{
    let mut r = RepositoryName::from(repo).to_string();
    r.append(" | ");
    r.append(RepositoryDescription::from_repository(repo, 60).to_string().as_str());
    r.append(" | ");
    let owner = match &repo.owner {
        Some(user) => user.login.as_str(),
        None => {
            proof {
                reveal_strlit("");
            }
            assert(""@ =~= Seq::<char>::empty());
            ""
        },
    };
    r.append(table_cell(owner, 15).as_str());
    r.append(" | ");
    r.append(table_cell(pushed(repo.pushed_at, now).as_str(), 12).as_str());
    r.append(" | ");
    r.append(table_cell(str_or_empty(&repo.language), 10).as_str());
    r.append(" | ");
    r.append(RepositoryAttrs::from(repo).to_string().as_str());
    r
}

/// The text up to the first line feed of a text that is cut into the
/// grapheme clusters `clusters`.
pub open spec fn first_line_of(clusters: Seq<Seq<char>>) -> Seq<char>
    decreases clusters.len(),
{
    if clusters.len() == 0 || clusters[0] == "\n"@ {
        Seq::empty()
    } else {
        clusters[0] + first_line_of(clusters.drop_first())
    }
}

/// Joins the grapheme clusters of a text up to its first line feed.
pub fn first_line(clusters: &Vec<String>) -> (r: String)
    ensures
        r@ == first_line_of(texts(clusters@)),
{
    let mut r = String::new();
    let mut k: usize = 0;
    let ghost all = texts(clusters@);
    assert(all.skip(0) =~= all);
    assert(r@ + first_line_of(all) =~= first_line_of(all));
    while k < clusters.len()
        invariant
            k <= clusters@.len(),
            all == texts(clusters@),
            r@ + first_line_of(all.skip(k as int)) == first_line_of(all),
        decreases clusters@.len() - k,
    {
        let cluster = clusters[k].as_str();
        proof {
            let rest = all.skip(k as int);
            assert(rest[0] == cluster@);
            assert(rest.drop_first() =~= all.skip(k + 1));
        }
        if str_eq(cluster, "\n") {
            assert(r@ + Seq::<char>::empty() =~= r@);
            return r;
        }
        proof {
            let rest = all.skip(k as int);
            assert(r@ + (cluster@ + first_line_of(rest.drop_first())) =~= (r@ + cluster@)
                + first_line_of(all.skip(k + 1)));
        }
        r.append(cluster);
        k = k + 1;
    }
    assert(r@ + Seq::<char>::empty() =~= r@);
    r
}

/// Who made a commit, when, which one it is and what it says.
#[derive(PartialEq, Eq, Clone, Debug)]
pub struct CommitInfo<'a> {
    pub author_name: Option<&'a str>,
    pub author_email: Option<&'a str>,
    pub timestamp: i64,
    pub hash: &'a str,
    pub message: &'a str,
}

/// Who made a commit, as the head of its description: name and address,
/// one of them, or nothing, and ` - ` after it where there is anything.
pub open spec fn author_text(name: Option<Seq<char>>, email: Option<Seq<char>>) -> Seq<char> {
    match (name, email) {
        (Some(n), Some(e)) => n + " <"@ + e + ">"@ + " - "@,
        (Some(n), None) => n + " - "@,
        (None, Some(e)) => e + " - "@,
        (None, None) => Seq::empty(),
    }
}

/// The text inside an optional string slice, if there is one.
pub open spec fn opt_str_text(o: Option<&str>) -> Option<Seq<char>> {
    match o {
        Some(s) => Some(s@),
        None => None,
    }
}

fn opt_as_str(o: &Option<String>) -> (r: Option<&str>)
    ensures
        opt_str_text(r) == opt_text(*o),
{
    match o {
        Some(s) => Some(s.as_str()),
        None => None,
    }
}

impl<'a> CommitInfo<'a> {
    pub fn from_github_commit(commit: &'a GhCommit) -> (r: Self)
        ensures
            opt_str_text(r.author_name) == opt_text(commit.commit.author.name),
            opt_str_text(r.author_email) == opt_text(commit.commit.author.email),
            r.timestamp == commit.commit.author.date,
            r.hash@ == commit.sha@,
            r.message@ == commit.commit.message@,
    {
        CommitInfo {
            author_name: opt_as_str(&commit.commit.author.name),
            author_email: opt_as_str(&commit.commit.author.email),
            timestamp: commit.commit.author.date,
            hash: commit.sha.as_str(),
            message: commit.commit.message.as_str(),
        }
    }

    /// The description as it is shown at the time `now`.
    pub open spec fn text(self, now: i64) -> Seq<char> {
        author_text(opt_str_text(self.author_name), opt_str_text(self.author_email)) + since_text(
            elapsed(now as int, self.timestamp as int),
        ) + "\n"@ + self.hash@.subrange(0, 8) + "\n"@ + first_line_of(
            grapheme_clusters(self.message@),
        ) + "\n"@
    }

    /// The description of the commit in three lines: who made it and how
    /// long ago, the first eight characters of its hash, and the first line
    /// of its message. The hash is in ASCII and has eight characters or more,
    /// as the hash of a commit has.
    pub fn to_string(&self, now: i64) -> (r: String)
        requires
            self.hash.is_ascii(),
            self.hash@.len() >= 8,
        ensures
            r@ == self.text(now),
    {
        let mut r = String::new();
        match (self.author_name, self.author_email) {
            (Some(n), Some(e)) => {
                r.append(n);
                r.append(" <");
                r.append(e);
                r.append(">");
                r.append(" - ");
                assert(r@ =~= author_text(Some(n@), Some(e@)));
            },
            (Some(n), None) => {
                r.append(n);
                r.append(" - ");
                assert(r@ =~= author_text(Some(n@), None));
            },
            (None, Some(e)) => {
                r.append(e);
                r.append(" - ");
                assert(r@ =~= author_text(None, Some(e@)));
            },
            (None, None) => {},
        }
        r.append(Since::between(now, self.timestamp).to_string().as_str());
        r.append("\n");
        r.append(self.hash.substring_ascii(0, 8));
        r.append("\n");
        let clusters = graphemes(self.message);
        r.append(first_line(&clusters).as_str());
        r.append("\n");
        r
    }
}

/// One job of the build service: its name, how it stands and since when.
#[derive(PartialEq, Eq, Clone, Debug)]
pub struct BuildInfo<'a> {
    pub name: &'a str,
    pub status: &'a str,
    pub timestamp: i64,
}

impl<'a> BuildInfo<'a> {
    /// What is shown of `run`: its conclusion if it has one, else its
    /// state; and the time at which it ended if it has, else the time at
    /// which it began.
    pub fn from_github_check_run(run: &'a GhCheckRun) -> (r: Self)
        ensures
            r.name@ == run.name@,
            r.status@ == match run.conclusion {
                Some(c) => c@,
                None => run.status@,
            },
            r.timestamp == match run.completed_at {
                Some(t) => t,
                None => run.started_at,
            },
    {
        BuildInfo {
            name: run.name.as_str(),
            status: match &run.conclusion {
                Some(c) => c.as_str(),
                None => run.status.as_str(),
            },
            timestamp: match run.completed_at {
                Some(t) => t,
                None => run.started_at,
            },
        }
    }

    /// The line for the job as it is shown at the time `now`.
    pub open spec fn text(self, now: i64) -> Seq<char> {
        self.name@ + ": "@ + statement_of(grapheme_clusters(self.status@)) + " - "@ + since_text(
            elapsed(now as int, self.timestamp as int),
        )
    }

    pub fn to_string(&self, now: i64) -> (r: String)
        ensures
            r@ == self.text(now),
    {
        let mut r = owned(self.name);
        r.append(": ");
        r.append(snake_case_to_statement(self.status).as_str());
        r.append(" - ");
        r.append(Since::between(now, self.timestamp).to_string().as_str());
        r
    }
}

/// The jobs of the build service for one commit.
#[derive(PartialEq, Eq, Clone, Debug)]
pub struct BuildsInfo<'a> {
    pub builds: Vec<BuildInfo<'a>>,
}

/// The lines for `builds`, one after the other, each ended by a line feed.
pub open spec fn builds_text(builds: Seq<BuildInfo>, now: i64) -> Seq<char>
    decreases builds.len(),
{
    if builds.len() == 0 {
        Seq::empty()
    } else {
        builds_text(builds.drop_last(), now) + builds.last().text(now) + "\n"@
    }
}

impl<'a> BuildsInfo<'a> {
    pub fn from_github_check_runs(runs: &'a Vec<GhCheckRun>) -> (r: Self)
        ensures
            r.builds@.len() == runs@.len(),
            forall|i: int|
                0 <= i < runs@.len() ==> {
                    &&& (#[trigger] r.builds@[i]).name@ == runs@[i].name@
                    &&& r.builds@[i].status@ == match runs@[i].conclusion {
                        Some(c) => c@,
                        None => runs@[i].status@,
                    }
                    &&& r.builds@[i].timestamp == match runs@[i].completed_at {
                        Some(t) => t,
                        None => runs@[i].started_at,
                    }
                },
    {
        let mut builds: Vec<BuildInfo<'a>> = Vec::new();
        let mut k: usize = 0;
        while k < runs.len()
            invariant
                k <= runs@.len(),
                builds@.len() == k,
                forall|i: int|
                    0 <= i < k ==> {
                        &&& (#[trigger] builds@[i]).name@ == runs@[i].name@
                        &&& builds@[i].status@ == match runs@[i].conclusion {
                            Some(c) => c@,
                            None => runs@[i].status@,
                        }
                        &&& builds@[i].timestamp == match runs@[i].completed_at {
                            Some(t) => t,
                            None => runs@[i].started_at,
                        }
                    },
            decreases runs@.len() - k,
        {
            builds.push(BuildInfo::from_github_check_run(&runs[k]));
            k = k + 1;
        }
        BuildsInfo { builds }
    }

    pub fn to_string(&self, now: i64) -> (r: String)
        ensures
            r@ == builds_text(self.builds@, now),
    {
        let mut r = String::new();
        let mut k: usize = 0;
        assert(self.builds@.take(0) =~= Seq::empty());
        while k < self.builds.len()
            invariant
                k <= self.builds@.len(),
                r@ == builds_text(self.builds@.take(k as int), now),
            decreases self.builds@.len() - k,
        {
            assert(self.builds@.take(k + 1).drop_last() =~= self.builds@.take(k as int));
            r.append(self.builds[k].to_string(now).as_str());
            r.append("\n");
            k = k + 1;
        }
        assert(self.builds@.take(k as int) =~= self.builds@);
        r
    }
}

/// Whether a task is still to be done.
#[derive(PartialEq, Eq, Copy, Clone, Debug, Structural)]
pub enum TaskState {
    Open,
}

/// A text is not the state of a task.
#[derive(Debug, Clone, PartialEq, Eq)]
pub struct ParseTaskStateError(pub String);

impl ParseTaskStateError {
    pub fn to_string(&self) -> (r: String)
        ensures
            r@ == self.0@,
    {
        self.0.clone()
    }
}

impl TaskState {
    /// Reads the state of a task: `open`, and nothing else.
    pub fn parse(s: &str) -> (r: Result<TaskState, ParseTaskStateError>)
        ensures
            match r {
                Ok(state) => s@ == "open"@ && state == TaskState::Open,
                Err(e) => s@ != "open"@ && e.0@ == "unexpected task state, was `"@ + s@ + "`"@,
            },
    {
        if str_eq(s, "open") {
            Ok(TaskState::Open)
        } else {
            Err(ParseTaskStateError(concat3("unexpected task state, was `", s, "`")))
        }
    }

    pub open spec fn name(self) -> Seq<char> {
        "Open"@
    }

    pub fn to_string(&self) -> (r: String)
        ensures
            r@ == self.name(),
    {
        match self {
            TaskState::Open => owned("Open"),
        }
    }
}

/// What kind of task it is.
#[derive(PartialEq, Eq, Copy, Clone, Debug, Structural)]
pub enum TaskType {
    Issue,
    PullRequest,
}

impl TaskType {
    pub open spec fn name(self) -> Seq<char> {
        match self {
            TaskType::Issue => "Issue"@,
            TaskType::PullRequest => "Pull request"@,
        }
    }

    pub fn to_string(&self) -> (r: String)
        ensures
            r@ == self.name(),
    {
        match self {
            TaskType::Issue => owned("Issue"),
            TaskType::PullRequest => owned("Pull request"),
        }
    }
}

/// One task of the user: an issue or a pull request.
#[derive(PartialEq, Eq, Clone, Debug)]
pub struct TaskInfo<'a> {
    pub title: &'a str,
    pub state: TaskState,
    pub repository: &'a str,
    pub task_type: TaskType,
}

impl<'a> TaskInfo<'a> {
    /// What is shown of `issue`, which is open.
    pub fn from_github_issue(issue: &'a GhIssue) -> (r: Self)
        requires
            issue.state@ == "open"@,
        ensures
            r.title@ == issue.title@,
            r.state == TaskState::Open,
            r.repository@ == issue.repository.full_name@,
            r.task_type == if issue.is_pull_request {
                TaskType::PullRequest
            } else {
                TaskType::Issue
            },
    {
        let state = match TaskState::parse(issue.state.as_str()) {
            Ok(state) => state,
            Err(_) => TaskState::Open,
        };
        TaskInfo {
            title: issue.title.as_str(),
            state,
            repository: issue.repository.full_name.as_str(),
            task_type: if issue.is_pull_request {
                TaskType::PullRequest
            } else {
                TaskType::Issue
            },
        }
    }

    /// The cells of the task, with a tab between them and a line feed at the
    /// end: repository, title, state and kind.
    pub open spec fn row(self) -> Seq<char> {
        self.repository@ + "\t"@ + self.title@ + "\t"@ + self.state.name() + "\t"@
            + self.task_type.name() + "\n"@
    }
}

/// The tasks of the user.
#[derive(PartialEq, Eq, Clone, Debug)]
pub struct TaskInfos<'a> {
    pub infos: Vec<TaskInfo<'a>>,
}

/// The rows of `infos`, one after the other.
pub open spec fn task_rows(infos: Seq<TaskInfo>) -> Seq<char>
    decreases infos.len(),
{
    if infos.len() == 0 {
        Seq::empty()
    } else {
        task_rows(infos.drop_last()) + infos.last().row()
    }
}

impl<'a> TaskInfos<'a> {
    /// What is shown of `issues`, all of which are open.
    pub fn from_github_issues(issues: &'a Vec<GhIssue>) -> (r: Self)
        requires
            forall|i: int| 0 <= i < issues@.len() ==> (#[trigger] issues@[i]).state@ == "open"@,
        ensures
            r.infos@.len() == issues@.len(),
            forall|i: int|
                0 <= i < issues@.len() ==> {
                    &&& (#[trigger] r.infos@[i]).title@ == issues@[i].title@
                    &&& r.infos@[i].state == TaskState::Open
                    &&& r.infos@[i].repository@ == issues@[i].repository.full_name@
                    &&& r.infos@[i].task_type == if issues@[i].is_pull_request {
                        TaskType::PullRequest
                    } else {
                        TaskType::Issue
                    }
                },
    {
        let mut infos: Vec<TaskInfo<'a>> = Vec::new();
        let mut k: usize = 0;
        while k < issues.len()
            invariant
                k <= issues@.len(),
                infos@.len() == k,
                forall|i: int| 0 <= i < issues@.len() ==> (#[trigger] issues@[i]).state@ == "open"@,
                forall|i: int|
                    0 <= i < k ==> {
                        &&& (#[trigger] infos@[i]).title@ == issues@[i].title@
                        &&& infos@[i].state == TaskState::Open
                        &&& infos@[i].repository@ == issues@[i].repository.full_name@
                        &&& infos@[i].task_type == if issues@[i].is_pull_request {
                            TaskType::PullRequest
                        } else {
                            TaskType::Issue
                        }
                    },
            decreases issues@.len() - k,
        {
            infos.push(TaskInfo::from_github_issue(&issues[k]));
            k = k + 1;
        }
        TaskInfos { infos }
    }

    /// The rows of the tasks before their cells are set in columns.
    pub fn rows(&self) -> (r: String)
        ensures
            r@ == task_rows(self.infos@),
    {
        let mut r = String::new();
        let mut k: usize = 0;
        assert(self.infos@.take(0) =~= Seq::empty());
        while k < self.infos.len()
            invariant
                k <= self.infos@.len(),
                r@ == task_rows(self.infos@.take(k as int)),
            decreases self.infos@.len() - k,
        {
            assert(self.infos@.take(k + 1).drop_last() =~= self.infos@.take(k as int));
            let info = &self.infos[k];
            r.append(info.repository);
            r.append("\t");
            r.append(info.title);
            r.append("\t");
            r.append(info.state.to_string().as_str());
            r.append("\t");
            r.append(info.task_type.to_string().as_str());
            r.append("\n");
            k = k + 1;
        }
        assert(self.infos@.take(k as int) =~= self.infos@);
        r
    }

    /// The table of the tasks: a line for each, with repository, title,
    /// state and kind set in columns.
    pub fn to_string(&self) -> (r: String)
        ensures
            r@ == tab_aligned(task_rows(self.infos@)),
    {
        let rows = self.rows();
        tabulate(rows.as_str())
    }
}

} // verus!
