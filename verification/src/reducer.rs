//! From the check runs of a commit to one build status.
//!
//! Each run contributes at most one status, and the most severe contribution
//! wins. The order in which the runs are given plays no part.

use crate::github_models::{opt_text, GhCheckRun};
use crate::text::str_eq;
use crate::types::BuildStatus;
use vstd::prelude::*;

verus! {

/// What one run with this `status` and `conclusion` contributes.
///
/// A queued run contributes nothing. A run in progress counts as
/// `InProgress`. A completed run counts as `Success` if it concluded with
/// success and as `Failure` otherwise, also where it has no conclusion. Any
/// other state counts as `Failure`.
pub open spec fn contribution(status: Seq<char>, conclusion: Option<Seq<char>>) -> Option<
    BuildStatus,
> {
    if status == "queued"@ {
        None
    } else if status == "in_progress"@ {
        Some(BuildStatus::InProgress)
    } else if status == "completed"@ {
        if conclusion == Some("success"@) {
            Some(BuildStatus::Success)
        } else {
            Some(BuildStatus::Failure)
        }
    } else {
        Some(BuildStatus::Failure)
    }
}

/// What the run `run` contributes.
pub open spec fn run_contribution(run: GhCheckRun) -> Option<BuildStatus> {
    contribution(run.status@, opt_text(run.conclusion))
}

/// Some run among `runs` contributes `status`.
pub open spec fn contributes(runs: Seq<GhCheckRun>, status: BuildStatus) -> bool {
    exists|i: int| 0 <= i < runs.len() && run_contribution(#[trigger] runs[i]) == Some(status)
}

/// The summary of `runs`: the most severe status that any of them
/// contributes, and `None` where none contributes anything.
pub open spec fn summary(runs: Seq<GhCheckRun>) -> Option<BuildStatus> {
    if contributes(runs, BuildStatus::Failure) {
        Some(BuildStatus::Failure)
    } else if contributes(runs, BuildStatus::InProgress) {
        Some(BuildStatus::InProgress)
    } else if contributes(runs, BuildStatus::Success) {
        Some(BuildStatus::Success)
    } else {
        None
    }
}

/// The more severe of two contributions, where nothing is less severe than
/// any status.
pub open spec fn spec_combine(a: Option<BuildStatus>, b: Option<BuildStatus>) -> Option<
    BuildStatus,
> {
    match (a, b) {
        (None, _) => b,
        (_, None) => a,
        (Some(x), Some(y)) => Some(x.spec_worst(y)),
    }
}

pub fn combine(a: Option<BuildStatus>, b: Option<BuildStatus>) -> (r: Option<BuildStatus>)
    ensures
        r == spec_combine(a, b),
{
    match (a, b) {
        (None, _) => b,
        (_, None) => a,
        (Some(x), Some(y)) => Some(x.worst(y)),
    }
}

/// What one run contributes to the summary.
pub fn classify(run: &GhCheckRun) -> (r: Option<BuildStatus>)
    ensures
        r == run_contribution(*run),
{
    if str_eq(run.status.as_str(), "queued") {
        None
    } else if str_eq(run.status.as_str(), "in_progress") {
        Some(BuildStatus::InProgress)
    } else if str_eq(run.status.as_str(), "completed") {
        match &run.conclusion {
            Some(c) => {
                if str_eq(c.as_str(), "success") {
                    Some(BuildStatus::Success)
                } else {
                    Some(BuildStatus::Failure)
                }
            },
            None => Some(BuildStatus::Failure),
        }
    } else {
        Some(BuildStatus::Failure)
    }
}

/// Summarises the check runs of one commit.
pub fn reduce(runs: &Vec<GhCheckRun>) -> (r: Option<BuildStatus>)
    ensures
        r == summary(runs@),
{
    let mut acc: Option<BuildStatus> = None;
    let mut i: usize = 0;
    while i < runs.len()
        invariant
            i <= runs.len(),
            acc == summary(runs@.take(i as int)),
        decreases runs.len() - i,
    {
        let c = classify(&runs[i]);
        proof {
            lemma_summary_push(runs@.take(i as int), runs@[i as int]);
            assert(runs@.take(i as int).push(runs@[i as int]) =~= runs@.take(i as int + 1));
        }
        acc = combine(acc, c);
        i = i + 1;
    }
    assert(runs@.take(runs.len() as int) =~= runs@);
    acc
}

/// One more run changes the summary by combining it with what that run
/// contributes.
pub proof fn lemma_summary_push(runs: Seq<GhCheckRun>, run: GhCheckRun)
    ensures
        summary(runs.push(run)) == spec_combine(summary(runs), run_contribution(run)),
{
    let longer = runs.push(run);
    assert forall|s: BuildStatus|
        contributes(longer, s) <==> (contributes(runs, s) || run_contribution(run) == Some(
            s,
        )) by {
        if contributes(longer, s) {
            let i = choose|i: int|
                0 <= i < longer.len() && run_contribution(#[trigger] longer[i]) == Some(s);
            if i < runs.len() {
                assert(longer[i] == runs[i]);
            }
        }
        if contributes(runs, s) {
            let i = choose|i: int|
                0 <= i < runs.len() && run_contribution(#[trigger] runs[i]) == Some(s);
            assert(longer[i] == runs[i]);
        }
        if run_contribution(run) == Some(s) {
            assert(longer[runs.len() as int] == run);
        }
    }
}

/// The summary does not depend on the order of the runs: two lists that hold
/// the same runs the same number of times have the same summary.
pub proof fn lemma_summary_ignores_order(a: Seq<GhCheckRun>, b: Seq<GhCheckRun>)
    requires
        a.to_multiset() == b.to_multiset(),
    ensures
        summary(a) == summary(b),
{
    assert forall|s: BuildStatus| contributes(a, s) <==> contributes(b, s) by {
        lemma_contributes_in_multiset(a, b, s);
        lemma_contributes_in_multiset(b, a, s);
    }
}

proof fn lemma_contributes_in_multiset(a: Seq<GhCheckRun>, b: Seq<GhCheckRun>, s: BuildStatus)
    requires
        a.to_multiset() == b.to_multiset(),
    ensures
        contributes(a, s) ==> contributes(b, s),
{
    if contributes(a, s) {
        let i = choose|i: int| 0 <= i < a.len() && run_contribution(#[trigger] a[i]) == Some(s);
        a.to_multiset_ensures();
        b.to_multiset_ensures();
        assert(a.contains(a[i]));
        assert(b.to_multiset().count(a[i]) > 0);
        assert(b.contains(a[i]));
        let j = choose|j: int| 0 <= j < b.len() && b[j] == a[i];
        assert(run_contribution(b[j]) == Some(s));
    }
}

/// A list in which every run is queued has no summary; so has the empty list.
pub proof fn lemma_summary_none(runs: Seq<GhCheckRun>)
    ensures
        summary(runs) is None <==> forall|i: int|
            0 <= i < runs.len() ==> run_contribution(#[trigger] runs[i]) is None,
{
    if summary(runs) is None {
        assert forall|i: int| 0 <= i < runs.len() implies run_contribution(
            #[trigger] runs[i],
        ) is None by {
            match run_contribution(runs[i]) {
                Some(s) => {
                    assert(contributes(runs, s));
                },
                None => {},
            }
        }
    }
}

} // verus!
