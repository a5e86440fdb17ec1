//! Rebase commands, for callers that want the old hard-fail behavior.
use vstd::prelude::*;

use crate::git::{arg, LoomError};
use crate::git_commands::{plain, PlainGit};
use crate::text::{owned, views};

verus! {

/// Outcome of a rebase operation.
#[derive(Debug, Clone, Copy, PartialEq, Eq, Structural)]
pub enum RebaseOutcome {
    Completed,
    Conflicted,
}

/// Continue an in-progress rebase (`git rebase --continue`); see
/// [`continue_outcome`].
pub fn continue_rebase() -> (c: PlainGit)
    ensures
        plain(c, seq!["rebase"@, "--continue"@]),
{
    let mut a: Vec<String> = Vec::new();
    arg(&mut a, "rebase");
    arg(&mut a, "--continue");
    proof {
        assert(views(a@) =~= seq!["rebase"@, "--continue"@]);
    }
    PlainGit::captured(a)
}

/// `Completed` when the continue succeeded, `Conflicted` when it stopped on
/// a new conflict. It does not abort: the caller decides.
pub fn continue_outcome(success: bool) -> (r: RebaseOutcome)
    ensures
        success ==> r == RebaseOutcome::Completed,
        !success ==> r == RebaseOutcome::Conflicted,
{
    if success {
        RebaseOutcome::Completed
    } else {
        RebaseOutcome::Conflicted
    }
}

/// Rebase the commits between `upstream` and HEAD onto `newbase`, keeping
/// branch refs in the range up to date
/// (`git rebase --onto <newbase> <upstream> --autostash --update-refs`).
pub fn rebase_onto(newbase: &str, upstream: &str) -> (c: PlainGit)
    ensures
        plain(
            c,
            seq![
                "rebase"@,
                "--onto"@,
                newbase@,
                upstream@,
                "--autostash"@,
                "--update-refs"@,
            ],
        ),
{
    let mut a: Vec<String> = Vec::new();
    arg(&mut a, "rebase");
    arg(&mut a, "--onto");
    arg(&mut a, newbase);
    arg(&mut a, upstream);
    arg(&mut a, "--autostash");
    arg(&mut a, "--update-refs");
    proof {
        assert(views(a@) =~= seq![
            "rebase"@,
            "--onto"@,
            newbase@,
            upstream@,
            "--autostash"@,
            "--update-refs"@,
        ]);
    }
    PlainGit::captured(a)
}

/// Abort an in-progress rebase (`git rebase --abort`).
pub fn abort() -> (c: PlainGit)
    ensures
        plain(c, seq!["rebase"@, "--abort"@]),
{
    let mut a: Vec<String> = Vec::new();
    arg(&mut a, "rebase");
    arg(&mut a, "--abort");
    proof {
        assert(views(a@) =~= seq!["rebase"@, "--abort"@]);
    }
    PlainGit::captured(a)
}

/// Whether a rebase is in progress: git leaves a `rebase-merge/` or
/// `rebase-apply/` directory under the git dir while one is paused.
pub fn is_in_progress(merge_dir: bool, apply_dir: bool) -> (r: bool)
    ensures
        r == (merge_dir || apply_dir),
{
    merge_dir || apply_dir
}

pub open spec fn conflict_aborted_text() -> Seq<char> {
    "Rebase failed with conflicts — aborted"@
}

/// Continue an in-progress rebase, aborting automatically on conflict:
/// `Ok` when it completed; on a conflict the rebase is to be aborted
/// ([`abort`], whose own failure is ignored) and this error reported.
pub fn continue_rebase_or_abort(outcome: RebaseOutcome) -> (r: Result<(), LoomError>)
    ensures
        outcome == RebaseOutcome::Completed ==> r is Ok,
        outcome == RebaseOutcome::Conflicted ==> (r matches Err(e) && e.message@
            == conflict_aborted_text()),
{
    match outcome {
        RebaseOutcome::Completed => Ok(()),
        RebaseOutcome::Conflicted => Err(LoomError::new(owned("Rebase failed with conflicts — aborted"))),
    }
}

} // verus!
