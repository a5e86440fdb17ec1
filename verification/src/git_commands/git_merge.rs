//! Merge commands, and how a merge ended.
use vstd::prelude::*;

use crate::git::{arg, LoomError};
use crate::git_commands::{plain, PlainGit};
use crate::text::views;

verus! {

/// Outcome of a merge operation.
#[derive(Debug, Clone, Copy, PartialEq, Eq, Structural)]
pub enum MergeOutcome {
    Completed,
    Conflicted,
}

/// Merge a branch into the current branch, forcing a merge commit
/// (`git merge --no-ff <branch> --no-edit`); see [`run_merge_cmd`].
pub fn merge_no_ff(branch: &str) -> (c: PlainGit)
    ensures
        plain(c, seq!["merge"@, "--no-ff"@, branch@, "--no-edit"@]),
{
    let mut a: Vec<String> = Vec::new();
    arg(&mut a, "merge");
    arg(&mut a, "--no-ff");
    arg(&mut a, branch);
    arg(&mut a, "--no-edit");
    proof {
        assert(views(a@) =~= seq!["merge"@, "--no-ff"@, branch@, "--no-edit"@]);
    }
    PlainGit::captured(a)
}

/// Continue an in-progress merge (`git merge --continue`), which takes the
/// message from `MERGE_MSG` without opening an editor; see
/// [`run_merge_cmd`].
pub fn continue_merge() -> (c: PlainGit)
    ensures
        plain(c, seq!["merge"@, "--continue"@]),
{
    let mut a: Vec<String> = Vec::new();
    arg(&mut a, "merge");
    arg(&mut a, "--continue");
    proof {
        assert(views(a@) =~= seq!["merge"@, "--continue"@]);
    }
    PlainGit::captured(a)
}

/// How a merge command ended: `Completed` when it succeeded, `Conflicted`
/// when it failed and left a merge in progress, and its error otherwise.
pub fn run_merge_cmd(result: Result<(), LoomError>, in_progress: bool) -> (r: Result<
    MergeOutcome,
    LoomError,
>)
    ensures
        result is Ok ==> r == Ok::<MergeOutcome, LoomError>(MergeOutcome::Completed),
        result is Err && in_progress ==> r == Ok::<MergeOutcome, LoomError>(
            MergeOutcome::Conflicted,
        ),
        result is Err && !in_progress ==> (r matches Err(e) && e == result->Err_0),
{
    match result {
        Ok(()) => Ok(MergeOutcome::Completed),
        Err(e) => if in_progress {
            Ok(MergeOutcome::Conflicted)
        } else {
            Err(e)
        },
    }
}

/// Abort an in-progress merge (`git merge --abort`).
pub fn merge_abort() -> (c: PlainGit)
    ensures
        plain(c, seq!["merge"@, "--abort"@]),
{
    let mut a: Vec<String> = Vec::new();
    arg(&mut a, "merge");
    arg(&mut a, "--abort");
    proof {
        assert(views(a@) =~= seq!["merge"@, "--abort"@]);
    }
    PlainGit::captured(a)
}

/// Whether a merge is in progress: git keeps `MERGE_HEAD` while one is
/// paused.
pub fn merge_is_in_progress(merge_head_exists: bool) -> (r: bool)
    ensures
        r == merge_head_exists,
{
    merge_head_exists
}

} // verus!
