//! The folds that hand a whole commit to the weave's rebase: a commit
//! squashed into an older one, a commit moved to a branch, a commit taken
//! back to the working tree. Each records the operation in the state file
//! before the rebase, so a paused rebase is finished by the resume machine.
use vstd::prelude::*;

use crate::fold_steps::{
    copy_texts, error_text, failure, finishes_with_error, is_failure, no_texts, reads, reported_ref, resume_answers,
    resume_hashes_cuttable, resume_next, resume_step, resume_wf, runs, same_commit_text, texts1, FoldAction, FoldEvent,
    FoldVariant, Resume, ResumeAt,
};
use crate::git::git_rebase::RebaseOutcome;
use crate::git::{cuttable_hash, rev_parse, short_hash, short_hash_spec, LoomError};
use crate::text::{owned, push_str, text_eq, trim_str, views};

verus! {

/// Which whole-commit fold runs.
pub enum FoldMoveJob {
    /// Squash `source` into the older `target`.
    IntoCommit { source: String, target: String },
    /// Move `commit` to the tip of `branch`.
    ToBranch { commit: String, branch: String },
    /// Move `commit` right above (`above`) or below `target`.
    Relative { commit: String, target: String, above: bool },
    /// Take `commit` out of history, its changes back to the working tree;
    /// `head` is HEAD's commit when the fold started.
    ToUnstaged { commit: String, head: String },
}

/// Where a whole-commit fold stands.
pub enum FoldMoveAt {
    /// Asking whether the source descends from the target.
    Checking,
    /// Planning the weave's rebase.
    Planning,
    /// Pointing [`crate::fold_steps::track_branch`] at the moved commit;
    /// `parked` are the branches the move empties.
    Tracking { parked: Vec<String> },
    /// Reading the staged diff; `parked` are the branches the move empties.
    ReadingStaged { parked: Vec<String> },
    /// Dropping the commit from the weave.
    Dropping,
    /// Reading the commit's diff.
    ReadingDiff { emptied: Vec<String> },
    Snapshotting { emptied: Vec<String>, diff: String },
    /// Recording `variant` in the state file.
    Saving { variant: FoldVariant },
    Rebasing { variant: FoldVariant },
    /// Undoing a rebase that failed to run.
    RollingBackRebase,
    /// Telling the user the rebase paused.
    ReportingPause,
    Restaging { variant: FoldVariant },
    DeletingState { variant: FoldVariant },
    /// Putting an uncommitted diff back in the working tree.
    Applying { variant: FoldVariant },
    /// Undoing from the snapshot, then failing with `error`.
    RollingBack { error: LoomError },
    /// `git reset HEAD~1`.
    Resetting,
    /// The rebase is over: finishing as a resumed fold does.
    Resuming { resume: Resume },
    Done,
}

pub struct FoldMove {
    pub job: FoldMoveJob,
    pub at: FoldMoveAt,
}

pub open spec fn move_hashes_cuttable(job: FoldMoveJob) -> bool {
    match job {
        FoldMoveJob::IntoCommit { source, target } => cuttable_hash(source@) && cuttable_hash(target@),
        FoldMoveJob::ToBranch { commit, .. } => cuttable_hash(commit@),
        FoldMoveJob::Relative { commit, target, .. } => cuttable_hash(commit@) && cuttable_hash(target@),
        FoldMoveJob::ToUnstaged { commit, .. } => cuttable_hash(commit@),
    }
}

/// Which states each fold passes through, and that what a resumed fold
/// finishes can be reported.
pub open spec fn fold_move_wf(s: FoldMove) -> bool {
    &&& move_hashes_cuttable(s.job)
    &&& match s.at {
        FoldMoveAt::Checking => s.job is IntoCommit,
        FoldMoveAt::Tracking { .. } => s.job is Relative,
        FoldMoveAt::Planning | FoldMoveAt::ReadingStaged { .. } => !(s.job is ToUnstaged),
        FoldMoveAt::Dropping | FoldMoveAt::ReadingDiff { .. } | FoldMoveAt::Snapshotting { .. } | FoldMoveAt::Resetting => s.job is ToUnstaged,
        FoldMoveAt::Saving { variant } | FoldMoveAt::Rebasing { variant } | FoldMoveAt::Restaging { variant }
        | FoldMoveAt::DeletingState { variant } => resume_hashes_cuttable(variant),
        FoldMoveAt::Applying { variant } => resume_hashes_cuttable(variant) && variant is CommitToUnstaged,
        FoldMoveAt::Resuming { resume } => resume_wf(resume) && resume_hashes_cuttable(resume.variant),
        _ => true,
    }
}

pub open spec fn fold_move_answers(s: FoldMove, event: FoldEvent) -> bool {
    &&& fold_move_wf(s)
    &&& match s.at {
        FoldMoveAt::Checking => event is Flag,
        FoldMoveAt::Planning => if s.job is IntoCommit { event is Checked } else { event is Planned },
        FoldMoveAt::ReadingStaged { .. } | FoldMoveAt::ReadingDiff { .. } => event is Read,
        FoldMoveAt::Dropping => event is Emptied,
        FoldMoveAt::Rebasing { .. } => event is Rebased,
        FoldMoveAt::RollingBackRebase => event is Aborted,
        FoldMoveAt::ReportingPause | FoldMoveAt::Restaging { .. } | FoldMoveAt::RollingBack { .. } => event is Done,
        FoldMoveAt::Resetting => event is Ran,
        FoldMoveAt::Resuming { resume } => resume_answers(resume, event),
        FoldMoveAt::Done => false,
        _ => event is Checked,
    }
}

pub open spec fn older_target_text() -> Seq<char> {
    "Source commit must be newer than target commit"@
}

pub open spec fn not_local_text(commit: Seq<char>) -> Seq<char> {
    "Commit `"@ + short_hash_spec(commit)
        + "` is not in the local commits (upstream..HEAD)\nIf history was rewritten, the SHA may be stale — run `loom` to see the current commits"@
}

pub open spec fn apply_rolled_back_text() -> Seq<char> {
    "Failed to apply changes to working directory, operation rolled back"@
}

/// What the state file records a fold has left to finish.
pub open spec fn moved_variant(job: FoldMoveJob, parked: Vec<String>, v: FoldVariant) -> bool {
    match job {
        FoldMoveJob::IntoCommit { source, target } => v == (FoldVariant::CommitIntoCommit { source_hash: source, target_hash: target }),
        FoldMoveJob::ToBranch { commit, branch } => v == (FoldVariant::CommitToBranch {
            commit_hash: commit,
            branch_name: branch,
            parked,
        }),
        FoldMoveJob::Relative { commit, target, above } => v == (FoldVariant::CommitRelative {
            commit_hash: commit,
            target_hash: target,
            above,
            parked,
        }),
        FoldMoveJob::ToUnstaged { .. } => false,
    }
}

/// The same variant, its lists compared by what they hold.
pub open spec fn same_variant(a: FoldVariant, b: FoldVariant) -> bool {
    match (a, b) {
        (FoldVariant::CommitToBranch { commit_hash: c1, branch_name: n1, parked: p1 }, FoldVariant::CommitToBranch {
            commit_hash: c2,
            branch_name: n2,
            parked: p2,
        }) => c1 == c2 && n1 == n2 && p1@ == p2@,
        (FoldVariant::CommitToUnstaged { commit_hash: c1, diff: d1, emptied: e1 }, FoldVariant::CommitToUnstaged {
            commit_hash: c2,
            diff: d2,
            emptied: e2,
        }) => c1 == c2 && d1 == d2 && e1@ == e2@,
        (FoldVariant::CommitRelative { commit_hash: c1, target_hash: t1, above: a1, parked: p1 }, FoldVariant::CommitRelative {
            commit_hash: c2,
            target_hash: t2,
            above: a2,
            parked: p2,
        }) => c1 == c2 && t1 == t2 && a1 == a2 && p1@ == p2@,
        _ => a == b,
    }
}

/// The commits the rebase must not drop: the target a fixup lands in, the
/// commit a move carries; none for an uncommit.
pub open spec fn protected(job: FoldMoveJob) -> Seq<Seq<char>> {
    match job {
        FoldMoveJob::IntoCommit { target, .. } => seq![target@],
        FoldMoveJob::ToBranch { commit, .. } => seq![commit@],
        FoldMoveJob::Relative { commit, target, .. } => seq![commit@, target@],
        FoldMoveJob::ToUnstaged { .. } => seq![],
    }
}

pub open spec fn move_fails(r: (FoldMove, FoldAction), m: Seq<char>) -> bool {
    r.0.at is Done && finishes_with_error(r.1, m)
}

pub open spec fn move_fails_with(r: (FoldMove, FoldAction), e: LoomError) -> bool {
    r.0.at is Done && r.1 == FoldAction::Finish(Err::<Option<String>, LoomError>(e))
}

pub open spec fn resumes(r: (FoldMove, FoldAction), variant: FoldVariant, at: ResumeAt) -> bool {
    r.0.at matches FoldMoveAt::Resuming { resume } && resume.variant == variant && resume.at == at
}

/// Each step of a whole-commit fold.
pub open spec fn fold_move_next(s: FoldMove, event: FoldEvent, r: (FoldMove, FoldAction)) -> bool {
    let job = s.job;
    match (s.at, event) {
        (FoldMoveAt::Checking, FoldEvent::Flag(newer)) => match job {
            FoldMoveJob::IntoCommit { source, target } => if !newer {
                move_fails(r, older_target_text())
            } else {
                r.0.at is Planning && (r.1 matches FoldAction::PlanFixup { source: a, target: b } && a == source && b == target)
            },
            _ => false,
        },
        (FoldMoveAt::Planning, FoldEvent::Checked(c)) => match c {
            Err(e) => move_fails_with(r, e),
            Ok(()) => (r.0.at matches FoldMoveAt::ReadingStaged { parked } && parked@.len() == 0) && reads(
                r.1,
                crate::git::git_diff::restore_diff(seq!["--cached"@, "--"@]),
            ),
        },
        (FoldMoveAt::Planning, FoldEvent::Planned(x)) => match x {
            Err(e) => move_fails_with(r, e),
            Ok(p) => match job {
                FoldMoveJob::Relative { commit, .. } => r.0.at == (FoldMoveAt::Tracking { parked: p }) && r.1 == FoldAction::TrackThrough(
                    commit,
                ),
                _ => r.0.at == (FoldMoveAt::ReadingStaged { parked: p }) && reads(
                    r.1,
                    crate::git::git_diff::restore_diff(seq!["--cached"@, "--"@]),
                ),
            },
        },
        (FoldMoveAt::Tracking { parked }, FoldEvent::Checked(c)) => match c {
            Err(e) => move_fails_with(r, e),
            Ok(()) => r.0.at == (FoldMoveAt::ReadingStaged { parked }) && reads(
                r.1,
                crate::git::git_diff::restore_diff(seq!["--cached"@, "--"@]),
            ),
        },
        (FoldMoveAt::ReadingStaged { parked }, FoldEvent::Read(x)) => match x {
            Err(f) => move_fails(r, f.message@),
            Ok(out) => r.0.at matches FoldMoveAt::Saving { variant } && moved_variant(job, parked, variant) && (r.1 matches FoldAction::SaveState {
                variant: v,
                staged,
                protect,
                delete_track,
                reset_mixed_to,
            } && reset_mixed_to is None && same_variant(v, variant) && staged == Some(out) && views(protect@) == protected(job) && delete_track == (job is IntoCommit || job is Relative)),
        },
        (FoldMoveAt::Dropping, FoldEvent::Emptied(x)) => match (x, job) {
            (Err(e), _) => move_fails_with(r, e),
            (Ok(None), FoldMoveJob::ToUnstaged { commit, .. }) => move_fails(r, not_local_text(commit@)),
            (Ok(Some(emptied)), FoldMoveJob::ToUnstaged { commit, .. }) => r.0.at == (FoldMoveAt::ReadingDiff { emptied }) && reads(
                r.1,
                crate::git::git_diff::replay_diff(seq![crate::git::git_diff::commit_range(commit@)]),
            ),
            _ => false,
        },
        (FoldMoveAt::ReadingDiff { emptied }, FoldEvent::Read(x)) => match x {
            Err(f) => move_fails(r, f.message@),
            Ok(out) => r.0.at == (FoldMoveAt::Snapshotting { emptied, diff: out }) && r.1 is Snapshot,
        },
        (FoldMoveAt::Snapshotting { emptied, diff }, FoldEvent::Checked(c)) => match (c, job) {
            (Err(e), _) => move_fails_with(r, e),
            (Ok(()), FoldMoveJob::ToUnstaged { commit, .. }) => {
                let v = FoldVariant::CommitToUnstaged { commit_hash: commit, diff, emptied };
                r.0.at == (FoldMoveAt::Saving { variant: v }) && (r.1 matches FoldAction::SaveState {
                    variant: w,
                    staged,
                    protect,
                    delete_track,
                    reset_mixed_to,
                } && reset_mixed_to is None && same_variant(w, v) && staged is None && protect@.len() == 0 && !delete_track)
            },
            _ => false,
        },
        (FoldMoveAt::Saving { variant }, FoldEvent::Checked(c)) => match c {
            Err(e) => move_fails_with(r, e),
            Ok(()) => r.0.at == (FoldMoveAt::Rebasing { variant }) && (r.1 matches FoldAction::Rebase { protect } && views(
                protect@,
            ) == protected(job)),
        },
        (FoldMoveAt::Rebasing { variant }, FoldEvent::Rebased(x)) => match x {
            Err(e) => r.0.at is RollingBackRebase && if job is ToUnstaged {
                r.1 == FoldAction::DiscardState(e)
            } else {
                r.1 == FoldAction::RollBackFailedRebase(e)
            },
            Ok(RebaseOutcome::Completed) => if job is ToUnstaged {
                r.0.at == (FoldMoveAt::DeletingState { variant }) && r.1 is DeleteState
            } else {
                r.0.at == (FoldMoveAt::Restaging { variant }) && r.1 is Restage
            },
            Ok(RebaseOutcome::Paused) => r.0.at is ReportingPause && r.1 == (FoldAction::ReportPaused { at_edit: true }),
            Ok(RebaseOutcome::Stopped) => r.0.at is ReportingPause && r.1 == (FoldAction::ReportPaused { at_edit: false }),
        },
        (FoldMoveAt::RollingBackRebase, FoldEvent::Aborted(e)) => move_fails_with(r, e),
        (FoldMoveAt::ReportingPause, FoldEvent::Done) => r.0.at is Done && r.1 == FoldAction::Finish(
            Ok::<Option<String>, LoomError>(None),
        ),
        (FoldMoveAt::Restaging { variant }, FoldEvent::Done) => r.0.at == (FoldMoveAt::DeletingState { variant }) && r.1 is DeleteState,
        (FoldMoveAt::DeletingState { variant }, FoldEvent::Checked(c)) => match c {
            Err(e) => move_fails_with(r, e),
            Ok(()) => match variant {
                FoldVariant::CommitToUnstaged { diff, .. } => if diff@.len() > 0 {
                    r.0.at == (FoldMoveAt::Applying { variant }) && (r.1 matches FoldAction::ApplyToWorktree(d) && d@ == diff@)
                } else {
                    resumes(r, variant, ResumeAt::RestagingUncommit) && r.1 is Restage
                },
                _ => resumes(r, variant, ResumeAt::ReadingNew) && reads(r.1, seq!["rev-parse"@, reported_ref(variant)]),
            },
        },
        (FoldMoveAt::Applying { variant }, FoldEvent::Checked(c)) => match c {
            Err(_) => (r.0.at matches FoldMoveAt::RollingBack { error } && is_failure(error, apply_rolled_back_text()))
                && r.1 is Rollback,
            Ok(()) => resumes(r, variant, ResumeAt::RestagingUncommit) && r.1 is Restage,
        },
        (FoldMoveAt::RollingBack { error }, FoldEvent::Done) => move_fails_with(r, error),
        (FoldMoveAt::Resetting, FoldEvent::Ran(x)) => match (x, job) {
            (Err(f), _) => move_fails(r, f.message@),
            (Ok(()), FoldMoveJob::ToUnstaged { commit, .. }) => (r.0.at matches FoldMoveAt::Resuming { resume } && resume.at
                is KeepingRemovals && (resume.variant matches FoldVariant::CommitToUnstaged { commit_hash, diff, emptied }
                && commit_hash == commit && diff@.len() == 0 && emptied@.len() == 0)) && (r.1 matches FoldAction::KeepSubmoduleRemovals(
                c,
            ) && c@ == commit@),
            _ => false,
        },
        (FoldMoveAt::Resuming { resume }, ev) => r.0.at matches FoldMoveAt::Resuming { resume: q } && resume_next(
            resume,
            ev,
            (q, r.1),
        ),
        _ => false,
    }
}

/// Squash the commit `source` into the older `target` with the weave's
/// rebase ([`fold_move_next`]): refused when they are the same commit, or
/// when `source` is not newer than `target`.
pub fn fold_commit_into_commit(source: String, target: String) -> (r: (FoldMove, FoldAction))
    ensures
        r.0.job == (FoldMoveJob::IntoCommit { source, target }),
        source@ == target@ ==> move_fails(r, same_commit_text()),
        source@ != target@ ==> r.0.at is Checking && (r.1 matches FoldAction::IsDescendant { commit, of } && commit == source
            && of == target),
{
    if text_eq(source.as_str(), target.as_str()) {
        let e = error_text(owned("Source and target are the same commit"));
        return (FoldMove { job: FoldMoveJob::IntoCommit { source, target }, at: FoldMoveAt::Done }, FoldAction::Finish(Err(e)));
    }
    let a = FoldAction::IsDescendant { commit: source.clone(), of: target.clone() };
    (FoldMove { job: FoldMoveJob::IntoCommit { source, target }, at: FoldMoveAt::Checking }, a)
}

/// Move `commit` to the tip of `branch` with the weave's rebase
/// ([`fold_move_next`]).
pub fn fold_commit_to_branch(commit: String, branch: String) -> (r: (FoldMove, FoldAction))
    ensures
        r.0.job == (FoldMoveJob::ToBranch { commit, branch }),
        r.0.at is Planning,
        r.1 matches FoldAction::PlanMove { commits, branch: b } && views(commits@) == seq![commit@] && b == branch,
{
    let commits = texts1(&commit);
    let a = FoldAction::PlanMove { commits, branch: branch.clone() };
    (FoldMove { job: FoldMoveJob::ToBranch { commit, branch }, at: FoldMoveAt::Planning }, a)
}

/// Move `commit` right above (`above`) or below `target` with the weave's
/// rebase, [`crate::fold_steps::track_branch`] following it to name its new
/// hash ([`fold_move_next`]).
pub fn fold_commit_relative(commit: String, target: String, above: bool) -> (r: (FoldMove, FoldAction))
    ensures
        r.0.job == (FoldMoveJob::Relative { commit, target, above }),
        r.0.at is Planning,
        r.1 matches FoldAction::PlanRelative { commits, target: t, above: a } && views(commits@) == seq![commit@] && t == target
            && a == above,
{
    let commits = texts1(&commit);
    let a = FoldAction::PlanRelative { commits, target: target.clone(), above };
    (FoldMove { job: FoldMoveJob::Relative { commit, target, above }, at: FoldMoveAt::Planning }, a)
}

/// Take `commit` out of history, its changes back to the working tree,
/// unstaged: HEAD by a mixed reset, an older commit by dropping it in the
/// weave's rebase and re-applying its diff ([`fold_move_next`]).
pub fn fold_commit_to_unstaged(commit: String, head: String) -> (r: (FoldMove, FoldAction))
    ensures
        r.0.job == (FoldMoveJob::ToUnstaged { commit, head }),
        head@ == commit@ ==> r.0.at is Resetting && runs(r.1, seq!["reset"@, "HEAD~1"@]),
        head@ != commit@ ==> r.0.at is Dropping && r.1 == FoldAction::DropCommit(commit),
{
    if text_eq(head.as_str(), commit.as_str()) {
        let c = crate::git::git_commit::reset_mixed("HEAD~1");
        (FoldMove { job: FoldMoveJob::ToUnstaged { commit, head }, at: FoldMoveAt::Resetting }, FoldAction::Run(c))
    } else {
        let a = FoldAction::DropCommit(commit.clone());
        (FoldMove { job: FoldMoveJob::ToUnstaged { commit, head }, at: FoldMoveAt::Dropping }, a)
    }
}

fn protect_of(job: &FoldMoveJob) -> (v: Vec<String>)
    ensures
        views(v@) == protected(*job),
{
    match job {
        FoldMoveJob::IntoCommit { target, .. } => texts1(target),
        FoldMoveJob::ToBranch { commit, .. } => texts1(commit),
        FoldMoveJob::Relative { commit, target, .. } => crate::fold_steps::texts2(commit, target),
        FoldMoveJob::ToUnstaged { .. } => no_texts(),
    }
}

fn copy_variant(v: &FoldVariant) -> (w: FoldVariant)
    ensures
        same_variant(w, *v),
{
    match v {
        FoldVariant::FilesIntoCommit { original_commit_hash, files_count } => FoldVariant::FilesIntoCommit {
            original_commit_hash: original_commit_hash.clone(),
            files_count: *files_count,
        },
        FoldVariant::CommitIntoCommit { source_hash, target_hash } => FoldVariant::CommitIntoCommit {
            source_hash: source_hash.clone(),
            target_hash: target_hash.clone(),
        },
        FoldVariant::CommitToBranch { commit_hash, branch_name, parked } => FoldVariant::CommitToBranch {
            commit_hash: commit_hash.clone(),
            branch_name: branch_name.clone(),
            parked: copy_texts(parked),
        },
        FoldVariant::CommitToUnstaged { commit_hash, diff, emptied } => FoldVariant::CommitToUnstaged {
            commit_hash: commit_hash.clone(),
            diff: diff.clone(),
            emptied: copy_texts(emptied),
        },
        FoldVariant::CommitRelative { commit_hash, target_hash, above, parked } => FoldVariant::CommitRelative {
            commit_hash: commit_hash.clone(),
            target_hash: target_hash.clone(),
            above: *above,
            parked: copy_texts(parked),
        },
    }
}

fn finish_err(job: FoldMoveJob, e: LoomError) -> (r: (FoldMove, FoldAction))
    ensures
        r.0.job == job,
        move_fails_with(r, e),
{
    (FoldMove { job, at: FoldMoveAt::Done }, FoldAction::Finish(Err(e)))
}

#[verifier::rlimit(60)]
fn move_early(job: FoldMoveJob, at: FoldMoveAt, event: FoldEvent) -> (r: (FoldMove, FoldAction))
    requires
        at is Checking || at is Planning || at is Tracking || at is ReadingStaged || at is Dropping || at is ReadingDiff || at is Snapshotting
            || at is Saving || at is Resetting,
        fold_move_answers(FoldMove { job, at }, event),
    ensures
        r.0.job == job,
        fold_move_wf(r.0),
        fold_move_next(FoldMove { job, at }, event, r),
{
    match (at, event) {
        (FoldMoveAt::Checking, FoldEvent::Flag(newer)) => {
            if !newer {
                let e = error_text(owned("Source commit must be newer than target commit"));
                return finish_err(job, e);
            }
            let a = match &job {
                FoldMoveJob::IntoCommit { source, target } => FoldAction::PlanFixup { source: source.clone(), target: target.clone() },
                _ => FoldAction::Finish(Ok(None)),
            };
            (FoldMove { job, at: FoldMoveAt::Planning }, a)
        },
        (FoldMoveAt::Planning, FoldEvent::Checked(c)) => match c {
            Err(e) => finish_err(job, e),
            Ok(()) => (
                FoldMove { job, at: FoldMoveAt::ReadingStaged { parked: Vec::new() } },
                FoldAction::Read(crate::git::git_diff::diff_cached()),
            ),
        },
        (FoldMoveAt::Planning, FoldEvent::Planned(x)) => match x {
            Err(e) => finish_err(job, e),
            Ok(p) => {
                let track = match &job {
                    FoldMoveJob::Relative { commit, .. } => Some(commit.clone()),
                    _ => None,
                };
                match track {
                    Some(c) => (FoldMove { job, at: FoldMoveAt::Tracking { parked: p } }, FoldAction::TrackThrough(c)),
                    None => (FoldMove { job, at: FoldMoveAt::ReadingStaged { parked: p } }, FoldAction::Read(crate::git::git_diff::diff_cached())),
                }
            },
        },
        (FoldMoveAt::Tracking { parked }, FoldEvent::Checked(c)) => match c {
            Err(e) => finish_err(job, e),
            Ok(()) => (FoldMove { job, at: FoldMoveAt::ReadingStaged { parked } }, FoldAction::Read(crate::git::git_diff::diff_cached())),
        },
        (FoldMoveAt::ReadingStaged { parked }, FoldEvent::Read(x)) => match x {
            Err(f) => finish_err(job, failure(f)),
            Ok(out) => {
                let variant = match &job {
                    FoldMoveJob::IntoCommit { source, target } => FoldVariant::CommitIntoCommit {
                        source_hash: source.clone(),
                        target_hash: target.clone(),
                    },
                    FoldMoveJob::ToBranch { commit, branch } => FoldVariant::CommitToBranch {
                        commit_hash: commit.clone(),
                        branch_name: branch.clone(),
                        parked,
                    },
                    FoldMoveJob::Relative { commit, target, above } => FoldVariant::CommitRelative {
                        commit_hash: commit.clone(),
                        target_hash: target.clone(),
                        above: *above,
                        parked,
                    },
                    FoldMoveJob::ToUnstaged { .. } => FoldVariant::CommitIntoCommit { source_hash: String::new(), target_hash: String::new() },
                };
                let v2 = copy_variant(&variant);
                let delete_track = match &job {
                    FoldMoveJob::IntoCommit { .. } | FoldMoveJob::Relative { .. } => true,
                    _ => false,
                };
                let a = FoldAction::SaveState { variant: v2, staged: Some(out), protect: protect_of(&job), delete_track, reset_mixed_to: None };
                (FoldMove { job, at: FoldMoveAt::Saving { variant } }, a)
            },
        },
        (FoldMoveAt::Dropping, FoldEvent::Emptied(x)) => match x {
            Err(e) => finish_err(job, e),
            Ok(None) => {
                let mut m = owned("Commit `");
                match &job {
                    FoldMoveJob::ToUnstaged { commit, .. } => push_str(&mut m, short_hash(commit.as_str()).as_str()),
                    _ => {},
                }
                push_str(
                    &mut m,
                    "` is not in the local commits (upstream..HEAD)\nIf history was rewritten, the SHA may be stale — run `loom` to see the current commits",
                );
                finish_err(job, error_text(m))
            },
            Ok(Some(emptied)) => {
                let c = match &job {
                    FoldMoveJob::ToUnstaged { commit, .. } => crate::git::git_diff::diff_commit(commit.as_str()),
                    _ => rev_parse("HEAD"),
                };
                (FoldMove { job, at: FoldMoveAt::ReadingDiff { emptied } }, FoldAction::Read(c))
            },
        },
        (FoldMoveAt::ReadingDiff { emptied }, FoldEvent::Read(x)) => match x {
            Err(f) => finish_err(job, failure(f)),
            Ok(out) => (FoldMove { job, at: FoldMoveAt::Snapshotting { emptied, diff: out } }, FoldAction::Snapshot),
        },
        (FoldMoveAt::Snapshotting { emptied, diff }, FoldEvent::Checked(c)) => match c {
            Err(e) => finish_err(job, e),
            Ok(()) => {
                let commit = match &job {
                    FoldMoveJob::ToUnstaged { commit, .. } => commit.clone(),
                    _ => String::new(),
                };
                let variant = FoldVariant::CommitToUnstaged { commit_hash: commit, diff, emptied };
                let v2 = copy_variant(&variant);
                let a = FoldAction::SaveState { variant: v2, staged: None, protect: Vec::new(), delete_track: false, reset_mixed_to: None };
                (FoldMove { job, at: FoldMoveAt::Saving { variant } }, a)
            },
        },
        (FoldMoveAt::Saving { variant }, FoldEvent::Checked(c)) => match c {
            Err(e) => finish_err(job, e),
            Ok(()) => {
                let protect = protect_of(&job);
                (FoldMove { job, at: FoldMoveAt::Rebasing { variant } }, FoldAction::Rebase { protect })
            },
        },
        (FoldMoveAt::Resetting, FoldEvent::Ran(x)) => match x {
            Err(f) => finish_err(job, failure(f)),
            Ok(()) => {
                let commit = match &job {
                    FoldMoveJob::ToUnstaged { commit, .. } => commit.clone(),
                    _ => String::new(),
                };
                let a = FoldAction::KeepSubmoduleRemovals(commit.clone());
                let variant = FoldVariant::CommitToUnstaged { commit_hash: commit, diff: String::new(), emptied: Vec::new() };
                (FoldMove { job, at: FoldMoveAt::Resuming { resume: Resume { variant, at: ResumeAt::KeepingRemovals } } }, a)
            },
        },
        (at, _) => (FoldMove { job, at }, FoldAction::Finish(Ok(None))),
    }
}

#[verifier::rlimit(60)]
fn move_late(job: FoldMoveJob, at: FoldMoveAt, event: FoldEvent) -> (r: (FoldMove, FoldAction))
    requires
        at is Rebasing || at is RollingBackRebase || at is ReportingPause || at is Restaging || at is DeletingState
            || at is Applying || at is RollingBack,
        fold_move_answers(FoldMove { job, at }, event),
    ensures
        r.0.job == job,
        fold_move_wf(r.0),
        fold_move_next(FoldMove { job, at }, event, r),
{
    let uncommit = match &job {
        FoldMoveJob::ToUnstaged { .. } => true,
        _ => false,
    };
    match (at, event) {
        (FoldMoveAt::Rebasing { variant }, FoldEvent::Rebased(x)) => match x {
            Err(e) => if uncommit {
                (FoldMove { job, at: FoldMoveAt::RollingBackRebase }, FoldAction::DiscardState(e))
            } else {
                (FoldMove { job, at: FoldMoveAt::RollingBackRebase }, FoldAction::RollBackFailedRebase(e))
            },
            Ok(RebaseOutcome::Completed) => if uncommit {
                (FoldMove { job, at: FoldMoveAt::DeletingState { variant } }, FoldAction::DeleteState)
            } else {
                (FoldMove { job, at: FoldMoveAt::Restaging { variant } }, FoldAction::Restage)
            },
            Ok(RebaseOutcome::Paused) => (FoldMove { job, at: FoldMoveAt::ReportingPause }, FoldAction::ReportPaused { at_edit: true }),
            Ok(RebaseOutcome::Stopped) => (FoldMove { job, at: FoldMoveAt::ReportingPause }, FoldAction::ReportPaused { at_edit: false }),
        },
        (FoldMoveAt::RollingBackRebase, FoldEvent::Aborted(e)) => finish_err(job, e),
        (FoldMoveAt::ReportingPause, FoldEvent::Done) => (FoldMove { job, at: FoldMoveAt::Done }, FoldAction::Finish(Ok(None))),
        (FoldMoveAt::Restaging { variant }, FoldEvent::Done) => (FoldMove { job, at: FoldMoveAt::DeletingState { variant } }, FoldAction::DeleteState),
        (FoldMoveAt::DeletingState { variant }, FoldEvent::Checked(c)) => match c {
            Err(e) => finish_err(job, e),
            Ok(()) => {
                let d = match &variant {
                    FoldVariant::CommitToUnstaged { diff, .. } => Some(diff.clone()),
                    _ => None,
                };
                match d {
                    Some(diff) => if diff.unicode_len() > 0 {
                        (FoldMove { job, at: FoldMoveAt::Applying { variant } }, FoldAction::ApplyToWorktree(diff))
                    } else {
                        (
                            FoldMove { job, at: FoldMoveAt::Resuming { resume: Resume { variant, at: ResumeAt::RestagingUncommit } } },
                            FoldAction::Restage,
                        )
                    },
                    None => {
                        let c = match &variant {
                            FoldVariant::CommitToBranch { branch_name, .. } => rev_parse(branch_name.as_str()),
                            _ => rev_parse("_loom-track"),
                        };
                        (FoldMove { job, at: FoldMoveAt::Resuming { resume: Resume { variant, at: ResumeAt::ReadingNew } } }, FoldAction::Read(c))
                    },
                }
            },
        },
        (FoldMoveAt::Applying { variant }, FoldEvent::Checked(c)) => match c {
            Err(_) => {
                let e = error_text(owned("Failed to apply changes to working directory, operation rolled back"));
                (FoldMove { job, at: FoldMoveAt::RollingBack { error: e } }, FoldAction::Rollback)
            },
            Ok(()) => (
                FoldMove { job, at: FoldMoveAt::Resuming { resume: Resume { variant, at: ResumeAt::RestagingUncommit } } },
                FoldAction::Restage,
            ),
        },
        (FoldMoveAt::RollingBack { error }, FoldEvent::Done) => finish_err(job, error),
        (at, _) => (FoldMove { job, at }, FoldAction::Finish(Ok(None))),
    }
}

/// One step of a whole-commit fold.
pub fn fold_move_step(state: FoldMove, event: FoldEvent) -> (r: (FoldMove, FoldAction))
    requires
        fold_move_answers(state, event),
    ensures
        r.0.job == state.job,
        fold_move_wf(r.0),
        fold_move_next(state, event, r),
{
    let FoldMove { job, at } = state;
    match at {
        FoldMoveAt::Resuming { resume } => {
            let (q, a) = resume_step(resume, event);
            (FoldMove { job, at: FoldMoveAt::Resuming { resume: q } }, a)
        },
        FoldMoveAt::Rebasing { .. } | FoldMoveAt::RollingBackRebase | FoldMoveAt::ReportingPause | FoldMoveAt::Restaging { .. }
        | FoldMoveAt::DeletingState { .. } | FoldMoveAt::Applying { .. } | FoldMoveAt::RollingBack { .. } => move_late(job, at, event),
        FoldMoveAt::Done => (FoldMove { job, at: FoldMoveAt::Done }, FoldAction::Finish(Ok(None))),
        _ => move_early(job, at, event),
    }
}

} // verus!

verus! {

/// Moving commits to the tip of a branch, in one rebase that is not
/// resumable: a stop aborts it.
pub struct BranchMoveJob {
    /// The commits, oldest first.
    pub commits: Vec<String>,
    pub branch: String,
    /// Where to create the branch first, when it is new.
    pub base: Option<String>,
}

pub enum BranchMoveAt {
    Creating,
    ReadingStaged,
    Planning,
    Rebasing { parked: Vec<String> },
    /// Aborting the stopped rebase.
    Aborting,
    /// Putting the staged changes back after a failure, or parking them.
    Restoring { error: LoomError },
    /// Asking whether the rebase is gone before deleting the new branch.
    Checking { error: LoomError },
    DeletingBranch { error: LoomError },
    Restaging { parked: Vec<String> },
    ReadingTip { parked: Vec<String> },
    Describing { parked: Vec<String> },
    DescribingParked { message: String },
    Done,
}

pub struct BranchMove {
    pub job: BranchMoveJob,
    pub at: BranchMoveAt,
}

pub open spec fn branch_move_answers(s: BranchMove, event: FoldEvent) -> bool {
    match s.at {
        BranchMoveAt::Creating | BranchMoveAt::DeletingBranch { .. } => event is Ran,
        BranchMoveAt::ReadingStaged | BranchMoveAt::ReadingTip { .. } => event is Read,
        BranchMoveAt::Planning => event is Planned,
        BranchMoveAt::Rebasing { .. } => event is Rebased,
        BranchMoveAt::Aborting => event is Aborted,
        BranchMoveAt::Restoring { .. } | BranchMoveAt::Restaging { .. } => event is Done,
        BranchMoveAt::Checking { .. } => event is Flag,
        BranchMoveAt::Describing { .. } | BranchMoveAt::DescribingParked { .. } => event is Described,
        BranchMoveAt::Done => false,
    }
}

pub open spec fn create_failed_text() -> Seq<char> {
    "Failed to create branch"@
}

pub open spec fn moved_commits_text(job: BranchMoveJob, described: Seq<char>) -> Seq<char> {
    if job.base is Some {
        "Created branch `"@ + job.branch@ + "` and moved "@ + crate::text::decimal(job.commits@.len()) + " commit(s) to it (now "@
            + described + ")"@
    } else {
        "Moved "@ + crate::text::decimal(job.commits@.len()) + " commit(s) to branch `"@ + job.branch@ + "` (now "@ + described
            + ")"@
    }
}

/// After a failure: the staged changes go back, or are parked.
pub open spec fn branch_move_fails(r: (BranchMove, FoldAction), e: LoomError) -> bool {
    r.0.at == (BranchMoveAt::Restoring { error: e }) && r.1 == FoldAction::RestoreOrPark(e)
}

pub open spec fn branch_move_next(s: BranchMove, event: FoldEvent, r: (BranchMove, FoldAction)) -> bool {
    let job = s.job;
    match (s.at, event) {
        (BranchMoveAt::Creating, FoldEvent::Ran(x)) => match x {
            Err(_) => r.0.at is Done && finishes_with_error(r.1, create_failed_text()),
            Ok(()) => r.0.at is ReadingStaged && reads(r.1, crate::git::git_diff::restore_diff(seq!["--cached"@, "--"@])),
        },
        (BranchMoveAt::ReadingStaged, FoldEvent::Read(x)) => match x {
            Err(f) => r.0.at is Done && finishes_with_error(r.1, f.message@),
            Ok(_) => r.0.at is Planning && (r.1 matches FoldAction::PlanMove { commits, branch } && commits@ == job.commits@
                && branch == job.branch),
        },
        (BranchMoveAt::Planning, FoldEvent::Planned(x)) => match x {
            Err(e) => branch_move_fails(r, e),
            Ok(p) => r.0.at == (BranchMoveAt::Rebasing { parked: p }) && (r.1 matches FoldAction::Rebase { protect }
                && protect@ == job.commits@),
        },
        (BranchMoveAt::Rebasing { parked }, FoldEvent::Rebased(x)) => match x {
            Err(e) => branch_move_fails(r, e),
            Ok(RebaseOutcome::Completed) => r.0.at == (BranchMoveAt::Restaging { parked }) && r.1 is Restage,
            Ok(_) => r.0.at is Aborting && r.1 is AbortAfterFailure,
        },
        (BranchMoveAt::Aborting, FoldEvent::Aborted(e)) => branch_move_fails(r, e),
        (BranchMoveAt::Restoring { error }, FoldEvent::Done) => if job.base is Some {
            r.0.at == (BranchMoveAt::Checking { error }) && r.1 is RebaseInProgress
        } else {
            r.0.at is Done && r.1 == FoldAction::Finish(Err::<Option<String>, LoomError>(error))
        },
        (BranchMoveAt::Checking { error }, FoldEvent::Flag(in_progress)) => if in_progress {
            r.0.at is Done && r.1 == FoldAction::Finish(Err::<Option<String>, LoomError>(error))
        } else {
            r.0.at == (BranchMoveAt::DeletingBranch { error }) && runs(r.1, seq!["branch"@, "-D"@, job.branch@])
        },
        (BranchMoveAt::DeletingBranch { error }, FoldEvent::Ran(_)) => r.0.at is Done && r.1 == FoldAction::Finish(
            Err::<Option<String>, LoomError>(error),
        ),
        (BranchMoveAt::Restaging { parked }, FoldEvent::Done) => r.0.at == (BranchMoveAt::ReadingTip { parked }) && reads(
            r.1,
            seq!["rev-parse"@, job.branch@],
        ),
        (BranchMoveAt::ReadingTip { parked }, FoldEvent::Read(x)) => match x {
            Err(f) => r.0.at is Done && finishes_with_error(r.1, f.message@),
            Ok(out) => r.0.at == (BranchMoveAt::Describing { parked }) && (r.1 matches FoldAction::Describe(h) && h@
                == crate::fold_steps::read_hash(out@)),
        },
        (BranchMoveAt::Describing { parked }, FoldEvent::Described(d)) => if parked@.len() == 0 {
            r.0.at is Done && (r.1 matches FoldAction::Finish(Ok(Some(m))) && m@ == moved_commits_text(job, d@))
        } else {
            (r.0.at matches BranchMoveAt::DescribingParked { message } && message@ == moved_commits_text(job, d@)) && r.1
                == FoldAction::DescribeBranches(parked)
        },
        (BranchMoveAt::DescribingParked { message }, FoldEvent::Described(b)) => r.0.at is Done && (r.1 matches FoldAction::Finish(
            Ok(Some(m)),
        ) && m@ == crate::fold_steps::with_parked(message@, b@)),
        _ => false,
    }
}

fn branch_command(a0: &str, a1: &str, a2: &str) -> (c: crate::git::GitCommand)
    ensures
        crate::git::captured(c, seq![a0@, a1@, a2@]),
{
    let mut a: Vec<String> = Vec::new();
    crate::git::arg(&mut a, a0);
    crate::git::arg(&mut a, a1);
    crate::git::arg(&mut a, a2);
    proof {
        assert(views(a@) =~= seq![a0@, a1@, a2@]);
    }
    crate::git::GitCommand::captured(a)
}

/// Move `commits` (oldest first) to the tip of `branch` and report it;
/// with `base`, the branch is created there first, and deleted again when
/// the move fails and no rebase is left on disk ([`branch_move_next`]).
pub fn move_commits_and_report(commits: Vec<String>, branch: String, base: Option<String>) -> (r: (BranchMove, FoldAction))
    ensures
        r.0.job == (BranchMoveJob { commits, branch, base }),
        base matches Some(b) ==> r.0.at is Creating && runs(r.1, seq!["branch"@, branch@, b@]),
        base is None ==> r.0.at is ReadingStaged && reads(r.1, crate::git::git_diff::restore_diff(seq!["--cached"@, "--"@])),
{
    let a = match &base {
        Some(b) => FoldAction::Run(branch_command("branch", branch.as_str(), b.as_str())),
        None => FoldAction::Read(crate::git::git_diff::diff_cached()),
    };
    let at = match &base {
        Some(_) => BranchMoveAt::Creating,
        None => BranchMoveAt::ReadingStaged,
    };
    (BranchMove { job: BranchMoveJob { commits, branch, base }, at }, a)
}

fn moved_commits_message(job: &BranchMoveJob, d: &str) -> (m: String)
    ensures
        m@ == moved_commits_text(*job, d@),
{
    let n = crate::text::decimal_text(job.commits.len() as u64);
    match &job.base {
        Some(_) => {
            let mut m = owned("Created branch `");
            push_str(&mut m, job.branch.as_str());
            push_str(&mut m, "` and moved ");
            push_str(&mut m, n.as_str());
            push_str(&mut m, " commit(s) to it (now ");
            push_str(&mut m, d);
            push_str(&mut m, ")");
            m
        },
        None => {
            let mut m = owned("Moved ");
            push_str(&mut m, n.as_str());
            push_str(&mut m, " commit(s) to branch `");
            push_str(&mut m, job.branch.as_str());
            push_str(&mut m, "` (now ");
            push_str(&mut m, d);
            push_str(&mut m, ")");
            m
        },
    }
}

/// One step of [`move_commits_and_report`].
#[verifier::rlimit(60)]
pub fn branch_move_step(state: BranchMove, event: FoldEvent) -> (r: (BranchMove, FoldAction))
    requires
        branch_move_answers(state, event),
    ensures
        r.0.job == state.job,
        branch_move_next(state, event, r),
{
    let BranchMove { job, at } = state;
    match (at, event) {
        (BranchMoveAt::Creating, FoldEvent::Ran(x)) => match x {
            Err(_) => (BranchMove { job, at: BranchMoveAt::Done }, FoldAction::Finish(Err(error_text(owned("Failed to create branch"))))),
            Ok(()) => (BranchMove { job, at: BranchMoveAt::ReadingStaged }, FoldAction::Read(crate::git::git_diff::diff_cached())),
        },
        (BranchMoveAt::ReadingStaged, FoldEvent::Read(x)) => match x {
            Err(f) => (BranchMove { job, at: BranchMoveAt::Done }, FoldAction::Finish(Err(failure(f)))),
            Ok(_) => {
                let a = FoldAction::PlanMove { commits: copy_texts(&job.commits), branch: job.branch.clone() };
                (BranchMove { job, at: BranchMoveAt::Planning }, a)
            },
        },
        (BranchMoveAt::Planning, FoldEvent::Planned(x)) => match x {
            Err(e) => {
                let a = FoldAction::RestoreOrPark(copy_err(&e));
                (BranchMove { job, at: BranchMoveAt::Restoring { error: e } }, a)
            },
            Ok(p) => {
                let a = FoldAction::Rebase { protect: copy_texts(&job.commits) };
                (BranchMove { job, at: BranchMoveAt::Rebasing { parked: p } }, a)
            },
        },
        (BranchMoveAt::Rebasing { parked }, FoldEvent::Rebased(x)) => match x {
            Err(e) => {
                let a = FoldAction::RestoreOrPark(copy_err(&e));
                (BranchMove { job, at: BranchMoveAt::Restoring { error: e } }, a)
            },
            Ok(RebaseOutcome::Completed) => (BranchMove { job, at: BranchMoveAt::Restaging { parked } }, FoldAction::Restage),
            Ok(_) => (BranchMove { job, at: BranchMoveAt::Aborting }, FoldAction::AbortAfterFailure),
        },
        (BranchMoveAt::Aborting, FoldEvent::Aborted(e)) => {
            let a = FoldAction::RestoreOrPark(copy_err(&e));
            (BranchMove { job, at: BranchMoveAt::Restoring { error: e } }, a)
        },
        (BranchMoveAt::Restoring { error }, FoldEvent::Done) => match &job.base {
            Some(_) => (BranchMove { job, at: BranchMoveAt::Checking { error } }, FoldAction::RebaseInProgress),
            None => (BranchMove { job, at: BranchMoveAt::Done }, FoldAction::Finish(Err(error))),
        },
        (BranchMoveAt::Checking { error }, FoldEvent::Flag(in_progress)) => if in_progress {
            (BranchMove { job, at: BranchMoveAt::Done }, FoldAction::Finish(Err(error)))
        } else {
            let c = branch_command("branch", "-D", job.branch.as_str());
            (BranchMove { job, at: BranchMoveAt::DeletingBranch { error } }, FoldAction::Run(c))
        },
        (BranchMoveAt::DeletingBranch { error }, FoldEvent::Ran(_)) => (BranchMove { job, at: BranchMoveAt::Done }, FoldAction::Finish(Err(error))),
        (BranchMoveAt::Restaging { parked }, FoldEvent::Done) => {
            let c = rev_parse(job.branch.as_str());
            (BranchMove { job, at: BranchMoveAt::ReadingTip { parked } }, FoldAction::Read(c))
        },
        (BranchMoveAt::ReadingTip { parked }, FoldEvent::Read(x)) => match x {
            Err(f) => (BranchMove { job, at: BranchMoveAt::Done }, FoldAction::Finish(Err(failure(f)))),
            Ok(out) => (BranchMove { job, at: BranchMoveAt::Describing { parked } }, FoldAction::Describe(trim_str(out.as_str()))),
        },
        (BranchMoveAt::Describing { parked }, FoldEvent::Described(d)) => {
            let m = moved_commits_message(&job, d.as_str());
            if parked.len() == 0 {
                (BranchMove { job, at: BranchMoveAt::Done }, FoldAction::Finish(Ok(Some(m))))
            } else {
                (BranchMove { job, at: BranchMoveAt::DescribingParked { message: m } }, FoldAction::DescribeBranches(parked))
            }
        },
        (BranchMoveAt::DescribingParked { message }, FoldEvent::Described(b)) => {
            let mut m = message;
            push_str(&mut m, "\n");
            push_str(&mut m, b.as_str());
            push_str(&mut m, " now empty, at the base");
            (BranchMove { job, at: BranchMoveAt::Done }, FoldAction::Finish(Ok(Some(m))))
        },
        (at, _) => (BranchMove { job, at }, FoldAction::Finish(Ok(None))),
    }
}

fn copy_err(e: &LoomError) -> (r: LoomError)
    ensures
        r == *e,
{
    let replayed_empty = match &e.replayed_empty {
        Some(s) => Some(s.clone()),
        None => None,
    };
    LoomError { message: e.message.clone(), replayed_empty, not_started: e.not_started }
}

pub open spec fn create_usage_text() -> Seq<char> {
    "fold --create requires at least one commit and one new branch name\nUsage: loom fold -c <commit>... <new-branch>"@
}

pub open spec fn branch_exists_text(name: Seq<char>) -> Seq<char> {
    "Branch `"@ + name + "` already exists\nUse `loom fold <commit>... "@ + name + "` to move commits onto it"@
}

/// `fold --create <commit>... <new-branch>`: the commits to resolve and the
/// name of the branch to create, or the usage when there are not both.
pub fn run_create(args: &[String]) -> (r: Result<(Vec<String>, String), LoomError>)
    ensures
        args@.len() < 2 <==> (r matches Err(e) && is_failure(e, create_usage_text())),
        args@.len() >= 2 ==> (r matches Ok((sources, branch)) && sources@ == args@.drop_last() && branch == args@.last()),
{
    if args.len() < 2 {
        return Err(error_text(owned(
            "fold --create requires at least one commit and one new branch name\nUsage: loom fold -c <commit>... <new-branch>",
        )));
    }
    let n = args.len() - 1;
    let mut sources: Vec<String> = Vec::new();
    let mut i: usize = 0;
    while i < n
        invariant
            i <= n,
            n == args@.len() - 1,
            sources@ == args@.take(i as int),
        decreases n - i,
    {
        sources.push(args[i].clone());
        proof {
            assert(sources@ =~= args@.take(i + 1));
        }
        i = i + 1;
    }
    proof {
        assert(args@.take(n as int) =~= args@.drop_last());
    }
    Ok((sources, args[n].clone()))
}

/// Whether `name` can be created by `fold --create`: a valid branch name
/// (`accepted`, as `git check-ref-format --branch` answered) that no branch
/// has yet (`exists`). Creating is what `--create` is for: moving onto a
/// branch that is already there is a plain fold's job.
pub fn check_new_branch(name: &str, accepted: bool, exists: bool) -> (r: Result<(), LoomError>)
    ensures
        !accepted ==> (r matches Err(e) && e.message@ == crate::git_commands::git_branch::invalid_name_text(name@)),
        accepted && exists ==> (r matches Err(e) && is_failure(e, branch_exists_text(name@))),
        accepted && !exists ==> r is Ok,
{
    crate::git_commands::git_branch::validate_name(name, accepted)?;
    if exists {
        let mut m = owned("Branch `");
        push_str(&mut m, name);
        push_str(&mut m, "` already exists\nUse `loom fold <commit>... ");
        push_str(&mut m, name);
        push_str(&mut m, "` to move commits onto it");
        return Err(error_text(m));
    }
    Ok(())
}

} // verus!

verus! {

/// Squashing the `fixup!` commit a files fold left on HEAD into its target.
pub struct SquashJob {
    pub target: String,
    /// HEAD's commit below the `fixup!` commit.
    pub head: String,
    pub files_count: usize,
    /// The staged changes set aside before the fold.
    pub staged: String,
}

pub enum SquashAt {
    ReadingFixup,
    Planning,
    Saving,
    Rebasing,
    ReportingPause,
    /// The rebase is over (`paused`: it is not, and the state file now
    /// takes it from there).
    Over { paused: bool },
    Done,
}

pub struct Squash {
    pub job: SquashJob,
    pub at: SquashAt,
}

pub open spec fn squash_answers(s: Squash, event: FoldEvent) -> bool {
    match s.at {
        SquashAt::ReadingFixup => event is Read,
        SquashAt::Planning | SquashAt::Saving => event is Checked,
        SquashAt::Rebasing => event is Rebased,
        SquashAt::ReportingPause => event is Done,
        _ => false,
    }
}

pub open spec fn squash_next(s: Squash, event: FoldEvent, r: (Squash, FoldAction)) -> bool {
    let job = s.job;
    match (s.at, event) {
        (SquashAt::ReadingFixup, FoldEvent::Read(x)) => match x {
            Err(f) => r.0.at is Done && finishes_with_error(r.1, f.message@),
            Ok(out) => r.0.at is Planning && (r.1 matches FoldAction::PlanFixup { source, target } && source@
                == crate::fold_steps::read_hash(out@) && target == job.target),
        },
        (SquashAt::Planning, FoldEvent::Checked(c)) => match c {
            Err(e) => r.0.at is Done && r.1 == FoldAction::Finish(Err::<Option<String>, LoomError>(e)),
            Ok(()) => r.0.at is Saving && (r.1 matches FoldAction::SaveState { variant, staged, protect, delete_track, reset_mixed_to }
                && variant == (FoldVariant::FilesIntoCommit { original_commit_hash: job.target, files_count: job.files_count })
                && staged == Some(job.staged) && views(protect@) == seq![job.target@] && delete_track && reset_mixed_to == Some(job.head)),
        },
        (SquashAt::Saving, FoldEvent::Checked(c)) => match c {
            Err(e) => r.0.at is Done && r.1 == FoldAction::Finish(Err::<Option<String>, LoomError>(e)),
            Ok(()) => r.0.at is Rebasing && (r.1 matches FoldAction::Rebase { protect } && views(protect@) == seq![job.target@]),
        },
        (SquashAt::Rebasing, FoldEvent::Rebased(x)) => match x {
            Err(e) => r.0.at is Done && r.1 == FoldAction::Finish(Err::<Option<String>, LoomError>(e)),
            Ok(RebaseOutcome::Completed) => r.0.at == (SquashAt::Over { paused: false }) && r.1 == FoldAction::Finish(
                Ok::<Option<String>, LoomError>(None),
            ),
            Ok(RebaseOutcome::Paused) => r.0.at is ReportingPause && r.1 == (FoldAction::ReportPaused { at_edit: true }),
            Ok(RebaseOutcome::Stopped) => r.0.at is ReportingPause && r.1 == (FoldAction::ReportPaused { at_edit: false }),
        },
        (SquashAt::ReportingPause, FoldEvent::Done) => r.0.at == (SquashAt::Over { paused: true }) && r.1 == FoldAction::Finish(
            Ok::<Option<String>, LoomError>(None),
        ),
        _ => false,
    }
}

/// Squash the `fixup!` commit on HEAD into `target`: the weave marks it as
/// a fixup of the target, the operation goes to the state file (an abort
/// resets, mixed, to `head`, below the `fixup!` commit), and the rebase
/// runs, keeping the target ([`squash_next`]). Whether it finished is in
/// the state it ends in; an error is the caller's to clean up after.
pub fn squash_fixup_into_commit(target: String, head: String, files_count: usize, staged: String) -> (r: (Squash, FoldAction))
    ensures
        r.0.job == (SquashJob { target, head, files_count, staged }),
        r.0.at is ReadingFixup,
        reads(r.1, seq!["rev-parse"@, "HEAD"@]),
{
    (Squash { job: SquashJob { target, head, files_count, staged }, at: SquashAt::ReadingFixup }, FoldAction::Read(rev_parse("HEAD")))
}

/// One step of [`squash_fixup_into_commit`].
pub fn squash_step(state: Squash, event: FoldEvent) -> (r: (Squash, FoldAction))
    requires
        squash_answers(state, event),
    ensures
        r.0.job == state.job,
        squash_next(state, event, r),
{
    let Squash { job, at } = state;
    match (at, event) {
        (SquashAt::ReadingFixup, FoldEvent::Read(x)) => match x {
            Err(f) => (Squash { job, at: SquashAt::Done }, FoldAction::Finish(Err(failure(f)))),
            Ok(out) => {
                let a = FoldAction::PlanFixup { source: trim_str(out.as_str()), target: job.target.clone() };
                (Squash { job, at: SquashAt::Planning }, a)
            },
        },
        (SquashAt::Planning, FoldEvent::Checked(c)) => match c {
            Err(e) => (Squash { job, at: SquashAt::Done }, FoldAction::Finish(Err(e))),
            Ok(()) => {
                let a = FoldAction::SaveState {
                    variant: FoldVariant::FilesIntoCommit { original_commit_hash: job.target.clone(), files_count: job.files_count },
                    staged: Some(job.staged.clone()),
                    protect: texts1(&job.target),
                    delete_track: true,
                    reset_mixed_to: Some(job.head.clone()),
                };
                (Squash { job, at: SquashAt::Saving }, a)
            },
        },
        (SquashAt::Saving, FoldEvent::Checked(c)) => match c {
            Err(e) => (Squash { job, at: SquashAt::Done }, FoldAction::Finish(Err(e))),
            Ok(()) => {
                let a = FoldAction::Rebase { protect: texts1(&job.target) };
                (Squash { job, at: SquashAt::Rebasing }, a)
            },
        },
        (SquashAt::Rebasing, FoldEvent::Rebased(x)) => match x {
            Err(e) => (Squash { job, at: SquashAt::Done }, FoldAction::Finish(Err(e))),
            Ok(RebaseOutcome::Completed) => (Squash { job, at: SquashAt::Over { paused: false } }, FoldAction::Finish(Ok(None))),
            Ok(RebaseOutcome::Paused) => (Squash { job, at: SquashAt::ReportingPause }, FoldAction::ReportPaused { at_edit: true }),
            Ok(RebaseOutcome::Stopped) => (Squash { job, at: SquashAt::ReportingPause }, FoldAction::ReportPaused { at_edit: false }),
        },
        (SquashAt::ReportingPause, FoldEvent::Done) => (Squash { job, at: SquashAt::Over { paused: true } }, FoldAction::Finish(Ok(None))),
        (at, _) => (Squash { job, at }, FoldAction::Finish(Ok(None))),
    }
}

} // verus!
