//! The folds that alternate git calls with decisions, as state machines:
//! each step takes what the last call answered and names the next call.
//! The caller performs the calls, including those on the branch weave and
//! the operation state file, and hands back what came of them.
use vstd::prelude::*;

use crate::git::git_commit::{amend_answers, amend_begins, amend_checked, amend_next, amend_step, commit_captured, reset_soft, AmendAction, AmendAt, AmendEvent, CheckedAmend};
use crate::git::{arg, captured, cuttable_hash, rev_parse, short_hash, short_hash_spec, unstage_files, GitCommand, GitFailure, LoomError};
use crate::fold::{any_selected, has_any_selected, FileEntry};
use crate::git::git_rebase::RebaseOutcome;
use crate::text::{decimal, decimal_text, owned, push_str, text_eq, trim, trim_str, views};

verus! {

/// The temporary branch that follows a commit through a rebase.
pub open spec fn track_branch() -> Seq<char> {
    "_loom-track"@
}

/// What a fold step asks the caller to do next.
pub enum FoldAction {
    /// Run this git command; answer [`FoldEvent::Ran`].
    Run(GitCommand),
    /// Run this git command and read what it prints; answer [`FoldEvent::Read`].
    Read(GitCommand),
    /// Whether the path has staged or unstaged changes; answer [`FoldEvent::Changes`].
    HasChanges(String),
    /// Whether the branch weave can rewrite this commit; answer [`FoldEvent::Checked`].
    RequireInWeave(String),
    /// Stage these files (`git::git_commit::stage_files`); answer [`FoldEvent::Ran`].
    Stage(Vec<String>),
    /// Save the staged changes outside these files and unstage them; answer
    /// [`FoldEvent::Checked`].
    SaveOtherStaged(Vec<String>),
    /// Put the saved staged changes back; answer [`FoldEvent::Done`].
    RestoreOtherStaged,
    /// Park the set-aside staged changes as an `unrestored-staged` patch and
    /// say how to replay them into the index (`git::git_apply::save_or_warn`
    /// with `Replay::Cached`); answer [`FoldEvent::Done`].
    ParkStaged,
    /// Leave the saved staged changes to the operation's state file; answer
    /// [`FoldEvent::Done`].
    HandOverStaged,
    /// Take back a `git commit` that did not do what the fold asked
    /// ([`undo_commit_attempt`]); answer [`FoldEvent::Done`].
    UndoCommit { staged_by_loom: Vec<String> },
    /// The commit's subject line, when it has one; answer [`FoldEvent::Subject`].
    Subject(String),
    /// Record the operation's state, then squash the `fixup!` commit on HEAD
    /// into `target` with a rebase that keeps [`track_branch`] on it
    /// (`move_steps::squash_fixup_into_commit`); answer [`FoldEvent::Squashed`].
    SquashFixup { target: String, files_count: usize },
    /// Delete the operation's state file; answer [`FoldEvent::Checked`].
    DeleteState,
    /// Abort the rebase that failed with `cause`, then, once it is gone, run
    /// `cleanup` and delete the state file; answer [`FoldEvent::Aborted`]
    /// with what to report (`git::git_rebase::rebase_abort_then_cleanup`).
    AbortThenCleanup { cause: LoomError, cleanup: Vec<GitCommand>, rollback: bool },
    /// Whether `path` is a submodule in `commit`; answer [`FoldEvent::Flag`].
    IsGitlink { commit: String, path: String },
    /// Whether `path` is a submodule in `commit` and, if so, whether the
    /// commit removes it (`git::commit_gitlinks`); answer [`FoldEvent::Gitlink`].
    SubmoduleEntry { commit: String, path: String },
    /// Stage the removal of the submodule at `path` when its checkout is
    /// still on disk; answer [`FoldEvent::Flag`] with whether it did.
    KeepSubmoduleRemoval(String),
    /// Build the weave with `source` squashed into `target` as a fixup, and
    /// [`track_branch`] carried through the rebase on `target`; answer
    /// [`FoldEvent::Checked`].
    PlanFixup { source: String, target: String },
    /// Build the weave with `commits` moved to the tip of `branch`
    /// (`fold::plan_move`); answer [`FoldEvent::Planned`] with the branches
    /// the move leaves empty.
    PlanMove { commits: Vec<String>, branch: String },
    /// Build the weave with `commits` moved right above (`above`) or below
    /// `target`; answer [`FoldEvent::Planned`] with the branches the move
    /// leaves empty.
    PlanRelative { commits: Vec<String>, target: String, above: bool },
    /// Build the weave with `commit` dropped, the branches it empties parked
    /// at their base; answer [`FoldEvent::Emptied`], `None` when the commit is
    /// not among the weave's.
    DropCommit(String),
    /// Record the operation in the state file: what is left to finish, the
    /// staged patch put back whichever way the rebase ends (`None`: the one
    /// the snapshot holds), the commits the rebase must not drop, whether an
    /// abort deletes [`track_branch`], and the commit an abort resets to
    /// (mixed), when it has to go past where the rebase started; answer
    /// [`FoldEvent::Checked`].
    SaveState { variant: FoldVariant, staged: Option<String>, protect: Vec<String>, delete_track: bool, reset_mixed_to: Option<String> },
    /// Run the weave's rebase, refusing to drop any of `protect`; answer
    /// [`FoldEvent::Rebased`].
    Rebase { protect: Vec<String> },
    /// Undo a rebase that failed to run, as the state file says, and delete
    /// the state file; answer [`FoldEvent::Aborted`].
    RollBackFailedRebase(LoomError),
    /// Delete the state file after a failed rebase and put back the staged
    /// patch it held; answer [`FoldEvent::Aborted`].
    DiscardState(LoomError),
    /// Abort a rebase that stopped and could not be resumed, and say why
    /// (`git::git_rebase::abort_after_failure`); answer [`FoldEvent::Aborted`].
    AbortAfterFailure,
    /// Whether a rebase is still on disk; answer [`FoldEvent::Flag`].
    RebaseInProgress,
    /// Tell the user the rebase paused (`at_edit`: at an edit or break step)
    /// and that `loom continue` or `loom abort` takes it from there; answer
    /// [`FoldEvent::Done`].
    ReportPaused { at_edit: bool },
    /// Whether `commit` descends from `of`; answer [`FoldEvent::Flag`].
    IsDescendant { commit: String, of: String },
    /// Record what a rollback puts back: HEAD, the branch refs and the
    /// uncommitted changes (`fold::FoldSnapshot`); answer [`FoldEvent::Checked`].
    Snapshot,
    /// Rebuild the weave from the repository and mark `commits` for editing;
    /// answer [`FoldEvent::Checked`].
    EditWeave(Vec<String>),
    /// Point [`track_branch`] at this commit and have the rebase keep it
    /// there; answer [`FoldEvent::Checked`].
    TrackThrough(String),
    /// Force [`track_branch`] onto this commit; answer [`FoldEvent::Checked`].
    ForceTrack(String),
    /// Run the weave's rebase, expecting it to stop for editing at `commit`,
    /// refusing to drop any of `protect`; answer [`FoldEvent::Checked`].
    RebaseToEdit { commit: String, protect: Vec<String> },
    /// At the edit stop: apply the patch (reversed when `reverse`), stage
    /// the path — or the index entry of a submodule — and amend
    /// (`fold::apply_and_amend_path`); answer [`FoldEvent::Checked`].
    AmendPath { patch: String, path: String, gitlink: bool, reverse: bool, git_opts: Vec<String> },
    /// Continue the rebase, expecting the next stop at `expect` when it is
    /// given, refusing to drop any of `protect`
    /// (`git::git_rebase::continue_rebase_expecting_edit`); answer
    /// [`FoldEvent::Checked`].
    ContinueToEdit { expect: Option<String>, protect: Vec<String> },
    /// Work out which of the picked files move whole and build the patch of
    /// the picked hunks of `source` (`fold::build_movable_patch`, a refusal
    /// naming `target_arg`); answer [`FoldEvent::Checked`].
    PreparePatch { source: String, target_arg: String },
    /// At the edit stop: apply the prepared patch (reversed when `reverse`),
    /// stage it and amend (`fold::apply_and_amend`); answer [`FoldEvent::Checked`].
    AmendHunks { reverse: bool, git_opts: Vec<String> },
    /// Apply the prepared patch to the working tree, and the picked whole
    /// files (`fold::restore_to_worktree`); answer [`FoldEvent::Checked`].
    RestoreHunksToWorktree,
    /// Stage the removal of each submodule among the picked whole files
    /// whose checkout is still on disk; answer [`FoldEvent::Paths`] with
    /// those staged, in byte order.
    KeepPickedRemovals,
    /// Put the saved staged changes back after an abort, or park them
    /// (`git::git_apply::restore_or_park_after_abort`); answer [`FoldEvent::Done`].
    RestoreOrPark(LoomError),
    /// Put the saved staged changes back after a rebase
    /// (`git::git_apply::restore_staged_after_rebase`); answer [`FoldEvent::Done`].
    Restage,
    /// Undo the fold from the snapshot (`fold::rollback_fold`); answer
    /// [`FoldEvent::Done`].
    Rollback,
    /// Apply the patch to the working tree only
    /// (`git::git_apply::apply_patch_to_worktree`); answer [`FoldEvent::Checked`].
    ApplyToWorktree(String),
    /// Save the patch under the git dir as `<name>-<n>.patch`; answer
    /// [`FoldEvent::Saved`] with where it went or why it could not be saved.
    SavePatch { name: String, patch: String },
    /// Print this warning; answer [`FoldEvent::Done`].
    Warn(String),
    /// Stage the removal of every submodule `commit` removes whose checkout
    /// is still on disk; answer [`FoldEvent::Paths`] with those staged.
    KeepSubmoduleRemovals(String),
    /// How these branches are named to the user; answer [`FoldEvent::Described`].
    DescribeBranches(Vec<String>),
    /// How the commit is described to the user; answer [`FoldEvent::Described`].
    Describe(String),
    /// Finished: the message to print on success, or the error.
    Finish(Result<Option<String>, LoomError>),
}

/// What came of the last action.
pub enum FoldEvent {
    Ran(Result<(), GitFailure>),
    Read(Result<String, GitFailure>),
    Changes(bool),
    Checked(Result<(), LoomError>),
    Done,
    Subject(Option<String>),
    /// The squash's rebase: `Ok(true)` when it paused on a conflict or an
    /// edit, `Ok(false)` when it finished.
    Squashed(Result<bool, LoomError>),
    Aborted(LoomError),
    Described(String),
    Flag(bool),
    Planned(Result<Vec<String>, LoomError>),
    Emptied(Result<Option<Vec<String>>, LoomError>),
    Rebased(Result<RebaseOutcome, LoomError>),
    /// `None` when the path is no submodule, else whether the commit removes it.
    Gitlink(Result<Option<bool>, LoomError>),
    Saved(Result<String, String>),
    Paths(Vec<String>),
}

/// The error of a failed git call, as a fold reports it.
pub open spec fn is_failure(e: LoomError, m: Seq<char>) -> bool {
    e.message@ == m && e.replayed_empty is None && !e.not_started
}

pub open spec fn finishes_with_error(a: FoldAction, m: Seq<char>) -> bool {
    a matches FoldAction::Finish(Err(e)) && is_failure(e, m)
}

pub open spec fn runs(a: FoldAction, args: Seq<Seq<char>>) -> bool {
    a matches FoldAction::Run(c) && captured(c, args)
}

pub open spec fn reads(a: FoldAction, args: Seq<Seq<char>>) -> bool {
    a matches FoldAction::Read(c) && captured(c, args)
}

pub(crate) fn failure(f: GitFailure) -> (e: LoomError)
    ensures
        is_failure(e, f.message@),
{
    LoomError::new(f.message)
}

pub(crate) fn error_text(m: String) -> (e: LoomError)
    ensures
        is_failure(e, m@),
{
    LoomError::new(m)
}

/// `git branch -D _loom-track`.
pub(crate) fn delete_track() -> (c: GitCommand)
    ensures
        captured(c, seq!["branch"@, "-D"@, track_branch()]),
{
    let mut a: Vec<String> = Vec::new();
    arg(&mut a, "branch");
    arg(&mut a, "-D");
    arg(&mut a, "_loom-track");
    proof {
        assert(views(a@) =~= seq!["branch"@, "-D"@, track_branch()]);
    }
    GitCommand::captured(a)
}

/// What git printed, as `git::rev_parse` reads a hash.
pub open spec fn read_hash(out: Seq<char>) -> Seq<char> {
    trim(out)
}

} // verus!

verus! {

/// A fold of working-tree files into a commit.
pub struct FilesJob {
    pub files: Vec<String>,
    /// The target commit, as a full hash.
    pub commit: String,
    /// HEAD's commit when the fold started, as a full hash.
    pub head: String,
    /// The caller already staged exactly what goes in (a hunk picker).
    pub skip_staging: bool,
    /// Arguments forwarded to `git commit`.
    pub git_opts: Vec<String>,
}

/// Where a files fold stands.
pub enum FilesAt {
    /// Asking whether the `i`th file has changes.
    Checking { i: usize },
    /// Asking whether the weave can rewrite the target.
    Requiring,
    /// Setting the other staged changes aside.
    Saving,
    /// Staging the files; `message` is the `fixup!` commit's, when the
    /// target is not HEAD.
    Staging { message: Option<String> },
    /// Amending HEAD, checked when arguments are forwarded.
    Amending { amend: CheckedAmend },
    /// Putting the other staged changes back after the amend.
    Restoring,
    /// Reading HEAD's new hash.
    ReadingNew,
    /// Describing the rewritten commit.
    Describing,
    /// Taking a commit attempt back, then failing with `error`.
    Undoing { error: LoomError },
    /// Reading the target's subject.
    ReadingSubject,
    /// Committing the `fixup!` commit.
    Committing,
    /// Reading `HEAD^`: did the commit land on top of the old HEAD?
    CheckingOnto,
    /// Reading the new commit's tree.
    ReadingTree,
    /// Reading the old HEAD's tree; `now` is the new commit's, when read.
    ReadingBaseTree { now: Option<String> },
    /// Squashing the `fixup!` commit into the target.
    Squashing,
    /// Putting the other staged changes back after the rebase.
    RestoringAfterRebase,
    /// Deleting the state file.
    DeletingState,
    /// Reading where the tracking branch ended.
    ReadingTrack,
    /// Deleting the tracking branch; `new` is the rewritten target.
    DeletingTrack { new: String },
    /// Leaving the staged changes to the paused operation.
    HandingOver,
    /// Aborting the failed rebase.
    Aborting,
    Done,
}

pub struct FilesFold {
    pub job: FilesJob,
    pub at: FilesAt,
}

pub open spec fn is_head(job: FilesJob) -> bool {
    job.head@ == job.commit@
}

/// Whether `event` answers what `s` asked.
pub open spec fn files_fold_answers(s: FilesFold, event: FoldEvent) -> bool {
    match s.at {
        FilesAt::Checking { i } => i < s.job.files@.len() && event is Changes,
        FilesAt::Requiring | FilesAt::Saving | FilesAt::DeletingState => event is Checked,
        FilesAt::Amending { amend } => (event is Ran || event is Read) && amend_answers(amend, amend_event(event)),
        FilesAt::Staging { .. } | FilesAt::Committing | FilesAt::DeletingTrack { .. } => event is Ran,
        FilesAt::Restoring | FilesAt::Undoing { .. } | FilesAt::RestoringAfterRebase | FilesAt::HandingOver => event is Done,
        FilesAt::ReadingNew | FilesAt::CheckingOnto | FilesAt::ReadingTree | FilesAt::ReadingBaseTree { .. }
        | FilesAt::ReadingTrack => event is Read,
        FilesAt::Describing => event is Described,
        FilesAt::ReadingSubject => event is Subject,
        FilesAt::Squashing => event is Squashed,
        FilesAt::Aborting => event is Aborted,
        FilesAt::Done => false,
    }
}

pub open spec fn no_changes_text(f: Seq<char>) -> Seq<char> {
    "File '"@ + f + "' has no changes to fold"@
}

pub open spec fn no_new_commit_text(forwarded: bool) -> Seq<char> {
    if forwarded {
        "`git commit` left no new commit on HEAD, so nothing was folded\nAn argument after `--` stopped it from committing"@
    } else {
        "`git commit` left no new commit on HEAD, so nothing was folded"@
    }
}

pub open spec fn empty_fixup_text() -> Seq<char> {
    "`git commit` made an empty `fixup!` commit, so nothing was folded\nAn argument after `--` kept the staged changes out of it"@
}

pub open spec fn folded_text(count: nat, commit: Seq<char>, described: Seq<char>) -> Seq<char> {
    "Folded "@ + decimal(count) + " file(s) into `"@ + short_hash_spec(commit) + "` (now "@ + described + ")"@
}

pub open spec fn fixup_message(subject: Option<String>) -> Seq<char> {
    "fixup! "@ + match subject {
        Some(s) => s@,
        None => "fixup"@,
    }
}

/// What a rollback of a files fold undoes after a failed commit: what loom
/// staged itself, none of it when the caller staged.
pub open spec fn undoes(a: FoldAction, job: FilesJob) -> bool {
    a matches FoldAction::UndoCommit { staged_by_loom } && if job.skip_staging {
        staged_by_loom@.len() == 0
    } else {
        staged_by_loom@ == job.files@
    }
}

/// After the checks on the files: the weave check for a target other than
/// HEAD, else setting the other staged changes aside.
pub open spec fn after_checks(job: FilesJob, r: (FilesFold, FoldAction)) -> bool {
    if !is_head(job) {
        r.0.at is Requiring && (r.1 matches FoldAction::RequireInWeave(c) && c@ == job.commit@)
    } else {
        r.0.at is Saving && (r.1 matches FoldAction::SaveOtherStaged(f) && f@ == job.files@)
    }
}

/// The event of a checked amend that a fold event carries.
pub open spec fn amend_event(ev: FoldEvent) -> AmendEvent {
    match ev {
        FoldEvent::Ran(x) => AmendEvent::Ran(x),
        FoldEvent::Read(x) => AmendEvent::Read(x),
        _ => AmendEvent::Ran(Ok(())),
    }
}

/// The command a checked amend asks for, as a fold action.
pub open spec fn as_amend_action(a: FoldAction) -> AmendAction {
    match a {
        FoldAction::Run(c) => AmendAction::Run(c),
        FoldAction::Read(c) => AmendAction::Read(c),
        _ => AmendAction::Finish(Ok(())),
    }
}

/// Amending HEAD begins ([`crate::git::git_commit::amend_begins`]).
pub open spec fn begins_head_amend(job: FilesJob, r: (FilesFold, FoldAction)) -> bool {
    r.0.at matches FilesAt::Amending { amend } && (r.1 is Run || r.1 is Read) && amend_begins(
        job.git_opts@,
        (amend, as_amend_action(r.1)),
    )
}

/// A step of the amend of HEAD: its next command, or, once it is over, the
/// saved staged changes going back, or the commit attempt taken back with
/// the amend's error.
pub open spec fn amend_lifted(job: FilesJob, amend: CheckedAmend, ev: FoldEvent, r: (FilesFold, FoldAction)) -> bool {
    let over = CheckedAmend { opts: amend.opts, at: AmendAt::Done };
    ||| r.0.at matches FilesAt::Amending { amend: a2 } && (r.1 is Run || r.1 is Read) && amend_next(
        amend,
        amend_event(ev),
        (a2, as_amend_action(r.1)),
    )
    ||| r.0.at is Restoring && r.1 is RestoreOtherStaged && amend_next(amend, amend_event(ev), (over, AmendAction::Finish(Ok(()))))
    ||| r.0.at matches FilesAt::Undoing { error } && undoes(r.1, job) && amend_next(
        amend,
        amend_event(ev),
        (over, AmendAction::Finish(Err(error))),
    )
}

/// Once the other staged changes are aside: for HEAD, stage (unless the
/// caller did) and amend; else read the target's subject.
pub open spec fn after_saving(job: FilesJob, r: (FilesFold, FoldAction)) -> bool {
    if is_head(job) {
        if !job.skip_staging {
            (r.0.at matches FilesAt::Staging { message } && message is None) && (r.1 matches FoldAction::Stage(f)
                && f@ == job.files@)
        } else {
            begins_head_amend(job, r)
        }
    } else {
        r.0.at is ReadingSubject && (r.1 matches FoldAction::Subject(c) && c@ == job.commit@)
    }
}

pub open spec fn commits_fixup(job: FilesJob, message: Seq<char>, r: (FilesFold, FoldAction)) -> bool {
    r.0.at is Committing && runs(r.1, seq!["commit"@] + views(job.git_opts@) + seq!["-m"@, message])
}

pub open spec fn squashes(job: FilesJob, r: (FilesFold, FoldAction)) -> bool {
    r.0.at is Squashing && (r.1 matches FoldAction::SquashFixup { target, files_count } && target@ == job.commit@
        && files_count == job.files@.len())
}

pub open spec fn undoing(job: FilesJob, m: Seq<char>, r: (FilesFold, FoldAction)) -> bool {
    (r.0.at matches FilesAt::Undoing { error } && is_failure(error, m)) && undoes(r.1, job)
}

pub open spec fn done_with_error(m: Seq<char>, r: (FilesFold, FoldAction)) -> bool {
    r.0.at is Done && finishes_with_error(r.1, m)
}

/// The cleanup after a failed squash: HEAD back below the `fixup!` commit,
/// what loom staged unstaged again, the tracking branch gone.
pub open spec fn squash_cleanup(job: FilesJob, cleanup: Seq<GitCommand>) -> bool {
    &&& cleanup.len() == if job.skip_staging { 2int } else { 3int }
    &&& captured(cleanup[0], seq!["reset"@, "--soft"@, job.head@])
    &&& !job.skip_staging ==> captured(cleanup[1], seq!["reset"@, "HEAD"@, "--"@] + views(job.files@))
    &&& captured(cleanup.last(), seq!["branch"@, "-D"@, track_branch()])
}

/// Each step of a files fold.
pub open spec fn files_next(s: FilesFold, event: FoldEvent, r: (FilesFold, FoldAction)) -> bool {
    let job = s.job;
    match (s.at, event) {
        (FilesAt::Checking { i }, FoldEvent::Changes(b)) => if !b {
            done_with_error(no_changes_text(job.files@[i as int]@), r)
        } else if i + 1 < job.files@.len() {
            (r.0.at matches FilesAt::Checking { i: j } && j == i + 1) && (r.1 matches FoldAction::HasChanges(f)
                && f@ == job.files@[i + 1]@)
        } else {
            after_checks(job, r)
        },
        (FilesAt::Requiring, FoldEvent::Checked(c)) | (FilesAt::Saving, FoldEvent::Checked(c)) => match c {
            Err(e) => r.0.at is Done && r.1 == FoldAction::Finish(Err::<Option<String>, LoomError>(e)),
            Ok(()) => if s.at is Requiring {
                r.0.at is Saving && (r.1 matches FoldAction::SaveOtherStaged(f) && f@ == job.files@)
            } else {
                after_saving(job, r)
            },
        },
        (FilesAt::Staging { message }, FoldEvent::Ran(x)) => match x {
            Err(f) => done_with_error(f.message@, r),
            Ok(()) => match message {
                None => begins_head_amend(job, r),
                Some(m) => commits_fixup(job, m@, r),
            },
        },
        (FilesAt::Amending { amend }, ev) => amend_lifted(job, amend, ev, r),
        (FilesAt::Restoring, FoldEvent::Done) => r.0.at is ReadingNew && reads(r.1, seq!["rev-parse"@, "HEAD"@]),
        (FilesAt::ReadingNew, FoldEvent::Read(x)) | (FilesAt::ReadingTrack, FoldEvent::Read(x)) => match x {
            Err(f) => done_with_error(f.message@, r),
            Ok(out) => if s.at is ReadingNew {
                r.0.at is Describing && (r.1 matches FoldAction::Describe(h) && h@ == read_hash(out@))
            } else {
                (r.0.at matches FilesAt::DeletingTrack { new } && new@ == read_hash(out@)) && runs(
                    r.1,
                    seq!["branch"@, "-D"@, track_branch()],
                )
            },
        },
        (FilesAt::Describing, FoldEvent::Described(d)) => r.0.at is Done && (r.1 matches FoldAction::Finish(Ok(Some(m)))
            && m@ == folded_text(job.files@.len(), job.commit@, d@)),
        (FilesAt::Undoing { error }, FoldEvent::Done) => r.0.at is Done && r.1 == FoldAction::Finish(
            Err::<Option<String>, LoomError>(error),
        ),
        (FilesAt::ReadingSubject, FoldEvent::Subject(sub)) => if !job.skip_staging {
            (r.0.at matches FilesAt::Staging { message } && (message matches Some(m) && m@ == fixup_message(sub)))
                && (r.1 matches FoldAction::Stage(f) && f@ == job.files@)
        } else {
            commits_fixup(job, fixup_message(sub), r)
        },
        (FilesAt::Committing, FoldEvent::Ran(x)) => match x {
            Err(f) => undoing(job, f.message@, r),
            Ok(()) => r.0.at is CheckingOnto && reads(r.1, seq!["rev-parse"@, "HEAD^"@]),
        },
        (FilesAt::CheckingOnto, FoldEvent::Read(x)) => if !(x matches Ok(out) && read_hash(out@) == job.head@) {
            undoing(job, no_new_commit_text(job.git_opts@.len() > 0), r)
        } else if job.git_opts@.len() > 0 {
            r.0.at is ReadingTree && reads(r.1, seq!["rev-parse"@, "HEAD^{tree}"@])
        } else {
            squashes(job, r)
        },
        (FilesAt::ReadingTree, FoldEvent::Read(x)) => (r.0.at matches FilesAt::ReadingBaseTree { now } && match x {
            Ok(out) => now matches Some(t) && t@ == read_hash(out@),
            Err(_) => now is None,
        }) && reads(r.1, seq!["rev-parse"@, job.head@ + "^{tree}"@]),
        (FilesAt::ReadingBaseTree { now }, FoldEvent::Read(x)) => if (match (now, x) {
            (Some(a), Ok(b)) => a@ == read_hash(b@),
            _ => true,
        }) {
            undoing(job, empty_fixup_text(), r)
        } else {
            squashes(job, r)
        },
        (FilesAt::Squashing, FoldEvent::Squashed(x)) => match x {
            Ok(false) => r.0.at is RestoringAfterRebase && r.1 is RestoreOtherStaged,
            Ok(true) => r.0.at is HandingOver && r.1 is HandOverStaged,
            Err(e) => r.0.at is Aborting && (r.1 matches FoldAction::AbortThenCleanup { cause, cleanup, rollback } && cause == e
                && squash_cleanup(job, cleanup@) && !rollback),
        },
        (FilesAt::RestoringAfterRebase, FoldEvent::Done) => r.0.at is DeletingState && r.1 is DeleteState,
        (FilesAt::DeletingState, FoldEvent::Checked(c)) => match c {
            Err(e) => r.0.at is Done && r.1 == FoldAction::Finish(Err::<Option<String>, LoomError>(e)),
            Ok(()) => r.0.at is ReadingTrack && reads(r.1, seq!["rev-parse"@, track_branch()]),
        },
        (FilesAt::DeletingTrack { new }, FoldEvent::Ran(_)) => r.0.at is Describing && (r.1 matches FoldAction::Describe(h)
            && h@ == new@),
        (FilesAt::HandingOver, FoldEvent::Done) => r.0.at is Done && r.1 == FoldAction::Finish(
            Ok::<Option<String>, LoomError>(None),
        ),
        (FilesAt::Aborting, FoldEvent::Aborted(e)) => r.0.at is Done && r.1 == FoldAction::Finish(
            Err::<Option<String>, LoomError>(e),
        ),
        _ => false,
    }
}

} // verus!

verus! {

pub(crate) fn copy_texts(v: &Vec<String>) -> (r: Vec<String>)
    ensures
        r@ == v@,
{
    let mut r: Vec<String> = Vec::new();
    let mut i: usize = 0;
    while i < v.len()
        invariant
            i <= v@.len(),
            r@ == v@.take(i as int),
        decreases v.len() - i,
    {
        r.push(v[i].clone());
        proof {
            assert(r@ =~= v@.take(i + 1));
        }
        i = i + 1;
    }
    proof {
        assert(v@.take(v@.len() as int) =~= v@);
    }
    r
}

fn lift_amend(job: FilesJob, amend: CheckedAmend, a: AmendAction) -> (r: (FilesFold, FoldAction))
    requires
        a is Run || a is Read,
    ensures
        r.0.job == job,
        r.0.at == (FilesAt::Amending { amend }),
        r.1 is Run || r.1 is Read,
        as_amend_action(r.1) == a,
{
    match a {
        AmendAction::Run(c) => (FilesFold { job, at: FilesAt::Amending { amend } }, FoldAction::Run(c)),
        AmendAction::Read(c) => (FilesFold { job, at: FilesAt::Amending { amend } }, FoldAction::Read(c)),
        AmendAction::Finish(_) => (FilesFold { job, at: FilesAt::Amending { amend } }, FoldAction::Run(GitCommand::captured(Vec::new()))),
    }
}

fn begin_amend(job: FilesJob) -> (r: (FilesFold, FoldAction))
    ensures
        r.0.job == job,
        begins_head_amend(job, r),
{
    let (amend, a) = amend_checked(copy_texts(&job.git_opts));
    lift_amend(job, amend, a)
}

fn amend_on(job: FilesJob, amend: CheckedAmend, ev: FoldEvent) -> (r: (FilesFold, FoldAction))
    requires
        (ev is Ran || ev is Read) && amend_answers(amend, amend_event(ev)),
    ensures
        r.0.job == job,
        amend_lifted(job, amend, ev, r),
{
    let ghost a0 = amend;
    let ae = match ev {
        FoldEvent::Ran(x) => AmendEvent::Ran(x),
        FoldEvent::Read(x) => AmendEvent::Read(x),
        _ => AmendEvent::Ran(Ok(())),
    };
    let (a2, act) = amend_step(amend, ae);
    match act {
        AmendAction::Finish(Ok(())) => (FilesFold { job, at: FilesAt::Restoring }, FoldAction::RestoreOtherStaged),
        AmendAction::Finish(Err(e)) => undo(job, e),
        a => lift_amend(job, a2, a),
    }
}

fn check_files_from(job: FilesJob) -> (r: (FilesFold, FoldAction))
    ensures
        r.0.job == job,
        after_checks(job, r),
{
    if !text_eq(job.head.as_str(), job.commit.as_str()) {
        let c = job.commit.clone();
        (FilesFold { job, at: FilesAt::Requiring }, FoldAction::RequireInWeave(c))
    } else {
        let f = copy_texts(&job.files);
        (FilesFold { job, at: FilesAt::Saving }, FoldAction::SaveOtherStaged(f))
    }
}

fn saved(job: FilesJob) -> (r: (FilesFold, FoldAction))
    ensures
        r.0.job == job,
        after_saving(job, r),
{
    if text_eq(job.head.as_str(), job.commit.as_str()) {
        if !job.skip_staging {
            let f = copy_texts(&job.files);
            (FilesFold { job, at: FilesAt::Staging { message: None } }, FoldAction::Stage(f))
        } else {
            begin_amend(job)
        }
    } else {
        let c = job.commit.clone();
        (FilesFold { job, at: FilesAt::ReadingSubject }, FoldAction::Subject(c))
    }
}

fn undo(job: FilesJob, error: LoomError) -> (r: (FilesFold, FoldAction))
    ensures
        r.0.job == job,
        r.0.at == (FilesAt::Undoing { error }),
        undoes(r.1, job),
{
    let staged_by_loom = if job.skip_staging {
        Vec::new()
    } else {
        copy_texts(&job.files)
    };
    (FilesFold { job, at: FilesAt::Undoing { error } }, FoldAction::UndoCommit { staged_by_loom })
}

fn fail(job: FilesJob, error: LoomError) -> (r: (FilesFold, FoldAction))
    ensures
        r.0.job == job,
        r.0.at is Done,
        r.1 == FoldAction::Finish(Err::<Option<String>, LoomError>(error)),
{
    (FilesFold { job, at: FilesAt::Done }, FoldAction::Finish(Err(error)))
}

fn commit_fixup(job: FilesJob, message: String) -> (r: (FilesFold, FoldAction))
    ensures
        r.0.job == job,
        commits_fixup(job, message@, r),
{
    let c = commit_captured(message.as_str(), job.git_opts.as_slice());
    (FilesFold { job, at: FilesAt::Committing }, FoldAction::Run(c))
}

fn squash(job: FilesJob) -> (r: (FilesFold, FoldAction))
    ensures
        r.0.job == job,
        squashes(job, r),
{
    let target = job.commit.clone();
    let files_count = job.files.len();
    (FilesFold { job, at: FilesAt::Squashing }, FoldAction::SquashFixup { target, files_count })
}

/// Fold working-tree files into a commit. Unless the caller staged them,
/// every file must have changes: the first that has none is refused
/// ([`no_changes_text`]) before anything is staged or set aside. HEAD is
/// amended in place; another commit gets a `fixup!` commit on HEAD that a
/// rebase squashes into it ([`files_next`]).
pub fn fold_files_into_commit(files: Vec<String>, commit: String, head: String, skip_staging: bool, git_opts: Vec<String>) -> (r: (FilesFold, FoldAction))
    ensures
        r.0.job == (FilesJob { files, commit, head, skip_staging, git_opts }),
        !skip_staging && files@.len() > 0 ==> (r.0.at matches FilesAt::Checking { i } && i == 0) && (r.1 matches FoldAction::HasChanges(f)
            && f@ == files@[0]@),
        skip_staging || files@.len() == 0 ==> after_checks(r.0.job, r),
{
    let job = FilesJob { files, commit, head, skip_staging, git_opts };
    if !job.skip_staging && job.files.len() > 0 {
        let f = job.files[0].clone();
        (FilesFold { job, at: FilesAt::Checking { i: 0 } }, FoldAction::HasChanges(f))
    } else {
        check_files_from(job)
    }
}

pub open spec fn nothing_staged_text() -> Seq<char> {
    "Nothing to commit"@
}

/// Fold what is staged, `staged` being the staged files, into `commit`:
/// refused when nothing is staged, else a files fold that stages nothing
/// itself.
pub fn run_staged(staged: Vec<String>, commit: String, head: String, git_opts: Vec<String>) -> (r: Result<(FilesFold, FoldAction), LoomError>)
    ensures
        staged@.len() == 0 <==> (r matches Err(e) && is_failure(e, nothing_staged_text())),
        staged@.len() > 0 ==> (r matches Ok(x) && x.0.job == (FilesJob { files: staged, commit, head, skip_staging: true, git_opts })
            && after_checks(x.0.job, x)),
{
    if staged.len() == 0 {
        return Err(error_text(owned("Nothing to commit")));
    }
    Ok(fold_files_into_commit(staged, commit, head, true, git_opts))
}

/// One step of [`fold_files_into_commit`].
pub fn files_fold_step(state: FilesFold, event: FoldEvent) -> (r: (FilesFold, FoldAction))
    requires
        files_fold_answers(state, event),
        cuttable_hash(state.job.commit@),
    ensures
        r.0.job == state.job,
        files_next(state, event, r),
{
    let ghost s0 = state;
    let FilesFold { job, at } = state;
    match (at, event) {
        (FilesAt::Checking { i }, FoldEvent::Changes(b)) => {
            let n = job.files.len();
            proof {
                assert(s0.at == (FilesAt::Checking { i }));
                assert(i < n);
            }
            if !b {
                let mut m = owned("File '");
                push_str(&mut m, job.files[i].as_str());
                push_str(&mut m, "' has no changes to fold");
                fail(job, error_text(m))
            } else if i + 1 < job.files.len() {
                let f = job.files[i + 1].clone();
                (FilesFold { job, at: FilesAt::Checking { i: i + 1 } }, FoldAction::HasChanges(f))
            } else {
                check_files_from(job)
            }
        },
        (FilesAt::Requiring, FoldEvent::Checked(c)) => match c {
            Err(e) => fail(job, e),
            Ok(()) => {
                let f = copy_texts(&job.files);
                (FilesFold { job, at: FilesAt::Saving }, FoldAction::SaveOtherStaged(f))
            },
        },
        (FilesAt::Saving, FoldEvent::Checked(c)) => match c {
            Err(e) => fail(job, e),
            Ok(()) => saved(job),
        },
        (FilesAt::Staging { message }, FoldEvent::Ran(x)) => match x {
            Err(f) => fail(job, failure(f)),
            Ok(()) => match message {
                None => begin_amend(job),
                Some(m) => commit_fixup(job, m),
            },
        },
        (FilesAt::Amending { amend }, ev) => amend_on(job, amend, ev),
        (FilesAt::Restoring, FoldEvent::Done) => (FilesFold { job, at: FilesAt::ReadingNew }, FoldAction::Read(rev_parse("HEAD"))),
        (FilesAt::ReadingNew, FoldEvent::Read(x)) => match x {
            Err(f) => fail(job, failure(f)),
            Ok(out) => (FilesFold { job, at: FilesAt::Describing }, FoldAction::Describe(trim_str(out.as_str()))),
        },
        (FilesAt::ReadingTrack, FoldEvent::Read(x)) => match x {
            Err(f) => fail(job, failure(f)),
            Ok(out) => (FilesFold { job, at: FilesAt::DeletingTrack { new: trim_str(out.as_str()) } }, FoldAction::Run(delete_track())),
        },
        (FilesAt::Describing, FoldEvent::Described(d)) => {
            let mut m = owned("Folded ");
            push_str(&mut m, decimal_text(job.files.len() as u64).as_str());
            push_str(&mut m, " file(s) into `");
            push_str(&mut m, short_hash(job.commit.as_str()).as_str());
            push_str(&mut m, "` (now ");
            push_str(&mut m, d.as_str());
            push_str(&mut m, ")");
            (FilesFold { job, at: FilesAt::Done }, FoldAction::Finish(Ok(Some(m))))
        },
        (FilesAt::Undoing { error }, FoldEvent::Done) => fail(job, error),
        (FilesAt::ReadingSubject, FoldEvent::Subject(sub)) => {
            let mut m = owned("fixup! ");
            match sub {
                Some(s) => push_str(&mut m, s.as_str()),
                None => push_str(&mut m, "fixup"),
            }
            if !job.skip_staging {
                let f = copy_texts(&job.files);
                (FilesFold { job, at: FilesAt::Staging { message: Some(m) } }, FoldAction::Stage(f))
            } else {
                commit_fixup(job, m)
            }
        },
        (FilesAt::Committing, FoldEvent::Ran(x)) => match x {
            Err(f) => undo(job, failure(f)),
            Ok(()) => (FilesFold { job, at: FilesAt::CheckingOnto }, FoldAction::Read(rev_parse("HEAD^"))),
        },
        (FilesAt::CheckingOnto, FoldEvent::Read(x)) => {
            let onto = match &x {
                Ok(out) => text_eq(trim_str(out.as_str()).as_str(), job.head.as_str()),
                Err(_) => false,
            };
            if !onto {
                let m = if job.git_opts.len() > 0 {
                    owned("`git commit` left no new commit on HEAD, so nothing was folded\nAn argument after `--` stopped it from committing")
                } else {
                    owned("`git commit` left no new commit on HEAD, so nothing was folded")
                };
                undo(job, error_text(m))
            } else if job.git_opts.len() > 0 {
                (FilesFold { job, at: FilesAt::ReadingTree }, FoldAction::Read(rev_parse("HEAD^{tree}")))
            } else {
                squash(job)
            }
        },
        (FilesAt::ReadingTree, FoldEvent::Read(x)) => {
            let now = match x {
                Ok(out) => Some(trim_str(out.as_str())),
                Err(_) => None,
            };
            let mut base = job.head.clone();
            push_str(&mut base, "^{tree}");
            let c = rev_parse(base.as_str());
            (FilesFold { job, at: FilesAt::ReadingBaseTree { now } }, FoldAction::Read(c))
        },
        (FilesAt::ReadingBaseTree { now }, FoldEvent::Read(x)) => {
            let same = match (&now, &x) {
                (Some(a), Ok(b)) => text_eq(a.as_str(), trim_str(b.as_str()).as_str()),
                _ => true,
            };
            if same {
                let e = error_text(
                    owned(
                        "`git commit` made an empty `fixup!` commit, so nothing was folded\nAn argument after `--` kept the staged changes out of it",
                    ),
                );
                undo(job, e)
            } else {
                squash(job)
            }
        },
        (FilesAt::Squashing, FoldEvent::Squashed(x)) => match x {
            Ok(false) => (FilesFold { job, at: FilesAt::RestoringAfterRebase }, FoldAction::RestoreOtherStaged),
            Ok(true) => (FilesFold { job, at: FilesAt::HandingOver }, FoldAction::HandOverStaged),
            Err(e) => {
                let mut cleanup: Vec<GitCommand> = Vec::new();
                cleanup.push(reset_soft(job.head.as_str()));
                if !job.skip_staging {
                    cleanup.push(unstage_files(job.files.as_slice()));
                }
                cleanup.push(delete_track());
                (FilesFold { job, at: FilesAt::Aborting }, FoldAction::AbortThenCleanup { cause: e, cleanup, rollback: false })
            },
        },
        (FilesAt::RestoringAfterRebase, FoldEvent::Done) => (FilesFold { job, at: FilesAt::DeletingState }, FoldAction::DeleteState),
        (FilesAt::DeletingState, FoldEvent::Checked(c)) => match c {
            Err(e) => fail(job, e),
            Ok(()) => (FilesFold { job, at: FilesAt::ReadingTrack }, FoldAction::Read(rev_parse("_loom-track"))),
        },
        (FilesAt::DeletingTrack { new }, FoldEvent::Ran(_)) => (FilesFold { job, at: FilesAt::Describing }, FoldAction::Describe(new)),
        (FilesAt::HandingOver, FoldEvent::Done) => (FilesFold { job, at: FilesAt::Done }, FoldAction::Finish(Ok(None))),
        (FilesAt::Aborting, FoldEvent::Aborted(e)) => fail(job, e),
        (at, _) => (FilesFold { job, at }, FoldAction::Finish(Ok(None))),
    }
}

} // verus!

verus! {

/// A step of putting things back after a failed step, in order.
#[derive(Debug, Clone, Copy, PartialEq, Eq, Structural)]
pub enum Undo {
    /// Delete [`track_branch`]; a failure is passed over.
    DeleteTrack,
    /// Put the staged changes back after an abort, or park them.
    RestoreOrPark,
    /// Put the staged changes back after a rebase.
    Restage,
    /// Undo the fold from the snapshot.
    Rollback,
    /// Put the set-aside staged changes back, unless a rollback took them.
    RestoreStaged,
    /// Leave the set-aside staged changes to the rollback that follows.
    HandOver,
    /// Abort the rebase, then — once it is gone — delete the tracking
    /// branch when `track`, and undo from the snapshot when `rollback`; the
    /// error becomes what the abort reports.
    Abort { track: bool, rollback: bool },
}

/// The action of an undo step, the error being `error`.
pub open spec fn undo_action(a: FoldAction, error: LoomError, u: Undo) -> bool {
    match u {
        Undo::DeleteTrack => runs(a, seq!["branch"@, "-D"@, track_branch()]),
        Undo::RestoreOrPark => a == FoldAction::RestoreOrPark(error),
        Undo::Restage => a is Restage,
        Undo::Rollback => a is Rollback,
        Undo::RestoreStaged => a is RestoreOtherStaged,
        Undo::HandOver => a is HandOverStaged,
        Undo::Abort { track, rollback } => a matches FoldAction::AbortThenCleanup { cause, cleanup, rollback: rb }
            && cause == error && rb == rollback && if track {
            cleanup@.len() == 1 && captured(cleanup@[0], seq!["branch"@, "-D"@, track_branch()])
        } else {
            cleanup@.len() == 0
        },
    }
}

/// Whether `event` answers an undo step.
pub open spec fn undo_answers(u: Undo, event: FoldEvent) -> bool {
    match u {
        Undo::DeleteTrack => event is Ran,
        Undo::Abort { .. } => event is Aborted,
        _ => event is Done,
    }
}

/// A move of one file's change from one commit to another.
pub struct FileMoveJob {
    pub source: String,
    pub path: String,
    pub target: String,
    pub git_opts: Vec<String>,
}

/// Where a file move stands. The `O` states are the single rebase used when
/// the source is the older commit; the `T` states the two rebases needed
/// when it is the newer one: adding the file to the target first would
/// conflict with the source still holding it.
pub enum FileMoveAt {
    ReadingDiff,
    CheckingGitlink,
    CheckingOrder,
    Snapshotting { two_phase: bool },
    OEditing,
    ORebasing,
    OAmendSource,
    OReadSource,
    OContinue { new_source: String },
    OAmendTarget { new_source: String },
    OReadTarget { new_source: String },
    OFinishing { new_source: String, new_target: String },
    TEditing,
    TForcing,
    TRebasing,
    TAmendSource,
    TReadSource,
    TContinue { p1: String },
    TReadTrack { p1: String },
    TDropTrack { p1: String, p2: String },
    TRebuilding { p1: String, p2: String },
    TTracking { p1: String, p2: String },
    TRebasing2 { p1: String },
    TAmendTarget { p1: String },
    TReadTarget { p1: String },
    TContinue2 { p1: String, new_target: String },
    TReadNewSource { new_target: String },
    TDropTrack2 { new_source: String, new_target: String },
    Restaging { new_source: String, new_target: String },
    DescribingSource { new_target: String },
    DescribingTarget { source_described: String },
    /// Putting things back after `error`: the first of `left` is under way.
    Unwinding { error: LoomError, left: Vec<Undo> },
    Done,
}

pub struct FileMove {
    pub job: FileMoveJob,
    /// The file's change in the source commit, once read.
    pub diff: String,
    /// Whether the path is a submodule in the source commit, once asked.
    pub gitlink: bool,
    pub at: FileMoveAt,
}

pub open spec fn same_commit_text() -> Seq<char> {
    "Source and target are the same commit"@
}

pub open spec fn no_changes_in_commit_text(path: Seq<char>, source: Seq<char>) -> Seq<char> {
    "File '"@ + path + "' has no changes in commit "@ + short_hash_spec(source)
}

pub open spec fn moved_text(job: FileMoveJob, ds: Seq<char>, dt: Seq<char>) -> Seq<char> {
    "Moved `"@ + job.path@ + "` from `"@ + short_hash_spec(job.source@) + "` (now "@ + ds + ") to `"@
        + short_hash_spec(job.target@) + "` (now "@ + dt + ")"@
}

pub open spec fn file_move_answers(s: FileMove, event: FoldEvent) -> bool {
    match s.at {
        FileMoveAt::ReadingDiff | FileMoveAt::OReadSource | FileMoveAt::OReadTarget { .. } | FileMoveAt::TReadSource
        | FileMoveAt::TReadTrack { .. } | FileMoveAt::TReadTarget { .. } | FileMoveAt::TReadNewSource { .. } => event is Read,
        FileMoveAt::CheckingGitlink | FileMoveAt::CheckingOrder => event is Flag,
        FileMoveAt::TDropTrack { .. } | FileMoveAt::TDropTrack2 { .. } => event is Ran,
        FileMoveAt::Restaging { .. } => event is Done,
        FileMoveAt::DescribingSource { .. } | FileMoveAt::DescribingTarget { .. } => event is Described,
        FileMoveAt::Unwinding { error, left } => left@.len() > 0 && undo_answers(left@[0], event),
        FileMoveAt::Done => false,
        _ => event is Checked,
    }
}

/// Putting things back after `error`, `left` in order, then failing with
/// the error as it then stands.
pub open spec fn begins_unwinding(r: (FileMove, FoldAction), error: LoomError, left: Seq<Undo>) -> bool {
    if left.len() == 0 {
        r.0.at is Done && r.1 == FoldAction::Finish(Err::<Option<String>, LoomError>(error))
    } else {
        (r.0.at matches FileMoveAt::Unwinding { error: e, left: l } && e == error && l@ == left) && undo_action(
            r.1,
            error,
            left[0],
        )
    }
}

pub open spec fn amends(a: FoldAction, s: FileMove, reverse: bool) -> bool {
    a matches FoldAction::AmendPath { patch, path, gitlink, reverse: rv, git_opts } && patch@ == s.diff@ && path@ == s.job.path@
        && gitlink == s.gitlink && rv == reverse && git_opts@ == s.job.git_opts@
}

pub open spec fn continues(a: FoldAction, expect: Option<Seq<char>>, protect: Seq<Seq<char>>) -> bool {
    a matches FoldAction::ContinueToEdit { expect: x, protect: p } && views(p@) == protect && match (x, expect) {
        (Some(a), Some(b)) => a@ == b,
        (None, None) => true,
        _ => false,
    }
}

pub open spec fn rebases(a: FoldAction, commit: Seq<char>, protect: Seq<Seq<char>>) -> bool {
    a matches FoldAction::RebaseToEdit { commit: c, protect: p } && c@ == commit && views(p@) == protect
}

pub open spec fn edits(a: FoldAction, commits: Seq<Seq<char>>) -> bool {
    a matches FoldAction::EditWeave(c) && views(c@) == commits
}

/// Each step of a file move. `state.diff` and `state.gitlink` keep their
/// values but where they are read.
pub open spec fn file_move_next(s: FileMove, event: FoldEvent, r: (FileMove, FoldAction)) -> bool {
    let job = s.job;
    let keeps = r.0.diff == s.diff && r.0.gitlink == s.gitlink;
    let head = seq!["rev-parse"@, "HEAD"@];
    let track = seq!["rev-parse"@, track_branch()];
    match (s.at, event) {
        (FileMoveAt::ReadingDiff, FoldEvent::Read(x)) => match x {
            Err(f) => keeps && r.0.at is Done && finishes_with_error(r.1, f.message@),
            Ok(out) => if out@.len() == 0 {
                keeps && r.0.at is Done && finishes_with_error(r.1, no_changes_in_commit_text(job.path@, job.source@))
            } else {
                r.0.diff == out && r.0.gitlink == s.gitlink && r.0.at is CheckingGitlink && (r.1 matches FoldAction::IsGitlink {
                    commit,
                    path,
                } && commit@ == job.source@ && path@ == job.path@)
            },
        },
        (FileMoveAt::CheckingGitlink, FoldEvent::Flag(b)) => r.0.diff == s.diff && r.0.gitlink == b && r.0.at is CheckingOrder
            && (r.1 matches FoldAction::IsDescendant { commit, of } && commit@ == job.source@ && of@ == job.target@),
        (FileMoveAt::CheckingOrder, FoldEvent::Flag(newer)) => keeps && (r.0.at matches FileMoveAt::Snapshotting {
            two_phase,
        } && two_phase == newer) && r.1 is Snapshot,
        (FileMoveAt::Snapshotting { two_phase }, FoldEvent::Checked(c)) => keeps && match c {
            Err(e) => r.0.at is Done && r.1 == FoldAction::Finish(Err::<Option<String>, LoomError>(e)),
            Ok(()) => if two_phase {
                r.0.at is TEditing && edits(r.1, seq![job.source@])
            } else {
                r.0.at is OEditing && edits(r.1, seq![job.source@, job.target@])
            },
        },
        (FileMoveAt::OEditing, FoldEvent::Checked(c)) => keeps && match c {
            Err(e) => r.0.at is Done && r.1 == FoldAction::Finish(Err::<Option<String>, LoomError>(e)),
            Ok(()) => r.0.at is ORebasing && rebases(r.1, job.source@, seq![]),
        },
        (FileMoveAt::ORebasing, FoldEvent::Checked(c)) => keeps && match c {
            Err(e) => begins_unwinding(r, e, seq![Undo::RestoreOrPark]),
            Ok(()) => r.0.at is OAmendSource && amends(r.1, s, true),
        },
        (FileMoveAt::OAmendSource, FoldEvent::Checked(c)) => keeps && match c {
            Err(e) => begins_unwinding(r, e, seq![Undo::Abort { track: false, rollback: false }, Undo::RestoreOrPark]),
            Ok(()) => r.0.at is OReadSource && reads(r.1, head),
        },
        (FileMoveAt::OReadSource, FoldEvent::Read(x)) => keeps && match x {
            Err(f) => exists|e: LoomError| is_failure(e, f.message@) && begins_unwinding(r, e, seq![Undo::Abort { track: false, rollback: true }]),
            Ok(out) => (r.0.at matches FileMoveAt::OContinue { new_source } && new_source@ == read_hash(out@)) && continues(
                r.1,
                Some(job.target@),
                seq![],
            ),
        },
        (FileMoveAt::OContinue { new_source }, FoldEvent::Checked(c)) => keeps && match c {
            Err(e) => begins_unwinding(r, e, seq![Undo::Abort { track: false, rollback: true }]),
            Ok(()) => (r.0.at matches FileMoveAt::OAmendTarget { new_source: n } && n == new_source) && amends(r.1, s, false),
        },
        (FileMoveAt::OAmendTarget { new_source }, FoldEvent::Checked(c)) => keeps && match c {
            Err(e) => begins_unwinding(r, e, seq![Undo::Abort { track: false, rollback: true }]),
            Ok(()) => (r.0.at matches FileMoveAt::OReadTarget { new_source: n } && n == new_source) && reads(r.1, head),
        },
        (FileMoveAt::OReadTarget { new_source }, FoldEvent::Read(x)) => keeps && match x {
            Err(f) => exists|e: LoomError| is_failure(e, f.message@) && begins_unwinding(r, e, seq![Undo::Abort { track: false, rollback: true }]),
            Ok(out) => (r.0.at matches FileMoveAt::OFinishing { new_source: n, new_target } && n == new_source
                && new_target@ == read_hash(out@)) && continues(r.1, None, seq![]),
        },
        (FileMoveAt::OFinishing { new_source, new_target }, FoldEvent::Checked(c)) => keeps && match c {
            Err(e) => begins_unwinding(r, e, seq![Undo::Abort { track: false, rollback: true }]),
            Ok(()) => r.0.at == (FileMoveAt::Restaging { new_source, new_target }) && r.1 is Restage,
        },
        (FileMoveAt::TEditing, FoldEvent::Checked(c)) => keeps && match c {
            Err(e) => r.0.at is Done && r.1 == FoldAction::Finish(Err::<Option<String>, LoomError>(e)),
            Ok(()) => r.0.at is TForcing && (r.1 matches FoldAction::ForceTrack(t) && t@ == job.target@),
        },
        (FileMoveAt::TForcing, FoldEvent::Checked(c)) => keeps && match c {
            Err(e) => r.0.at is Done && r.1 == FoldAction::Finish(Err::<Option<String>, LoomError>(e)),
            Ok(()) => r.0.at is TRebasing && rebases(r.1, job.source@, seq![job.target@]),
        },
        (FileMoveAt::TRebasing, FoldEvent::Checked(c)) => keeps && match c {
            Err(e) => begins_unwinding(r, e, seq![Undo::DeleteTrack, Undo::RestoreOrPark]),
            Ok(()) => r.0.at is TAmendSource && amends(r.1, s, true),
        },
        (FileMoveAt::TAmendSource, FoldEvent::Checked(c)) => keeps && match c {
            Err(e) => begins_unwinding(r, e, seq![Undo::Abort { track: true, rollback: false }, Undo::RestoreOrPark]),
            Ok(()) => r.0.at is TReadSource && reads(r.1, head),
        },
        (FileMoveAt::TReadSource, FoldEvent::Read(x)) => keeps && match x {
            Err(f) => exists|e: LoomError| is_failure(e, f.message@) && begins_unwinding(
                r,
                e,
                seq![Undo::Abort { track: true, rollback: false }, Undo::RestoreOrPark],
            ),
            Ok(out) => (r.0.at matches FileMoveAt::TContinue { p1 } && p1@ == read_hash(out@)) && continues(
                r.1,
                None,
                seq![read_hash(out@)],
            ),
        },
        (FileMoveAt::TContinue { p1 }, FoldEvent::Checked(c)) => keeps && match c {
            Err(e) => begins_unwinding(r, e, seq![Undo::DeleteTrack, Undo::RestoreOrPark]),
            Ok(()) => (r.0.at matches FileMoveAt::TReadTrack { p1: p } && p == p1) && reads(r.1, track),
        },
        (FileMoveAt::TReadTrack { p1 }, FoldEvent::Read(x)) => keeps && match x {
            Err(f) => exists|e: LoomError| is_failure(e, f.message@) && begins_unwinding(r, e, seq![Undo::Restage]),
            Ok(out) => (r.0.at matches FileMoveAt::TDropTrack { p1: p, p2 } && p == p1 && p2@ == read_hash(out@))
                && runs(r.1, seq!["branch"@, "-D"@, track_branch()]),
        },
        (FileMoveAt::TDropTrack { p1, p2 }, FoldEvent::Ran(_)) => keeps && r.0.at == (FileMoveAt::TRebuilding { p1, p2 })
            && edits(r.1, seq![p2@]),
        (FileMoveAt::TRebuilding { p1, p2 }, FoldEvent::Checked(c)) => keeps && match c {
            Err(e) => begins_unwinding(r, e, seq![Undo::Restage]),
            Ok(()) => r.0.at == (FileMoveAt::TTracking { p1, p2 }) && (r.1 matches FoldAction::TrackThrough(t) && t@ == p1@),
        },
        (FileMoveAt::TTracking { p1, p2 }, FoldEvent::Checked(c)) => keeps && match c {
            Err(e) => begins_unwinding(r, e, seq![Undo::DeleteTrack, Undo::Rollback]),
            Ok(()) => r.0.at == (FileMoveAt::TRebasing2 { p1 }) && rebases(r.1, p2@, seq![]),
        },
        (FileMoveAt::TRebasing2 { p1 }, FoldEvent::Checked(c)) => keeps && match c {
            Err(e) => begins_unwinding(r, e, seq![Undo::DeleteTrack, Undo::Rollback]),
            Ok(()) => r.0.at == (FileMoveAt::TAmendTarget { p1 }) && amends(r.1, s, false),
        },
        (FileMoveAt::TAmendTarget { p1 }, FoldEvent::Checked(c)) => keeps && match c {
            Err(e) => begins_unwinding(r, e, seq![Undo::Abort { track: true, rollback: true }]),
            Ok(()) => r.0.at == (FileMoveAt::TReadTarget { p1 }) && reads(r.1, head),
        },
        (FileMoveAt::TReadTarget { p1 }, FoldEvent::Read(x)) => keeps && match x {
            Err(f) => exists|e: LoomError| is_failure(e, f.message@) && begins_unwinding(r, e, seq![Undo::Abort { track: true, rollback: true }]),
            Ok(out) => (r.0.at matches FileMoveAt::TContinue2 { p1: p, new_target } && p == p1 && new_target@ == read_hash(
                out@,
            )) && continues(r.1, None, seq![p1@]),
        },
        (FileMoveAt::TContinue2 { p1, new_target }, FoldEvent::Checked(c)) => keeps && match c {
            Err(e) => begins_unwinding(r, e, seq![Undo::DeleteTrack, Undo::Rollback]),
            Ok(()) => r.0.at == (FileMoveAt::TReadNewSource { new_target }) && reads(r.1, track),
        },
        (FileMoveAt::TReadNewSource { new_target }, FoldEvent::Read(x)) => keeps && match x {
            Err(f) => exists|e: LoomError| is_failure(e, f.message@) && begins_unwinding(r, e, seq![Undo::DeleteTrack, Undo::Restage]),
            Ok(out) => (r.0.at matches FileMoveAt::TDropTrack2 { new_source, new_target: t } && t == new_target
                && new_source@ == read_hash(out@)) && runs(r.1, seq!["branch"@, "-D"@, track_branch()]),
        },
        (FileMoveAt::TDropTrack2 { new_source, new_target }, FoldEvent::Ran(_)) => keeps && r.0.at == (FileMoveAt::Restaging {
            new_source,
            new_target,
        }) && r.1 is Restage,
        (FileMoveAt::Restaging { new_source, new_target }, FoldEvent::Done) => keeps && r.0.at == (FileMoveAt::DescribingSource {
            new_target,
        }) && r.1 == FoldAction::Describe(new_source),
        (FileMoveAt::DescribingSource { new_target }, FoldEvent::Described(ds)) => keeps && r.0.at == (FileMoveAt::DescribingTarget {
            source_described: ds,
        }) && r.1 == FoldAction::Describe(new_target),
        (FileMoveAt::DescribingTarget { source_described }, FoldEvent::Described(dt)) => keeps && r.0.at is Done && (r.1 matches FoldAction::Finish(
            Ok(Some(m)),
        ) && m@ == moved_text(job, source_described@, dt@)),
        (FileMoveAt::Unwinding { error, left }, ev) => keeps && begins_unwinding(
            r,
            match ev {
                FoldEvent::Aborted(e2) => e2,
                _ => error,
            },
            left@.drop_first(),
        ),
        _ => false,
    }
}

} // verus!

verus! {

fn copy_error(e: &LoomError) -> (r: LoomError)
    ensures
        r == *e,
{
    let replayed_empty = match &e.replayed_empty {
        Some(s) => Some(s.clone()),
        None => None,
    };
    LoomError { message: e.message.clone(), replayed_empty, not_started: e.not_started }
}

fn undo_act(error: &LoomError, u: Undo) -> (a: FoldAction)
    ensures
        undo_action(a, *error, u),
{
    match u {
        Undo::DeleteTrack => FoldAction::Run(delete_track()),
        Undo::RestoreOrPark => FoldAction::RestoreOrPark(copy_error(error)),
        Undo::Restage => FoldAction::Restage,
        Undo::Rollback => FoldAction::Rollback,
        Undo::RestoreStaged => FoldAction::RestoreOtherStaged,
        Undo::HandOver => FoldAction::HandOverStaged,
        Undo::Abort { track, rollback } => {
            let mut cleanup: Vec<GitCommand> = Vec::new();
            if track {
                cleanup.push(delete_track());
            }
            FoldAction::AbortThenCleanup { cause: copy_error(error), cleanup, rollback }
        },
    }
}

fn unwind(job: FileMoveJob, diff: String, gitlink: bool, error: LoomError, left: Vec<Undo>) -> (r: (FileMove, FoldAction))
    ensures
        r.0.job == job,
        r.0.diff == diff,
        r.0.gitlink == gitlink,
        begins_unwinding(r, error, left@),
{
    if left.len() == 0 {
        (FileMove { job, diff, gitlink, at: FileMoveAt::Done }, FoldAction::Finish(Err(error)))
    } else {
        let a = undo_act(&error, left[0]);
        (FileMove { job, diff, gitlink, at: FileMoveAt::Unwinding { error, left } }, a)
    }
}

fn undos1(a: Undo) -> (v: Vec<Undo>)
    ensures
        v@ == seq![a],
{
    let mut v: Vec<Undo> = Vec::new();
    v.push(a);
    proof {
        assert(v@ =~= seq![a]);
    }
    v
}

fn undos2(a: Undo, b: Undo) -> (v: Vec<Undo>)
    ensures
        v@ == seq![a, b],
{
    let mut v: Vec<Undo> = Vec::new();
    v.push(a);
    v.push(b);
    proof {
        assert(v@ =~= seq![a, b]);
    }
    v
}

pub(crate) fn texts1(a: &String) -> (v: Vec<String>)
    ensures
        views(v@) == seq![a@],
{
    let mut v: Vec<String> = Vec::new();
    v.push(a.clone());
    proof {
        assert(views(v@) =~= seq![a@]);
    }
    v
}

pub(crate) fn texts2(a: &String, b: &String) -> (v: Vec<String>)
    ensures
        views(v@) == seq![a@, b@],
{
    let mut v: Vec<String> = Vec::new();
    v.push(a.clone());
    v.push(b.clone());
    proof {
        assert(views(v@) =~= seq![a@, b@]);
    }
    v
}

pub(crate) fn no_texts() -> (v: Vec<String>)
    ensures
        views(v@) == Seq::<Seq<char>>::empty(),
{
    let v: Vec<String> = Vec::new();
    proof {
        assert(views(v@) =~= Seq::<Seq<char>>::empty());
    }
    v
}

/// Move one file's change from `source` to `target`. Refused when they
/// are the same commit ([`same_commit_text`]) and when the file has no
/// change in `source` ([`no_changes_in_commit_text`]). When `source` is the
/// older, one rebase stops at both: the file leaves the source, then joins
/// the target. When it is the newer, a first rebase takes it out of the
/// source and a second adds it to the target, [`track_branch`] carrying
/// each one's new hash across the other ([`file_move_next`]).
pub fn fold_commit_file_to_commit(source: String, path: String, target: String, git_opts: Vec<String>) -> (r: (
    FileMove,
    FoldAction,
))
    ensures
        r.0.job == (FileMoveJob { source, path, target, git_opts }),
        source@ == target@ ==> r.0.at is Done && finishes_with_error(r.1, same_commit_text()),
        source@ != target@ ==> r.0.at is ReadingDiff && (r.1 matches FoldAction::Read(c) && captured(
            c,
            crate::git::git_diff::replay_diff(
                seq![crate::git::git_diff::commit_range(source@), "--"@, ":(literal)"@ + path@],
            ),
        )),
{
    let job = FileMoveJob { source, path, target, git_opts };
    if text_eq(job.source.as_str(), job.target.as_str()) {
        let e = error_text(owned("Source and target are the same commit"));
        (FileMove { job, diff: String::new(), gitlink: false, at: FileMoveAt::Done }, FoldAction::Finish(Err(e)))
    } else {
        let c = crate::git::git_diff::diff_commit_file(job.source.as_str(), job.path.as_str());
        (FileMove { job, diff: String::new(), gitlink: false, at: FileMoveAt::ReadingDiff }, FoldAction::Read(c))
    }
}

} // verus!

verus! {

fn amend_action(job: &FileMoveJob, diff: &String, gitlink: bool, reverse: bool) -> (a: FoldAction)
    ensures
        a matches FoldAction::AmendPath { patch, path, gitlink: g, reverse: rv, git_opts } && patch@ == diff@ && path@ == job.path@
            && g == gitlink && rv == reverse && git_opts@ == job.git_opts@,
{
    FoldAction::AmendPath { patch: diff.clone(), path: job.path.clone(), gitlink, reverse, git_opts: copy_texts(&job.git_opts) }
}


#[verifier::rlimit(50)]
fn move_prelude(job: FileMoveJob, diff: String, gitlink: bool, at: FileMoveAt, event: FoldEvent) -> (r: (FileMove, FoldAction))
    requires
        at is ReadingDiff || at is CheckingGitlink || at is CheckingOrder || at is Snapshotting,
        file_move_answers(FileMove { job, diff, gitlink, at }, event),
        cuttable_hash(job.source@),
        cuttable_hash(job.target@),
    ensures
        r.0.job == job,
        file_move_next(FileMove { job, diff, gitlink, at }, event, r),
{
    match (at, event) {
        (FileMoveAt::ReadingDiff, FoldEvent::Read(x)) => match x {
            Err(f) => (FileMove { job, diff, gitlink, at: FileMoveAt::Done }, FoldAction::Finish(Err(failure(f)))),
            Ok(out) => {
                if out.unicode_len() == 0 {
                    let mut m = owned("File '");
                    push_str(&mut m, job.path.as_str());
                    push_str(&mut m, "' has no changes in commit ");
                    push_str(&mut m, short_hash(job.source.as_str()).as_str());
                    (FileMove { job, diff, gitlink, at: FileMoveAt::Done }, FoldAction::Finish(Err(error_text(m))))
                } else {
                    let a = FoldAction::IsGitlink { commit: job.source.clone(), path: job.path.clone() };
                    (FileMove { job, diff: out, gitlink, at: FileMoveAt::CheckingGitlink }, a)
                }
            },
        },
        (FileMoveAt::CheckingGitlink, FoldEvent::Flag(b)) => {
            let a = FoldAction::IsDescendant { commit: job.source.clone(), of: job.target.clone() };
            (FileMove { job, diff, gitlink: b, at: FileMoveAt::CheckingOrder }, a)
        },
        (FileMoveAt::CheckingOrder, FoldEvent::Flag(newer)) => (
            FileMove { job, diff, gitlink, at: FileMoveAt::Snapshotting { two_phase: newer } },
            FoldAction::Snapshot,
        ),
        (FileMoveAt::Snapshotting { two_phase }, FoldEvent::Checked(c)) => match c {
            Err(e) => (FileMove { job, diff, gitlink, at: FileMoveAt::Done }, FoldAction::Finish(Err(e))),
            Ok(()) => if two_phase {
                let a = FoldAction::EditWeave(texts1(&job.source));
                (FileMove { job, diff, gitlink, at: FileMoveAt::TEditing }, a)
            } else {
                let a = FoldAction::EditWeave(texts2(&job.source, &job.target));
                (FileMove { job, diff, gitlink, at: FileMoveAt::OEditing }, a)
            },
        },
        (at, _) => (FileMove { job, diff, gitlink, at }, FoldAction::Finish(Ok(None))),
    }
}

#[verifier::rlimit(50)]
fn move_one(job: FileMoveJob, diff: String, gitlink: bool, at: FileMoveAt, event: FoldEvent) -> (r: (FileMove, FoldAction))
    requires
        at is OEditing || at is ORebasing || at is OAmendSource || at is OReadSource || at is OContinue || at is OAmendTarget || at is OReadTarget || at is OFinishing,
        file_move_answers(FileMove { job, diff, gitlink, at }, event),
        cuttable_hash(job.source@),
        cuttable_hash(job.target@),
    ensures
        r.0.job == job,
        file_move_next(FileMove { job, diff, gitlink, at }, event, r),
{
    match (at, event) {
        (FileMoveAt::OEditing, FoldEvent::Checked(c)) => match c {
            Err(e) => (FileMove { job, diff, gitlink, at: FileMoveAt::Done }, FoldAction::Finish(Err(e))),
            Ok(()) => {
                let a = FoldAction::RebaseToEdit { commit: job.source.clone(), protect: no_texts() };
                (FileMove { job, diff, gitlink, at: FileMoveAt::ORebasing }, a)
            },
        },
        (FileMoveAt::ORebasing, FoldEvent::Checked(c)) => match c {
            Err(e) => unwind(job, diff, gitlink, e, undos1(Undo::RestoreOrPark)),
            Ok(()) => {
                let a = amend_action(&job, &diff, gitlink, true);
                (FileMove { job, diff, gitlink, at: FileMoveAt::OAmendSource }, a)
            },
        },
        (FileMoveAt::OAmendSource, FoldEvent::Checked(c)) => match c {
            Err(e) => unwind(job, diff, gitlink, e, undos2(Undo::Abort { track: false, rollback: false }, Undo::RestoreOrPark)),
            Ok(()) => (FileMove { job, diff, gitlink, at: FileMoveAt::OReadSource }, FoldAction::Read(rev_parse("HEAD"))),
        },
        (FileMoveAt::OReadSource, FoldEvent::Read(x)) => match x {
            Err(f) => unwind(job, diff, gitlink, failure(f), undos1(Undo::Abort { track: false, rollback: true })),
            Ok(out) => {
                let a = FoldAction::ContinueToEdit { expect: Some(job.target.clone()), protect: no_texts() };
                (FileMove { job, diff, gitlink, at: FileMoveAt::OContinue { new_source: trim_str(out.as_str()) } }, a)
            },
        },
        (FileMoveAt::OContinue { new_source }, FoldEvent::Checked(c)) => match c {
            Err(e) => unwind(job, diff, gitlink, e, undos1(Undo::Abort { track: false, rollback: true })),
            Ok(()) => {
                let a = amend_action(&job, &diff, gitlink, false);
                (FileMove { job, diff, gitlink, at: FileMoveAt::OAmendTarget { new_source } }, a)
            },
        },
        (FileMoveAt::OAmendTarget { new_source }, FoldEvent::Checked(c)) => match c {
            Err(e) => unwind(job, diff, gitlink, e, undos1(Undo::Abort { track: false, rollback: true })),
            Ok(()) => (FileMove { job, diff, gitlink, at: FileMoveAt::OReadTarget { new_source } }, FoldAction::Read(rev_parse("HEAD"))),
        },
        (FileMoveAt::OReadTarget { new_source }, FoldEvent::Read(x)) => match x {
            Err(f) => unwind(job, diff, gitlink, failure(f), undos1(Undo::Abort { track: false, rollback: true })),
            Ok(out) => {
                let a = FoldAction::ContinueToEdit { expect: None, protect: no_texts() };
                (FileMove { job, diff, gitlink, at: FileMoveAt::OFinishing { new_source, new_target: trim_str(out.as_str()) } }, a)
            },
        },
        (FileMoveAt::OFinishing { new_source, new_target }, FoldEvent::Checked(c)) => match c {
            Err(e) => unwind(job, diff, gitlink, e, undos1(Undo::Abort { track: false, rollback: true })),
            Ok(()) => (FileMove { job, diff, gitlink, at: FileMoveAt::Restaging { new_source, new_target } }, FoldAction::Restage),
        },
        (at, _) => (FileMove { job, diff, gitlink, at }, FoldAction::Finish(Ok(None))),
    }
}

#[verifier::rlimit(50)]
fn move_two_a(job: FileMoveJob, diff: String, gitlink: bool, at: FileMoveAt, event: FoldEvent) -> (r: (FileMove, FoldAction))
    requires
        at is TEditing || at is TForcing || at is TRebasing || at is TAmendSource || at is TReadSource || at is TContinue || at is TReadTrack,
        file_move_answers(FileMove { job, diff, gitlink, at }, event),
        cuttable_hash(job.source@),
        cuttable_hash(job.target@),
    ensures
        r.0.job == job,
        file_move_next(FileMove { job, diff, gitlink, at }, event, r),
{
    match (at, event) {
        (FileMoveAt::TEditing, FoldEvent::Checked(c)) => match c {
            Err(e) => (FileMove { job, diff, gitlink, at: FileMoveAt::Done }, FoldAction::Finish(Err(e))),
            Ok(()) => {
                let a = FoldAction::ForceTrack(job.target.clone());
                (FileMove { job, diff, gitlink, at: FileMoveAt::TForcing }, a)
            },
        },
        (FileMoveAt::TForcing, FoldEvent::Checked(c)) => match c {
            Err(e) => (FileMove { job, diff, gitlink, at: FileMoveAt::Done }, FoldAction::Finish(Err(e))),
            Ok(()) => {
                let a = FoldAction::RebaseToEdit { commit: job.source.clone(), protect: texts1(&job.target) };
                (FileMove { job, diff, gitlink, at: FileMoveAt::TRebasing }, a)
            },
        },
        (FileMoveAt::TRebasing, FoldEvent::Checked(c)) => match c {
            Err(e) => unwind(job, diff, gitlink, e, undos2(Undo::DeleteTrack, Undo::RestoreOrPark)),
            Ok(()) => {
                let a = amend_action(&job, &diff, gitlink, true);
                (FileMove { job, diff, gitlink, at: FileMoveAt::TAmendSource }, a)
            },
        },
        (FileMoveAt::TAmendSource, FoldEvent::Checked(c)) => match c {
            Err(e) => unwind(job, diff, gitlink, e, undos2(Undo::Abort { track: true, rollback: false }, Undo::RestoreOrPark)),
            Ok(()) => (FileMove { job, diff, gitlink, at: FileMoveAt::TReadSource }, FoldAction::Read(rev_parse("HEAD"))),
        },
        (FileMoveAt::TReadSource, FoldEvent::Read(x)) => match x {
            Err(f) => unwind(job, diff, gitlink, failure(f), undos2(Undo::Abort { track: true, rollback: false }, Undo::RestoreOrPark)),
            Ok(out) => {
                let p1 = trim_str(out.as_str());
                let a = FoldAction::ContinueToEdit { expect: None, protect: texts1(&p1) };
                (FileMove { job, diff, gitlink, at: FileMoveAt::TContinue { p1 } }, a)
            },
        },
        (FileMoveAt::TContinue { p1 }, FoldEvent::Checked(c)) => match c {
            Err(e) => unwind(job, diff, gitlink, e, undos2(Undo::DeleteTrack, Undo::RestoreOrPark)),
            Ok(()) => (FileMove { job, diff, gitlink, at: FileMoveAt::TReadTrack { p1 } }, FoldAction::Read(rev_parse("_loom-track"))),
        },
        (FileMoveAt::TReadTrack { p1 }, FoldEvent::Read(x)) => match x {
            Err(f) => unwind(job, diff, gitlink, failure(f), undos1(Undo::Restage)),
            Ok(out) => (
                FileMove { job, diff, gitlink, at: FileMoveAt::TDropTrack { p1, p2: trim_str(out.as_str()) } },
                FoldAction::Run(delete_track()),
            ),
        },
        (at, _) => (FileMove { job, diff, gitlink, at }, FoldAction::Finish(Ok(None))),
    }
}

#[verifier::rlimit(50)]
fn move_two_b(job: FileMoveJob, diff: String, gitlink: bool, at: FileMoveAt, event: FoldEvent) -> (r: (FileMove, FoldAction))
    requires
        at is TDropTrack || at is TRebuilding || at is TTracking || at is TRebasing2 || at is TAmendTarget || at is TReadTarget || at is TContinue2 || at is TReadNewSource || at is TDropTrack2,
        file_move_answers(FileMove { job, diff, gitlink, at }, event),
        cuttable_hash(job.source@),
        cuttable_hash(job.target@),
    ensures
        r.0.job == job,
        file_move_next(FileMove { job, diff, gitlink, at }, event, r),
{
    match (at, event) {
        (FileMoveAt::TDropTrack { p1, p2 }, FoldEvent::Ran(_)) => {
            let a = FoldAction::EditWeave(texts1(&p2));
            (FileMove { job, diff, gitlink, at: FileMoveAt::TRebuilding { p1, p2 } }, a)
        },
        (FileMoveAt::TRebuilding { p1, p2 }, FoldEvent::Checked(c)) => match c {
            Err(e) => unwind(job, diff, gitlink, e, undos1(Undo::Restage)),
            Ok(()) => {
                let a = FoldAction::TrackThrough(p1.clone());
                (FileMove { job, diff, gitlink, at: FileMoveAt::TTracking { p1, p2 } }, a)
            },
        },
        (FileMoveAt::TTracking { p1, p2 }, FoldEvent::Checked(c)) => match c {
            Err(e) => unwind(job, diff, gitlink, e, undos2(Undo::DeleteTrack, Undo::Rollback)),
            Ok(()) => {
                let a = FoldAction::RebaseToEdit { commit: p2, protect: no_texts() };
                (FileMove { job, diff, gitlink, at: FileMoveAt::TRebasing2 { p1 } }, a)
            },
        },
        (FileMoveAt::TRebasing2 { p1 }, FoldEvent::Checked(c)) => match c {
            Err(e) => unwind(job, diff, gitlink, e, undos2(Undo::DeleteTrack, Undo::Rollback)),
            Ok(()) => {
                let a = amend_action(&job, &diff, gitlink, false);
                (FileMove { job, diff, gitlink, at: FileMoveAt::TAmendTarget { p1 } }, a)
            },
        },
        (FileMoveAt::TAmendTarget { p1 }, FoldEvent::Checked(c)) => match c {
            Err(e) => unwind(job, diff, gitlink, e, undos1(Undo::Abort { track: true, rollback: true })),
            Ok(()) => (FileMove { job, diff, gitlink, at: FileMoveAt::TReadTarget { p1 } }, FoldAction::Read(rev_parse("HEAD"))),
        },
        (FileMoveAt::TReadTarget { p1 }, FoldEvent::Read(x)) => match x {
            Err(f) => unwind(job, diff, gitlink, failure(f), undos1(Undo::Abort { track: true, rollback: true })),
            Ok(out) => {
                let a = FoldAction::ContinueToEdit { expect: None, protect: texts1(&p1) };
                (FileMove { job, diff, gitlink, at: FileMoveAt::TContinue2 { p1, new_target: trim_str(out.as_str()) } }, a)
            },
        },
        (FileMoveAt::TContinue2 { p1, new_target }, FoldEvent::Checked(c)) => match c {
            Err(e) => unwind(job, diff, gitlink, e, undos2(Undo::DeleteTrack, Undo::Rollback)),
            Ok(()) => (
                FileMove { job, diff, gitlink, at: FileMoveAt::TReadNewSource { new_target } },
                FoldAction::Read(rev_parse("_loom-track")),
            ),
        },
        (FileMoveAt::TReadNewSource { new_target }, FoldEvent::Read(x)) => match x {
            Err(f) => unwind(job, diff, gitlink, failure(f), undos2(Undo::DeleteTrack, Undo::Restage)),
            Ok(out) => (
                FileMove { job, diff, gitlink, at: FileMoveAt::TDropTrack2 { new_source: trim_str(out.as_str()), new_target } },
                FoldAction::Run(delete_track()),
            ),
        },
        (FileMoveAt::TDropTrack2 { new_source, new_target }, FoldEvent::Ran(_)) => (
            FileMove { job, diff, gitlink, at: FileMoveAt::Restaging { new_source, new_target } },
            FoldAction::Restage,
        ),
        (at, _) => (FileMove { job, diff, gitlink, at }, FoldAction::Finish(Ok(None))),
    }
}

#[verifier::rlimit(50)]
fn move_end(job: FileMoveJob, diff: String, gitlink: bool, at: FileMoveAt, event: FoldEvent) -> (r: (FileMove, FoldAction))
    requires
        at is Restaging || at is DescribingSource || at is DescribingTarget || at is Unwinding,
        file_move_answers(FileMove { job, diff, gitlink, at }, event),
        cuttable_hash(job.source@),
        cuttable_hash(job.target@),
    ensures
        r.0.job == job,
        file_move_next(FileMove { job, diff, gitlink, at }, event, r),
{
    match (at, event) {
        (FileMoveAt::Restaging { new_source, new_target }, FoldEvent::Done) => (
            FileMove { job, diff, gitlink, at: FileMoveAt::DescribingSource { new_target } },
            FoldAction::Describe(new_source),
        ),
        (FileMoveAt::DescribingSource { new_target }, FoldEvent::Described(ds)) => (
            FileMove { job, diff, gitlink, at: FileMoveAt::DescribingTarget { source_described: ds } },
            FoldAction::Describe(new_target),
        ),
        (FileMoveAt::DescribingTarget { source_described }, FoldEvent::Described(dt)) => {
            let mut m = owned("Moved `");
            push_str(&mut m, job.path.as_str());
            push_str(&mut m, "` from `");
            push_str(&mut m, short_hash(job.source.as_str()).as_str());
            push_str(&mut m, "` (now ");
            push_str(&mut m, source_described.as_str());
            push_str(&mut m, ") to `");
            push_str(&mut m, short_hash(job.target.as_str()).as_str());
            push_str(&mut m, "` (now ");
            push_str(&mut m, dt.as_str());
            push_str(&mut m, ")");
            (FileMove { job, diff, gitlink, at: FileMoveAt::Done }, FoldAction::Finish(Ok(Some(m))))
        },
        (FileMoveAt::Unwinding { error, left }, ev) => {
            let e = match ev {
                FoldEvent::Aborted(e2) => e2,
                _ => error,
            };
            let mut rest: Vec<Undo> = Vec::new();
            let mut i: usize = 1;
            while i < left.len()
                invariant
                    1 <= i <= left@.len(),
                    rest@ == left@.subrange(1, i as int),
                decreases left.len() - i,
            {
                rest.push(left[i]);
                proof {
                    assert(rest@ =~= left@.subrange(1, i + 1));
                }
                i = i + 1;
            }
            proof {
                assert(rest@ =~= left@.drop_first());
            }
            unwind(job, diff, gitlink, e, rest)
        },
        (at, _) => (FileMove { job, diff, gitlink, at }, FoldAction::Finish(Ok(None))),
    }
}

/// One step of [`fold_commit_file_to_commit`].
pub fn file_move_step(state: FileMove, event: FoldEvent) -> (r: (FileMove, FoldAction))
    requires
        file_move_answers(state, event),
        cuttable_hash(state.job.source@),
        cuttable_hash(state.job.target@),
    ensures
        r.0.job == state.job,
        file_move_next(state, event, r),
{
    let FileMove { job, diff, gitlink, at } = state;
    match at {
        FileMoveAt::ReadingDiff | FileMoveAt::CheckingGitlink | FileMoveAt::CheckingOrder | FileMoveAt::Snapshotting { .. } => move_prelude(job, diff, gitlink, at, event),
        FileMoveAt::OEditing | FileMoveAt::ORebasing | FileMoveAt::OAmendSource | FileMoveAt::OReadSource | FileMoveAt::OContinue { .. }
        | FileMoveAt::OAmendTarget { .. } | FileMoveAt::OReadTarget { .. } | FileMoveAt::OFinishing { .. } => move_one(job, diff, gitlink, at, event),
        FileMoveAt::TEditing | FileMoveAt::TForcing | FileMoveAt::TRebasing | FileMoveAt::TAmendSource | FileMoveAt::TReadSource
        | FileMoveAt::TContinue { .. } | FileMoveAt::TReadTrack { .. } => move_two_a(job, diff, gitlink, at, event),
        FileMoveAt::TDropTrack { .. } | FileMoveAt::TRebuilding { .. } | FileMoveAt::TTracking { .. } | FileMoveAt::TRebasing2 { .. }
        | FileMoveAt::TAmendTarget { .. } | FileMoveAt::TReadTarget { .. } | FileMoveAt::TContinue2 { .. } | FileMoveAt::TReadNewSource { .. }
        | FileMoveAt::TDropTrack2 { .. } => move_two_b(job, diff, gitlink, at, event),
        _ => move_end(job, diff, gitlink, at, event),
    }
}

} // verus!

verus! {

/// What a paused fold left to finish once its rebase is over, as its state
/// file records it.
pub enum FoldVariant {
    FilesIntoCommit { original_commit_hash: String, files_count: usize },
    CommitIntoCommit { source_hash: String, target_hash: String },
    CommitToBranch { commit_hash: String, branch_name: String, parked: Vec<String> },
    CommitToUnstaged { commit_hash: String, diff: String, emptied: Vec<String> },
    CommitRelative { commit_hash: String, target_hash: String, above: bool, parked: Vec<String> },
}

/// Where finishing a resumed fold stands.
pub enum ResumeAt {
    /// Putting the saved staged changes back.
    Restaging,
    /// Reading the rewritten commit's hash.
    ReadingNew,
    DroppingTrack { new: String },
    Describing,
    /// Naming the branches left empty; `message` is what comes before.
    DescribingParked { message: String },
    /// Re-applying an uncommitted commit's diff to the working tree.
    Applying,
    /// Saving that diff aside after the apply failed with `error`.
    Saving { error: String },
    Warning,
    /// Putting the saved staged changes back after the uncommit.
    RestagingUncommit,
    KeepingRemovals,
    Done,
}

pub struct Resume {
    pub variant: FoldVariant,
    pub at: ResumeAt,
}

pub open spec fn resume_answers(s: Resume, event: FoldEvent) -> bool {
    match s.at {
        ResumeAt::Restaging | ResumeAt::Warning | ResumeAt::RestagingUncommit => event is Done,
        ResumeAt::ReadingNew => event is Read,
        ResumeAt::DroppingTrack { .. } => event is Ran,
        ResumeAt::Describing | ResumeAt::DescribingParked { .. } => event is Described,
        ResumeAt::Applying => event is Checked,
        ResumeAt::Saving { .. } => event is Saved,
        ResumeAt::KeepingRemovals => event is Paths,
        ResumeAt::Done => false,
    }
}

/// Whether every hash the variant names can be cut to a short hash.
pub open spec fn resume_hashes_cuttable(v: FoldVariant) -> bool {
    match v {
        FoldVariant::FilesIntoCommit { original_commit_hash, .. } => cuttable_hash(original_commit_hash@),
        FoldVariant::CommitIntoCommit { source_hash, target_hash } => cuttable_hash(source_hash@) && cuttable_hash(target_hash@),
        FoldVariant::CommitToBranch { commit_hash, .. } => cuttable_hash(commit_hash@),
        FoldVariant::CommitToUnstaged { commit_hash, .. } => cuttable_hash(commit_hash@),
        FoldVariant::CommitRelative { commit_hash, target_hash, .. } => cuttable_hash(commit_hash@) && cuttable_hash(target_hash@),
    }
}

/// The ref whose new hash a finished fold reports: its branch for a move to
/// a branch, [`track_branch`] otherwise.
pub open spec fn reported_ref(v: FoldVariant) -> Seq<char> {
    match v {
        FoldVariant::CommitToBranch { branch_name, .. } => branch_name@,
        _ => track_branch(),
    }
}

pub open spec fn position_word(above: bool) -> Seq<char> {
    if above {
        "above"@
    } else {
        "below"@
    }
}

/// The success message, the rewritten commit described as `d`.
pub open spec fn resumed_text(v: FoldVariant, d: Seq<char>) -> Seq<char> {
    match v {
        FoldVariant::FilesIntoCommit { original_commit_hash, files_count } => "Folded "@ + decimal(files_count as nat)
            + " file(s) into `"@ + short_hash_spec(original_commit_hash@) + "` (now "@ + d + ")"@,
        FoldVariant::CommitIntoCommit { source_hash, target_hash } => "Folded `"@ + short_hash_spec(source_hash@)
            + "` into `"@ + short_hash_spec(target_hash@) + "` (now "@ + d + ")"@,
        FoldVariant::CommitToBranch { commit_hash, branch_name, .. } => "Moved `"@ + short_hash_spec(commit_hash@)
            + "` to branch `"@ + branch_name@ + "` (now "@ + d + ")"@,
        FoldVariant::CommitRelative { commit_hash, target_hash, above, .. } => "Moved `"@ + short_hash_spec(commit_hash@)
            + "` "@ + position_word(above) + " `"@ + short_hash_spec(target_hash@) + "` (now "@ + d + ")"@,
        FoldVariant::CommitToUnstaged { .. } => Seq::empty(),
    }
}

/// The branches a move left empty, when there are any.
pub open spec fn parked_of(v: FoldVariant) -> Seq<String> {
    match v {
        FoldVariant::CommitToBranch { parked, .. } => parked@,
        FoldVariant::CommitRelative { parked, .. } => parked@,
        FoldVariant::CommitToUnstaged { emptied, .. } => emptied@,
        _ => Seq::empty(),
    }
}

pub open spec fn with_parked(message: Seq<char>, described: Seq<char>) -> Seq<char> {
    message + "\n"@ + described + " now empty, at the base"@
}

/// The warning when an uncommitted commit's diff would not go back.
pub open spec fn unapplied_text(error: Seq<char>, saved: Result<String, String>, commit: Seq<char>) -> Seq<char> {
    "Could not re-apply changes to working directory: "@ + error + match saved {
        Ok(path) => "\nThe diff has been saved — apply it with `git apply "@ + path@ + "`"@,
        Err(e) => "\nThe diff could not be saved either ("@ + e@ + ") — `git show "@ + commit
            + "` still prints it, until that dangling commit is collected"@,
    }
}

pub open spec fn backticked(paths: Seq<String>) -> Seq<Seq<char>> {
    paths.map_values(|p: String| "`"@ + p@ + "`"@)
}

/// The line naming the submodule removals an uncommit staged, if any.
pub open spec fn staged_note(staged: Seq<String>) -> Seq<char> {
    if staged.len() == 0 {
        Seq::empty()
    } else {
        "\nThe removal of "@ + crate::text::join(backticked(staged), ", "@) + " is staged — the checkout is still on disk"@
    }
}

/// `Uncommitted ...`, naming the submodule removals it staged.
pub open spec fn uncommitted_text(commit: Seq<char>, staged: Seq<String>) -> Seq<char> {
    "Uncommitted `"@ + short_hash_spec(commit) + "` to working directory"@ + staged_note(staged)
}

/// Finishing with `message`, or first naming the branches left empty.
pub open spec fn finishes_reporting(r: (Resume, FoldAction), message: Seq<char>, parked: Seq<String>) -> bool {
    if parked.len() == 0 {
        r.0.at is Done && (r.1 matches FoldAction::Finish(Ok(Some(m))) && m@ == message)
    } else {
        (r.0.at matches ResumeAt::DescribingParked { message: m } && m@ == message) && (r.1 matches FoldAction::DescribeBranches(
            b,
        ) && b@ == parked)
    }
}

pub open spec fn resume_next(s: Resume, event: FoldEvent, r: (Resume, FoldAction)) -> bool {
    let v = s.variant;
    match (s.at, event) {
        (ResumeAt::Restaging, FoldEvent::Done) => r.0.at is ReadingNew && reads(r.1, seq!["rev-parse"@, reported_ref(v)]),
        (ResumeAt::ReadingNew, FoldEvent::Read(x)) => match x {
            Err(f) => r.0.at is Done && finishes_with_error(r.1, f.message@),
            Ok(out) => if v is CommitToBranch {
                r.0.at is Describing && (r.1 matches FoldAction::Describe(h) && h@ == read_hash(out@))
            } else {
                (r.0.at matches ResumeAt::DroppingTrack { new } && new@ == read_hash(out@)) && runs(
                    r.1,
                    seq!["branch"@, "-D"@, track_branch()],
                )
            },
        },
        (ResumeAt::DroppingTrack { new }, FoldEvent::Ran(_)) => r.0.at is Describing && r.1 == FoldAction::Describe(new),
        (ResumeAt::Describing, FoldEvent::Described(d)) => finishes_reporting(r, resumed_text(v, d@), parked_of(v)),
        (ResumeAt::DescribingParked { message }, FoldEvent::Described(b)) => r.0.at is Done && (r.1 matches FoldAction::Finish(
            Ok(Some(m)),
        ) && m@ == with_parked(message@, b@)),
        (ResumeAt::Applying, FoldEvent::Checked(c)) => match (c, v) {
            (Ok(()), _) => r.0.at is RestagingUncommit && r.1 is Restage,
            (Err(e), FoldVariant::CommitToUnstaged { diff, .. }) => (r.0.at matches ResumeAt::Saving { error } && error@
                == e.message@) && (r.1 matches FoldAction::SavePatch { name, patch } && name@ == "unapplied"@ && patch@
                == diff@),
            _ => false,
        },
        (ResumeAt::Saving { error }, FoldEvent::Saved(x)) => match v {
            FoldVariant::CommitToUnstaged { commit_hash, .. } => r.0.at is Warning && (r.1 matches FoldAction::Warn(w)
                && w@ == unapplied_text(error@, x, commit_hash@)),
            _ => false,
        },
        (ResumeAt::Warning, FoldEvent::Done) => r.0.at is RestagingUncommit && r.1 is Restage,
        (ResumeAt::RestagingUncommit, FoldEvent::Done) => match v {
            FoldVariant::CommitToUnstaged { commit_hash, .. } => r.0.at is KeepingRemovals && (r.1 matches FoldAction::KeepSubmoduleRemovals(
                c,
            ) && c@ == commit_hash@),
            _ => false,
        },
        (ResumeAt::KeepingRemovals, FoldEvent::Paths(staged)) => match v {
            FoldVariant::CommitToUnstaged { commit_hash, emptied, .. } => finishes_reporting(
                r,
                uncommitted_text(commit_hash@, staged@),
                emptied@,
            ),
            _ => false,
        },
        _ => false,
    }
}

/// Only an uncommit re-applies a diff, saves it aside or keeps submodule
/// removals.
pub open spec fn resume_wf(s: Resume) -> bool {
    match s.at {
        ResumeAt::Applying | ResumeAt::Saving { .. } | ResumeAt::Warning | ResumeAt::RestagingUncommit
        | ResumeAt::KeepingRemovals => s.variant is CommitToUnstaged,
        _ => true,
    }
}

/// How finishing a fold begins: an uncommit first re-applies its diff to
/// the working tree (when there is one) and only then puts the saved staged
/// changes back; every other fold puts them back first.
pub open spec fn resume_start(v: FoldVariant, r: (Resume, FoldAction)) -> bool {
    match v {
        FoldVariant::CommitToUnstaged { diff, .. } => if diff@.len() > 0 {
            r.0.at is Applying && (r.1 matches FoldAction::ApplyToWorktree(d) && d@ == diff@)
        } else {
            r.0.at is RestagingUncommit && r.1 is Restage
        },
        _ => r.0.at is Restaging && r.1 is Restage,
    }
}

/// Finish a fold whose rebase paused and has now completed: the first step.
pub fn after_continue(variant: FoldVariant) -> (r: (Resume, FoldAction))
    ensures
        r.0.variant == variant,
        resume_wf(r.0),
        resume_start(variant, r),
{
    let d = match &variant {
        FoldVariant::CommitToUnstaged { diff, .. } => Some(diff.clone()),
        _ => None,
    };
    match d {
        Some(diff) => if diff.unicode_len() > 0 {
            (Resume { variant, at: ResumeAt::Applying }, FoldAction::ApplyToWorktree(diff))
        } else {
            (Resume { variant, at: ResumeAt::RestagingUncommit }, FoldAction::Restage)
        },
        None => (Resume { variant, at: ResumeAt::Restaging }, FoldAction::Restage),
    }
}

fn resumed_message(v: &FoldVariant, d: &str) -> (m: String)
    requires
        resume_hashes_cuttable(*v),
    ensures
        m@ == resumed_text(*v, d@),
{
    match v {
        FoldVariant::FilesIntoCommit { original_commit_hash, files_count } => {
            let mut m = owned("Folded ");
            push_str(&mut m, decimal_text(*files_count as u64).as_str());
            push_str(&mut m, " file(s) into `");
            push_str(&mut m, short_hash(original_commit_hash.as_str()).as_str());
            push_str(&mut m, "` (now ");
            push_str(&mut m, d);
            push_str(&mut m, ")");
            m
        },
        FoldVariant::CommitIntoCommit { source_hash, target_hash } => {
            let mut m = owned("Folded `");
            push_str(&mut m, short_hash(source_hash.as_str()).as_str());
            push_str(&mut m, "` into `");
            push_str(&mut m, short_hash(target_hash.as_str()).as_str());
            push_str(&mut m, "` (now ");
            push_str(&mut m, d);
            push_str(&mut m, ")");
            m
        },
        FoldVariant::CommitToBranch { commit_hash, branch_name, .. } => {
            let mut m = owned("Moved `");
            push_str(&mut m, short_hash(commit_hash.as_str()).as_str());
            push_str(&mut m, "` to branch `");
            push_str(&mut m, branch_name.as_str());
            push_str(&mut m, "` (now ");
            push_str(&mut m, d);
            push_str(&mut m, ")");
            m
        },
        FoldVariant::CommitRelative { commit_hash, target_hash, above, .. } => {
            let mut m = owned("Moved `");
            push_str(&mut m, short_hash(commit_hash.as_str()).as_str());
            push_str(&mut m, "` ");
            if *above {
                push_str(&mut m, "above");
            } else {
                push_str(&mut m, "below");
            }
            push_str(&mut m, " `");
            push_str(&mut m, short_hash(target_hash.as_str()).as_str());
            push_str(&mut m, "` (now ");
            push_str(&mut m, d);
            push_str(&mut m, ")");
            m
        },
        FoldVariant::CommitToUnstaged { .. } => String::new(),
    }
}

fn parked_copy(v: &FoldVariant) -> (p: Vec<String>)
    ensures
        p@ == parked_of(*v),
{
    match v {
        FoldVariant::CommitToBranch { parked, .. } => copy_texts(parked),
        FoldVariant::CommitRelative { parked, .. } => copy_texts(parked),
        FoldVariant::CommitToUnstaged { emptied, .. } => copy_texts(emptied),
        _ => Vec::new(),
    }
}

fn finish_reporting(variant: FoldVariant, message: String, parked: Vec<String>) -> (r: (Resume, FoldAction))
    ensures
        r.0.variant == variant,
        finishes_reporting(r, message@, parked@),
{
    if parked.len() == 0 {
        (Resume { variant, at: ResumeAt::Done }, FoldAction::Finish(Ok(Some(message))))
    } else {
        (Resume { variant, at: ResumeAt::DescribingParked { message } }, FoldAction::DescribeBranches(parked))
    }
}

fn unapplied_message(error: &str, saved: Result<String, String>, commit: &str) -> (w: String)
    ensures
        w@ == unapplied_text(error@, saved, commit@),
{
    let mut w = owned("Could not re-apply changes to working directory: ");
    push_str(&mut w, error);
    let ghost head = w@;
    match saved {
        Ok(path) => {
            push_str(&mut w, "\nThe diff has been saved — apply it with `git apply ");
            push_str(&mut w, path.as_str());
            push_str(&mut w, "`");
            proof {
                assert(w@ =~= head + ("\nThe diff has been saved — apply it with `git apply "@ + path@ + "`"@));
            }
        },
        Err(e) => {
            push_str(&mut w, "\nThe diff could not be saved either (");
            push_str(&mut w, e.as_str());
            push_str(&mut w, ") — `git show ");
            push_str(&mut w, commit);
            push_str(&mut w, "` still prints it, until that dangling commit is collected");
            proof {
                assert(w@ =~= head + ("\nThe diff could not be saved either ("@ + e@ + ") — `git show "@ + commit@
                    + "` still prints it, until that dangling commit is collected"@));
            }
        },
    }
    w
}

fn push_staged_note(m: &mut String, staged: &Vec<String>)
    ensures
        final(m)@ == old(m)@ + staged_note(staged@),
{
    let ghost before = m@;
    if staged.len() > 0 {
        let mut pieces: Vec<String> = Vec::new();
        let mut i: usize = 0;
        while i < staged.len()
            invariant
                i <= staged@.len(),
                views(pieces@) == backticked(staged@).take(i as int),
            decreases staged.len() - i,
        {
            let mut q = owned("`");
            push_str(&mut q, staged[i].as_str());
            push_str(&mut q, "`");
            let ghost prior = views(pieces@);
            pieces.push(q);
            proof {
                assert(backticked(staged@)[i as int] == "`"@ + staged@[i as int]@ + "`"@);
                assert(views(pieces@) =~= prior.push(q@));
                assert(views(pieces@) =~= backticked(staged@).take(i + 1));
            }
            i = i + 1;
        }
        proof {
            assert(backticked(staged@).take(staged@.len() as int) =~= backticked(staged@));
        }
        push_str(m, "\nThe removal of ");
        push_str(m, crate::text::join_texts(pieces.as_slice(), ", ").as_str());
        push_str(m, " is staged — the checkout is still on disk");
        proof {
            assert(m@ =~= before + staged_note(staged@));
        }
    } else {
        proof {
            assert(m@ =~= before + staged_note(staged@));
        }
    }
}

fn uncommitted_message(commit: &str, staged: &Vec<String>) -> (m: String)
    requires
        cuttable_hash(commit@),
    ensures
        m@ == uncommitted_text(commit@, staged@),
{
    let mut m = owned("Uncommitted `");
    push_str(&mut m, short_hash(commit).as_str());
    push_str(&mut m, "` to working directory");
    push_staged_note(&mut m, staged);
    m
}

/// One step of finishing a resumed fold.
pub fn resume_step(state: Resume, event: FoldEvent) -> (r: (Resume, FoldAction))
    requires
        resume_answers(state, event),
        resume_wf(state),
        resume_hashes_cuttable(state.variant),
    ensures
        r.0.variant == state.variant,
        resume_wf(r.0),
        resume_next(state, event, r),
{
    let Resume { variant, at } = state;
    match (at, event) {
        (ResumeAt::Restaging, FoldEvent::Done) => {
            let c = match &variant {
                FoldVariant::CommitToBranch { branch_name, .. } => rev_parse(branch_name.as_str()),
                _ => rev_parse("_loom-track"),
            };
            (Resume { variant, at: ResumeAt::ReadingNew }, FoldAction::Read(c))
        },
        (ResumeAt::ReadingNew, FoldEvent::Read(x)) => match x {
            Err(f) => (Resume { variant, at: ResumeAt::Done }, FoldAction::Finish(Err(failure(f)))),
            Ok(out) => {
                let new = trim_str(out.as_str());
                let to_branch = match &variant {
                    FoldVariant::CommitToBranch { .. } => true,
                    _ => false,
                };
                if to_branch {
                    (Resume { variant, at: ResumeAt::Describing }, FoldAction::Describe(new))
                } else {
                    (Resume { variant, at: ResumeAt::DroppingTrack { new } }, FoldAction::Run(delete_track()))
                }
            },
        },
        (ResumeAt::DroppingTrack { new }, FoldEvent::Ran(_)) => (Resume { variant, at: ResumeAt::Describing }, FoldAction::Describe(new)),
        (ResumeAt::Describing, FoldEvent::Described(d)) => {
            let m = resumed_message(&variant, d.as_str());
            let p = parked_copy(&variant);
            finish_reporting(variant, m, p)
        },
        (ResumeAt::DescribingParked { message }, FoldEvent::Described(b)) => {
            let mut m = message;
            push_str(&mut m, "\n");
            push_str(&mut m, b.as_str());
            push_str(&mut m, " now empty, at the base");
            (Resume { variant, at: ResumeAt::Done }, FoldAction::Finish(Ok(Some(m))))
        },
        (ResumeAt::Applying, FoldEvent::Checked(c)) => match c {
            Ok(()) => (Resume { variant, at: ResumeAt::RestagingUncommit }, FoldAction::Restage),
            Err(e) => {
                let patch = match &variant {
                    FoldVariant::CommitToUnstaged { diff, .. } => diff.clone(),
                    _ => String::new(),
                };
                (Resume { variant, at: ResumeAt::Saving { error: e.message } }, FoldAction::SavePatch { name: owned("unapplied"), patch })
            },
        },
        (ResumeAt::Saving { error }, FoldEvent::Saved(x)) => {
            let w = match &variant {
                FoldVariant::CommitToUnstaged { commit_hash, .. } => unapplied_message(error.as_str(), x, commit_hash.as_str()),
                _ => String::new(),
            };
            (Resume { variant, at: ResumeAt::Warning }, FoldAction::Warn(w))
        },
        (ResumeAt::Warning, FoldEvent::Done) => (Resume { variant, at: ResumeAt::RestagingUncommit }, FoldAction::Restage),
        (ResumeAt::RestagingUncommit, FoldEvent::Done) => {
            let c = match &variant {
                FoldVariant::CommitToUnstaged { commit_hash, .. } => commit_hash.clone(),
                _ => String::new(),
            };
            (Resume { variant, at: ResumeAt::KeepingRemovals }, FoldAction::KeepSubmoduleRemovals(c))
        },
        (ResumeAt::KeepingRemovals, FoldEvent::Paths(staged)) => {
            let m = match &variant {
                FoldVariant::CommitToUnstaged { commit_hash, .. } => uncommitted_message(commit_hash.as_str(), &staged),
                _ => String::new(),
            };
            let p = parked_copy(&variant);
            finish_reporting(variant, m, p)
        },
        (at, _) => (Resume { variant, at }, FoldAction::Finish(Ok(None))),
    }
}

} // verus!

verus! {

/// A move of picked hunks from one commit to another.
pub struct HunkMoveJob {
    pub source: String,
    pub target: String,
    /// What the user typed for the target, for the refusal of a hunk that
    /// cannot move.
    pub target_arg: String,
    pub git_opts: Vec<String>,
}

/// Where a hunk move stands: two rebases, the first taking the hunks out of
/// the source, the second adding them to the target, [`track_branch`]
/// carrying each one's new hash across the other.
pub enum HunkMoveAt {
    Preparing,
    Snapshotting,
    SettingAside,
    Editing,
    Forcing,
    Rebasing,
    AmendSource,
    ReadSource,
    Continue { p1: String },
    ReadTrack { p1: String },
    DropTrack { p1: String, p2: String },
    Rebuilding { p1: String, p2: String },
    Tracking { p1: String, p2: String },
    Rebasing2 { p1: String },
    AmendTarget { p1: String },
    ReadTarget { p1: String },
    Continue2 { p1: String, new_target: String },
    ReadNewSource { new_target: String },
    /// `track_read` is what reading [`track_branch`] gave.
    DropTrack2 { new_target: String, track_read: Result<String, GitFailure> },
    Restoring { new_target: String, track_read: Result<String, GitFailure> },
    /// Putting things back after `error`: the first of `left` is under way.
    Unwinding { error: LoomError, left: Vec<Undo> },
    /// Both commits rewritten: their new hashes.
    Moved { new_source: String, new_target: String },
    Done,
}

pub struct HunkMove {
    pub job: HunkMoveJob,
    pub at: HunkMoveAt,
}

/// Whether any hunk of any file is selected.
pub open spec fn any_picked(selections: Seq<FileEntry>) -> bool {
    exists|i: int| 0 <= i < selections.len() && #[trigger] any_selected(selections[i])
}

pub open spec fn no_hunks_text() -> Seq<char> {
    "No hunks selected"@
}

pub open spec fn hunk_move_answers(s: HunkMove, event: FoldEvent) -> bool {
    match s.at {
        HunkMoveAt::ReadSource | HunkMoveAt::ReadTrack { .. } | HunkMoveAt::ReadTarget { .. }
        | HunkMoveAt::ReadNewSource { .. } => event is Read,
        HunkMoveAt::DropTrack { .. } | HunkMoveAt::DropTrack2 { .. } => event is Ran,
        HunkMoveAt::Restoring { .. } => event is Done,
        HunkMoveAt::Unwinding { error, left } => left@.len() > 0 && undo_answers(left@[0], event),
        HunkMoveAt::Moved { .. } | HunkMoveAt::Done => false,
        _ => event is Checked,
    }
}

pub open spec fn hunk_unwinding(r: (HunkMove, FoldAction), error: LoomError, left: Seq<Undo>) -> bool {
    if left.len() == 0 {
        r.0.at is Done && r.1 == FoldAction::Finish(Err::<Option<String>, LoomError>(error))
    } else {
        (r.0.at matches HunkMoveAt::Unwinding { error: e, left: l } && e == error && l@ == left) && undo_action(
            r.1,
            error,
            left[0],
        )
    }
}

pub open spec fn amends_hunks(a: FoldAction, job: HunkMoveJob, reverse: bool) -> bool {
    a matches FoldAction::AmendHunks { reverse: rv, git_opts } && rv == reverse && git_opts@ == job.git_opts@
}

/// Phase one's failures before its rebase: the set-aside staged changes go back.
pub open spec fn phase1_early() -> Seq<Undo> {
    seq![Undo::RestoreStaged]
}

/// Phase one's failures once the rebase stopped.
pub open spec fn phase1_paused() -> Seq<Undo> {
    seq![Undo::Abort { track: true, rollback: false }, Undo::RestoreStaged]
}

/// Phase one's failures with no rebase left going.
pub open spec fn phase1_over() -> Seq<Undo> {
    seq![Undo::DeleteTrack, Undo::RestoreStaged]
}

/// Failures once phase one is committed: undo from the snapshot.
pub open spec fn phase2_over() -> Seq<Undo> {
    seq![Undo::HandOver, Undo::DeleteTrack, Undo::Rollback]
}

/// Failures while phase two's rebase is stopped.
pub open spec fn phase2_paused() -> Seq<Undo> {
    seq![Undo::Abort { track: true, rollback: true }, Undo::RestoreStaged]
}

/// Each step of a hunk move.
pub open spec fn hunk_move_next(s: HunkMove, event: FoldEvent, r: (HunkMove, FoldAction)) -> bool {
    let job = s.job;
    let head = seq!["rev-parse"@, "HEAD"@];
    let track = seq!["rev-parse"@, track_branch()];
    match (s.at, event) {
        (HunkMoveAt::Preparing, FoldEvent::Checked(c)) => match c {
            Err(e) => r.0.at is Done && r.1 == FoldAction::Finish(Err::<Option<String>, LoomError>(e)),
            Ok(()) => r.0.at is Snapshotting && r.1 is Snapshot,
        },
        (HunkMoveAt::Snapshotting, FoldEvent::Checked(c)) => match c {
            Err(e) => r.0.at is Done && r.1 == FoldAction::Finish(Err::<Option<String>, LoomError>(e)),
            Ok(()) => r.0.at is SettingAside && (r.1 matches FoldAction::SaveOtherStaged(f) && f@.len() == 0),
        },
        (HunkMoveAt::SettingAside, FoldEvent::Checked(c)) => match c {
            Err(e) => r.0.at is Done && r.1 == FoldAction::Finish(Err::<Option<String>, LoomError>(e)),
            Ok(()) => r.0.at is Editing && edits(r.1, seq![job.source@]),
        },
        (HunkMoveAt::Editing, FoldEvent::Checked(c)) => match c {
            Err(e) => hunk_unwinding(r, e, phase1_early()),
            Ok(()) => r.0.at is Forcing && (r.1 matches FoldAction::ForceTrack(t) && t@ == job.target@),
        },
        (HunkMoveAt::Forcing, FoldEvent::Checked(c)) => match c {
            Err(e) => hunk_unwinding(r, e, phase1_early()),
            Ok(()) => r.0.at is Rebasing && rebases(r.1, job.source@, seq![job.target@]),
        },
        (HunkMoveAt::Rebasing, FoldEvent::Checked(c)) => match c {
            Err(e) => hunk_unwinding(r, e, phase1_over()),
            Ok(()) => r.0.at is AmendSource && amends_hunks(r.1, job, true),
        },
        (HunkMoveAt::AmendSource, FoldEvent::Checked(c)) => match c {
            Err(e) => hunk_unwinding(r, e, phase1_paused()),
            Ok(()) => r.0.at is ReadSource && reads(r.1, head),
        },
        (HunkMoveAt::ReadSource, FoldEvent::Read(x)) => match x {
            Err(f) => exists|e: LoomError| is_failure(e, f.message@) && hunk_unwinding(r, e, phase1_paused()),
            Ok(out) => (r.0.at matches HunkMoveAt::Continue { p1 } && p1@ == read_hash(out@)) && continues(
                r.1,
                None,
                seq![read_hash(out@)],
            ),
        },
        (HunkMoveAt::Continue { p1 }, FoldEvent::Checked(c)) => match c {
            Err(e) => hunk_unwinding(r, e, phase1_over()),
            Ok(()) => (r.0.at matches HunkMoveAt::ReadTrack { p1: p } && p == p1) && reads(r.1, track),
        },
        (HunkMoveAt::ReadTrack { p1 }, FoldEvent::Read(x)) => match x {
            Err(f) => exists|e: LoomError| is_failure(e, f.message@) && hunk_unwinding(r, e, phase2_over()),
            Ok(out) => (r.0.at matches HunkMoveAt::DropTrack { p1: p, p2 } && p == p1 && p2@ == read_hash(out@)) && runs(
                r.1,
                seq!["branch"@, "-D"@, track_branch()],
            ),
        },
        (HunkMoveAt::DropTrack { p1, p2 }, FoldEvent::Ran(_)) => r.0.at == (HunkMoveAt::Rebuilding { p1, p2 }) && edits(
            r.1,
            seq![p2@],
        ),
        (HunkMoveAt::Rebuilding { p1, p2 }, FoldEvent::Checked(c)) => match c {
            Err(e) => hunk_unwinding(r, e, phase2_over()),
            Ok(()) => r.0.at == (HunkMoveAt::Tracking { p1, p2 }) && (r.1 matches FoldAction::TrackThrough(t) && t@ == p1@),
        },
        (HunkMoveAt::Tracking { p1, p2 }, FoldEvent::Checked(c)) => match c {
            Err(e) => hunk_unwinding(r, e, phase2_over()),
            Ok(()) => r.0.at == (HunkMoveAt::Rebasing2 { p1 }) && rebases(r.1, p2@, seq![]),
        },
        (HunkMoveAt::Rebasing2 { p1 }, FoldEvent::Checked(c)) => match c {
            Err(e) => hunk_unwinding(r, e, phase2_over()),
            Ok(()) => r.0.at == (HunkMoveAt::AmendTarget { p1 }) && amends_hunks(r.1, job, false),
        },
        (HunkMoveAt::AmendTarget { p1 }, FoldEvent::Checked(c)) => match c {
            Err(e) => hunk_unwinding(r, e, phase2_paused()),
            Ok(()) => r.0.at == (HunkMoveAt::ReadTarget { p1 }) && reads(r.1, head),
        },
        (HunkMoveAt::ReadTarget { p1 }, FoldEvent::Read(x)) => match x {
            Err(f) => exists|e: LoomError| is_failure(e, f.message@) && hunk_unwinding(r, e, phase2_paused()),
            Ok(out) => (r.0.at matches HunkMoveAt::Continue2 { p1: p, new_target } && p == p1 && new_target@ == read_hash(
                out@,
            )) && continues(r.1, None, seq![p1@]),
        },
        (HunkMoveAt::Continue2 { p1, new_target }, FoldEvent::Checked(c)) => match c {
            Err(e) => hunk_unwinding(r, e, phase2_over()),
            Ok(()) => r.0.at == (HunkMoveAt::ReadNewSource { new_target }) && reads(r.1, track),
        },
        (HunkMoveAt::ReadNewSource { new_target }, FoldEvent::Read(x)) => r.0.at == (HunkMoveAt::DropTrack2 {
            new_target,
            track_read: x,
        }) && runs(r.1, seq!["branch"@, "-D"@, track_branch()]),
        (HunkMoveAt::DropTrack2 { new_target, track_read }, FoldEvent::Ran(_)) => r.0.at == (HunkMoveAt::Restoring {
            new_target,
            track_read,
        }) && r.1 is RestoreOtherStaged,
        (HunkMoveAt::Restoring { new_target, track_read }, FoldEvent::Done) => match track_read {
            Ok(out) => (r.0.at matches HunkMoveAt::Moved { new_source, new_target: t } && t == new_target && new_source@
                == read_hash(out@)) && r.1 == FoldAction::Finish(Ok::<Option<String>, LoomError>(None)),
            Err(f) => r.0.at is Done && finishes_with_error(r.1, f.message@),
        },
        (HunkMoveAt::Unwinding { error, left }, ev) => hunk_unwinding(
            r,
            match ev {
                FoldEvent::Aborted(e2) => e2,
                _ => error,
            },
            left@.drop_first(),
        ),
        _ => false,
    }
}

fn hunk_unwind(job: HunkMoveJob, error: LoomError, left: Vec<Undo>) -> (r: (HunkMove, FoldAction))
    ensures
        r.0.job == job,
        hunk_unwinding(r, error, left@),
{
    if left.len() == 0 {
        (HunkMove { job, at: HunkMoveAt::Done }, FoldAction::Finish(Err(error)))
    } else {
        let a = undo_act(&error, left[0]);
        (HunkMove { job, at: HunkMoveAt::Unwinding { error, left } }, a)
    }
}

fn undos3(a: Undo, b: Undo, c: Undo) -> (v: Vec<Undo>)
    ensures
        v@ == seq![a, b, c],
{
    let mut v: Vec<Undo> = Vec::new();
    v.push(a);
    v.push(b);
    v.push(c);
    proof {
        assert(v@ =~= seq![a, b, c]);
    }
    v
}

fn picked_any(selections: &[FileEntry]) -> (r: bool)
    ensures
        r == any_picked(selections@),
{
    let mut i: usize = 0;
    while i < selections.len()
        invariant
            i <= selections@.len(),
            forall|k: int| 0 <= k < i ==> !#[trigger] any_selected(selections@[k]),
        decreases selections.len() - i,
    {
        if has_any_selected(&selections[i]) {
            return true;
        }
        i = i + 1;
    }
    false
}

/// Move the picked hunks of `source` into `target`: refused with
/// [`no_hunks_text`] when no hunk of `selections` is selected;
/// otherwise the patch is prepared, then the two rebases of
/// [`hunk_move_next`] run.
pub fn fold_selected_hunks_to_commit(
    source: String,
    target: String,
    target_arg: String,
    selections: &[FileEntry],
    git_opts: Vec<String>,
) -> (r: (HunkMove, FoldAction))
    ensures
        r.0.job == (HunkMoveJob { source, target, target_arg, git_opts }),
        !any_picked(selections@) ==> r.0.at is Done && finishes_with_error(r.1, no_hunks_text()),
        any_picked(selections@) ==> r.0.at is Preparing && (r.1 matches FoldAction::PreparePatch { source: s, target_arg: t }
            && s@ == source@ && t@ == target_arg@),
{
    let job = HunkMoveJob { source, target, target_arg, git_opts };
    if !picked_any(selections) {
        (HunkMove { job, at: HunkMoveAt::Done }, FoldAction::Finish(Err(error_text(owned("No hunks selected")))))
    } else {
        let a = FoldAction::PreparePatch { source: job.source.clone(), target_arg: job.target_arg.clone() };
        (HunkMove { job, at: HunkMoveAt::Preparing }, a)
    }
}

#[verifier::rlimit(50)]
fn hunk_phase1(job: HunkMoveJob, at: HunkMoveAt, event: FoldEvent) -> (r: (HunkMove, FoldAction))
    requires
        at is Preparing || at is Snapshotting || at is SettingAside || at is Editing || at is Forcing || at is Rebasing
            || at is AmendSource || at is ReadSource || at is Continue,
        hunk_move_answers(HunkMove { job, at }, event),
    ensures
        r.0.job == job,
        hunk_move_next(HunkMove { job, at }, event, r),
{
    match (at, event) {
        (HunkMoveAt::Preparing, FoldEvent::Checked(c)) => match c {
            Err(e) => (HunkMove { job, at: HunkMoveAt::Done }, FoldAction::Finish(Err(e))),
            Ok(()) => (HunkMove { job, at: HunkMoveAt::Snapshotting }, FoldAction::Snapshot),
        },
        (HunkMoveAt::Snapshotting, FoldEvent::Checked(c)) => match c {
            Err(e) => (HunkMove { job, at: HunkMoveAt::Done }, FoldAction::Finish(Err(e))),
            Ok(()) => (HunkMove { job, at: HunkMoveAt::SettingAside }, FoldAction::SaveOtherStaged(Vec::new())),
        },
        (HunkMoveAt::SettingAside, FoldEvent::Checked(c)) => match c {
            Err(e) => (HunkMove { job, at: HunkMoveAt::Done }, FoldAction::Finish(Err(e))),
            Ok(()) => {
                let a = FoldAction::EditWeave(texts1(&job.source));
                (HunkMove { job, at: HunkMoveAt::Editing }, a)
            },
        },
        (HunkMoveAt::Editing, FoldEvent::Checked(c)) => match c {
            Err(e) => hunk_unwind(job, e, undos1(Undo::RestoreStaged)),
            Ok(()) => {
                let a = FoldAction::ForceTrack(job.target.clone());
                (HunkMove { job, at: HunkMoveAt::Forcing }, a)
            },
        },
        (HunkMoveAt::Forcing, FoldEvent::Checked(c)) => match c {
            Err(e) => hunk_unwind(job, e, undos1(Undo::RestoreStaged)),
            Ok(()) => {
                let a = FoldAction::RebaseToEdit { commit: job.source.clone(), protect: texts1(&job.target) };
                (HunkMove { job, at: HunkMoveAt::Rebasing }, a)
            },
        },
        (HunkMoveAt::Rebasing, FoldEvent::Checked(c)) => match c {
            Err(e) => hunk_unwind(job, e, undos2(Undo::DeleteTrack, Undo::RestoreStaged)),
            Ok(()) => {
                let a = FoldAction::AmendHunks { reverse: true, git_opts: copy_texts(&job.git_opts) };
                (HunkMove { job, at: HunkMoveAt::AmendSource }, a)
            },
        },
        (HunkMoveAt::AmendSource, FoldEvent::Checked(c)) => match c {
            Err(e) => hunk_unwind(job, e, undos2(Undo::Abort { track: true, rollback: false }, Undo::RestoreStaged)),
            Ok(()) => (HunkMove { job, at: HunkMoveAt::ReadSource }, FoldAction::Read(rev_parse("HEAD"))),
        },
        (HunkMoveAt::ReadSource, FoldEvent::Read(x)) => match x {
            Err(f) => hunk_unwind(job, failure(f), undos2(Undo::Abort { track: true, rollback: false }, Undo::RestoreStaged)),
            Ok(out) => {
                let p1 = trim_str(out.as_str());
                let a = FoldAction::ContinueToEdit { expect: None, protect: texts1(&p1) };
                (HunkMove { job, at: HunkMoveAt::Continue { p1 } }, a)
            },
        },
        (HunkMoveAt::Continue { p1 }, FoldEvent::Checked(c)) => match c {
            Err(e) => hunk_unwind(job, e, undos2(Undo::DeleteTrack, Undo::RestoreStaged)),
            Ok(()) => (HunkMove { job, at: HunkMoveAt::ReadTrack { p1 } }, FoldAction::Read(rev_parse("_loom-track"))),
        },
        (at, _) => (HunkMove { job, at }, FoldAction::Finish(Ok(None))),
    }
}

#[verifier::rlimit(50)]
fn hunk_phase2(job: HunkMoveJob, at: HunkMoveAt, event: FoldEvent) -> (r: (HunkMove, FoldAction))
    requires
        at is ReadTrack || at is DropTrack || at is Rebuilding || at is Tracking || at is Rebasing2 || at is AmendTarget
            || at is ReadTarget || at is Continue2,
        hunk_move_answers(HunkMove { job, at }, event),
    ensures
        r.0.job == job,
        hunk_move_next(HunkMove { job, at }, event, r),
{
    match (at, event) {
        (HunkMoveAt::ReadTrack { p1 }, FoldEvent::Read(x)) => match x {
            Err(f) => hunk_unwind(job, failure(f), undos3(Undo::HandOver, Undo::DeleteTrack, Undo::Rollback)),
            Ok(out) => (
                HunkMove { job, at: HunkMoveAt::DropTrack { p1, p2: trim_str(out.as_str()) } },
                FoldAction::Run(delete_track()),
            ),
        },
        (HunkMoveAt::DropTrack { p1, p2 }, FoldEvent::Ran(_)) => {
            let a = FoldAction::EditWeave(texts1(&p2));
            (HunkMove { job, at: HunkMoveAt::Rebuilding { p1, p2 } }, a)
        },
        (HunkMoveAt::Rebuilding { p1, p2 }, FoldEvent::Checked(c)) => match c {
            Err(e) => hunk_unwind(job, e, undos3(Undo::HandOver, Undo::DeleteTrack, Undo::Rollback)),
            Ok(()) => {
                let a = FoldAction::TrackThrough(p1.clone());
                (HunkMove { job, at: HunkMoveAt::Tracking { p1, p2 } }, a)
            },
        },
        (HunkMoveAt::Tracking { p1, p2 }, FoldEvent::Checked(c)) => match c {
            Err(e) => hunk_unwind(job, e, undos3(Undo::HandOver, Undo::DeleteTrack, Undo::Rollback)),
            Ok(()) => {
                let a = FoldAction::RebaseToEdit { commit: p2, protect: no_texts() };
                (HunkMove { job, at: HunkMoveAt::Rebasing2 { p1 } }, a)
            },
        },
        (HunkMoveAt::Rebasing2 { p1 }, FoldEvent::Checked(c)) => match c {
            Err(e) => hunk_unwind(job, e, undos3(Undo::HandOver, Undo::DeleteTrack, Undo::Rollback)),
            Ok(()) => {
                let a = FoldAction::AmendHunks { reverse: false, git_opts: copy_texts(&job.git_opts) };
                (HunkMove { job, at: HunkMoveAt::AmendTarget { p1 } }, a)
            },
        },
        (HunkMoveAt::AmendTarget { p1 }, FoldEvent::Checked(c)) => match c {
            Err(e) => hunk_unwind(job, e, undos2(Undo::Abort { track: true, rollback: true }, Undo::RestoreStaged)),
            Ok(()) => (HunkMove { job, at: HunkMoveAt::ReadTarget { p1 } }, FoldAction::Read(rev_parse("HEAD"))),
        },
        (HunkMoveAt::ReadTarget { p1 }, FoldEvent::Read(x)) => match x {
            Err(f) => hunk_unwind(job, failure(f), undos2(Undo::Abort { track: true, rollback: true }, Undo::RestoreStaged)),
            Ok(out) => {
                let a = FoldAction::ContinueToEdit { expect: None, protect: texts1(&p1) };
                (HunkMove { job, at: HunkMoveAt::Continue2 { p1, new_target: trim_str(out.as_str()) } }, a)
            },
        },
        (HunkMoveAt::Continue2 { p1, new_target }, FoldEvent::Checked(c)) => match c {
            Err(e) => hunk_unwind(job, e, undos3(Undo::HandOver, Undo::DeleteTrack, Undo::Rollback)),
            Ok(()) => (HunkMove { job, at: HunkMoveAt::ReadNewSource { new_target } }, FoldAction::Read(rev_parse("_loom-track"))),
        },
        (at, _) => (HunkMove { job, at }, FoldAction::Finish(Ok(None))),
    }
}

/// One step of [`fold_selected_hunks_to_commit`].
pub fn hunk_move_step(state: HunkMove, event: FoldEvent) -> (r: (HunkMove, FoldAction))
    requires
        hunk_move_answers(state, event),
    ensures
        r.0.job == state.job,
        hunk_move_next(state, event, r),
{
    let HunkMove { job, at } = state;
    match at {
        HunkMoveAt::Preparing | HunkMoveAt::Snapshotting | HunkMoveAt::SettingAside | HunkMoveAt::Editing | HunkMoveAt::Forcing
        | HunkMoveAt::Rebasing | HunkMoveAt::AmendSource | HunkMoveAt::ReadSource | HunkMoveAt::Continue { .. } => hunk_phase1(
            job,
            at,
            event,
        ),
        HunkMoveAt::ReadTrack { .. } | HunkMoveAt::DropTrack { .. } | HunkMoveAt::Rebuilding { .. } | HunkMoveAt::Tracking { .. }
        | HunkMoveAt::Rebasing2 { .. } | HunkMoveAt::AmendTarget { .. } | HunkMoveAt::ReadTarget { .. }
        | HunkMoveAt::Continue2 { .. } => hunk_phase2(job, at, event),
        HunkMoveAt::ReadNewSource { new_target } => match event {
            FoldEvent::Read(x) => (HunkMove { job, at: HunkMoveAt::DropTrack2 { new_target, track_read: x } }, FoldAction::Run(delete_track())),
            _ => (HunkMove { job, at: HunkMoveAt::Done }, FoldAction::Finish(Ok(None))),
        },
        HunkMoveAt::DropTrack2 { new_target, track_read } => (
            HunkMove { job, at: HunkMoveAt::Restoring { new_target, track_read } },
            FoldAction::RestoreOtherStaged,
        ),
        HunkMoveAt::Restoring { new_target, track_read } => match track_read {
            Ok(out) => (
                HunkMove { job, at: HunkMoveAt::Moved { new_source: trim_str(out.as_str()), new_target } },
                FoldAction::Finish(Ok(None)),
            ),
            Err(f) => (HunkMove { job, at: HunkMoveAt::Done }, FoldAction::Finish(Err(failure(f)))),
        },
        HunkMoveAt::Unwinding { error, left } => {
            let e = match event {
                FoldEvent::Aborted(e2) => e2,
                _ => error,
            };
            let mut rest = left;
            rest.remove(0);
            proof {
                assert(rest@ =~= left@.drop_first());
            }
            hunk_unwind(job, e, rest)
        },
        at => (HunkMove { job, at }, FoldAction::Finish(Ok(None))),
    }
}

} // verus!

verus! {

/// Taking picked hunks out of a commit and leaving them unstaged.
pub struct UncommitJob {
    pub commit: String,
    /// HEAD's commit when the uncommit started, as a full hash.
    pub head: String,
    pub git_opts: Vec<String>,
}

/// Where an uncommit of hunks stands. HEAD is amended in place; an older
/// commit is stopped at by a rebase, amended, and the rebase continued.
pub enum UncommitAt {
    Preparing,
    Snapshotting,
    SettingAside,
    Editing,
    Rebasing,
    Amending,
    ReadingNew,
    Continuing { new: String },
    Returning { new: String },
    Restoring { new: String },
    Keeping { new: String },
    Describing { staged: Vec<String> },
    /// Putting things back after `error`: the first of `left` is under way.
    Unwinding { error: LoomError, left: Vec<Undo> },
    Done,
}

pub struct Uncommit {
    pub job: UncommitJob,
    pub at: UncommitAt,
}

pub open spec fn uncommit_is_head(job: UncommitJob) -> bool {
    job.head@ == job.commit@
}

pub open spec fn uncommit_answers(s: Uncommit, event: FoldEvent) -> bool {
    match s.at {
        UncommitAt::ReadingNew => event is Read,
        UncommitAt::Restoring { .. } => event is Done,
        UncommitAt::Keeping { .. } => event is Paths,
        UncommitAt::Describing { .. } => event is Described,
        UncommitAt::Unwinding { error, left } => left@.len() > 0 && undo_answers(left@[0], event),
        UncommitAt::Done => false,
        _ => event is Checked,
    }
}

pub open spec fn uncommit_unwinding(r: (Uncommit, FoldAction), error: LoomError, left: Seq<Undo>) -> bool {
    if left.len() == 0 {
        r.0.at is Done && r.1 == FoldAction::Finish(Err::<Option<String>, LoomError>(error))
    } else {
        (r.0.at matches UncommitAt::Unwinding { error: e, left: l } && e == error && l@ == left) && undo_action(
            r.1,
            error,
            left[0],
        )
    }
}

/// Undoing from the snapshot, then failing with `m`.
pub open spec fn rolls_back_with(r: (Uncommit, FoldAction), m: Seq<char>) -> bool {
    exists|e: LoomError| is_failure(e, m) && uncommit_unwinding(r, e, seq![Undo::HandOver, Undo::Rollback])
}

pub open spec fn removed_rolled_back_text() -> Seq<char> {
    "Failed to remove hunks from the commit, operation rolled back"@
}

pub open spec fn returned_rolled_back_text(head: bool) -> Seq<char> {
    if head {
        "Failed to restore hunks to working directory, operation rolled back"@
    } else {
        "Failed to apply changes to working directory, operation rolled back"@
    }
}

pub open spec fn uncommitted_hunks_text(commit: Seq<char>, described: Seq<char>, staged: Seq<String>) -> Seq<char> {
    "Uncommitted hunk(s) from `"@ + short_hash_spec(commit) + "` (now "@ + described + ") to working directory"@
        + staged_note(staged)
}

/// Each step of an uncommit of hunks.
pub open spec fn uncommit_next(s: Uncommit, event: FoldEvent, r: (Uncommit, FoldAction)) -> bool {
    let job = s.job;
    let head = uncommit_is_head(job);
    match (s.at, event) {
        (UncommitAt::Preparing, FoldEvent::Checked(c)) => match c {
            Err(e) => r.0.at is Done && r.1 == FoldAction::Finish(Err::<Option<String>, LoomError>(e)),
            Ok(()) => r.0.at is Snapshotting && r.1 is Snapshot,
        },
        (UncommitAt::Snapshotting, FoldEvent::Checked(c)) => match c {
            Err(e) => r.0.at is Done && r.1 == FoldAction::Finish(Err::<Option<String>, LoomError>(e)),
            Ok(()) => r.0.at is SettingAside && (r.1 matches FoldAction::SaveOtherStaged(f) && f@.len() == 0),
        },
        (UncommitAt::SettingAside, FoldEvent::Checked(c)) => match c {
            Err(e) => r.0.at is Done && r.1 == FoldAction::Finish(Err::<Option<String>, LoomError>(e)),
            Ok(()) => if head {
                r.0.at is Amending && amends_uncommit(r.1, job)
            } else {
                r.0.at is Editing && edits(r.1, seq![job.commit@])
            },
        },
        (UncommitAt::Editing, FoldEvent::Checked(c)) => match c {
            Err(e) => uncommit_unwinding(r, e, seq![Undo::RestoreStaged]),
            Ok(()) => r.0.at is Rebasing && rebases(r.1, job.commit@, seq![]),
        },
        (UncommitAt::Rebasing, FoldEvent::Checked(c)) => match c {
            Err(e) => uncommit_unwinding(r, e, seq![Undo::RestoreStaged]),
            Ok(()) => r.0.at is Amending && amends_uncommit(r.1, job),
        },
        (UncommitAt::Amending, FoldEvent::Checked(c)) => match c {
            Err(e) => if head {
                rolls_back_with(r, removed_rolled_back_text())
            } else {
                uncommit_unwinding(r, e, seq![Undo::Abort { track: false, rollback: false }, Undo::RestoreStaged])
            },
            Ok(()) => r.0.at is ReadingNew && reads(r.1, seq!["rev-parse"@, "HEAD"@]),
        },
        (UncommitAt::ReadingNew, FoldEvent::Read(x)) => match x {
            Err(f) => exists|e: LoomError| is_failure(e, f.message@) && uncommit_unwinding(
                r,
                e,
                if head {
                    seq![Undo::RestoreStaged]
                } else {
                    seq![Undo::Abort { track: false, rollback: false }, Undo::RestoreStaged]
                },
            ),
            Ok(out) => if head {
                (r.0.at matches UncommitAt::Returning { new } && new@ == read_hash(out@)) && r.1 is RestoreHunksToWorktree
            } else {
                (r.0.at matches UncommitAt::Continuing { new } && new@ == read_hash(out@)) && continues(r.1, None, seq![])
            },
        },
        (UncommitAt::Continuing { new }, FoldEvent::Checked(c)) => match c {
            Err(e) => uncommit_unwinding(r, e, seq![Undo::Abort { track: false, rollback: true }, Undo::RestoreStaged]),
            Ok(()) => r.0.at == (UncommitAt::Returning { new }) && r.1 is RestoreHunksToWorktree,
        },
        (UncommitAt::Returning { new }, FoldEvent::Checked(c)) => match c {
            Err(_) => rolls_back_with(r, returned_rolled_back_text(head)),
            Ok(()) => r.0.at == (UncommitAt::Restoring { new }) && r.1 is RestoreOtherStaged,
        },
        (UncommitAt::Restoring { new }, FoldEvent::Done) => r.0.at == (UncommitAt::Keeping { new }) && r.1 is KeepPickedRemovals,
        (UncommitAt::Keeping { new }, FoldEvent::Paths(staged)) => r.0.at == (UncommitAt::Describing { staged }) && r.1
            == FoldAction::Describe(new),
        (UncommitAt::Describing { staged }, FoldEvent::Described(d)) => r.0.at is Done && (r.1 matches FoldAction::Finish(
            Ok(Some(m)),
        ) && m@ == uncommitted_hunks_text(job.commit@, d@, staged@)),
        (UncommitAt::Unwinding { error, left }, ev) => uncommit_unwinding(
            r,
            match ev {
                FoldEvent::Aborted(e2) => e2,
                _ => error,
            },
            left@.drop_first(),
        ),
        _ => false,
    }
}

pub open spec fn amends_uncommit(a: FoldAction, job: UncommitJob) -> bool {
    a matches FoldAction::AmendHunks { reverse, git_opts } && reverse && git_opts@ == job.git_opts@
}

fn uncommit_unwind(job: UncommitJob, error: LoomError, left: Vec<Undo>) -> (r: (Uncommit, FoldAction))
    ensures
        r.0.job == job,
        uncommit_unwinding(r, error, left@),
{
    if left.len() == 0 {
        (Uncommit { job, at: UncommitAt::Done }, FoldAction::Finish(Err(error)))
    } else {
        let a = undo_act(&error, left[0]);
        (Uncommit { job, at: UncommitAt::Unwinding { error, left } }, a)
    }
}

/// Take the picked hunks of `commit` out of it and leave them unstaged:
/// refused with [`no_hunks_text`] when no hunk of `selections` is
/// selected; otherwise the
/// patch is prepared and [`uncommit_next`] runs.
pub fn run_patch_fold_commit_to_unstaged(
    commit: String,
    head: String,
    selections: &[FileEntry],
    git_opts: Vec<String>,
) -> (r: (Uncommit, FoldAction))
    ensures
        r.0.job == (UncommitJob { commit, head, git_opts }),
        !any_picked(selections@) ==> r.0.at is Done && finishes_with_error(r.1, no_hunks_text()),
        any_picked(selections@) ==> r.0.at is Preparing && (r.1 matches FoldAction::PreparePatch { source: s, target_arg: t }
            && s@ == commit@ && t@ == "zz"@),
{
    let job = UncommitJob { commit, head, git_opts };
    if !picked_any(selections) {
        (Uncommit { job, at: UncommitAt::Done }, FoldAction::Finish(Err(error_text(owned("No hunks selected")))))
    } else {
        let a = FoldAction::PreparePatch { source: job.commit.clone(), target_arg: owned("zz") };
        (Uncommit { job, at: UncommitAt::Preparing }, a)
    }
}

#[verifier::rlimit(60)]
fn uncommit_early(job: UncommitJob, at: UncommitAt, event: FoldEvent) -> (r: (Uncommit, FoldAction))
    requires
        at is Preparing || at is Snapshotting || at is SettingAside || at is Editing || at is Rebasing,
        uncommit_answers(Uncommit { job, at }, event),
        cuttable_hash(job.commit@),
    ensures
        r.0.job == job,
        uncommit_next(Uncommit { job, at }, event, r),
{
    let head = text_eq(job.head.as_str(), job.commit.as_str());
    match (at, event) {
        (UncommitAt::Preparing, FoldEvent::Checked(c)) => match c {
            Err(e) => (Uncommit { job, at: UncommitAt::Done }, FoldAction::Finish(Err(e))),
            Ok(()) => (Uncommit { job, at: UncommitAt::Snapshotting }, FoldAction::Snapshot),
        },
        (UncommitAt::Snapshotting, FoldEvent::Checked(c)) => match c {
            Err(e) => (Uncommit { job, at: UncommitAt::Done }, FoldAction::Finish(Err(e))),
            Ok(()) => (Uncommit { job, at: UncommitAt::SettingAside }, FoldAction::SaveOtherStaged(Vec::new())),
        },
        (UncommitAt::SettingAside, FoldEvent::Checked(c)) => match c {
            Err(e) => (Uncommit { job, at: UncommitAt::Done }, FoldAction::Finish(Err(e))),
            Ok(()) => if head {
                let a = FoldAction::AmendHunks { reverse: true, git_opts: copy_texts(&job.git_opts) };
                (Uncommit { job, at: UncommitAt::Amending }, a)
            } else {
                let a = FoldAction::EditWeave(texts1(&job.commit));
                (Uncommit { job, at: UncommitAt::Editing }, a)
            },
        },
        (UncommitAt::Editing, FoldEvent::Checked(c)) => match c {
            Err(e) => uncommit_unwind(job, e, undos1(Undo::RestoreStaged)),
            Ok(()) => {
                let a = FoldAction::RebaseToEdit { commit: job.commit.clone(), protect: no_texts() };
                (Uncommit { job, at: UncommitAt::Rebasing }, a)
            },
        },
        (UncommitAt::Rebasing, FoldEvent::Checked(c)) => match c {
            Err(e) => uncommit_unwind(job, e, undos1(Undo::RestoreStaged)),
            Ok(()) => {
                let a = FoldAction::AmendHunks { reverse: true, git_opts: copy_texts(&job.git_opts) };
                (Uncommit { job, at: UncommitAt::Amending }, a)
            },
        },
        (at, _) => (Uncommit { job, at }, FoldAction::Finish(Ok(None))),
    }
}

#[verifier::rlimit(60)]
fn uncommit_amend(job: UncommitJob, at: UncommitAt, event: FoldEvent) -> (r: (Uncommit, FoldAction))
    requires
        at is Amending || at is ReadingNew || at is Continuing,
        uncommit_answers(Uncommit { job, at }, event),
        cuttable_hash(job.commit@),
    ensures
        r.0.job == job,
        uncommit_next(Uncommit { job, at }, event, r),
{
    let head = text_eq(job.head.as_str(), job.commit.as_str());
    match (at, event) {
        (UncommitAt::Amending, FoldEvent::Checked(c)) => match c {
            Err(e) => if head {
                let e2 = error_text(owned("Failed to remove hunks from the commit, operation rolled back"));
                let ghost g = e2;
                let r = uncommit_unwind(job, e2, undos2(Undo::HandOver, Undo::Rollback));
                proof {
                    assert(is_failure(g, removed_rolled_back_text()) && uncommit_unwinding(r, g, seq![Undo::HandOver, Undo::Rollback]));
                    assert(rolls_back_with(r, removed_rolled_back_text()));
                }
                r
            } else {
                uncommit_unwind(job, e, undos2(Undo::Abort { track: false, rollback: false }, Undo::RestoreStaged))
            },
            Ok(()) => (Uncommit { job, at: UncommitAt::ReadingNew }, FoldAction::Read(rev_parse("HEAD"))),
        },
        (UncommitAt::ReadingNew, FoldEvent::Read(x)) => match x {
            Err(f) => {
                let ghost fm = f.message@;
                let e = failure(f);
                let ghost g = e;
                let left = if head {
                    undos1(Undo::RestoreStaged)
                } else {
                    undos2(Undo::Abort { track: false, rollback: false }, Undo::RestoreStaged)
                };
                let ghost l = left@;
                let r = uncommit_unwind(job, e, left);
                proof {
                    assert(is_failure(g, fm) && uncommit_unwinding(r, g, l));
                }
                r
            },
            Ok(out) => {
                let new = trim_str(out.as_str());
                if head {
                    (Uncommit { job, at: UncommitAt::Returning { new } }, FoldAction::RestoreHunksToWorktree)
                } else {
                    (Uncommit { job, at: UncommitAt::Continuing { new } }, FoldAction::ContinueToEdit { expect: None, protect: no_texts() })
                }
            },
        },
        (UncommitAt::Continuing { new }, FoldEvent::Checked(c)) => match c {
            Err(e) => uncommit_unwind(job, e, undos2(Undo::Abort { track: false, rollback: true }, Undo::RestoreStaged)),
            Ok(()) => (Uncommit { job, at: UncommitAt::Returning { new } }, FoldAction::RestoreHunksToWorktree),
        },
        (at, _) => (Uncommit { job, at }, FoldAction::Finish(Ok(None))),
    }
}

#[verifier::rlimit(60)]
fn uncommit_finish(job: UncommitJob, at: UncommitAt, event: FoldEvent) -> (r: (Uncommit, FoldAction))
    requires
        at is Returning || at is Restoring || at is Keeping || at is Describing,
        uncommit_answers(Uncommit { job, at }, event),
        cuttable_hash(job.commit@),
    ensures
        r.0.job == job,
        uncommit_next(Uncommit { job, at }, event, r),
{
    let head = text_eq(job.head.as_str(), job.commit.as_str());
    match (at, event) {
        (UncommitAt::Returning { new }, FoldEvent::Checked(c)) => match c {
            Err(_) => {
                let e = if head {
                    error_text(owned("Failed to restore hunks to working directory, operation rolled back"))
                } else {
                    error_text(owned("Failed to apply changes to working directory, operation rolled back"))
                };
                let ghost g = e;
                let ghost j = job;
                let r = uncommit_unwind(job, e, undos2(Undo::HandOver, Undo::Rollback));
                proof {
                    assert(is_failure(g, returned_rolled_back_text(uncommit_is_head(j))));
                    assert(rolls_back_with(r, returned_rolled_back_text(uncommit_is_head(j))));
                }
                r
            },
            Ok(()) => (Uncommit { job, at: UncommitAt::Restoring { new } }, FoldAction::RestoreOtherStaged),
        },
        (UncommitAt::Restoring { new }, FoldEvent::Done) => (Uncommit { job, at: UncommitAt::Keeping { new } }, FoldAction::KeepPickedRemovals),
        (UncommitAt::Keeping { new }, FoldEvent::Paths(staged)) => (Uncommit { job, at: UncommitAt::Describing { staged } }, FoldAction::Describe(new)),
        (UncommitAt::Describing { staged }, FoldEvent::Described(d)) => {
            let mut m = owned("Uncommitted hunk(s) from `");
            push_str(&mut m, short_hash(job.commit.as_str()).as_str());
            push_str(&mut m, "` (now ");
            push_str(&mut m, d.as_str());
            push_str(&mut m, ") to working directory");
            push_staged_note(&mut m, &staged);
            proof {
                assert(m@ =~= uncommitted_hunks_text(job.commit@, d@, staged@));
            }
            (Uncommit { job, at: UncommitAt::Done }, FoldAction::Finish(Ok(Some(m))))
        },
        (at, _) => (Uncommit { job, at }, FoldAction::Finish(Ok(None))),
    }
}

/// One step of [`run_patch_fold_commit_to_unstaged`].
pub fn uncommit_step(state: Uncommit, event: FoldEvent) -> (r: (Uncommit, FoldAction))
    requires
        uncommit_answers(state, event),
        cuttable_hash(state.job.commit@),
    ensures
        r.0.job == state.job,
        uncommit_next(state, event, r),
{
    let Uncommit { job, at } = state;
    match at {
        UncommitAt::Preparing | UncommitAt::Snapshotting | UncommitAt::SettingAside | UncommitAt::Editing
        | UncommitAt::Rebasing => uncommit_early(job, at, event),
        UncommitAt::Unwinding { .. } | UncommitAt::Done => match (at, event) {
        (UncommitAt::Unwinding { error, left }, ev) => {
            let e = match ev {
                FoldEvent::Aborted(e2) => e2,
                _ => error,
            };
            let mut rest = left;
            rest.remove(0);
            proof {
                assert(rest@ =~= left@.drop_first());
            }
            uncommit_unwind(job, e, rest)
        },
        (at, _) => (Uncommit { job, at }, FoldAction::Finish(Ok(None))),
        },
        UncommitAt::Amending | UncommitAt::ReadingNew | UncommitAt::Continuing { .. } => uncommit_amend(job, at, event),
        _ => uncommit_finish(job, at, event),
    }
}

} // verus!

verus! {

/// Uncommitting one file of a commit to the working tree.
pub struct FileUncommitJob {
    pub commit: String,
    pub path: String,
    /// HEAD's commit when the uncommit started, as a full hash.
    pub head: String,
    pub git_opts: Vec<String>,
}

/// Where a file uncommit stands. The `H` states amend HEAD in place; the
/// others stop a rebase at an older commit.
pub enum FileUncommitAt {
    ReadingDiff,
    CheckingGitlink,
    Snapshotting,
    HAmending,
    HReading,
    HApplying { new: String },
    Editing,
    Rebasing,
    Amending,
    Reading,
    Continuing { new: String },
    Applying { new: String },
    Restaging { new: String },
    Keeping { new: String },
    Describing { staged_removal: bool },
    /// Putting things back after `error`: the first of `left` is under way.
    Unwinding { error: LoomError, left: Vec<Undo> },
    Done,
}

pub struct FileUncommit {
    pub job: FileUncommitJob,
    /// The file's change in the commit, once read.
    pub diff: String,
    /// Once asked: `None` when the path is no submodule, else whether the
    /// commit removes it.
    pub gitlink: Option<bool>,
    pub at: FileUncommitAt,
}

pub open spec fn file_uncommit_is_head(job: FileUncommitJob) -> bool {
    job.head@ == job.commit@
}

pub open spec fn file_uncommit_answers(s: FileUncommit, event: FoldEvent) -> bool {
    match s.at {
        FileUncommitAt::ReadingDiff | FileUncommitAt::HReading | FileUncommitAt::Reading => event is Read,
        FileUncommitAt::CheckingGitlink => event is Gitlink,
        FileUncommitAt::Restaging { .. } => event is Done,
        FileUncommitAt::Keeping { .. } => event is Flag,
        FileUncommitAt::Describing { .. } => event is Described,
        FileUncommitAt::Unwinding { error, left } => left@.len() > 0 && undo_answers(left@[0], event),
        FileUncommitAt::Done => false,
        _ => event is Checked,
    }
}

pub open spec fn file_uncommit_unwinding(r: (FileUncommit, FoldAction), error: LoomError, left: Seq<Undo>) -> bool {
    if left.len() == 0 {
        r.0.at is Done && r.1 == FoldAction::Finish(Err::<Option<String>, LoomError>(error))
    } else {
        (r.0.at matches FileUncommitAt::Unwinding { error: e, left: l } && e == error && l@ == left) && undo_action(
            r.1,
            error,
            left[0],
        )
    }
}

pub open spec fn file_rolled_back_text() -> Seq<char> {
    "Failed to uncommit file, operation rolled back"@
}

/// Undoing from the snapshot, then failing with [`file_rolled_back_text`].
pub open spec fn file_rolls_back(r: (FileUncommit, FoldAction)) -> bool {
    exists|e: LoomError| is_failure(e, file_rolled_back_text()) && file_uncommit_unwinding(r, e, seq![Undo::Rollback])
}

/// Failing with what git said.
pub open spec fn file_uncommit_fails(r: (FileUncommit, FoldAction), m: Seq<char>, left: Seq<Undo>) -> bool {
    exists|e: LoomError| is_failure(e, m) && file_uncommit_unwinding(r, e, left)
}

pub open spec fn file_uncommitted_text(path: Seq<char>, commit: Seq<char>, described: Seq<char>, staged_removal: bool) -> Seq<
    char,
> {
    "Uncommitted `"@ + path + "` from `"@ + short_hash_spec(commit) + "` (now "@ + described + ") "@ + if staged_removal {
        "as a staged deletion"@
    } else {
        "to working directory"@
    }
}

pub open spec fn uncommits_path(a: FoldAction, s: FileUncommit) -> bool {
    a matches FoldAction::AmendPath { patch, path, gitlink, reverse, git_opts } && patch@ == s.diff@ && path@ == s.job.path@
        && gitlink == (s.gitlink is Some) && reverse && git_opts@ == s.job.git_opts@
}

/// Once the commit is rewritten to `new`: a removed submodule's removal is
/// kept when its checkout is on disk, then the new commit is described.
pub open spec fn file_uncommit_finishing(s: FileUncommit, new: String, r: (FileUncommit, FoldAction)) -> bool {
    if s.gitlink == Some(true) {
        r.0.at == (FileUncommitAt::Keeping { new }) && (r.1 matches FoldAction::KeepSubmoduleRemoval(p) && p@ == s.job.path@)
    } else {
        r.0.at == (FileUncommitAt::Describing { staged_removal: false }) && r.1 == FoldAction::Describe(new)
    }
}

/// Each step of a file uncommit. `diff` and `gitlink` keep their values but
/// where they are read.
pub open spec fn file_uncommit_next(s: FileUncommit, event: FoldEvent, r: (FileUncommit, FoldAction)) -> bool {
    let job = s.job;
    let keeps = r.0.diff == s.diff && r.0.gitlink == s.gitlink;
    let head = seq!["rev-parse"@, "HEAD"@];
    match (s.at, event) {
        (FileUncommitAt::ReadingDiff, FoldEvent::Read(x)) => match x {
            Err(f) => keeps && file_uncommit_fails(r, f.message@, seq![]),
            Ok(out) => if out@.len() == 0 {
                keeps && file_uncommit_fails(r, no_changes_in_commit_text(job.path@, job.commit@), seq![])
            } else {
                r.0.diff == out && r.0.gitlink == s.gitlink && r.0.at is CheckingGitlink && (r.1 matches FoldAction::SubmoduleEntry {
                    commit,
                    path,
                } && commit@ == job.commit@ && path@ == job.path@)
            },
        },
        (FileUncommitAt::CheckingGitlink, FoldEvent::Gitlink(g)) => r.0.diff == s.diff && match g {
            Err(e) => r.0.gitlink == s.gitlink && r.0.at is Done && r.1 == FoldAction::Finish(Err::<Option<String>, LoomError>(e)),
            Ok(g) => r.0.gitlink == g && r.0.at is Snapshotting && r.1 is Snapshot,
        },
        (FileUncommitAt::Snapshotting, FoldEvent::Checked(c)) => keeps && match c {
            Err(e) => r.0.at is Done && r.1 == FoldAction::Finish(Err::<Option<String>, LoomError>(e)),
            Ok(()) => if file_uncommit_is_head(job) {
                r.0.at is HAmending && uncommits_path(r.1, s)
            } else {
                r.0.at is Editing && edits(r.1, seq![job.commit@])
            },
        },
        (FileUncommitAt::HAmending, FoldEvent::Checked(c)) => keeps && match c {
            Err(_) => file_rolls_back(r),
            Ok(()) => r.0.at is HReading && reads(r.1, head),
        },
        (FileUncommitAt::HReading, FoldEvent::Read(x)) => keeps && match x {
            Err(f) => file_uncommit_fails(r, f.message@, seq![]),
            Ok(out) => if s.gitlink is None {
                (r.0.at matches FileUncommitAt::HApplying { new } && new@ == read_hash(out@)) && (r.1 matches FoldAction::ApplyToWorktree(
                    d,
                ) && d@ == s.diff@)
            } else {
                exists|new: String| new@ == read_hash(out@) && file_uncommit_finishing(s, new, r)
            },
        },
        (FileUncommitAt::HApplying { new }, FoldEvent::Checked(c)) => keeps && match c {
            Err(_) => file_rolls_back(r),
            Ok(()) => file_uncommit_finishing(s, new, r),
        },
        (FileUncommitAt::Editing, FoldEvent::Checked(c)) => keeps && match c {
            Err(e) => r.0.at is Done && r.1 == FoldAction::Finish(Err::<Option<String>, LoomError>(e)),
            Ok(()) => r.0.at is Rebasing && rebases(r.1, job.commit@, seq![]),
        },
        (FileUncommitAt::Rebasing, FoldEvent::Checked(c)) => keeps && match c {
            Err(e) => file_uncommit_unwinding(r, e, seq![Undo::RestoreOrPark]),
            Ok(()) => r.0.at is Amending && uncommits_path(r.1, s),
        },
        (FileUncommitAt::Amending, FoldEvent::Checked(c)) => keeps && match c {
            Err(e) => file_uncommit_unwinding(r, e, seq![Undo::Abort { track: false, rollback: false }, Undo::RestoreOrPark]),
            Ok(()) => r.0.at is Reading && reads(r.1, head),
        },
        (FileUncommitAt::Reading, FoldEvent::Read(x)) => keeps && match x {
            Err(f) => file_uncommit_fails(r, f.message@, seq![Undo::Abort { track: false, rollback: false }, Undo::RestoreOrPark]),
            Ok(out) => (r.0.at matches FileUncommitAt::Continuing { new } && new@ == read_hash(out@)) && continues(
                r.1,
                None,
                seq![],
            ),
        },
        (FileUncommitAt::Continuing { new }, FoldEvent::Checked(c)) => keeps && match c {
            Err(e) => file_uncommit_unwinding(r, e, seq![Undo::RestoreOrPark]),
            Ok(()) => if s.gitlink is None {
                r.0.at == (FileUncommitAt::Applying { new }) && (r.1 matches FoldAction::ApplyToWorktree(d) && d@ == s.diff@)
            } else {
                r.0.at == (FileUncommitAt::Restaging { new }) && r.1 is Restage
            },
        },
        (FileUncommitAt::Applying { new }, FoldEvent::Checked(c)) => keeps && match c {
            Err(_) => file_rolls_back(r),
            Ok(()) => r.0.at == (FileUncommitAt::Restaging { new }) && r.1 is Restage,
        },
        (FileUncommitAt::Restaging { new }, FoldEvent::Done) => keeps && file_uncommit_finishing(s, new, r),
        (FileUncommitAt::Keeping { new }, FoldEvent::Flag(b)) => keeps && r.0.at == (FileUncommitAt::Describing {
            staged_removal: b,
        }) && r.1 == FoldAction::Describe(new),
        (FileUncommitAt::Describing { staged_removal }, FoldEvent::Described(d)) => keeps && r.0.at is Done && (r.1 matches FoldAction::Finish(
            Ok(Some(m)),
        ) && m@ == file_uncommitted_text(job.path@, job.commit@, d@, staged_removal)),
        (FileUncommitAt::Unwinding { error, left }, ev) => keeps && file_uncommit_unwinding(
            r,
            match ev {
                FoldEvent::Aborted(e2) => e2,
                _ => error,
            },
            left@.drop_first(),
        ),
        _ => false,
    }
}

fn file_unwind(job: FileUncommitJob, diff: String, gitlink: Option<bool>, error: LoomError, left: Vec<Undo>) -> (r: (
    FileUncommit,
    FoldAction,
))
    ensures
        r.0.job == job,
        r.0.diff == diff,
        r.0.gitlink == gitlink,
        file_uncommit_unwinding(r, error, left@),
{
    if left.len() == 0 {
        (FileUncommit { job, diff, gitlink, at: FileUncommitAt::Done }, FoldAction::Finish(Err(error)))
    } else {
        let a = undo_act(&error, left[0]);
        (FileUncommit { job, diff, gitlink, at: FileUncommitAt::Unwinding { error, left } }, a)
    }
}

fn file_fail(job: FileUncommitJob, diff: String, gitlink: Option<bool>, m: String, left: Vec<Undo>) -> (r: (
    FileUncommit,
    FoldAction,
))
    ensures
        r.0.job == job,
        r.0.diff == diff,
        r.0.gitlink == gitlink,
        file_uncommit_fails(r, m@, left@),
{
    let e = error_text(m);
    let ghost g = e;
    let r = file_unwind(job, diff, gitlink, e, left);
    proof {
        assert(is_failure(g, m@) && file_uncommit_unwinding(r, g, left@));
    }
    r
}

fn file_roll_back(job: FileUncommitJob, diff: String, gitlink: Option<bool>) -> (r: (FileUncommit, FoldAction))
    ensures
        r.0.job == job,
        r.0.diff == diff,
        r.0.gitlink == gitlink,
        file_rolls_back(r),
{
    let e = error_text(owned("Failed to uncommit file, operation rolled back"));
    let ghost g = e;
    let r = file_unwind(job, diff, gitlink, e, undos1(Undo::Rollback));
    proof {
        assert(is_failure(g, file_rolled_back_text()));
        assert(file_uncommit_unwinding(r, g, seq![Undo::Rollback]));
    }
    r
}

fn uncommit_path_action(job: &FileUncommitJob, diff: &String, gitlink: &Option<bool>) -> (a: FoldAction)
    ensures
        uncommits_path(a, FileUncommit { job: *job, diff: *diff, gitlink: *gitlink, at: FileUncommitAt::Done }),
{
    let g = match gitlink {
        Some(_) => true,
        None => false,
    };
    FoldAction::AmendPath { patch: diff.clone(), path: job.path.clone(), gitlink: g, reverse: true, git_opts: copy_texts(&job.git_opts) }
}

fn file_finishing(job: FileUncommitJob, diff: String, gitlink: Option<bool>, new: String) -> (r: (FileUncommit, FoldAction))
    ensures
        r.0.job == job,
        r.0.diff == diff,
        r.0.gitlink == gitlink,
        file_uncommit_finishing(FileUncommit { job, diff, gitlink, at: FileUncommitAt::Done }, new, r),
{
    let removed = match gitlink {
        Some(b) => b,
        None => false,
    };
    if removed {
        let p = job.path.clone();
        (FileUncommit { job, diff, gitlink, at: FileUncommitAt::Keeping { new } }, FoldAction::KeepSubmoduleRemoval(p))
    } else {
        (FileUncommit { job, diff, gitlink, at: FileUncommitAt::Describing { staged_removal: false } }, FoldAction::Describe(new))
    }
}

/// Uncommit one file of `commit`: its change leaves the commit and lands in
/// the working tree, unstaged. Refused when the file has no change in the
/// commit ([`no_changes_in_commit_text`]); a submodule moves back as its
/// index entry alone ([`file_uncommit_next`]).
pub fn fold_commit_file_to_unstaged(commit: String, path: String, head: String, git_opts: Vec<String>) -> (r: (
    FileUncommit,
    FoldAction,
))
    ensures
        r.0.job == (FileUncommitJob { commit, path, head, git_opts }),
        r.0.at is ReadingDiff,
        r.1 matches FoldAction::Read(c) && captured(
            c,
            crate::git::git_diff::replay_diff(seq![crate::git::git_diff::commit_range(commit@), "--"@, ":(literal)"@ + path@]),
        ),
{
    let c = crate::git::git_diff::diff_commit_file(commit.as_str(), path.as_str());
    let job = FileUncommitJob { commit, path, head, git_opts };
    (FileUncommit { job, diff: String::new(), gitlink: None, at: FileUncommitAt::ReadingDiff }, FoldAction::Read(c))
}

#[verifier::rlimit(60)]
fn file_uncommit_early(job: FileUncommitJob, diff: String, gitlink: Option<bool>, at: FileUncommitAt, event: FoldEvent) -> (r: (
    FileUncommit,
    FoldAction,
))
    requires
        at is ReadingDiff || at is CheckingGitlink || at is Snapshotting || at is HAmending || at is HReading || at is HApplying,
        file_uncommit_answers(FileUncommit { job, diff, gitlink, at }, event),
        cuttable_hash(job.commit@),
    ensures
        r.0.job == job,
        file_uncommit_next(FileUncommit { job, diff, gitlink, at }, event, r),
{
    match (at, event) {
        (FileUncommitAt::ReadingDiff, FoldEvent::Read(x)) => match x {
            Err(f) => file_fail(job, diff, gitlink, f.message, Vec::new()),
            Ok(out) => {
                if out.unicode_len() == 0 {
                    let mut m = owned("File '");
                    push_str(&mut m, job.path.as_str());
                    push_str(&mut m, "' has no changes in commit ");
                    push_str(&mut m, short_hash(job.commit.as_str()).as_str());
                    file_fail(job, diff, gitlink, m, Vec::new())
                } else {
                    let a = FoldAction::SubmoduleEntry { commit: job.commit.clone(), path: job.path.clone() };
                    (FileUncommit { job, diff: out, gitlink, at: FileUncommitAt::CheckingGitlink }, a)
                }
            },
        },
        (FileUncommitAt::CheckingGitlink, FoldEvent::Gitlink(g)) => match g {
            Err(e) => (FileUncommit { job, diff, gitlink, at: FileUncommitAt::Done }, FoldAction::Finish(Err(e))),
            Ok(g) => (FileUncommit { job, diff, gitlink: g, at: FileUncommitAt::Snapshotting }, FoldAction::Snapshot),
        },
        (FileUncommitAt::Snapshotting, FoldEvent::Checked(c)) => match c {
            Err(e) => (FileUncommit { job, diff, gitlink, at: FileUncommitAt::Done }, FoldAction::Finish(Err(e))),
            Ok(()) => if text_eq(job.head.as_str(), job.commit.as_str()) {
                let a = uncommit_path_action(&job, &diff, &gitlink);
                (FileUncommit { job, diff, gitlink, at: FileUncommitAt::HAmending }, a)
            } else {
                let a = FoldAction::EditWeave(texts1(&job.commit));
                (FileUncommit { job, diff, gitlink, at: FileUncommitAt::Editing }, a)
            },
        },
        (FileUncommitAt::HAmending, FoldEvent::Checked(c)) => match c {
            Err(_) => file_roll_back(job, diff, gitlink),
            Ok(()) => (FileUncommit { job, diff, gitlink, at: FileUncommitAt::HReading }, FoldAction::Read(rev_parse("HEAD"))),
        },
        (FileUncommitAt::HReading, FoldEvent::Read(x)) => match x {
            Err(f) => file_fail(job, diff, gitlink, f.message, Vec::new()),
            Ok(out) => {
                let new = trim_str(out.as_str());
                match gitlink {
                    None => {
                        let d = diff.clone();
                        (FileUncommit { job, diff, gitlink, at: FileUncommitAt::HApplying { new } }, FoldAction::ApplyToWorktree(d))
                    },
                    Some(_) => {
                        let ghost n = new;
                        let r = file_finishing(job, diff, gitlink, new);
                        proof {
                            assert(n@ == read_hash(out@));
                        }
                        r
                    },
                }
            },
        },
        (FileUncommitAt::HApplying { new }, FoldEvent::Checked(c)) => match c {
            Err(_) => file_roll_back(job, diff, gitlink),
            Ok(()) => file_finishing(job, diff, gitlink, new),
        },
        (at, _) => (FileUncommit { job, diff, gitlink, at }, FoldAction::Finish(Ok(None))),
    }
}

#[verifier::rlimit(60)]
fn file_uncommit_late(job: FileUncommitJob, diff: String, gitlink: Option<bool>, at: FileUncommitAt, event: FoldEvent) -> (r: (
    FileUncommit,
    FoldAction,
))
    requires
        at is Editing || at is Rebasing || at is Amending || at is Reading || at is Continuing || at is Applying || at is Restaging
            || at is Keeping || at is Describing,
        file_uncommit_answers(FileUncommit { job, diff, gitlink, at }, event),
        cuttable_hash(job.commit@),
    ensures
        r.0.job == job,
        file_uncommit_next(FileUncommit { job, diff, gitlink, at }, event, r),
{
    match (at, event) {
        (FileUncommitAt::Editing, FoldEvent::Checked(c)) => match c {
            Err(e) => (FileUncommit { job, diff, gitlink, at: FileUncommitAt::Done }, FoldAction::Finish(Err(e))),
            Ok(()) => {
                let a = FoldAction::RebaseToEdit { commit: job.commit.clone(), protect: no_texts() };
                (FileUncommit { job, diff, gitlink, at: FileUncommitAt::Rebasing }, a)
            },
        },
        (FileUncommitAt::Rebasing, FoldEvent::Checked(c)) => match c {
            Err(e) => file_unwind(job, diff, gitlink, e, undos1(Undo::RestoreOrPark)),
            Ok(()) => {
                let a = uncommit_path_action(&job, &diff, &gitlink);
                (FileUncommit { job, diff, gitlink, at: FileUncommitAt::Amending }, a)
            },
        },
        (FileUncommitAt::Amending, FoldEvent::Checked(c)) => match c {
            Err(e) => file_unwind(job, diff, gitlink, e, undos2(Undo::Abort { track: false, rollback: false }, Undo::RestoreOrPark)),
            Ok(()) => (FileUncommit { job, diff, gitlink, at: FileUncommitAt::Reading }, FoldAction::Read(rev_parse("HEAD"))),
        },
        (FileUncommitAt::Reading, FoldEvent::Read(x)) => match x {
            Err(f) => file_fail(job, diff, gitlink, f.message, undos2(Undo::Abort { track: false, rollback: false }, Undo::RestoreOrPark)),
            Ok(out) => (
                FileUncommit { job, diff, gitlink, at: FileUncommitAt::Continuing { new: trim_str(out.as_str()) } },
                FoldAction::ContinueToEdit { expect: None, protect: no_texts() },
            ),
        },
        (FileUncommitAt::Continuing { new }, FoldEvent::Checked(c)) => match c {
            Err(e) => file_unwind(job, diff, gitlink, e, undos1(Undo::RestoreOrPark)),
            Ok(()) => match gitlink {
                None => {
                    let d = diff.clone();
                    (FileUncommit { job, diff, gitlink, at: FileUncommitAt::Applying { new } }, FoldAction::ApplyToWorktree(d))
                },
                Some(_) => (FileUncommit { job, diff, gitlink, at: FileUncommitAt::Restaging { new } }, FoldAction::Restage),
            },
        },
        (FileUncommitAt::Applying { new }, FoldEvent::Checked(c)) => match c {
            Err(_) => file_roll_back(job, diff, gitlink),
            Ok(()) => (FileUncommit { job, diff, gitlink, at: FileUncommitAt::Restaging { new } }, FoldAction::Restage),
        },
        (FileUncommitAt::Restaging { new }, FoldEvent::Done) => file_finishing(job, diff, gitlink, new),
        (FileUncommitAt::Keeping { new }, FoldEvent::Flag(b)) => (
            FileUncommit { job, diff, gitlink, at: FileUncommitAt::Describing { staged_removal: b } },
            FoldAction::Describe(new),
        ),
        (FileUncommitAt::Describing { staged_removal }, FoldEvent::Described(d)) => {
            let mut m = owned("Uncommitted `");
            push_str(&mut m, job.path.as_str());
            push_str(&mut m, "` from `");
            push_str(&mut m, short_hash(job.commit.as_str()).as_str());
            push_str(&mut m, "` (now ");
            push_str(&mut m, d.as_str());
            push_str(&mut m, ") ");
            if staged_removal {
                push_str(&mut m, "as a staged deletion");
            } else {
                push_str(&mut m, "to working directory");
            }
            (FileUncommit { job, diff, gitlink, at: FileUncommitAt::Done }, FoldAction::Finish(Ok(Some(m))))
        },
        (at, _) => (FileUncommit { job, diff, gitlink, at }, FoldAction::Finish(Ok(None))),
    }
}

/// One step of [`fold_commit_file_to_unstaged`].
pub fn file_uncommit_step(state: FileUncommit, event: FoldEvent) -> (r: (FileUncommit, FoldAction))
    requires
        file_uncommit_answers(state, event),
        cuttable_hash(state.job.commit@),
    ensures
        r.0.job == state.job,
        file_uncommit_next(state, event, r),
{
    let FileUncommit { job, diff, gitlink, at } = state;
    match at {
        FileUncommitAt::ReadingDiff | FileUncommitAt::CheckingGitlink | FileUncommitAt::Snapshotting | FileUncommitAt::HAmending
        | FileUncommitAt::HReading | FileUncommitAt::HApplying { .. } => file_uncommit_early(job, diff, gitlink, at, event),
        FileUncommitAt::Unwinding { error, left } => {
            let e = match event {
                FoldEvent::Aborted(e2) => e2,
                _ => error,
            };
            let mut rest = left;
            rest.remove(0);
            proof {
                assert(rest@ =~= left@.drop_first());
            }
            file_unwind(job, diff, gitlink, e, rest)
        },
        FileUncommitAt::Done => (FileUncommit { job, diff, gitlink, at: FileUncommitAt::Done }, FoldAction::Finish(Ok(None))),
        _ => file_uncommit_late(job, diff, gitlink, at, event),
    }
}

} // verus!

verus! {

/// Taking back a `git commit` a fold made that did not do what it asked.
pub struct UndoAttempt {
    /// HEAD's commit before the attempt.
    pub head: String,
    /// What the fold staged itself; empty when the caller staged.
    pub staged_by_loom: Vec<String>,
    pub at: UndoAt,
}

pub enum UndoAt {
    ReadingHead,
    Resetting,
    Warning,
    Parking,
    Unstaging,
    Restoring,
    Done,
}

pub open spec fn undo_attempt_answers(s: UndoAttempt, event: FoldEvent) -> bool {
    match s.at {
        UndoAt::ReadingHead => event is Read,
        UndoAt::Resetting | UndoAt::Unstaging => event is Ran,
        UndoAt::Done => false,
        _ => event is Done,
    }
}

pub open spec fn reset_failed_warning(e: Seq<char>, head: Seq<char>) -> Seq<char> {
    "could not put your commit back on HEAD: "@ + e + "\n`git reset --soft "@ + head + "` restores it"@
}

/// Unstaging what the fold staged, if anything, then putting the user's
/// staged changes back.
pub open spec fn undo_unstages(s: UndoAttempt, r: (UndoAttempt, FoldAction)) -> bool {
    if s.staged_by_loom@.len() > 0 {
        r.0.at is Unstaging && runs(r.1, seq!["reset"@, "HEAD"@, "--"@] + views(s.staged_by_loom@))
    } else {
        r.0.at is Restoring && r.1 is RestoreOtherStaged
    }
}

pub open spec fn undo_attempt_next(s: UndoAttempt, event: FoldEvent, r: (UndoAttempt, FoldAction)) -> bool {
    &&& r.0.head == s.head && r.0.staged_by_loom == s.staged_by_loom
    &&& match (s.at, event) {
        (UndoAt::ReadingHead, FoldEvent::Read(x)) => if x matches Ok(out) && read_hash(out@) == s.head@ {
            undo_unstages(s, r)
        } else {
            r.0.at is Resetting && runs(r.1, seq!["reset"@, "--soft"@, s.head@])
        },
        (UndoAt::Resetting, FoldEvent::Ran(x)) => match x {
            Err(f) => r.0.at is Warning && (r.1 matches FoldAction::Warn(w) && w@ == reset_failed_warning(f.message@, s.head@)),
            Ok(()) => undo_unstages(s, r),
        },
        (UndoAt::Warning, FoldEvent::Done) => r.0.at is Parking && r.1 is ParkStaged,
        (UndoAt::Parking, FoldEvent::Done) | (UndoAt::Restoring, FoldEvent::Done) => r.0.at is Done && r.1 == FoldAction::Finish(
            Ok::<Option<String>, LoomError>(None),
        ),
        (UndoAt::Unstaging, FoldEvent::Ran(_)) => r.0.at is Restoring && r.1 is RestoreOtherStaged,
        _ => false,
    }
}

/// Take back a `git commit` that did not do what the fold asked: what git
/// did to HEAD goes first (a HEAD that moved, or cannot be read, is reset
/// to `head`), then what the fold staged itself, then the user's staged
/// changes come back. A reset that fails leaves the index alone and parks
/// the staged changes instead ([`undo_attempt_next`]).
pub fn undo_commit_attempt(head: String, staged_by_loom: Vec<String>) -> (r: (UndoAttempt, FoldAction))
    ensures
        r.0.head == head && r.0.staged_by_loom == staged_by_loom,
        r.0.at is ReadingHead,
        reads(r.1, seq!["rev-parse"@, "HEAD"@]),
{
    (UndoAttempt { head, staged_by_loom, at: UndoAt::ReadingHead }, FoldAction::Read(rev_parse("HEAD")))
}

fn unstage_next(head: String, staged_by_loom: Vec<String>) -> (r: (UndoAttempt, FoldAction))
    ensures
        r.0.head == head && r.0.staged_by_loom == staged_by_loom,
        undo_unstages(UndoAttempt { head, staged_by_loom, at: UndoAt::Done }, r),
{
    if staged_by_loom.len() > 0 {
        let c = unstage_files(staged_by_loom.as_slice());
        (UndoAttempt { head, staged_by_loom, at: UndoAt::Unstaging }, FoldAction::Run(c))
    } else {
        (UndoAttempt { head, staged_by_loom, at: UndoAt::Restoring }, FoldAction::RestoreOtherStaged)
    }
}

/// One step of [`undo_commit_attempt`].
pub fn undo_attempt_step(state: UndoAttempt, event: FoldEvent) -> (r: (UndoAttempt, FoldAction))
    requires
        undo_attempt_answers(state, event),
    ensures
        undo_attempt_next(state, event, r),
{
    let UndoAttempt { head, staged_by_loom, at } = state;
    match (at, event) {
        (UndoAt::ReadingHead, FoldEvent::Read(x)) => {
            let same = match &x {
                Ok(out) => text_eq(trim_str(out.as_str()).as_str(), head.as_str()),
                Err(_) => false,
            };
            if same {
                unstage_next(head, staged_by_loom)
            } else {
                let c = reset_soft(head.as_str());
                (UndoAttempt { head, staged_by_loom, at: UndoAt::Resetting }, FoldAction::Run(c))
            }
        },
        (UndoAt::Resetting, FoldEvent::Ran(x)) => match x {
            Err(f) => {
                let mut w = owned("could not put your commit back on HEAD: ");
                push_str(&mut w, f.message.as_str());
                push_str(&mut w, "\n`git reset --soft ");
                push_str(&mut w, head.as_str());
                push_str(&mut w, "` restores it");
                (UndoAttempt { head, staged_by_loom, at: UndoAt::Warning }, FoldAction::Warn(w))
            },
            Ok(()) => unstage_next(head, staged_by_loom),
        },
        (UndoAt::Warning, FoldEvent::Done) => (UndoAttempt { head, staged_by_loom, at: UndoAt::Parking }, FoldAction::ParkStaged),
        (UndoAt::Unstaging, FoldEvent::Ran(_)) => (UndoAttempt { head, staged_by_loom, at: UndoAt::Restoring }, FoldAction::RestoreOtherStaged),
        (at, _) => (UndoAttempt { head, staged_by_loom, at: UndoAt::Done }, FoldAction::Finish(Ok(None))),
    }
}

} // verus!
