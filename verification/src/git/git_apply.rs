//! Patches: applying them to the worktree or the index, and putting a saved
//! staged patch back — or handing it to the user — once a rebase is over.
//!
//! The runs that alternate git calls and decisions are steps of a state
//! machine: each step takes what the last git call answered and says what to
//! run next, what to warn about, and whether the patch goes to the user.
use vstd::prelude::*;

use crate::git::git_diff::{diff_cached, restore_diff};
use crate::git::git_rebase::unmerged_paths;
use crate::git::{
    arg, args_from, captured, checkout_index_force, worktree_dirty_paths, GitCommand, GitFailure,
    LoomError,
};
use crate::text::{
    chars_of, contains_str, decimal, decimal_text, has_infix, join, join_texts, owned, push_char,
    push_str, text_eq, views,
};

verus! {

/// `git apply <flags>` with the patch on stdin, nothing else.
pub open spec fn applies(c: GitCommand, patch: Seq<char>, flags: Seq<Seq<char>>) -> bool {
    &&& views(c.args@) == seq!["apply"@] + flags
    &&& c.config@.len() == 0
    &&& c.stdin matches Some(s) && s@ == patch
    &&& c.index_file is None
    &&& !c.interactive
}

/// `git -c rerere.enabled=false apply <flags>` with the patch on stdin, on
/// the index at `index` when one is given. `rerere` is off because this
/// merge is loom replaying a patch, not a conflict the user ever resolved.
pub open spec fn applies_merging(
    c: GitCommand,
    patch: Seq<char>,
    flags: Seq<Seq<char>>,
    index: Option<Seq<char>>,
) -> bool {
    &&& views(c.args@) == seq!["apply"@] + flags
    &&& views(c.config@) == seq!["-c"@, "rerere.enabled=false"@]
    &&& c.stdin matches Some(s) && s@ == patch
    &&& match index {
        Some(i) => c.index_file matches Some(f) && f@ == i,
        None => c.index_file is None,
    }
    &&& !c.interactive
}

fn apply_with(patch: &str, flags: &[&str], merging: bool, index_file: Option<&str>) -> (c:
    GitCommand)
    ensures
        views(c.args@) == seq!["apply"@] + flags@.map_values(|s: &str| s@),
        merging ==> views(c.config@) == seq!["-c"@, "rerere.enabled=false"@],
        !merging ==> c.config@.len() == 0,
        c.stdin matches Some(s) && s@ == patch@,
        match index_file {
            Some(i) => c.index_file matches Some(f) && f@ == i@,
            None => c.index_file is None,
        },
        !c.interactive,
{
    let mut a: Vec<String> = Vec::new();
    arg(&mut a, "apply");
    let mut i: usize = 0;
    while i < flags.len()
        invariant
            i <= flags@.len(),
            views(a@) == seq!["apply"@] + flags@.map_values(|s: &str| s@).take(i as int),
        decreases flags.len() - i,
    {
        arg(&mut a, flags[i]);
        proof {
            assert(flags@.map_values(|s: &str| s@).take(i + 1) =~= flags@.map_values(
                |s: &str| s@,
            ).take(i as int).push(flags@[i as int]@));
        }
        i = i + 1;
    }
    proof {
        assert(flags@.map_values(|s: &str| s@).take(flags@.len() as int) =~= flags@.map_values(
            |s: &str| s@,
        ));
    }
    let mut config: Vec<String> = Vec::new();
    if merging {
        arg(&mut config, "-c");
        arg(&mut config, "rerere.enabled=false");
        proof {
            assert(views(config@) =~= seq!["-c"@, "rerere.enabled=false"@]);
        }
    }
    let index = match index_file {
        Some(f) => Some(owned(f)),
        None => None,
    };
    GitCommand {
        args: a,
        config,
        stdin: Some(owned(patch)),
        index_file: index,
        interactive: false,
    }
}

/// Apply a patch passed on stdin (`git apply`).
pub fn apply_patch(patch: &str) -> (c: GitCommand)
    ensures
        applies(c, patch@, seq![]),
{
    let c = apply_with(patch, &[], false, None);
    proof {
        assert(seq!["apply"@] + Seq::<&str>::empty().map_values(|s: &str| s@) =~= seq!["apply"@]
            + Seq::<Seq<char>>::empty());
    }
    c
}

/// Apply a patch on stdin in reverse (`git apply --reverse`).
pub fn apply_patch_reverse(patch: &str) -> (c: GitCommand)
    ensures
        applies(c, patch@, seq!["--reverse"@]),
{
    let c = apply_with(patch, &["--reverse"], false, None);
    proof {
        assert(["--reverse"]@.map_values(|s: &str| s@) =~= seq!["--reverse"@]);
    }
    c
}

/// Apply a patch on stdin to the index only (`git apply --cached`).
pub fn apply_cached_patch(patch: &str) -> (c: GitCommand)
    ensures
        applies(c, patch@, seq!["--cached"@]),
{
    let c = apply_with(patch, &["--cached"], false, None);
    proof {
        assert(["--cached"]@.map_values(|s: &str| s@) =~= seq!["--cached"@]);
    }
    c
}

/// Reverse-apply a patch from the index only, unstaging its hunks
/// (`git apply --cached --reverse`).
pub fn apply_cached_patch_reverse(patch: &str) -> (c: GitCommand)
    ensures
        applies(c, patch@, seq!["--cached"@, "--reverse"@]),
{
    let c = apply_with(patch, &["--cached", "--reverse"], false, None);
    proof {
        assert(["--cached", "--reverse"]@.map_values(|s: &str| s@) =~= seq![
            "--cached"@,
            "--reverse"@,
        ]);
    }
    c
}

/// Apply a patch to the working tree and the index at once
/// (`git apply --index`). Not apply-then-`git add`: `git add` refuses a path
/// an ignore rule matches, even one the patch has just written back.
pub fn apply_patch_with_index(patch: &str) -> (c: GitCommand)
    ensures
        applies(c, patch@, seq!["--index"@]),
{
    let c = apply_with(patch, &["--index"], false, None);
    proof {
        assert(["--index"]@.map_values(|s: &str| s@) =~= seq!["--index"@]);
    }
    c
}

/// Reverse-apply a patch from the working tree and the index
/// (`git apply --index --reverse`).
pub fn apply_patch_with_index_reverse(patch: &str) -> (c: GitCommand)
    ensures
        applies(c, patch@, seq!["--index"@, "--reverse"@]),
{
    let c = apply_with(patch, &["--index", "--reverse"], false, None);
    proof {
        assert(["--index", "--reverse"]@.map_values(|s: &str| s@) =~= seq![
            "--index"@,
            "--reverse"@,
        ]);
    }
    c
}

/// The three-way apply to the working tree, against a throwaway copy of the
/// index at `scratch`: `--3way` implies `--index`, but these changes belong
/// in the working tree alone.
pub fn apply_patch_three_way(patch: &str, scratch: &str) -> (c: GitCommand)
    ensures
        applies_merging(c, patch@, seq!["--3way"@], Some(scratch@)),
{
    let c = apply_with(patch, &["--3way"], true, Some(scratch));
    proof {
        assert(["--3way"]@.map_values(|s: &str| s@) =~= seq!["--3way"@]);
    }
    c
}

/// Apply a patch to an index three-way (`git apply --cached --3way`): the
/// real one, or a scratch copy for a rehearsal.
pub fn cached_three_way(patch: &str, index_file: Option<&str>) -> (c: GitCommand)
    ensures
        applies_merging(
            c,
            patch@,
            seq!["--cached"@, "--3way"@],
            match index_file {
                Some(i) => Some(i@),
                None => None,
            },
        ),
{
    let c = apply_with(patch, &["--cached", "--3way"], true, index_file);
    proof {
        assert(["--cached", "--3way"]@.map_values(|s: &str| s@) =~= seq!["--cached"@, "--3way"@]);
    }
    c
}

/// The paths that newly differ from the index after a failed apply: what it
/// wrote. Files the user had already changed cannot be among them, since
/// `--3way` refuses a patch that touches one.
pub open spec fn newly_written(before: Seq<Seq<char>>, after: Seq<Seq<char>>) -> Seq<Seq<char>> {
    after.filter(|p: Seq<char>| !before.contains(p))
}

/// See [`newly_written`].
pub fn written_paths(before: &[String], after: &[String]) -> (r: Vec<String>)
    ensures
        views(r@) == newly_written(views(before@), views(after@)),
{
    let mut r: Vec<String> = Vec::new();
    let mut i: usize = 0;
    while i < after.len()
        invariant
            i <= after@.len(),
            views(r@) == newly_written(views(before@), views(after@).take(i as int)),
        decreases after.len() - i,
    {
        proof {
            reveal(Seq::filter);
            assert(views(after@).take(i + 1).drop_last() =~= views(after@).take(i as int));
        }
        let known = crate::text::contains_text(before, &after[i]);
        if !known {
            let ghost mid = views(r@);
            r.push(after[i].clone());
            proof {
                assert(views(r@) =~= mid.push(after@[i as int]@));
            }
        }
        i = i + 1;
    }
    proof {
        assert(views(after@).take(after@.len() as int) =~= views(after@));
    }
    r
}

/// The paths of `paths` the index does not know, in order: the ones a failed
/// apply created, which are put back by deleting them.
pub open spec fn untracked_of(paths: Seq<Seq<char>>, indexed: Seq<Seq<char>>) -> Seq<Seq<char>> {
    paths.filter(|p: Seq<char>| !indexed.contains(p))
}

/// How to put back the working-tree files a failed apply had already
/// written: the tracked ones from the index, the others by deletion.
pub struct RestorePlan {
    /// `git checkout-index -f -- <indexed>`, when the index knows any.
    pub checkout: Option<GitCommand>,
    /// The files to delete.
    pub remove: Vec<String>,
}

/// Plan the restore of `paths`, of which `indexed` are the ones `git
/// ls-files` knows. Nothing written means nothing to put back: an empty list
/// must never turn into every path git knows.
pub fn restore_from_index(paths: &[String], indexed: &[String]) -> (r: RestorePlan)
    ensures
        indexed@.len() == 0 ==> r.checkout is None,
        indexed@.len() > 0 ==> (r.checkout matches Some(c) && captured(
            c,
            seq!["checkout-index"@, "-f"@, "--"@] + views(indexed@),
        )),
        views(r.remove@) == untracked_of(views(paths@), views(indexed@)),
{
    let checkout = if indexed.len() > 0 {
        Some(checkout_index_force(indexed))
    } else {
        None
    };
    let remove = written_paths(indexed, paths);
    RestorePlan { checkout, remove }
}

/// Where applying a patch to the working tree has got to. A plain `git
/// apply` fails as soon as a later commit changed a line inside a hunk's
/// context, so a failure falls back to a three-way merge through the blob
/// ids of the diff header; a failed merge is undone file by file.
pub enum WorktreeApply {
    /// The plain apply is running.
    Plain,
    /// The plain apply failed with `plain`; the dirty paths are being read.
    Snapshot { plain: GitFailure },
    /// The three-way apply is running on a scratch index.
    ThreeWay { plain: GitFailure, before: Vec<String> },
    /// The three-way apply was refused; the dirty paths are read again.
    Cleanup { plain: GitFailure, before: Vec<String> },
    /// Finished.
    Done,
}

/// What the last git call of [`worktree_apply_step`] answered.
pub enum ApplyEvent {
    /// An apply ran, and succeeded or not.
    Applied(Result<(), GitFailure>),
    /// The scratch index for the three-way could not be set up.
    SetupFailed(LoomError),
    /// The dirty paths ([`worktree_dirty_paths`]), `None` when git could not
    /// say.
    Dirty(Option<Vec<String>>),
}

/// What to do next.
pub enum ApplyAction {
    /// Run this apply.
    Run(GitCommand),
    /// Copy the index to the scratch file the command names, run it, and
    /// remove the copy (and its lock) afterwards.
    RunOnScratch(GitCommand),
    /// Run [`worktree_dirty_paths`] and read its answer.
    ReadDirty(GitCommand),
    /// Put back these written paths with [`restore_from_index`], best
    /// effort, then report `error`.
    Restore(Vec<String>, GitFailure),
    /// Report this.
    Finish(Result<(), LoomError>),
}

/// Whether `event` answers what `state` is waiting for.
pub open spec fn answers(state: WorktreeApply, event: ApplyEvent) -> bool {
    match state {
        WorktreeApply::Plain => event is Applied,
        WorktreeApply::Snapshot { .. } => event is Dirty,
        WorktreeApply::ThreeWay { .. } => event is Applied || event is SetupFailed,
        WorktreeApply::Cleanup { .. } => event is Dirty,
        WorktreeApply::Done => false,
    }
}

/// The error reported for a failed git call, as the caller sees it.
pub open spec fn reported(f: GitFailure) -> Seq<char> {
    f.message@
}

/// Apply a patch to the working tree: start with the plain apply.
pub fn apply_patch_to_worktree(patch: &str) -> (r: (WorktreeApply, ApplyAction))
    ensures
        r.0 is Plain,
        r.1 matches ApplyAction::Run(c) && applies(c, patch@, seq![]),
{
    (WorktreeApply::Plain, ApplyAction::Run(apply_patch(patch)))
}

/// One step of [`apply_patch_to_worktree`].
///
/// The plain apply's error is the one handed back when the fallback fails
/// too: both attempts carry the same message, and it is the one the caller
/// asked for. The fallback failing to even start says more, so that error
/// is reported instead.
pub fn worktree_apply_step(state: WorktreeApply, event: ApplyEvent, patch: &str, scratch: &str) -> (r:
    (WorktreeApply, ApplyAction))
    requires
        answers(state, event),
    ensures
        match (state, event) {
            (WorktreeApply::Plain, ApplyEvent::Applied(Ok(()))) => r.0 is Done && (r.1 matches ApplyAction::Finish(Ok(()))),
            (WorktreeApply::Plain, ApplyEvent::Applied(Err(e))) => (r.0 matches WorktreeApply::Snapshot { plain } && plain == e)
                && (r.1 matches ApplyAction::ReadDirty(c) && captured(c, seq!["status"@, "--porcelain"@, "-z"@, "-uall"@])),
            (WorktreeApply::Snapshot { plain }, ApplyEvent::Dirty(None)) => r.0 is Done
                && (r.1 matches ApplyAction::Finish(Err(e)) && e.message@ == reported(plain)),
            (WorktreeApply::Snapshot { plain }, ApplyEvent::Dirty(Some(before))) => (r.0 matches WorktreeApply::ThreeWay { plain: p, before: b } && p == plain && b == before)
                && (r.1 matches ApplyAction::RunOnScratch(c) && applies_merging(c, patch@, seq!["--3way"@], Some(scratch@))),
            (WorktreeApply::ThreeWay { .. }, ApplyEvent::SetupFailed(e)) => r.0 is Done && (r.1 matches ApplyAction::Finish(Err(x)) && x == e),
            (WorktreeApply::ThreeWay { .. }, ApplyEvent::Applied(Ok(()))) => r.0 is Done && (r.1 matches ApplyAction::Finish(Ok(()))),
            (WorktreeApply::ThreeWay { plain, before }, ApplyEvent::Applied(Err(_))) => (r.0 matches WorktreeApply::Cleanup { plain: p, before: b } && p == plain && b == before)
                && (r.1 matches ApplyAction::ReadDirty(c) && captured(c, seq!["status"@, "--porcelain"@, "-z"@, "-uall"@])),
            (WorktreeApply::Cleanup { plain, before }, ApplyEvent::Dirty(after)) => r.0 is Done
                && (r.1 matches ApplyAction::Restore(paths, e) && e == plain && views(paths@) == newly_written(
                    views(before@),
                    match after {
                        Some(a) => views(a@),
                        None => Seq::empty(),
                    },
                )),
            _ => false,
        },
{
    match (state, event) {
        (WorktreeApply::Plain, ApplyEvent::Applied(Ok(()))) => (WorktreeApply::Done, ApplyAction::Finish(Ok(()))),
        (WorktreeApply::Plain, ApplyEvent::Applied(Err(e))) => (
            WorktreeApply::Snapshot { plain: e },
            ApplyAction::ReadDirty(worktree_dirty_paths()),
        ),
        (WorktreeApply::Snapshot { plain }, ApplyEvent::Dirty(None)) => (
            WorktreeApply::Done,
            ApplyAction::Finish(Err(LoomError::new(plain.message))),
        ),
        (WorktreeApply::Snapshot { plain }, ApplyEvent::Dirty(Some(before))) => (
            WorktreeApply::ThreeWay { plain, before },
            ApplyAction::RunOnScratch(apply_patch_three_way(patch, scratch)),
        ),
        (WorktreeApply::ThreeWay { .. }, ApplyEvent::SetupFailed(e)) => (WorktreeApply::Done, ApplyAction::Finish(Err(e))),
        (WorktreeApply::ThreeWay { .. }, ApplyEvent::Applied(Ok(()))) => (WorktreeApply::Done, ApplyAction::Finish(Ok(()))),
        (WorktreeApply::ThreeWay { plain, before }, ApplyEvent::Applied(Err(_))) => (
            WorktreeApply::Cleanup { plain, before },
            ApplyAction::ReadDirty(worktree_dirty_paths()),
        ),
        (WorktreeApply::Cleanup { plain, before }, ApplyEvent::Dirty(after)) => {
            let after_paths = match after {
                Some(a) => a,
                None => Vec::new(),
            };
            let written = written_paths(before.as_slice(), after_paths.as_slice());
            proof {
                assert(views(after_paths@) == match after {
                    Some(a) => views(a@),
                    None => Seq::<Seq<char>>::empty(),
                }) by {
                    if after is None {
                        assert(views(after_paths@) =~= Seq::<Seq<char>>::empty());
                    }
                }
            }
            (WorktreeApply::Done, ApplyAction::Restore(written, plain))
        },
        (s, _) => (s, ApplyAction::Finish(Ok(()))),
    }
}

/// Where putting a saved staged patch back after a rebase has got to.
///
/// The patch goes back with `git apply --cached --3way`, so it needs no reset
/// first: it merges through the blob ids in the patch, covering a staged new
/// file whose index entry survived the autostash and a hunk whose context
/// the rebase rewrote. It is rehearsed on a copy of the index first, since
/// a three-way conflict writes stages into whatever index it is given.
pub enum Restage {
    /// Asking whether the index has unmerged paths.
    CheckUnmerged,
    /// Rehearsing on the scratch index.
    Rehearsing,
    /// Applying to the real index after a clean rehearsal.
    Applying,
    /// That apply failed: asking whether it left stages behind.
    Recheck,
    /// The rehearsal refused with `error`: reading the staged diff, to tell
    /// whether the patch is already back.
    Comparing { error: String },
    /// Finished.
    Done,
}

/// What the last git call of [`restage_step`] answered.
pub enum RestageEvent {
    /// Whether the index has unmerged entries
    /// ([`crate::git::git_rebase::has_unmerged_paths`]).
    Unmerged(bool),
    /// The paths the index holds conflict stages for
    /// ([`crate::git::git_rebase::unmerged_paths_output`]).
    Stages(Vec<String>),
    /// The rehearsal: the scratch index could not be set up, or git's answer.
    Rehearsed(Result<Result<(), GitFailure>, LoomError>),
    /// The apply to the real index.
    Applied(Result<(), GitFailure>),
    /// The staged diff ([`diff_cached`]), `None` when git could not say.
    Staged(Option<String>),
}

/// One step: what to warn about, whether the patch goes to the user
/// (saved under the git dir with [`Replay::CachedThreeWay`]), and what to
/// run next.
pub struct RestageStep {
    pub state: Restage,
    pub warnings: Vec<String>,
    pub park: bool,
    pub run: Option<GitCommand>,
}

pub open spec fn unmerged_warning() -> Seq<char> {
    "the index has unmerged paths, so your staged changes could not go back — resolve them, then replay the patch below"@
}

pub open spec fn not_restored_warning(e: Seq<char>) -> Seq<char> {
    "could not restore your staged changes: "@ + e
}


pub open spec fn no_longer_applies_warning(e: Seq<char>) -> Seq<char> {
    "your staged changes no longer apply over what is in the index now: "@ + e
}

pub open spec fn untested_warning(e: Seq<char>) -> Seq<char> {
    "could not test whether your staged changes still apply: "@ + e
}

/// Whether `event` answers what `state` is waiting for.
pub open spec fn restage_answers(state: Restage, event: RestageEvent) -> bool {
    match state {
        Restage::CheckUnmerged => event is Unmerged,
        Restage::Rehearsing => event is Rehearsed,
        Restage::Applying => event is Applied,
        Restage::Recheck => event is Stages,
        Restage::Comparing { .. } => event is Staged,
        Restage::Done => false,
    }
}

/// The messages of a step, as views.
pub open spec fn said(s: RestageStep) -> Seq<Seq<char>> {
    views(s.warnings@)
}

/// Put a saved staged patch back into the index after a rebase: start by
/// asking whether the index is unmerged. An empty patch is nothing to do.
///
/// Best effort, and it never fails its caller: the rebase callers run it
/// once their own rewrite has landed.
pub fn restore_staged_after_rebase(patch: &str) -> (s: RestageStep)
    ensures
        patch@.len() == 0 ==> s.state is Done && said(s).len() == 0 && !s.park && s.run is None,
        patch@.len() > 0 ==> s.state is CheckUnmerged && said(s).len() == 0 && !s.park && (s.run matches Some(
            c,
        ) && captured(c, seq!["diff"@, "-z"@, "--name-only"@, "--diff-filter=U"@])),
{
    if patch.unicode_len() == 0 {
        return RestageStep { state: Restage::Done, warnings: Vec::new(), park: false, run: None };
    }
    RestageStep {
        state: Restage::CheckUnmerged,
        warnings: Vec::new(),
        park: false,
        run: Some(unmerged_paths()),
    }
}

fn one(s: String) -> (r: Vec<String>)
    ensures
        views(r@) == seq![s@],
{
    let mut r: Vec<String> = Vec::new();
    r.push(s);
    proof {
        assert(views(r@) =~= seq![s@]);
    }
    r
}

fn message_with(prefix: &str, e: &str) -> (s: String)
    ensures
        s@ == prefix@ + e@,
{
    let mut s = owned(prefix);
    push_str(&mut s, e);
    s
}

/// One step of [`restore_staged_after_rebase`].
///
/// An unmerged index is left alone: those stages are a merge the user has to
/// finish. A rehearsal that conflicted kept the conflict out of the real
/// index, which leaves the patch the only copy of the staged side, so it goes
/// to the user — unless the staged diff already is the patch byte for byte,
/// the one test here that cannot cost data.
pub fn restage_step(state: Restage, event: RestageEvent, patch: &str, scratch: &str) -> (s:
    RestageStep)
    requires
        restage_answers(state, event),
    ensures
        (s.run matches Some(c) && c.stdin is Some && c.index_file is None) ==> (state is Rehearsing
            && event matches RestageEvent::Rehearsed(Ok(Ok(())))),
        (s.state is Done && !s.park) ==> (event matches RestageEvent::Applied(Ok(())) || (
        event matches RestageEvent::Staged(Some(x)) && x@ == patch@)),
        match (state, event) {
            (Restage::CheckUnmerged, RestageEvent::Unmerged(true)) => s.state is Done && said(s) == seq![unmerged_warning()] && s.park && s.run is None,
            (Restage::CheckUnmerged, RestageEvent::Unmerged(false)) => s.state is Rehearsing && said(s).len() == 0 && !s.park
                && (s.run matches Some(c) && applies_merging(c, patch@, seq!["--cached"@, "--3way"@], Some(scratch@))),
            (Restage::Rehearsing, RestageEvent::Rehearsed(Err(e))) => s.state is Done && said(s) == seq![untested_warning(e.message@)] && s.park && s.run is None,
            (Restage::Rehearsing, RestageEvent::Rehearsed(Ok(Ok(())))) => s.state is Applying && said(s).len() == 0 && !s.park
                && (s.run matches Some(c) && applies_merging(c, patch@, seq!["--cached"@, "--3way"@], None)),
            (Restage::Rehearsing, RestageEvent::Rehearsed(Ok(Err(e)))) => (s.state matches Restage::Comparing { error } && error@ == e.message@)
                && said(s).len() == 0 && !s.park && (s.run matches Some(c) && captured(c, crate::git::git_diff::restore_diff(seq!["--cached"@, "--"@]))),
            (Restage::Applying, RestageEvent::Applied(Ok(()))) => s.state is Done && said(s).len() == 0 && !s.park && s.run is None,
            (Restage::Applying, RestageEvent::Applied(Err(e))) => s.state is Recheck && said(s) == seq![not_restored_warning(e.message@)] && !s.park
                && (s.run matches Some(c) && captured(c, seq!["diff"@, "-z"@, "--name-only"@, "--diff-filter=U"@])),
            (Restage::Recheck, RestageEvent::Stages(paths)) => s.state is Done && s.park && s.run is None
                && said(s) == match reset_hint_text(views(paths@).map_values(|p: Seq<char>| pathspec(p))) {
                Some(h) => seq![h],
                None => Seq::<Seq<char>>::empty(),
            },
            (Restage::Comparing { error }, RestageEvent::Staged(staged)) => s.state is Done && s.run is None && (if (staged matches Some(x) && x@ == patch@) {
                said(s).len() == 0 && !s.park
            } else {
                said(s) == seq![no_longer_applies_warning(error@)] && s.park
            }),
            _ => false,
        },
{
    match (state, event) {
        (Restage::CheckUnmerged, RestageEvent::Unmerged(true)) => RestageStep {
            state: Restage::Done,
            warnings: one(
                owned(
                    "the index has unmerged paths, so your staged changes could not go back — resolve them, then replay the patch below",
                ),
            ),
            park: true,
            run: None,
        },
        (Restage::CheckUnmerged, RestageEvent::Unmerged(false)) => RestageStep {
            state: Restage::Rehearsing,
            warnings: Vec::new(),
            park: false,
            run: Some(cached_three_way(patch, Some(scratch))),
        },
        (Restage::Rehearsing, RestageEvent::Rehearsed(Err(e))) => RestageStep {
            state: Restage::Done,
            warnings: one(
                message_with("could not test whether your staged changes still apply: ", e.message.as_str()),
            ),
            park: true,
            run: None,
        },
        (Restage::Rehearsing, RestageEvent::Rehearsed(Ok(Ok(())))) => RestageStep {
            state: Restage::Applying,
            warnings: Vec::new(),
            park: false,
            run: Some(cached_three_way(patch, None)),
        },
        (Restage::Rehearsing, RestageEvent::Rehearsed(Ok(Err(e)))) => RestageStep {
            state: Restage::Comparing { error: e.message },
            warnings: Vec::new(),
            park: false,
            run: Some(diff_cached()),
        },
        (Restage::Applying, RestageEvent::Applied(Ok(()))) => RestageStep {
            state: Restage::Done,
            warnings: Vec::new(),
            park: false,
            run: None,
        },
        (Restage::Applying, RestageEvent::Applied(Err(e))) => RestageStep {
            state: Restage::Recheck,
            warnings: one(message_with("could not restore your staged changes: ", e.message.as_str())),
            park: false,
            run: Some(unmerged_paths()),
        },
        (Restage::Recheck, RestageEvent::Stages(paths)) => {
            let warnings = match unmerged_reset_hint(paths.as_slice()) {
                Some(h) => one(h),
                None => {
                    let w: Vec<String> = Vec::new();
                    proof {
                        assert(views(w@) =~= Seq::<Seq<char>>::empty());
                    }
                    w
                },
            };
            RestageStep { state: Restage::Done, warnings, park: true, run: None }
        },
        (Restage::Comparing { error }, RestageEvent::Staged(staged)) => {
            let back = match &staged {
                Some(x) => text_eq(x.as_str(), patch),
                None => false,
            };
            if back {
                RestageStep { state: Restage::Done, warnings: Vec::new(), park: false, run: None }
            } else {
                RestageStep {
                    state: Restage::Done,
                    warnings: one(
                        message_with(
                            "your staged changes no longer apply over what is in the index now: ",
                            error.as_str(),
                        ),
                    ),
                    park: true,
                    run: None,
                }
            }
        },
        (s, _) => RestageStep { state: s, warnings: Vec::new(), park: false, run: None },
    }
}

/// What to do with a patch loom unstaged itself, once the call that did so
/// has ended.
pub enum LoomRestore {
    /// Nothing: the patch is empty, or the index was never touched.
    Nothing,
    /// Put it back with [`restore_staged_after_rebase`].
    Restage,
    /// Hand it to the user, with this warning.
    Park(String),
}

pub open spec fn still_on_disk_warning() -> Seq<char> {
    "the rebase is still on disk, so your staged changes could not be put back"@
}

/// Put back a patch loom unstaged itself, wherever the call ended, from
/// whether a rebase is still on disk. Restoring into a live rebase's index
/// would only be dropped again by the `loom abort` that follows, so the
/// patch goes to the user.
pub fn restore_loom_unstaged(patch: &str, rebase_over: bool) -> (r: LoomRestore)
    ensures
        patch@.len() == 0 ==> r is Nothing,
        patch@.len() > 0 && rebase_over ==> r is Restage,
        patch@.len() > 0 && !rebase_over ==> (r matches LoomRestore::Park(w) && w@
            == still_on_disk_warning()),
{
    if patch.unicode_len() == 0 {
        return LoomRestore::Nothing;
    }
    if rebase_over {
        LoomRestore::Restage
    } else {
        LoomRestore::Park(owned("the rebase is still on disk, so your staged changes could not be put back"))
    }
}

/// Put the staged patch back after a call that aborted its own rebase, or
/// park it if that abort failed and left the rebase on disk. A refusal from
/// before the rebase started never autostashed, and needs neither.
pub fn restore_or_park_after_abort(patch: &str, err: &LoomError, rebase_over: bool) -> (r:
    LoomRestore)
    ensures
        err.not_started ==> r is Nothing,
        !err.not_started && patch@.len() == 0 ==> r is Nothing,
        !err.not_started && patch@.len() > 0 && rebase_over ==> r is Restage,
        !err.not_started && patch@.len() > 0 && !rebase_over ==> (r matches LoomRestore::Park(w)
            && w@ == still_on_disk_warning()),
{
    if crate::git::git_rebase::rebase_never_started(err) {
        return LoomRestore::Nothing;
    }
    restore_loom_unstaged(patch, rebase_over)
}

/// Re-apply a previously saved staged patch (`git apply --cached`); nothing
/// to run for an empty one. A failure is warned about
/// ([`unrestored_warning`]) and the patch saved with [`Replay::Cached`], never
/// reported in place of whatever actually stopped the command.
pub fn restore_staged_patch(patch: &str) -> (r: Option<GitCommand>)
    ensures
        patch@.len() == 0 ==> r is None,
        patch@.len() > 0 ==> (r matches Some(c) && applies(c, patch@, seq!["--cached"@])),
{
    if patch.unicode_len() == 0 {
        return None;
    }
    Some(apply_cached_patch(patch))
}

pub open spec fn unrestored_text(e: Seq<char>) -> Seq<char> {
    "could not restore pre-existing staged changes: "@ + e
}

/// The warning when [`restore_staged_patch`]'s apply failed.
pub fn unrestored_warning(e: &GitFailure) -> (s: String)
    ensures
        s@ == unrestored_text(e.message@),
{
    message_with("could not restore pre-existing staged changes: ", e.message.as_str())
}

/// How to replay a parked patch by hand.
#[derive(Clone, Copy, Debug, PartialEq, Eq, Structural)]
pub enum Replay {
    /// Into the working tree.
    Worktree,
    /// Into the index.
    Cached,
    /// Into the index, merging, with `rerere` off: this patch already
    /// conflicted once, which is when a stale recorded resolution would be
    /// substituted into it.
    CachedThreeWay,
}

pub open spec fn replay_text(replay: Replay, path: Seq<char>) -> Seq<char> {
    match replay {
        Replay::Worktree => "git apply "@ + path,
        Replay::Cached => "git apply --cached "@ + path,
        Replay::CachedThreeWay => "git -c rerere.enabled=false apply --cached --3way "@ + path,
    }
}

impl Replay {
    /// The command that replays the patch saved at `path`.
    pub fn command(self, path: &str) -> (s: String)
        ensures
            s@ == replay_text(self, path@),
    {
        match self {
            Replay::Worktree => message_with("git apply ", path),
            Replay::Cached => message_with("git apply --cached ", path),
            Replay::CachedThreeWay => message_with(
                "git -c rerere.enabled=false apply --cached --3way ",
                path,
            ),
        }
    }
}

pub open spec fn saved_text(replay: Replay, path: Seq<char>) -> Seq<char> {
    "those changes are saved as a patch — replay them with `"@ + replay_text(replay, path) + "`"@
}

pub open spec fn unsaved_text(e: Seq<char>) -> Seq<char> {
    "the patch of those changes could not be saved either ("@ + e + ")"@
}

/// What to say once a patch that could not be replayed has been parked:
/// where it went and how to replay it by hand, or, when even saving it
/// failed, that it could not be saved. An empty patch is neither saved nor
/// mentioned, so `saved` is only looked at for a non-empty one.
pub fn save_or_warn(patch: &str, replay: Replay, saved: &Result<String, String>) -> (r: Option<
    String,
>)
    ensures
        patch@.len() == 0 ==> r is None,
        patch@.len() > 0 ==> (r matches Some(s) && match saved {
            Ok(path) => s@ == saved_text(replay, path@),
            Err(e) => s@ == unsaved_text(e@),
        }),
{
    if patch.unicode_len() == 0 {
        return None;
    }
    match saved {
        Ok(path) => {
            let mut s = owned("those changes are saved as a patch — replay them with `");
            push_str(&mut s, replay.command(path.as_str()).as_str());
            push_str(&mut s, "`");
            Some(s)
        },
        Err(e) => {
            let mut s = owned("the patch of those changes could not be saved either (");
            push_str(&mut s, e.as_str());
            push_str(&mut s, ")");
            Some(s)
        },
    }
}

/// How many names a saved patch tries before giving up.
pub const SAVE_ATTEMPTS: u64 = 1000;

/// The file name of the `attempt`th try at saving a patch: `<name>-<n>.patch`.
/// Each is created exclusively and the counter climbs until a free name
/// turns up, so a save never writes over an earlier one.
pub fn patch_file_name(name: &str, attempt: u64) -> (s: String)
    ensures
        s@ == name@ + "-"@ + decimal(attempt as nat) + ".patch"@,
{
    let mut s = owned(name);
    push_str(&mut s, "-");
    push_str(&mut s, decimal_text(attempt).as_str());
    push_str(&mut s, ".patch");
    s
}

pub open spec fn all_taken_text(dir: Seq<char>, name: Seq<char>) -> Seq<char> {
    "'"@ + dir + "' already holds 1000 saved "@ + name + " patches"@
}

/// The error once every name of [`patch_file_name`] is taken.
pub fn all_names_taken(dir: &str, name: &str) -> (e: LoomError)
    ensures
        e.message@ == all_taken_text(dir@, name@),
        e.replayed_empty is None,
        !e.not_started,
{
    let mut s = owned("'");
    push_str(&mut s, dir);
    push_str(&mut s, "' already holds 1000 saved ");
    push_str(&mut s, name);
    push_str(&mut s, " patches");
    LoomError::new(s)
}

/// Parking a patch under the git dir's `loom` directory, `dir`.
pub struct ParkRun {
    pub dir: String,
    pub name: String,
    /// The name being tried: [`patch_file_name`] of `name` and this.
    pub attempt: u64,
    pub done: bool,
}

/// What parking a patch asks for next.
pub enum ParkAction {
    /// Create `<dir>/<file>` only if no such file exists, and write the
    /// patch to it; answer [`ParkEvent`].
    CreateNew(String),
    /// Finished: the file name the patch was saved under, `None` when there
    /// was nothing to save, or why it could not be saved.
    Finish(Result<Option<String>, String>),
}

pub enum ParkEvent {
    Created,
    /// A file of that name is already there.
    Exists,
    /// Creating or writing it failed, with this message.
    Failed(String),
}

/// The `k`th name tried.
pub open spec fn park_name(name: Seq<char>, k: nat) -> Seq<char> {
    name + "-"@ + decimal(k) + ".patch"@
}

/// Park `patch`: an empty one is not saved at all; otherwise the names
/// `<name>-0.patch`, `<name>-1.patch`, ... are tried in turn, each created
/// only if it does not exist, so the first free one is taken and no earlier
/// save is written over.
pub fn park_patch(dir: String, name: String, patch: &str) -> (r: (ParkRun, ParkAction))
    ensures
        r.0.dir == dir && r.0.name == name,
        patch@.len() == 0 ==> r.0.done && r.1 == ParkAction::Finish(Ok(None)),
        patch@.len() > 0 ==> !r.0.done && r.0.attempt == 0 && (r.1 matches ParkAction::CreateNew(f) && f@ == park_name(name@, 0)),
{
    if patch.unicode_len() == 0 {
        return (ParkRun { dir, name, attempt: 0, done: true }, ParkAction::Finish(Ok(None)));
    }
    let f = patch_file_name(name.as_str(), 0);
    (ParkRun { dir, name, attempt: 0, done: false }, ParkAction::CreateNew(f))
}

/// One step of [`park_patch`], `event` answering the last name tried.
pub fn park_step(s: ParkRun, event: ParkEvent) -> (r: (ParkRun, ParkAction))
    requires
        !s.done,
        s.attempt < SAVE_ATTEMPTS,
    ensures
        r.0.dir == s.dir && r.0.name == s.name,
        match event {
            ParkEvent::Created => r.0.done && (r.1 matches ParkAction::Finish(Ok(Some(f))) && f@ == park_name(s.name@, s.attempt as nat)),
            ParkEvent::Failed(m) => r.0.done && r.1 == ParkAction::Finish(Err::<Option<String>, String>(m)),
            ParkEvent::Exists => if s.attempt + 1 < SAVE_ATTEMPTS {
                !r.0.done && r.0.attempt == s.attempt + 1 && (r.1 matches ParkAction::CreateNew(f) && f@ == park_name(
                    s.name@,
                    (s.attempt + 1) as nat,
                ))
            } else {
                r.0.done && (r.1 matches ParkAction::Finish(Err(m)) && m@ == all_taken_text(s.dir@, s.name@))
            },
        },
{
    let ParkRun { dir, name, attempt, done } = s;
    match event {
        ParkEvent::Created => {
            let f = patch_file_name(name.as_str(), attempt);
            (ParkRun { dir, name, attempt, done: true }, ParkAction::Finish(Ok(Some(f))))
        },
        ParkEvent::Failed(m) => (ParkRun { dir, name, attempt, done: true }, ParkAction::Finish(Err(m))),
        ParkEvent::Exists => {
            if attempt + 1 < SAVE_ATTEMPTS {
                let f = patch_file_name(name.as_str(), attempt + 1);
                (ParkRun { dir, name, attempt: attempt + 1, done: false }, ParkAction::CreateNew(f))
            } else {
                let e = all_names_taken(dir.as_str(), name.as_str());
                (ParkRun { dir, name, attempt, done: true }, ParkAction::Finish(Err(e.message)))
            }
        },
    }
}

} // verus!

verus! {

/// A failed apply is undone only on what it wrote: every path restored is
/// one the working tree newly differs on, never one the user had already
/// changed; and when nothing newly differs there is nothing to restore —
/// never every path git knows.
pub proof fn restore_touches_only_written(before: Seq<Seq<char>>, after: Seq<Seq<char>>)
    ensures
        forall|p: Seq<char>|
            #[trigger] newly_written(before, after).contains(p) ==> after.contains(p)
                && !before.contains(p),
        (forall|p: Seq<char>| after.contains(p) ==> before.contains(p)) ==> newly_written(
            before,
            after,
        ).len() == 0,
{
    broadcast use vstd::seq_lib::group_filter_ensures;

    let pred = |p: Seq<char>| !before.contains(p);
    let w = newly_written(before, after);
    assert(w == after.filter(pred));
    assert forall|p: Seq<char>| #[trigger] w.contains(p) implies after.contains(p) && !before.contains(p) by {
        after.lemma_filter_contains_rev(pred, p);
        let i = choose|i: int| 0 <= i < w.len() && w[i] == p;
        after.lemma_filter_pred(pred, i);
    }
    if forall|p: Seq<char>| after.contains(p) ==> before.contains(p) {
        if w.len() > 0 {
            assert(w.contains(w[0]));
        }
    }
}

} // verus!

verus! {

/// A path as a pathspec that names exactly it, from the top of the tree:
/// no glob, whatever directory the user runs it from.
pub open spec fn pathspec(p: Seq<char>) -> Seq<char> {
    ":(top,literal)"@ + p
}

/// The pathspecs of the unmerged paths, in the order git listed them.
pub fn unmerged_pathspecs(paths: &[String]) -> (r: Vec<String>)
    ensures
        views(r@) == views(paths@).map_values(|p: Seq<char>| pathspec(p)),
{
    let mut r: Vec<String> = Vec::new();
    let mut i: usize = 0;
    while i < paths.len()
        invariant
            i <= paths@.len(),
            views(r@) == views(paths@).map_values(|p: Seq<char>| pathspec(p)).take(i as int),
        decreases paths.len() - i,
    {
        let ghost before = views(r@);
        r.push(message_with(":(top,literal)", paths[i].as_str()));
        proof {
            assert(views(r@) =~= before.push(pathspec(paths@[i as int]@)));
            assert(views(paths@).map_values(|p: Seq<char>| pathspec(p)).take(i + 1) =~= views(paths@).map_values(
                |p: Seq<char>| pathspec(p),
            ).take(i as int).push(pathspec(paths@[i as int]@)));
        }
        i = i + 1;
    }
    proof {
        assert(views(paths@).map_values(|p: Seq<char>| pathspec(p)).take(paths@.len() as int) =~= views(
            paths@,
        ).map_values(|p: Seq<char>| pathspec(p)));
    }
    r
}

/// `s` with each `'` written as `'\''`: its inside between single quotes.
pub open spec fn quote_escaped(s: Seq<char>) -> Seq<char>
    decreases s.len(),
{
    if s.len() == 0 {
        s
    } else {
        quote_escaped(s.drop_last()) + if s.last() == '\'' {
            "'\\''"@
        } else {
            seq![s.last()]
        }
    }
}

/// `s` between single quotes, so that a shell hands it over as one word.
pub open spec fn shell_quoted(s: Seq<char>) -> Seq<char> {
    "'"@ + quote_escaped(s) + "'"@
}

/// See [`shell_quoted`].
pub fn shell_quote(s: &str) -> (r: String)
    ensures
        r@ == shell_quoted(s@),
{
    let v = chars_of(s);
    let mut r = owned("'");
    let mut i: usize = 0;
    while i < v.len()
        invariant
            i <= v@.len(),
            v@ == s@,
            r@ == "'"@ + quote_escaped(v@.take(i as int)),
        decreases v.len() - i,
    {
        proof {
            assert(v@.take(i + 1).drop_last() =~= v@.take(i as int));
        }
        if v[i] == '\'' {
            push_str(&mut r, "'\\''");
        } else {
            push_char(&mut r, v[i]);
        }
        i = i + 1;
    }
    push_str(&mut r, "'");
    proof {
        assert(v@.take(v@.len() as int) =~= s@);
    }
    r
}

/// The hint when some unmerged path could not be decoded: a pathspec built
/// from it would match nothing, so the hint names none, and still keeps
/// the user off a `git reset` of the whole index, which would unstage what
/// the parked patch has no copy of.
pub open spec fn undecodable_hint_text() -> Seq<char> {
    "it left unmerged entries in the index — `git status` names them, and a `git reset` limited to those paths clears them"@
}

/// What to tell the user after a restore left conflict stages in the index:
/// nothing when there are none; otherwise the `git reset` that clears
/// exactly those paths, each pathspec quoted for the shell — unless one of
/// them holds U+FFFD, a name git reported in bytes that could not be read.
pub open spec fn reset_hint_text(specs: Seq<Seq<char>>) -> Option<Seq<char>> {
    if specs.len() == 0 {
        None
    } else if exists|i: int| 0 <= i < specs.len() && has_infix(#[trigger] specs[i], "\u{FFFD}"@) {
        Some(undecodable_hint_text())
    } else {
        Some(
            "it left unmerged entries in the index — `git reset -- "@ + join(
                specs.map_values(|p: Seq<char>| shell_quoted(p)),
                " "@,
            ) + "` clears them"@,
        )
    }
}

/// See [`reset_hint_text`].
pub fn reset_hint_for(specs: &[String]) -> (r: Option<String>)
    ensures
        match reset_hint_text(views(specs@)) {
            Some(h) => r matches Some(s) && s@ == h,
            None => r is None,
        },
{
    if specs.len() == 0 {
        return None;
    }
    let ghost sv = views(specs@);
    let mut quoted: Vec<String> = Vec::new();
    let mut i: usize = 0;
    while i < specs.len()
        invariant
            i <= specs@.len(),
            sv == views(specs@),
            forall|j: int| 0 <= j < i ==> !has_infix(#[trigger] sv[j], "\u{FFFD}"@),
            views(quoted@) == sv.map_values(|p: Seq<char>| shell_quoted(p)).take(i as int),
        decreases specs.len() - i,
    {
        if contains_str(specs[i].as_str(), "\u{FFFD}") {
            proof {
                assert(has_infix(sv[i as int], "\u{FFFD}"@));
            }
            return Some(
                owned(
                    "it left unmerged entries in the index — `git status` names them, and a `git reset` limited to those paths clears them",
                ),
            );
        }
        let ghost before = views(quoted@);
        quoted.push(shell_quote(specs[i].as_str()));
        proof {
            assert(views(quoted@) =~= before.push(shell_quoted(sv[i as int])));
            assert(sv.map_values(|p: Seq<char>| shell_quoted(p)).take(i + 1) =~= sv.map_values(
                |p: Seq<char>| shell_quoted(p),
            ).take(i as int).push(shell_quoted(sv[i as int])));
        }
        i = i + 1;
    }
    proof {
        assert(sv.map_values(|p: Seq<char>| shell_quoted(p)).take(specs@.len() as int) =~= sv.map_values(
            |p: Seq<char>| shell_quoted(p),
        ));
    }
    let mut s = owned("it left unmerged entries in the index — `git reset -- ");
    push_str(&mut s, join_texts(quoted.as_slice(), " ").as_str());
    push_str(&mut s, "` clears them");
    Some(s)
}

/// The hint for the unmerged `paths` ([`unmerged_pathspecs`],
/// [`reset_hint_text`]).
pub fn unmerged_reset_hint(paths: &[String]) -> (r: Option<String>)
    ensures
        match reset_hint_text(views(paths@).map_values(|p: Seq<char>| pathspec(p))) {
            Some(h) => r matches Some(s) && s@ == h,
            None => r is None,
        },
{
    let specs = unmerged_pathspecs(paths);
    reset_hint_for(specs.as_slice())
}

} // verus!
