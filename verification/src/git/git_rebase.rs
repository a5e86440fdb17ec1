//! Rebases: the commands that drive one, how they ended, and what loom does
//! at each stop it can account for on its own.
use vstd::prelude::*;

use crate::git::{
    abort_failed_cause, arg, captured, cuttable_hash, ls_files_output, nul_separated, short_hash,
    short_hash_spec, GitCommand, GitFailure, LoomError,
};
use crate::text::{
    chars_eq, chars_of, contains_text, has_prefix, lines, lines_of, owned, parse_usize,
    parse_usize_str, push_str, split, trim, trim_str, views,
};

verus! {

/// Outcome of a rebase operation.
#[derive(Debug, Clone, Copy, PartialEq, Eq, Structural)]
pub enum RebaseOutcome {
    /// The rebase finished and git left no state behind.
    Completed,
    /// git exited successfully but the rebase is still in progress: it stopped
    /// at an `edit` or `break` step.
    Paused,
    /// The rebase stopped part-way and git left its state on disk. A conflict
    /// is the usual reason, but not the only one.
    Stopped,
}

/// `git rebase --continue`.
pub fn continue_rebase() -> (c: GitCommand)
    ensures
        captured(c, seq!["rebase"@, "--continue"@]),
{
    let mut a: Vec<String> = Vec::new();
    arg(&mut a, "rebase");
    arg(&mut a, "--continue");
    proof {
        assert(views(a@) =~= seq!["rebase"@, "--continue"@]);
    }
    GitCommand::captured(a)
}

/// Classify how a `git rebase …` command ended, from whether it succeeded and
/// whether git left its state behind (`rebase-merge/` or `rebase-apply/`).
///
/// Exit 0 does not mean the rebase is over: git also exits 0 when it stops at
/// an `edit` or `break` step (`Paused`). A failure that left state behind is
/// `Stopped`, whatever stopped it; any other failure (bad args, missing ref)
/// is returned as the error.
pub fn rebase_outcome(in_progress: bool, result: Result<(), GitFailure>) -> (r: Result<
    RebaseOutcome,
    GitFailure,
>)
    ensures
        result is Ok && in_progress ==> r == Ok::<RebaseOutcome, GitFailure>(RebaseOutcome::Paused),
        result is Ok && !in_progress ==> r == Ok::<RebaseOutcome, GitFailure>(
            RebaseOutcome::Completed,
        ),
        result is Err && in_progress ==> r == Ok::<RebaseOutcome, GitFailure>(
            RebaseOutcome::Stopped,
        ),
        result is Err && !in_progress ==> (r matches Err(f) && f == result->Err_0),
{
    match result {
        Ok(()) => if in_progress {
            Ok(RebaseOutcome::Paused)
        } else {
            Ok(RebaseOutcome::Completed)
        },
        Err(e) => if in_progress {
            Ok(RebaseOutcome::Stopped)
        } else {
            Err(e)
        },
    }
}

/// A plain `git rebase` onto `upstream`, carrying branch refs and merges
/// along; see [`rebase_outcome`] for the result.
pub fn rebase(upstream: &str) -> (c: GitCommand)
    ensures
        captured(
            c,
            seq!["rebase"@, "--autostash"@, "--update-refs"@, "--rebase-merges"@, upstream@],
        ),
{
    let mut a: Vec<String> = Vec::new();
    arg(&mut a, "rebase");
    arg(&mut a, "--autostash");
    arg(&mut a, "--update-refs");
    arg(&mut a, "--rebase-merges");
    arg(&mut a, upstream);
    proof {
        assert(views(a@) =~= seq![
            "rebase"@,
            "--autostash"@,
            "--update-refs"@,
            "--rebase-merges"@,
            upstream@,
        ]);
    }
    GitCommand::captured(a)
}

/// Rebase the commits between `upstream` and HEAD onto `newbase`
/// (`git rebase --onto <newbase> <upstream> --update-refs`), keeping branch
/// refs in the range up to date.
pub fn rebase_onto(newbase: &str, upstream: &str) -> (c: GitCommand)
    ensures
        captured(
            c,
            seq![
                "rebase"@,
                "--onto"@,
                newbase@,
                upstream@,
                "--autostash"@,
                "--update-refs"@,
            ],
        ),
{
    let mut a: Vec<String> = Vec::new();
    arg(&mut a, "rebase");
    arg(&mut a, "--onto");
    arg(&mut a, newbase);
    arg(&mut a, upstream);
    arg(&mut a, "--autostash");
    arg(&mut a, "--update-refs");
    proof {
        assert(views(a@) =~= seq![
            "rebase"@,
            "--onto"@,
            newbase@,
            upstream@,
            "--autostash"@,
            "--update-refs"@,
        ]);
    }
    GitCommand::captured(a)
}

/// `git rebase --abort`.
pub fn rebase_abort() -> (c: GitCommand)
    ensures
        captured(c, seq!["rebase"@, "--abort"@]),
{
    let mut a: Vec<String> = Vec::new();
    arg(&mut a, "rebase");
    arg(&mut a, "--abort");
    proof {
        assert(views(a@) =~= seq!["rebase"@, "--abort"@]);
    }
    GitCommand::captured(a)
}

/// `git rebase --skip`.
pub fn rebase_skip() -> (c: GitCommand)
    ensures
        captured(c, seq!["rebase"@, "--skip"@]),
{
    let mut a: Vec<String> = Vec::new();
    arg(&mut a, "rebase");
    arg(&mut a, "--skip");
    proof {
        assert(views(a@) =~= seq!["rebase"@, "--skip"@]);
    }
    GitCommand::captured(a)
}

/// What a rebase replay preserves: the author and the message, never the
/// hash (`git show -s --format=%an%x00%ae%x00%at%x00%B <rev>`).
///
/// Not unique — a repeated `wip` by one author in the same second collides —
/// so it backstops [`skip_empty_stops`] rather than carrying the guarantee.
pub fn replay_identity(rev: &str) -> (c: GitCommand)
    ensures
        captured(c, seq!["show"@, "-s"@, "--format=%an%x00%ae%x00%at%x00%B"@, rev@]),
{
    let mut a: Vec<String> = Vec::new();
    arg(&mut a, "show");
    arg(&mut a, "-s");
    arg(&mut a, "--format=%an%x00%ae%x00%at%x00%B");
    arg(&mut a, rev);
    proof {
        assert(views(a@) =~= seq!["show"@, "-s"@, "--format=%an%x00%ae%x00%at%x00%B"@, rev@]);
    }
    GitCommand::captured(a)
}

/// Whether two commit SHAs name the same commit, either one abbreviated:
/// neither is empty, and the shorter is how the longer begins.
///
/// The abbreviated side is always a todo's own hash, the shortest prefix
/// unambiguous in the repository, so a shared prefix is the same commit.
pub open spec fn same_commit(a: Seq<char>, b: Seq<char>) -> bool {
    a.len() > 0 && b.len() > 0 && (has_prefix(a, b) || has_prefix(b, a))
}

/// See [`same_commit`].
pub fn shas_match(a: &str, b: &str) -> (r: bool)
    ensures
        r == same_commit(a@, b@),
{
    let va = chars_of(a);
    let vb = chars_of(b);
    va.len() > 0 && vb.len() > 0 && (crate::text::starts_with(&va, &vb)
        || crate::text::starts_with(&vb, &va))
}

/// The commit `--empty=stop` stopped on, from the contents of
/// `rebase-merge/stopped-sha` when that file could be read.
pub open spec fn stopped_sha_spec(file: Option<Seq<char>>) -> Option<Seq<char>> {
    match file {
        Some(text) => if trim(text).len() > 0 {
            Some(trim(text))
        } else {
            None
        },
        None => None,
    }
}

/// See [`stopped_sha_spec`].
pub fn stopped_sha(file: Option<&str>) -> (r: Option<String>)
    ensures
        match file {
            Some(f) => match stopped_sha_spec(Some(f@)) {
                Some(s) => r matches Some(x) && x@ == s,
                None => r is None,
            },
            None => r is None,
        },
{
    match file {
        None => None,
        Some(text) => {
            let sha = trim_str(text);
            if sha.as_str().unicode_len() == 0 {
                None
            } else {
                Some(sha)
            }
        },
    }
}

/// `git status --porcelain --untracked-files=no --ignore-submodules=dirty`:
/// what [`has_local_changes`] reads. A submodule's own worktree is not the
/// superproject's to lose: autostash never stashes it, so counting it would
/// deadlock every empty stop. A gitlink the index does move still shows.
pub fn local_changes_status() -> (c: GitCommand)
    ensures
        captured(
            c,
            seq![
                "status"@,
                "--porcelain"@,
                "--untracked-files=no"@,
                "--ignore-submodules=dirty"@,
            ],
        ),
{
    let mut a: Vec<String> = Vec::new();
    arg(&mut a, "status");
    arg(&mut a, "--porcelain");
    arg(&mut a, "--untracked-files=no");
    arg(&mut a, "--ignore-submodules=dirty");
    proof {
        assert(views(a@) =~= seq![
            "status"@,
            "--porcelain"@,
            "--untracked-files=no"@,
            "--ignore-submodules=dirty"@,
        ]);
    }
    GitCommand::captured(a)
}

/// Whether the worktree or index carries changes that `git rebase --skip`, a
/// hard reset, would throw away, from what [`local_changes_status`] printed.
/// Untracked files survive a skip. A git that cannot answer counts as
/// changed: not knowing is never a license to reset.
pub fn has_local_changes(status: Option<&str>) -> (r: bool)
    ensures
        match status {
            Some(out) => r == (trim(out@).len() > 0),
            None => r,
        },
{
    match status {
        None => true,
        Some(out) => trim_str(out).as_str().unicode_len() > 0,
    }
}

/// `git rev-parse HEAD^{tree}`.
pub fn head_tree() -> (c: GitCommand)
    ensures
        captured(c, seq!["rev-parse"@, "HEAD^{tree}"@]),
{
    let mut a: Vec<String> = Vec::new();
    arg(&mut a, "rev-parse");
    arg(&mut a, "HEAD^{tree}");
    proof {
        assert(views(a@) =~= seq!["rev-parse"@, "HEAD^{tree}"@]);
    }
    GitCommand::captured(a)
}

/// `git merge-tree --write-tree --merge-base <sha>^ HEAD <sha>`: the tree a
/// replay of `sha` on top of HEAD would leave, as its first line.
pub fn replay_tree(sha: &str) -> (c: GitCommand)
    ensures
        captured(
            c,
            seq![
                "merge-tree"@,
                "--write-tree"@,
                "--merge-base"@,
                sha@ + "^"@,
                "HEAD"@,
                sha@,
            ],
        ),
{
    let mut a: Vec<String> = Vec::new();
    arg(&mut a, "merge-tree");
    arg(&mut a, "--write-tree");
    arg(&mut a, "--merge-base");
    let mut parent = owned(sha);
    push_str(&mut parent, "^");
    let ghost before = views(a@);
    let ghost pv = parent@;
    a.push(parent);
    proof {
        assert(views(a@) =~= before.push(pv));
    }
    arg(&mut a, "HEAD");
    arg(&mut a, sha);
    proof {
        assert(views(a@) =~= seq![
            "merge-tree"@,
            "--write-tree"@,
            "--merge-base"@,
            sha@ + "^"@,
            "HEAD"@,
            sha@,
        ]);
    }
    GitCommand::captured(a)
}

/// Whether replaying a commit on top of HEAD would produce nothing, from
/// [`head_tree`] and [`replay_tree`]: the tree the merge writes is HEAD's.
///
/// The same question the sequencer asked, because the answer decides
/// whether `git rebase --skip`, a hard reset, runs. Anything git cannot
/// answer — a root commit with no `^`, a conflicting merge, a git that failed
/// to run — says no.
pub open spec fn replays_empty_spec(head: Option<Seq<char>>, merged: Option<Seq<char>>) -> bool {
    match (head, merged) {
        (Some(h), Some(m)) => lines(m).len() > 0 && trim(lines(m)[0]) == trim(h),
        _ => false,
    }
}

/// See [`replays_empty_spec`].
pub fn replays_empty(head: Option<&str>, merged: Option<&str>) -> (r: bool)
    ensures
        r == replays_empty_spec(
            match head {
                Some(h) => Some(h@),
                None => None,
            },
            match merged {
                Some(m) => Some(m@),
                None => None,
            },
        ),
{
    match (head, merged) {
        (Some(h), Some(m)) => {
            let mv = chars_of(m);
            let ls = lines_of(&mv);
            if ls.len() == 0 {
                return false;
            }
            let first = crate::text::trimmed(&ls[0]);
            let tree = trim_str(h);
            chars_eq(&chars_of(first.as_str()), &chars_of(tree.as_str()))
        },
        _ => false,
    }
}



/// Commits a replay must not drop as empty, split by whose they are: only a
/// commit the user named is theirs to `loom drop`.
#[derive(Debug, Clone, Default)]
pub struct Protected {
    /// Every other protected commit: the ones loom rewrites or moves.
    pub named: Vec<String>,
    /// Commits the operation lands on, such as a fold or absorb target:
    /// dropping one leaves it nothing to land on.
    pub targets: Vec<String>,
}

impl Protected {
    /// The commits loom rewrites or moves, and no target.
    pub fn named(named: Vec<String>) -> (p: Protected)
        ensures
            p.named == named,
            p.targets@.len() == 0,
    {
        Protected { named, targets: Vec::new() }
    }

    /// The same, with the commits the operation lands on.
    pub fn targeting(self, targets: Vec<String>) -> (p: Protected)
        ensures
            p.named == self.named,
            p.targets == targets,
    {
        Protected { named: self.named, targets }
    }
}

/// Some hash of the list names the same commit as `sha`.
pub open spec fn names_commit(list: Seq<String>, sha: Seq<char>) -> bool {
    exists|i: int| 0 <= i < list.len() && same_commit(list[i]@, sha)
}

fn any_names(list: &[String], sha: &str) -> (r: bool)
    ensures
        r == names_commit(list@, sha@),
{
    let mut i: usize = 0;
    while i < list.len()
        invariant
            i <= list@.len(),
            forall|k: int| 0 <= k < i ==> !same_commit(list@[k]@, sha@),
        decreases list.len() - i,
    {
        if shas_match(list[i].as_str(), sha) {
            return true;
        }
        i = i + 1;
    }
    false
}

/// The first line of the empty-replay refusal, wherever it is reported.
pub const REPLAYS_EMPTY: &'static str = "is redundant — the history below it already has its change";

pub open spec fn replays_empty_text() -> Seq<char> {
    "is redundant — the history below it already has its change"@
}

/// What the repository says about a stop, as [`skip_empty_stops`] needs it:
/// whether the index holds conflict stages, the commit git recorded as
/// `stopped-sha`, whether replaying that commit on HEAD changes nothing
/// ([`replays_empty`]), and whether the tree carries work a reset would lose
/// ([`has_local_changes`]).
pub struct EmptyStopFacts {
    pub unmerged: bool,
    pub stopped_sha: Option<String>,
    pub replays_empty: bool,
    pub dirty: bool,
}

/// What [`skip_empty_stops`] does at a stop.
#[derive(Debug)]
pub enum SkipStep {
    /// Hand the outcome back: a stop this cannot account for, or none.
    Done,
    /// Refuse, leaving the rebase where it is.
    Refuse(LoomError),
    /// Refuse, rolling the rebase back first ([`rebase_abort_then_cleanup`]).
    RollBack(LoomError),
    /// `git rebase --skip` past this commit, which already is in the history
    /// below it, then look at the next stop.
    Skip(String),
}

pub open spec fn redundant_dirty_text(short: Seq<char>) -> Seq<char> {
    "Commit `"@ + short + "` "@ + replays_empty_text()
        + "\nYour uncommitted changes are in the way of the undo — commit or stash them, then run `loom abort`"@
}

pub open spec fn redundant_clean_text(short: Seq<char>, is_target: bool) -> Seq<char> {
    "Commit `"@ + short + "` "@ + replays_empty_text()
        + "\nNothing was rewritten. Run `loom update` if it landed upstream"@ + if is_target {
        Seq::<char>::empty()
    } else {
        ", or `loom drop "@ + short + " -y` to remove it now"@
    }
}

/// Which of the four things [`skip_empty_stops`] does at a stop.
pub enum SkipKind {
    Done,
    Refuse,
    RollBack,
    Skip,
}

/// See [`skip_empty_stops`].
pub open spec fn skip_kind(
    outcome: RebaseOutcome,
    protected: Protected,
    skipped: Seq<String>,
    facts: EmptyStopFacts,
) -> SkipKind {
    if !(outcome == RebaseOutcome::Stopped && !facts.unmerged) {
        SkipKind::Done
    } else {
        match facts.stopped_sha {
            None => SkipKind::Done,
            Some(sha) => if !facts.replays_empty {
                SkipKind::Done
            } else if names_commit(protected.targets@, sha@) || names_commit(protected.named@, sha@) {
                if facts.dirty {
                    SkipKind::Refuse
                } else {
                    SkipKind::RollBack
                }
            } else if facts.dirty || views(skipped).contains(sha@) {
                SkipKind::Done
            } else {
                SkipKind::Skip
            },
        }
    }
}

/// One stop of [`skip_empty_stops`]: carry a rebase past a commit whose
/// changes the new history already has, refusing when it is protected.
///
/// A skip is a hard reset, so it runs only where the repository itself says
/// the commit would add nothing, and never over a tree carrying local
/// changes. Whether the history already has the commit does not depend on
/// the tree, so a protected commit is refused either way — but over work the
/// user did while the rebase was paused, the rollback (another hard reset)
/// is not attempted. A commit already skipped once is not skipped again: a
/// `--skip` that leaves the rebase where it was would loop.
pub fn skip_empty_stops(
    outcome: RebaseOutcome,
    protected: &Protected,
    skipped_already: &[String],
    facts: &EmptyStopFacts,
) -> (r: SkipStep)
    requires
        facts.stopped_sha matches Some(sha) ==> cuttable_hash(sha@),
    ensures
        match skip_kind(outcome, *protected, skipped_already@, *facts) {
            SkipKind::Done => r is Done,
            SkipKind::Refuse => r matches SkipStep::Refuse(e) && e.replayed_empty == facts.stopped_sha,
            SkipKind::RollBack => r matches SkipStep::RollBack(e) && e.replayed_empty == facts.stopped_sha,
            SkipKind::Skip => r matches SkipStep::Skip(s) && facts.stopped_sha == Some(s),
        },
        !(outcome == RebaseOutcome::Stopped && !facts.unmerged) ==> r is Done,
        outcome == RebaseOutcome::Stopped && !facts.unmerged ==> match facts.stopped_sha {
            None => r is Done,
            Some(sha) => {
                let short = short_hash_spec(sha@);
                let is_target = names_commit(protected.targets@, sha@);
                let is_named = names_commit(protected.named@, sha@);
                if !facts.replays_empty {
                    r is Done
                } else if is_target || is_named {
                    if facts.dirty {
                        r matches SkipStep::Refuse(e) && e.message@ == redundant_dirty_text(short)
                            && e.replayed_empty == Some(sha) && !e.not_started
                    } else {
                        r matches SkipStep::RollBack(e) && e.message@ == redundant_clean_text(
                            short,
                            is_target,
                        ) && e.replayed_empty == Some(sha) && !e.not_started
                    }
                } else if facts.dirty || views(skipped_already@).contains(sha@) {
                    r is Done
                } else {
                    r matches SkipStep::Skip(s) && s == sha
                }
            },
        },
{
    if !(outcome == RebaseOutcome::Stopped && !facts.unmerged) {
        return SkipStep::Done;
    }
    let sha = match &facts.stopped_sha {
        None => return SkipStep::Done,
        Some(sha) => sha,
    };
    if !facts.replays_empty {
        return SkipStep::Done;
    }
    let short = short_hash(sha.as_str());
    let is_target = any_names(&protected.targets, sha.as_str());
    if is_target || any_names(&protected.named, sha.as_str()) {
        let mut message = owned("Commit `");
        push_str(&mut message, short.as_str());
        push_str(&mut message, "` ");
        push_str(&mut message, REPLAYS_EMPTY);
        if facts.dirty {
            push_str(
                &mut message,
                "\nYour uncommitted changes are in the way of the undo — commit or stash them, then run `loom abort`",
            );
            return SkipStep::Refuse(
                LoomError { message, replayed_empty: Some(sha.clone()), not_started: false },
            );
        }
        push_str(&mut message, "\nNothing was rewritten. Run `loom update` if it landed upstream");
        if !is_target {
            push_str(&mut message, ", or `loom drop ");
            push_str(&mut message, short.as_str());
            push_str(&mut message, " -y` to remove it now");
        }
        proof {
            if is_target {
                assert(message@ =~= redundant_clean_text(short@, is_target));
            }
        }
        return SkipStep::RollBack(
            LoomError { message, replayed_empty: Some(sha.clone()), not_started: false },
        );
    }
    if facts.dirty {
        return SkipStep::Done;
    }
    if contains_text(skipped_already, sha) {
        return SkipStep::Done;
    }
    SkipStep::Skip(sha.clone())
}

pub open spec fn dropped_text(short: Seq<char>) -> Seq<char> {
    "Dropped `"@ + short + "` — the history below it already has its change"@
}

/// The warning once [`skip_empty_stops`] skipped a commit.
pub fn dropped_warning(sha: &str) -> (s: String)
    requires
        cuttable_hash(sha@),
    ensures
        s@ == dropped_text(short_hash_spec(sha@)),
{
    let mut s = owned("Dropped `");
    push_str(&mut s, short_hash(sha).as_str());
    push_str(&mut s, "` — the history below it already has its change");
    s
}

/// Which conflict stop a rebase is on: the `AUTO_MERGE` id git wrote for it
/// and the step that produced it.
///
/// The id alone does not name a stop — two steps merging the same commit into
/// the same tree write the same `AUTO_MERGE` — and neither does the step
/// number, which a step that fails to commit keeps.
#[derive(Debug)]
pub struct StopId {
    pub auto_merge: String,
    pub step: Option<usize>,
}

pub open spec fn same_stop(a: StopId, b: StopId) -> bool {
    a.auto_merge@ == b.auto_merge@ && a.step == b.step
}

impl StopId {
    /// The `AUTO_MERGE` id alone, for callers that only ask whether git moved
    /// on to another conflict.
    pub fn auto_merge(&self) -> (s: &str)
        ensures
            s@ == self.auto_merge@,
    {
        self.auto_merge.as_str()
    }

    /// Whether two ids name the same stop.
    pub fn same(&self, other: &StopId) -> (r: bool)
        ensures
            r == same_stop(*self, *other),
    {
        self.step == other.step && chars_eq(
            &chars_of(self.auto_merge.as_str()),
            &chars_of(other.auto_merge.as_str()),
        )
    }

    /// A copy of the id.
    pub fn duplicate(&self) -> (r: StopId)
        ensures
            r == *self,
    {
        StopId { auto_merge: self.auto_merge.clone(), step: self.step }
    }
}

/// The stop git is on, from its `AUTO_MERGE` id ([`auto_merge_id`]) and
/// its step ([`rebase_progress`]); `None` when it is on none: a stop without
/// an `AUTO_MERGE` did not come from a conflict.
pub fn stop_id(auto_merge: Option<String>, progress: Option<(usize, usize)>) -> (r: Option<StopId>)
    ensures
        match auto_merge {
            None => r is None,
            Some(id) => r matches Some(s) && s.auto_merge == id && s.step == match progress {
                Some((current, _)) => Some(current),
                None => None,
            },
        },
{
    match auto_merge {
        None => None,
        Some(id) => Some(
            StopId {
                auto_merge: id,
                step: match progress {
                    Some((current, _)) => Some(current),
                    None => None,
                },
            },
        ),
    }
}

/// Step numbers of a paused rebase as `(current, total)`, from the contents
/// of the `msgnum` and `end` files in git's rebase state dir when they could
/// be read; `None` when either is missing or not a number.
pub fn rebase_progress(msgnum: Option<&str>, end: Option<&str>) -> (r: Option<(usize, usize)>)
    ensures
        match (msgnum, end) {
            (Some(m), Some(e)) => match (parse_usize(trim(m@)), parse_usize(trim(e@))) {
                (Some(a), Some(b)) => r == Some((a, b)),
                _ => r is None,
            },
            _ => r is None,
        },
{
    match (msgnum, end) {
        (Some(m), Some(e)) => {
            let a = parse_usize_str(trim_str(m).as_str());
            let b = parse_usize_str(trim_str(e).as_str());
            match (a, b) {
                (Some(a), Some(b)) => Some((a, b)),
                _ => None,
            }
        },
        _ => None,
    }
}

/// `git rev-parse --verify --quiet AUTO_MERGE`: the ref git keeps while a
/// conflicted merge is unfinished — a conflicted pick during a rebase
/// included — and drops once the resolution is committed. Asked of git
/// rather than looked for as a file: the reftable backend keeps no file of
/// that name.
pub fn auto_merge_id() -> (c: GitCommand)
    ensures
        captured(c, seq!["rev-parse"@, "--verify"@, "--quiet"@, "AUTO_MERGE"@]),
{
    let mut a: Vec<String> = Vec::new();
    arg(&mut a, "rev-parse");
    arg(&mut a, "--verify");
    arg(&mut a, "--quiet");
    arg(&mut a, "AUTO_MERGE");
    proof {
        assert(views(a@) =~= seq!["rev-parse"@, "--verify"@, "--quiet"@, "AUTO_MERGE"@]);
    }
    GitCommand::captured(a)
}

/// The id [`auto_merge_id`] printed; `None` when git failed or printed
/// nothing. `Some` means the stop came from a conflict, resolved or not,
/// and the id names which one.
pub fn auto_merge_id_output(stdout: Option<&str>) -> (r: Option<String>)
    ensures
        match stdout {
            Some(out) => if trim(out@).len() > 0 {
                r matches Some(id) && id@ == trim(out@)
            } else {
                r is None
            },
            None => r is None,
        },
{
    match stdout {
        None => None,
        Some(out) => {
            let id = trim_str(out);
            if id.as_str().unicode_len() == 0 {
                None
            } else {
                Some(id)
            }
        },
    }
}

/// `git diff -z --name-only --diff-filter=U`: the paths the index holds
/// conflict stages for.
pub fn unmerged_paths() -> (c: GitCommand)
    ensures
        captured(c, seq!["diff"@, "-z"@, "--name-only"@, "--diff-filter=U"@]),
{
    let mut a: Vec<String> = Vec::new();
    arg(&mut a, "diff");
    arg(&mut a, "-z");
    arg(&mut a, "--name-only");
    arg(&mut a, "--diff-filter=U");
    proof {
        assert(views(a@) =~= seq!["diff"@, "-z"@, "--name-only"@, "--diff-filter=U"@]);
    }
    GitCommand::captured(a)
}

/// The paths [`unmerged_paths`] printed. Empty when git could not be asked,
/// so a caller that cannot tell reads it as no conflict.
pub fn unmerged_paths_output(stdout: Option<&str>) -> (r: Vec<String>)
    ensures
        match stdout {
            Some(out) => views(r@) == nul_separated(out@),
            None => r@.len() == 0,
        },
{
    match stdout {
        None => Vec::new(),
        Some(out) => ls_files_output(out),
    }
}

/// Whether the index has unmerged entries — i.e. the operation really did
/// stop on a conflict — from what [`unmerged_paths`] printed.
pub fn has_unmerged_paths(stdout: Option<&str>) -> (r: bool)
    ensures
        match stdout {
            Some(out) => r == (nul_separated(out@).len() > 0),
            None => !r,
        },
{
    unmerged_paths_output(stdout).len() > 0
}

/// `git config --bool --get rerere.autoUpdate`.
pub fn rerere_auto_update_setting() -> (c: GitCommand)
    ensures
        captured(c, seq!["config"@, "--bool"@, "--get"@, "rerere.autoUpdate"@]),
{
    let mut a: Vec<String> = Vec::new();
    arg(&mut a, "config");
    arg(&mut a, "--bool");
    arg(&mut a, "--get");
    arg(&mut a, "rerere.autoUpdate");
    proof {
        assert(views(a@) =~= seq!["config"@, "--bool"@, "--get"@, "rerere.autoUpdate"@]);
    }
    GitCommand::captured(a)
}

/// Whether `rerere.autoUpdate` is on, from [`rerere_auto_update_setting`]:
/// then git stages each resolution it replays, and the user has opted out
/// of reviewing one before it is taken.
pub fn rerere_auto_updates(stdout: Option<&str>) -> (r: bool)
    ensures
        match stdout {
            Some(out) => r == (trim(out@) == "true"@),
            None => !r,
        },
{
    match stdout {
        None => false,
        Some(out) => chars_eq(&chars_of(trim_str(out).as_str()), &chars_of("true")),
    }
}

/// `git write-tree`: the tree the index holds.
pub fn write_tree() -> (c: GitCommand)
    ensures
        captured(c, seq!["write-tree"@]),
{
    let mut a: Vec<String> = Vec::new();
    arg(&mut a, "write-tree");
    proof {
        assert(views(a@) =~= seq!["write-tree"@]);
    }
    GitCommand::captured(a)
}

/// Whether the staged resolution leaves HEAD's tree as it is, from
/// [`write_tree`] and [`head_tree`]: git would then drop the commit on
/// `--continue`, even under `--empty=stop`, so a protected commit could
/// vanish unseen. Anything git cannot answer says yes.
pub fn resolves_to_head(index: Option<&str>, head: Option<&str>) -> (r: bool)
    ensures
        match (index, head) {
            (Some(i), Some(h)) => r == (trim(i@) == trim(h@)),
            _ => r,
        },
{
    match (index, head) {
        (Some(i), Some(h)) => chars_eq(
            &chars_of(trim_str(i).as_str()),
            &chars_of(trim_str(h).as_str()),
        ),
        _ => true,
    }
}

/// What the repository says about a stop, as [`rerere_continue_step`] needs
/// it: which stop it is ([`stop_id`]), whether the index holds conflict
/// stages, whether `rerere.autoUpdate` is on, and whether the staged
/// resolution leaves HEAD's tree as it is.
pub struct RerereFacts {
    pub stop: Option<StopId>,
    pub unmerged: bool,
    pub auto_update: bool,
    pub resolves_to_head: bool,
}

/// What the rerere loop does at a stop.
#[derive(Debug)]
pub enum RerereStep {
    /// Hand the outcome back; nothing to remember.
    Done,
    /// Hand the outcome back, remembering this stop as seen.
    Hold(StopId),
    /// Remember this stop and `git rebase --continue` past it with the
    /// resolution `rerere` replayed.
    Carry(StopId),
}

/// Some stop of the list is `id`.
pub open spec fn seen(carried: Seq<StopId>, id: StopId) -> bool {
    exists|i: int| 0 <= i < carried.len() && same_stop(carried[i], id)
}

/// One stop of the loop that continues past every stop `rerere` resolved.
///
/// A stop with an `AUTO_MERGE` came from a conflict, and with
/// `rerere.autoUpdate` one left with nothing unmerged is a resolution
/// `rerere` replayed and staged, so loom takes it and carries on. Without that
/// setting the user asked to review each replay, so the stop is theirs.
/// `carried` holds the stops already continued past, so a step that fails
/// for another reason — a hook turning the commit down — is handed back
/// rather than retried for ever. A resolution that leaves HEAD's tree alone
/// is handed back too: git would drop the commit.
pub fn rerere_continue_step(outcome: RebaseOutcome, carried: &[StopId], facts: &RerereFacts) -> (r:
    RerereStep)
    ensures
        outcome != RebaseOutcome::Stopped ==> r is Done,
        outcome == RebaseOutcome::Stopped ==> match facts.stop {
            None => r is Done,
            Some(id) => if seen(carried@, id) {
                r is Done
            } else if facts.unmerged || !facts.auto_update || facts.resolves_to_head {
                r matches RerereStep::Hold(h) && h == id
            } else {
                r matches RerereStep::Carry(c) && c == id
            },
        },
{
    if outcome != RebaseOutcome::Stopped {
        return RerereStep::Done;
    }
    let id = match &facts.stop {
        None => return RerereStep::Done,
        Some(id) => id,
    };
    let mut i: usize = 0;
    while i < carried.len()
        invariant
            i <= carried@.len(),
            outcome == RebaseOutcome::Stopped,
            facts.stop == Some(*id),
            forall|k: int| 0 <= k < i ==> !same_stop(carried@[k], *id),
        decreases carried.len() - i,
    {
        if carried[i].same(id) {
            assert(same_stop(carried@[i as int], *id));
            return RerereStep::Done;
        }
        i = i + 1;
    }
    if facts.unmerged || !facts.auto_update || facts.resolves_to_head {
        RerereStep::Hold(id.duplicate())
    } else {
        RerereStep::Carry(id.duplicate())
    }
}

/// Whether a `git rebase --continue` past the stop `id` carried the rebase
/// anywhere: still stopped on that same stop, the commit was turned down.
pub fn carried_past(next: RebaseOutcome, id: &StopId, now: &Option<StopId>) -> (r: bool)
    ensures
        r == !(next == RebaseOutcome::Stopped && (now matches Some(n) && same_stop(*n, *id))),
{
    match now {
        Some(n) => !(next == RebaseOutcome::Stopped && n.same(id)),
        None => true,
    }
}

pub open spec fn rerere_text(stopped: Option<Seq<char>>) -> Seq<char> {
    "`rerere` resolved the conflicts"@ + match stopped {
        Some(sha) => " replaying `"@ + short_hash_spec(sha) + "`"@,
        None => Seq::<char>::empty(),
    } + " — carried on with its recorded resolution"@
}

/// The warning once the rerere loop carried past a stop, naming the commit
/// being replayed when git recorded it (read before the continue, which
/// leaves that stop behind).
pub fn rerere_warning(stopped: &Option<String>) -> (s: String)
    requires
        stopped matches Some(sha) ==> cuttable_hash(sha@),
    ensures
        s@ == rerere_text(
            match stopped {
                Some(sha) => Some(sha@),
                None => None,
            },
        ),
{
    let mut s = owned("`rerere` resolved the conflicts");
    match stopped {
        Some(sha) => {
            push_str(&mut s, " replaying `");
            push_str(&mut s, short_hash(sha.as_str()).as_str());
            push_str(&mut s, "`");
        },
        None => {},
    }
    push_str(&mut s, " — carried on with its recorded resolution");
    s
}

pub open spec fn abort_failed_text(cause: Seq<char>) -> Seq<char> {
    cause
        + "\nThe abort failed too, so the repository is left mid-rebase.\nRun `loom abort` once git is free ("@
        + abort_failed_cause() + ")"@
}

/// Roll `cause` back: what is left once it is known whether a rebase is
/// still on disk and, when one was, whether aborting it worked. Returns
/// whether the caller's cleanup runs, and the error to report.
///
/// The cleanup a caller wants here — deleting a temp branch, resetting refs,
/// restoring a saved patch, dropping the state file — assumes no rebase is
/// under way. So it runs in exactly two cases: the abort succeeded, or there
/// was no rebase to abort (`abort_ok` is then not consulted: no abort ran).
/// Only a rebase still running after a failed abort skips it, because
/// resetting refs on top of that would make the mess worse. The error always
/// keeps `cause` visible.
pub fn rebase_abort_then_cleanup(cause: LoomError, rebase_over: bool, abort_ok: bool) -> (r: (
    bool,
    LoomError,
))
    ensures
        r.0 == (rebase_over || abort_ok),
        has_prefix(r.1.message@, cause.message@),
        rebase_over || abort_ok ==> r.1 == cause,
        !(rebase_over || abort_ok) ==> r.1.message@ == abort_failed_text(cause.message@)
            && r.1.replayed_empty is None && !r.1.not_started,
{
    if rebase_over || abort_ok {
        proof {
            assert(cause.message@.take(cause.message@.len() as int) =~= cause.message@);
        }
        (true, cause)
    } else {
        let ghost c = cause.message@;
        let mut message = cause.message;
        push_str(
            &mut message,
            "\nThe abort failed too, so the repository is left mid-rebase.\nRun `loom abort` once git is free (",
        );
        push_str(&mut message, crate::git::ABORT_FAILED_CAUSE);
        push_str(&mut message, ")");
        proof {
            assert(message@.take(c.len() as int) =~= c);
        }
        (false, LoomError::new(message))
    }
}

pub open spec fn abort_after_failure_text(conflicted: bool, abort_ok: bool) -> Seq<char> {
    if !abort_ok {
        "Rebase failed, and the abort failed too — the repository is left mid-rebase.\nRun `loom abort` once git is free ("@
            + abort_failed_cause() + ")."@
    } else if conflicted {
        "Rebase failed with conflicts — aborted"@
    } else {
        "Rebase stopped before finishing — aborted\nRun `loom trace` to see why"@
    }
}

/// The error to report once a rebase that failed was aborted, or the abort
/// failed too. `conflicted` is whether it stopped on a conflict (unmerged
/// paths or an `AUTO_MERGE`, asked before the abort): a stale `index.lock`
/// or a concurrent git process stops a rebase too, and saying "aborted" when
/// the abort failed would strand the user in a half-rewritten repository.
pub fn abort_after_failure(conflicted: bool, abort_ok: bool) -> (e: LoomError)
    ensures
        e.message@ == abort_after_failure_text(conflicted, abort_ok),
        e.replayed_empty is None,
        !e.not_started,
{
    if !abort_ok {
        let mut m = owned(
            "Rebase failed, and the abort failed too — the repository is left mid-rebase.\nRun `loom abort` once git is free (",
        );
        push_str(&mut m, crate::git::ABORT_FAILED_CAUSE);
        push_str(&mut m, ").");
        LoomError::new(m)
    } else if conflicted {
        LoomError::new(owned("Rebase failed with conflicts — aborted"))
    } else {
        LoomError::new(owned("Rebase stopped before finishing — aborted\nRun `loom trace` to see why"))
    }
}

/// The commit `err` refused over, if it is the refusal of
/// [`skip_empty_stops`].
pub fn replayed_empty_hash(err: &LoomError) -> (r: Option<&str>)
    ensures
        match err.replayed_empty {
            Some(sha) => r matches Some(s) && s@ == sha@,
            None => r is None,
        },
{
    match &err.replayed_empty {
        Some(sha) => Some(sha.as_str()),
        None => None,
    }
}

/// Tag `result`'s error as raised before the rebase started; its message
/// stays what the user reads.
pub fn before_rebase_starts<T>(result: Result<T, LoomError>) -> (r: Result<T, LoomError>)
    ensures
        result is Ok ==> r == result,
        result matches Err(e) ==> (r matches Err(f) && f.message == e.message && f.not_started
            && f.replayed_empty == e.replayed_empty),
{
    match result {
        Ok(v) => Ok(v),
        Err(e) => Err(LoomError { message: e.message, replayed_empty: e.replayed_empty, not_started: true }),
    }
}

/// Whether `err` was raised before the rebase started, so no undo is owed.
pub fn rebase_never_started(err: &LoomError) -> (r: bool)
    ensures
        r == err.not_started,
{
    err.not_started
}

/// `git show -s --format=%s HEAD`: the subject [`mismatch_error`] names.
pub fn head_subject() -> (c: GitCommand)
    ensures
        captured(c, seq!["show"@, "-s"@, "--format=%s"@, "HEAD"@]),
{
    let mut a: Vec<String> = Vec::new();
    arg(&mut a, "show");
    arg(&mut a, "-s");
    arg(&mut a, "--format=%s");
    arg(&mut a, "HEAD");
    proof {
        assert(views(a@) =~= seq!["show"@, "-s"@, "--format=%s"@, "HEAD"@]);
    }
    GitCommand::captured(a)
}

pub open spec fn mismatch_text(expect_stop: Seq<char>, subject: Seq<char>) -> Seq<char> {
    "Commit `"@ + short_hash_spec(expect_stop) + "` was not replayed — the rebase stopped on "@ + if trim(
        subject,
    ).len() == 0 {
        "another commit"@
    } else {
        "`"@ + trim(subject) + "`"@
    } + " instead\nNothing was rewritten"@
}

/// The refusal when a paused rebase did not stop on `expect_stop`. It names
/// the commit the rebase stopped on by subject ([`head_subject`], empty when
/// git could not tell): its hash is a replay that the abort is about to make
/// unreachable, so it would tell the user nothing.
pub fn mismatch_error(expect_stop: &str, subject: Option<&str>) -> (e: LoomError)
    requires
        cuttable_hash(expect_stop@),
    ensures
        e.message@ == mismatch_text(
            expect_stop@,
            match subject {
                Some(s) => s@,
                None => Seq::<char>::empty(),
            },
        ),
        e.replayed_empty is None,
        !e.not_started,
{
    let subject_text = match subject {
        Some(s) => trim_str(s),
        None => {
            let empty = String::new();
            proof {
                assert(trim(Seq::<char>::empty()) =~= Seq::<char>::empty());
            }
            empty
        },
    };
    let mut m = owned("Commit `");
    push_str(&mut m, short_hash(expect_stop).as_str());
    push_str(&mut m, "` was not replayed — the rebase stopped on ");
    if subject_text.as_str().unicode_len() == 0 {
        push_str(&mut m, "another commit");
    } else {
        push_str(&mut m, "`");
        push_str(&mut m, subject_text.as_str());
        push_str(&mut m, "`");
    }
    push_str(&mut m, " instead\nNothing was rewritten");
    LoomError::new(m)
}

/// Whether the paused rebase stopped on `expect_stop`, by the name git itself
/// recorded for the stop when there is one.
///
/// `stopped-sha` holds the original commit, which is exactly what
/// `expect_stop` names, so it tells two commits apart where identity cannot:
/// a commit already cherry-picked upstream shares its author, date and
/// message with its duplicate. Identity ([`replay_identity`] of HEAD, then
/// of `expect_stop`) remains the fallback for a pause git recorded no
/// `stopped-sha` for; it is only asked for then.
pub fn stopped_on_the_replay(
    stopped_sha: &Option<String>,
    expect_stop: &str,
    identities: Option<(Result<String, GitFailure>, Result<String, GitFailure>)>,
) -> (r: Result<bool, GitFailure>)
    requires
        stopped_sha is None ==> identities is Some,
    ensures
        match stopped_sha {
            Some(sha) => r == Ok::<bool, GitFailure>(same_commit(sha@, expect_stop@)),
            None => match identities {
                Some((Err(e), _)) => r matches Err(f) && f == e,
                Some((Ok(_), Err(e))) => r matches Err(f) && f == e,
                Some((Ok(head), Ok(expect))) => r == Ok::<bool, GitFailure>(head@ == expect@),
                None => true,
            },
        },
{
    match stopped_sha {
        Some(sha) => Ok(shas_match(sha.as_str(), expect_stop)),
        None => match identities {
            Some((Err(e), _)) => Err(e),
            Some((Ok(_), Err(e))) => Err(e),
            Some((Ok(head), Ok(expect))) => Ok(
                chars_eq(&chars_of(head.as_str()), &chars_of(expect.as_str())),
            ),
            None => Ok(false),
        },
    }
}

/// Verify a paused rebase stopped on the replay of `expect_stop`: `Ok` when
/// it did, else the cause to roll the rebase back with
/// ([`rebase_abort_then_cleanup`]) before the caller amends or resets
/// whatever HEAD happens to be. A git that cannot answer is no more a license
/// to rewrite than a mismatch is. `subject` is what [`head_subject`] printed,
/// asked before the abort moves HEAD back.
pub fn verify_paused_at(
    stopped: Result<bool, GitFailure>,
    expect_stop: &str,
    subject: Option<&str>,
) -> (r: Result<(), LoomError>)
    requires
        cuttable_hash(expect_stop@),
    ensures
        stopped == Ok::<bool, GitFailure>(true) ==> r is Ok,
        stopped == Ok::<bool, GitFailure>(false) ==> (r matches Err(e) && e.message@
            == mismatch_text(
            expect_stop@,
            match subject {
                Some(s) => s@,
                None => Seq::<char>::empty(),
            },
        )),
        stopped matches Err(f) ==> (r matches Err(e) && e.message == f.message),
{
    match stopped {
        Ok(true) => Ok(()),
        Ok(false) => Err(mismatch_error(expect_stop, subject)),
        Err(f) => Err(LoomError::new(f.message)),
    }
}

/// What a caller does once a continued rebase reaches its next `edit` step.
#[derive(Debug, Default)]
pub struct AfterStop {
    pub expect: Option<String>,
    pub protect: Vec<String>,
    pub targets: Vec<String>,
}

impl AfterStop {
    /// Nothing of the caller's own rides on this continue.
    pub fn nothing() -> (a: AfterStop)
        ensures
            a.expect is None,
            a.protect@.len() == 0,
            a.targets@.len() == 0,
    {
        AfterStop { expect: None, protect: Vec::new(), targets: Vec::new() }
    }

    /// The caller rewrites the commit this continue stops at, so the stop is
    /// verified against it (see [`verify_paused_at`]).
    pub fn rewrite(expect_stop: &str) -> (a: AfterStop)
        ensures
            a.expect matches Some(e) && e@ == expect_stop@,
            a.protect@.len() == 0,
            a.targets@.len() == 0,
    {
        AfterStop { expect: Some(owned(expect_stop)), protect: Vec::new(), targets: Vec::new() }
    }

    /// Commits that must survive the replay this continue drives — one a
    /// later phase still has to find, for instance.
    pub fn protecting(self, protect: Vec<String>) -> (a: AfterStop)
        ensures
            a.expect == self.expect,
            a.protect == protect,
            a.targets == self.targets,
    {
        AfterStop { expect: self.expect, protect, targets: self.targets }
    }

    /// The fold target this continue stops at, or another commit the
    /// operation lands on (see [`Protected`]).
    pub fn targeting(self, targets: Vec<String>) -> (a: AfterStop)
        ensures
            a.expect == self.expect,
            a.protect == self.protect,
            a.targets == targets,
    {
        AfterStop { expect: self.expect, protect: self.protect, targets }
    }
}

/// The commits a continue for `after` must not drop as empty: the ones it
/// protects and the stop it expects, by name; its targets as targets.
pub fn protected_for(after: &AfterStop) -> (p: Protected)
    ensures
        views(p.named@) == views(after.protect@) + match after.expect {
            Some(e) => seq![e@],
            None => Seq::<Seq<char>>::empty(),
        },
        views(p.targets@) == views(after.targets@),
{
    let mut named: Vec<String> = Vec::new();
    crate::git::args_from(&mut named, after.protect.as_slice());
    match &after.expect {
        Some(e) => {
            let ghost before = views(named@);
            named.push(e.clone());
            proof {
                assert(views(named@) =~= before.push(e@));
            }
        },
        None => {
            proof {
                assert(views(named@) =~= views(after.protect@) + Seq::<Seq<char>>::empty());
            }
        },
    }
    let mut targets: Vec<String> = Vec::new();
    crate::git::args_from(&mut targets, after.targets.as_slice());
    proof {
        assert(views(targets@) =~= views(after.targets@));
    }
    Protected { named, targets }
}

/// What a continue whose todo holds the caller's own `edit` steps ends in,
/// once carried past every stop loom accounts for.
#[derive(Debug)]
pub enum EditContinuation {
    /// Nothing to verify: success.
    Done,
    /// Paused at the stop the caller rewrites: check it is that commit
    /// ([`verify_paused_at`]).
    Verify(String),
    /// The rebase ran to the end although its todo marked a commit for
    /// editing.
    Finished(LoomError),
    /// Stopped where loom cannot account for: abort and report
    /// ([`abort_after_failure`]).
    AbortAfterFailure,
}

pub open spec fn finished_text(expect_stop: Seq<char>) -> Seq<char> {
    "The rebase finished without stopping at `"@ + short_hash_spec(expect_stop)
        + "` — history was rewritten\n`git reflog` has the previous tips"@
}

/// The error when a rebase ran to the end although its todo marked a commit
/// for editing. Defensive: git honors an `edit` line even for a commit it
/// drops as empty. There is no rebase left to abort either way, hence the
/// report of what the repository now holds.
pub fn finished_without_stopping(expect_stop: &str) -> (e: LoomError)
    requires
        cuttable_hash(expect_stop@),
    ensures
        e.message@ == finished_text(expect_stop@),
        e.replayed_empty is None,
        !e.not_started,
{
    let mut m = owned("The rebase finished without stopping at `");
    push_str(&mut m, short_hash(expect_stop).as_str());
    push_str(&mut m, "` — history was rewritten\n`git reflog` has the previous tips");
    LoomError::new(m)
}

/// Continue a rebase whose todo this caller filled with `edit` steps: what
/// the outcome means. Reaching the next `edit` is the expected outcome here,
/// so `Paused` is success — verified against the stop the caller rewrites,
/// when it named one.
pub fn continue_rebase_expecting_edit(after: &AfterStop, outcome: RebaseOutcome) -> (r:
    EditContinuation)
    requires
        after.expect matches Some(e) ==> cuttable_hash(e@),
    ensures
        outcome == RebaseOutcome::Stopped ==> r is AbortAfterFailure,
        after.expect is None && outcome != RebaseOutcome::Stopped ==> r is Done,
        after.expect matches Some(e) ==> (outcome == RebaseOutcome::Paused ==> (r matches EditContinuation::Verify(v) && v == e)),
        after.expect matches Some(e) ==> (outcome == RebaseOutcome::Completed ==> (r matches EditContinuation::Finished(err) && err.message@ == finished_text(e@))),
{
    match &after.expect {
        None => match outcome {
            RebaseOutcome::Completed | RebaseOutcome::Paused => EditContinuation::Done,
            RebaseOutcome::Stopped => EditContinuation::AbortAfterFailure,
        },
        Some(e) => match outcome {
            RebaseOutcome::Paused => EditContinuation::Verify(e.clone()),
            RebaseOutcome::Completed => EditContinuation::Finished(
                finished_without_stopping(e.as_str()),
            ),
            RebaseOutcome::Stopped => EditContinuation::AbortAfterFailure,
        },
    }
}

} // verus!

verus! {

/// Whether a rebase is in progress: git leaves a `rebase-merge/` or
/// `rebase-apply/` directory under the git dir while one is paused.
pub fn rebase_is_in_progress(merge_dir: bool, apply_dir: bool) -> (r: bool)
    ensures
        r == (merge_dir || apply_dir),
{
    merge_dir || apply_dir
}

/// Whether no rebase is left on disk, from whether the git dir could be
/// resolved and whether a rebase is in progress there. A git dir that
/// cannot be resolved counts as still running, so a caller that cannot tell
/// errs toward leaving the repository alone.
pub fn rebase_is_over(git_dir_known: bool, in_progress: bool) -> (r: bool)
    ensures
        r == (git_dir_known && !in_progress),
{
    git_dir_known && !in_progress
}

/// The stops a rerere continue must not count as news, seeded with the one
/// the caller was already on.
pub fn carried_set(before: Option<&StopId>) -> (r: Vec<StopId>)
    ensures
        match before {
            Some(b) => r@ == seq![*b],
            None => r@.len() == 0,
        },
{
    let mut r: Vec<StopId> = Vec::new();
    match before {
        Some(b) => {
            r.push(b.duplicate());
            proof {
                assert(r@ =~= seq![*b]);
            }
        },
        None => {},
    }
    r
}

/// Which of the two loops of a carry is running.
#[derive(Debug, Clone, Copy, PartialEq, Eq, Structural)]
pub enum CarryPhase {
    /// Skipping commits the new history already has ([`skip_empty_stops`]).
    Skipping,
    /// Continuing past conflicts `rerere` resolved ([`rerere_continue_step`]).
    Rerere,
}

/// A rebase being carried past every stop loom can account for on its own.
///
/// The two loops uncover each other — a skip can land on a replayed
/// resolution and the other way round — so with `skips_empty` they
/// alternate until a rerere loop carries past nothing. Without it only one
/// rerere loop runs: the caller's todo ran under `--empty=drop`.
pub struct Carry {
    pub outcome: RebaseOutcome,
    pub phase: CarryPhase,
    pub skips_empty: bool,
    /// The commits the current skip loop skipped.
    pub skipped: Vec<String>,
    /// The stops already continued past, and the one the caller was on.
    pub carried: Vec<StopId>,
    /// Whether the current rerere loop carried past a stop.
    pub moved: bool,
    /// The stop being continued past, and the commit it was replaying.
    pub pending: Option<(StopId, Option<String>)>,
}

/// What the last action of a carry found out.
pub enum CarryEvent {
    /// The facts of the stop, for the skip loop.
    EmptyStop(EmptyStopFacts),
    /// `git rebase --skip` ran: whether a rebase is still on disk, and how
    /// the command ended.
    Skipped(bool, Result<(), GitFailure>),
    /// The facts of the stop for the rerere loop, and the commit git was
    /// replaying there ([`stopped_sha`]), read before the continue.
    RerereStop(RerereFacts, Option<String>),
    /// `git rebase --continue` ran: whether a rebase is still on disk, and how
    /// the command ended.
    Continued(bool, Result<(), GitFailure>),
    /// The stop git is on after the continue ([`stop_id`]).
    StopAfter(Option<StopId>),
}

/// What a carry does next.
pub enum CarryAction {
    /// Gather [`EmptyStopFacts`].
    ReadEmptyStop,
    /// Gather [`RerereFacts`] and the stopped commit.
    ReadRerereStop,
    /// Run this command (`git rebase --skip` or `--continue`).
    Run(GitCommand),
    /// Read [`stop_id`].
    ReadStop,
    /// Roll the rebase back with [`rebase_abort_then_cleanup`] and report
    /// what that returns.
    RollBack(LoomError),
    /// The carry is over.
    Finish(Result<RebaseOutcome, LoomError>),
}

/// One step of a carry: the next state, a warning to print, and what to do.
pub struct CarryStep {
    pub state: Carry,
    pub warning: Option<String>,
    pub action: CarryAction,
}

/// The stop being continued past.
pub open spec fn pending_stop(state: Carry) -> StopId {
    state.pending.unwrap().0
}

/// The commit that stop was replaying, if git said.
pub open spec fn pending_sha(state: Carry) -> Option<String> {
    match state.pending {
        Some((_, sha)) => sha,
        None => None,
    }
}

/// Whether `event` answers what the carry in `state` asked for with its last
/// action.
pub open spec fn carry_answers(state: Carry, event: CarryEvent) -> bool {
    (match state.phase {
        CarryPhase::Skipping => event is EmptyStop || event is Skipped,
        CarryPhase::Rerere => event is RerereStop || event is Continued || event is StopAfter,
    }) && (event is Skipped ==> state.skipped@.len() > 0) && (event is Continued
        ==> state.pending is Some) && (event is StopAfter ==> state.pending is Some)
}

/// A carry whose shas can be abbreviated for the messages it prints.
pub open spec fn carry_wf(state: Carry) -> bool {
    &&& forall|i: int| 0 <= i < state.skipped@.len() ==> cuttable_hash(#[trigger] state.skipped@[i]@)
    &&& (state.pending matches Some((_, Some(sha))) ==> cuttable_hash(sha@))
}

/// What ends a rerere loop: with `skips_empty` and a stop carried past, the
/// skip loop runs again on the outcome; otherwise the carry is over.
pub open spec fn rerere_loop_ended(before: Carry, after: CarryStep, outcome: RebaseOutcome, moved: bool) -> bool {
    if moved && before.skips_empty && outcome == RebaseOutcome::Stopped {
        &&& after.state.phase == CarryPhase::Skipping
        &&& after.state.skipped@.len() == 0
        &&& !after.state.moved
        &&& after.action is ReadEmptyStop
    } else {
        after.action matches CarryAction::Finish(Ok(o)) && o == outcome
    }
}

/// What ends a skip loop: the rerere loop runs on a stopped rebase, and the
/// carry is over on any other.
pub open spec fn skip_loop_ended(after: CarryStep, outcome: RebaseOutcome) -> bool {
    if outcome == RebaseOutcome::Stopped {
        &&& after.state.phase == CarryPhase::Rerere
        &&& !after.state.moved
        &&& after.action is ReadRerereStop
    } else {
        after.action matches CarryAction::Finish(Ok(o)) && o == outcome
    }
}

fn end_rerere_loop(state: Carry) -> (r: CarryStep)
    ensures
        rerere_loop_ended(state, r, state.outcome, state.moved),
        r.state.outcome == state.outcome,
        r.state.carried == state.carried,
        r.state.skips_empty == state.skips_empty,
        r.state.pending is None,
        r.warning is None,
        carry_wf(r.state),
{
    let outcome = state.outcome;
    if state.moved && state.skips_empty && outcome == RebaseOutcome::Stopped {
        let next = Carry {
            outcome,
            phase: CarryPhase::Skipping,
            skips_empty: state.skips_empty,
            skipped: Vec::new(),
            carried: state.carried,
            moved: false,
            pending: None,
        };
        CarryStep { state: next, warning: None, action: CarryAction::ReadEmptyStop }
    } else {
        let next = Carry {
            outcome,
            phase: state.phase,
            skips_empty: state.skips_empty,
            skipped: Vec::new(),
            carried: state.carried,
            moved: state.moved,
            pending: None,
        };
        CarryStep { state: next, warning: None, action: CarryAction::Finish(Ok(outcome)) }
    }
}

fn end_skip_loop(state: Carry, warning: Option<String>) -> (r: CarryStep)
    ensures
        skip_loop_ended(r, state.outcome),
        r.state.outcome == state.outcome,
        r.state.carried == state.carried,
        r.state.skips_empty == state.skips_empty,
        r.state.pending is None,
        r.warning == warning,
        carry_wf(r.state),
{
    let outcome = state.outcome;
    let next = Carry {
        outcome,
        phase: CarryPhase::Rerere,
        skips_empty: state.skips_empty,
        skipped: Vec::new(),
        carried: state.carried,
        moved: false,
        pending: None,
    };
    if outcome == RebaseOutcome::Stopped {
        CarryStep { state: next, warning, action: CarryAction::ReadRerereStop }
    } else {
        CarryStep { state: next, warning, action: CarryAction::Finish(Ok(outcome)) }
    }
}

/// Carry a rebase past every stop loom can account for on its own: a commit
/// the new history already has, and a conflict `rerere` had already
/// resolved. `before` is the stop the caller was already on, if any.
pub fn carry_past_known_stops(before: Option<&StopId>, outcome: RebaseOutcome) -> (r: CarryStep)
    ensures
        r.state.skips_empty,
        r.state.outcome == outcome,
        r.state.phase == CarryPhase::Skipping,
        r.state.skipped@.len() == 0,
        r.state.carried@ == match before {
            Some(b) => seq![*b],
            None => Seq::empty(),
        },
        r.state.pending is None,
        !r.state.moved,
        r.warning is None,
        outcome == RebaseOutcome::Stopped ==> r.action is ReadEmptyStop,
        outcome != RebaseOutcome::Stopped ==> (r.action matches CarryAction::Finish(Ok(o)) && o
            == outcome),
        carry_wf(r.state),
{
    let carried = carried_set(before);
    let state = Carry {
        outcome,
        phase: CarryPhase::Skipping,
        skips_empty: true,
        skipped: Vec::new(),
        carried,
        moved: false,
        pending: None,
    };
    let action = if outcome == RebaseOutcome::Stopped {
        CarryAction::ReadEmptyStop
    } else {
        CarryAction::Finish(Ok(outcome))
    };
    CarryStep { state, warning: None, action }
}

/// Carry a rebase past every stop `rerere` already resolved, for a caller
/// with no empty stops to skip.
pub fn continue_rerere_stops(before: Option<&StopId>, outcome: RebaseOutcome) -> (r: CarryStep)
    ensures
        !r.state.skips_empty,
        r.state.outcome == outcome,
        r.state.phase == CarryPhase::Rerere,
        r.state.carried@ == match before {
            Some(b) => seq![*b],
            None => Seq::empty(),
        },
        r.state.pending is None,
        !r.state.moved,
        r.warning is None,
        outcome == RebaseOutcome::Stopped ==> r.action is ReadRerereStop,
        outcome != RebaseOutcome::Stopped ==> (r.action matches CarryAction::Finish(Ok(o)) && o
            == outcome),
        carry_wf(r.state),
{
    let carried = carried_set(before);
    let state = Carry {
        outcome,
        phase: CarryPhase::Rerere,
        skips_empty: false,
        skipped: Vec::new(),
        carried,
        moved: false,
        pending: None,
    };
    let action = if outcome == RebaseOutcome::Stopped {
        CarryAction::ReadRerereStop
    } else {
        CarryAction::Finish(Ok(outcome))
    };
    CarryStep { state, warning: None, action }
}

/// One step of a carry ([`carry_past_known_stops`],
/// [`continue_rerere_stops`]).
///
/// In the skip loop, each stop is judged by [`skip_empty_stops`]: a skip runs
/// `git rebase --skip` and warns that the commit was dropped. In the rerere
/// loop, each stop is judged by [`rerere_continue_step`]: a carry runs `git
/// rebase --continue`, and counts only when it left that stop
/// ([`carried_past`]), warning with the commit that was being replayed. A
/// command that fails without a rebase to show for it is rolled back.
#[verifier::rlimit(40)]
pub fn carry_step(state: Carry, event: CarryEvent, protected: &Protected) -> (r: CarryStep)
    requires
        carry_answers(state, event),
        carry_wf(state),
        event matches CarryEvent::EmptyStop(f) ==> (f.stopped_sha matches Some(sha) ==> cuttable_hash(sha@)),
        event matches CarryEvent::RerereStop(_, s) ==> (s matches Some(sha) ==> cuttable_hash(sha@)),
    ensures
        carry_wf(r.state),
        r.state.skips_empty == state.skips_empty,
        match event {
            CarryEvent::EmptyStop(facts) => match skip_kind(state.outcome, *protected, state.skipped@, facts) {
                SkipKind::Done => skip_loop_ended(r, state.outcome) && r.warning is None
                    && r.state.carried == state.carried,
                SkipKind::Refuse => r.action matches CarryAction::Finish(Err(e)) && e.replayed_empty == facts.stopped_sha,
                SkipKind::RollBack => r.action matches CarryAction::RollBack(e) && e.replayed_empty == facts.stopped_sha,
                SkipKind::Skip => (facts.stopped_sha matches Some(sha) && r.state.skipped@ == state.skipped@.push(sha))
                    && r.state.phase == CarryPhase::Skipping && r.warning is None
                    && (r.action matches CarryAction::Run(c) && captured(c, seq!["rebase"@, "--skip"@]))
                    && r.state.carried == state.carried,
            },
            CarryEvent::Skipped(in_progress, result) => match (result, in_progress) {
                (Err(f), false) => r.action matches CarryAction::RollBack(e) && e.message@ == f.message@,
                _ => {
                    let next = if result is Ok {
                        if in_progress { RebaseOutcome::Paused } else { RebaseOutcome::Completed }
                    } else {
                        RebaseOutcome::Stopped
                    };
                    &&& r.warning matches Some(w) && w@ == dropped_text(short_hash_spec(state.skipped@.last()@))
                    &&& r.state.outcome == next
                    &&& r.state.carried == state.carried
                    &&& if next == RebaseOutcome::Stopped {
                        r.state.phase == CarryPhase::Skipping && r.state.skipped == state.skipped && r.action is ReadEmptyStop
                    } else {
                        r.action matches CarryAction::Finish(Ok(o)) && o == next
                    }
                },
            },
            CarryEvent::RerereStop(facts, sha) => if state.outcome == RebaseOutcome::Stopped && (facts.stop matches Some(id) && !seen(state.carried@, id)) {
                let id = facts.stop->0;
                if !(facts.unmerged || !facts.auto_update || facts.resolves_to_head) {
                    r.state.carried@ == state.carried@.push(id) && r.state.pending == Some((id, sha))
                        && r.state.moved == state.moved && r.state.phase == CarryPhase::Rerere
                        && (r.action matches CarryAction::Run(c) && captured(c, seq!["rebase"@, "--continue"@]))
                } else {
                    r.state.carried@ == state.carried@.push(id) && rerere_loop_ended(state, r, state.outcome, state.moved)
                }
            } else {
                r.state.carried == state.carried && rerere_loop_ended(state, r, state.outcome, state.moved)
            },
            CarryEvent::Continued(in_progress, result) => match (result, in_progress) {
                (Err(f), false) => r.action matches CarryAction::RollBack(e) && e.message@ == f.message@,
                _ => {
                    let next = if result is Ok {
                        if in_progress { RebaseOutcome::Paused } else { RebaseOutcome::Completed }
                    } else {
                        RebaseOutcome::Stopped
                    };
                    r.state.outcome == next && r.state.pending == state.pending && r.action is ReadStop
                        && r.state.carried == state.carried && r.warning is None
                },
            },
            CarryEvent::StopAfter(now) => {
                let id = pending_stop(state);
                if state.outcome == RebaseOutcome::Stopped && (now matches Some(n) && same_stop(n, id)) {
                    rerere_loop_ended(state, r, state.outcome, state.moved) && r.warning is None
                } else {
                    &&& r.warning matches Some(w) && w@ == rerere_text(match pending_sha(state) {
                        Some(s) => Some(s@),
                        None => None,
                    })
                    &&& r.state.carried == state.carried
                    &&& if state.outcome == RebaseOutcome::Stopped {
                        r.state.moved && r.state.phase == CarryPhase::Rerere && r.action is ReadRerereStop
                    } else {
                        rerere_loop_ended(state, r, state.outcome, true)
                    }
                }
            },
        },
{
    let ghost old_state = state;
    match event {
        CarryEvent::EmptyStop(facts) => {
            let step = skip_empty_stops(state.outcome, protected, state.skipped.as_slice(), &facts);
            match step {
                SkipStep::Done => end_skip_loop(state, None),
                SkipStep::Refuse(e) => CarryStep { state, warning: None, action: CarryAction::Finish(Err(e)) },
                SkipStep::RollBack(e) => CarryStep { state, warning: None, action: CarryAction::RollBack(e) },
                SkipStep::Skip(sha) => {
                    let mut next = state;
                    next.skipped.push(sha);
                    CarryStep { state: next, warning: None, action: CarryAction::Run(rebase_skip()) }
                },
            }
        },
        CarryEvent::Skipped(in_progress, result) => {
            match rebase_outcome(in_progress, result) {
                Err(f) => CarryStep {
                    state,
                    warning: None,
                    action: CarryAction::RollBack(LoomError::new(f.message)),
                },
                Ok(next) => {
                    let n = state.skipped.len();
                    let warning = dropped_warning(state.skipped[n - 1].as_str());
                    let mut moved = state;
                    moved.outcome = next;
                    if next == RebaseOutcome::Stopped {
                        CarryStep { state: moved, warning: Some(warning), action: CarryAction::ReadEmptyStop }
                    } else {
                        CarryStep { state: moved, warning: Some(warning), action: CarryAction::Finish(Ok(next)) }
                    }
                },
            }
        },
        CarryEvent::RerereStop(facts, sha) => {
            let step = rerere_continue_step(state.outcome, state.carried.as_slice(), &facts);
            match step {
                RerereStep::Done => end_rerere_loop(state),
                RerereStep::Hold(id) => {
                    let mut next = state;
                    next.carried.push(id);
                    end_rerere_loop(next)
                },
                RerereStep::Carry(id) => {
                    let mut next = state;
                    next.carried.push(id.duplicate());
                    next.pending = Some((id, sha));
                    CarryStep { state: next, warning: None, action: CarryAction::Run(continue_rebase()) }
                },
            }
        },
        CarryEvent::Continued(in_progress, result) => {
            match rebase_outcome(in_progress, result) {
                Err(f) => CarryStep {
                    state,
                    warning: None,
                    action: CarryAction::RollBack(LoomError::new(f.message)),
                },
                Ok(next) => {
                    let mut moved = state;
                    moved.outcome = next;
                    CarryStep { state: moved, warning: None, action: CarryAction::ReadStop }
                },
            }
        },
        CarryEvent::StopAfter(now) => {
            let (id, sha) = match &state.pending {
                Some(p) => (p.0.duplicate(), match &p.1 { Some(s) => Some(s.clone()), None => None }),
                None => (StopId { auto_merge: String::new(), step: None }, None),
            };
            if !carried_past(state.outcome, &id, &now) {
                return end_rerere_loop(state);
            }
            let warning = rerere_warning(&sha);
            let mut next = state;
            next.moved = true;
            next.pending = None;
            if next.outcome == RebaseOutcome::Stopped {
                CarryStep { state: next, warning: Some(warning), action: CarryAction::ReadRerereStop }
            } else {
                let r = end_rerere_loop(next);
                CarryStep { state: r.state, warning: Some(warning), action: r.action }
            }
        },
    }
}

} // verus!

verus! {

/// A skip never costs work: `git rebase --skip` is a hard reset, so it runs
/// only on a stopped rebase with nothing unmerged, over a commit the
/// repository says replays empty, with no local changes in the tree, on a
/// commit that is neither protected nor skipped once already.
pub proof fn skip_never_loses_work(
    outcome: RebaseOutcome,
    protected: Protected,
    skipped: Seq<String>,
    facts: EmptyStopFacts,
)
    ensures
        skip_kind(outcome, protected, skipped, facts) is Skip ==> {
            &&& outcome == RebaseOutcome::Stopped
            &&& !facts.unmerged
            &&& facts.replays_empty
            &&& !facts.dirty
            &&& facts.stopped_sha matches Some(sha) && !names_commit(protected.targets@, sha@)
                && !names_commit(protected.named@, sha@) && !views(skipped).contains(sha@)
        },
        (skip_kind(outcome, protected, skipped, facts) is Refuse || skip_kind(
            outcome,
            protected,
            skipped,
            facts,
        ) is RollBack) ==> (facts.stopped_sha matches Some(sha) && (names_commit(
            protected.targets@,
            sha@,
        ) || names_commit(protected.named@, sha@))),
        skip_kind(outcome, protected, skipped, facts) is RollBack ==> !facts.dirty,
{
}

/// Two hashes name the same commit whichever way round they are asked.
pub proof fn same_commit_symmetric(a: Seq<char>, b: Seq<char>)
    ensures
        same_commit(a, b) == same_commit(b, a),
{
}

/// A stop is one stop: [`same_stop`] is an equivalence.
pub proof fn same_stop_is_equivalence(a: StopId, b: StopId, c: StopId)
    ensures
        same_stop(a, a),
        same_stop(a, b) == same_stop(b, a),
        same_stop(a, b) && same_stop(b, c) ==> same_stop(a, c),
{
}

} // verus!

verus! {

/// Whether a failed rebase stopped on a conflict, from what
/// [`unmerged_paths`] and [`auto_merge_id`] printed (`None` when git could
/// not be asked): unmerged paths, or an `AUTO_MERGE` — a conflict `rerere`
/// resolved and staged leaves nothing unmerged but is still a conflict.
/// Asked before the abort that [`abort_after_failure`] reports on.
pub fn stopped_on_conflict(unmerged_out: Option<&str>, auto_merge_out: Option<&str>) -> (r: bool)
    ensures
        r == (match unmerged_out {
            Some(out) => nul_separated(out@).len() > 0,
            None => false,
        } || match auto_merge_out {
            Some(out) => trim(out@).len() > 0,
            None => false,
        }),
{
    has_unmerged_paths(unmerged_out) || auto_merge_id_output(auto_merge_out).is_some()
}

} // verus!
