//! Commits, amends, staging and resets: the commands, which of them run
//! captured, and what loom reads back to tell that an amend took.
use vstd::prelude::*;

use crate::git::{
    arg, args_from, captured, files_after, interactive, literal_pathspecs, literals, rev_parse, GitCommand,
    GitFailure, LoomError,
};
use crate::text::{owned, text_eq, trim, trim_str, views};

verus! {

/// Amend the current commit, optionally replacing its message
/// (`git commit --quiet --allow-empty --amend --only [-m msg]`). `--only` keeps
/// staged changes out, `--quiet` suppresses the summary on the editor path, and
/// a `None` message inherits the terminal so git can open the user's editor.
pub fn commit_amend(message: Option<&str>) -> (c: GitCommand)
    ensures
        match message {
            Some(m) => captured(
                c,
                seq![
                    "commit"@,
                    "--quiet"@,
                    "--allow-empty"@,
                    "--amend"@,
                    "--only"@,
                    "-m"@,
                    m@,
                ],
            ),
            None => interactive(
                c,
                seq!["commit"@, "--quiet"@, "--allow-empty"@, "--amend"@, "--only"@],
            ),
        },
{
    let mut a: Vec<String> = Vec::new();
    arg(&mut a, "commit");
    arg(&mut a, "--quiet");
    arg(&mut a, "--allow-empty");
    arg(&mut a, "--amend");
    arg(&mut a, "--only");
    match message {
        Some(m) => {
            arg(&mut a, "-m");
            arg(&mut a, m);
            proof {
                assert(views(a@) =~= seq![
                    "commit"@,
                    "--quiet"@,
                    "--allow-empty"@,
                    "--amend"@,
                    "--only"@,
                    "-m"@,
                    m@,
                ]);
            }
            GitCommand::captured(a)
        },
        None => {
            proof {
                assert(views(a@) =~= seq![
                    "commit"@,
                    "--quiet"@,
                    "--allow-empty"@,
                    "--amend"@,
                    "--only"@,
                ]);
            }
            GitCommand::interactive(a)
        },
    }
}

/// Replace the current commit's message with `--no-verify`, so the
/// `pre-commit` and `commit-msg` hooks that already ran on the commit are not
/// run again by loom's own follow-up. The message is stored text plus one
/// trailer line, so it goes in verbatim.
pub fn commit_amend_message_unverified(message: &str) -> (c: GitCommand)
    ensures
        captured(
            c,
            seq![
                "commit"@,
                "--quiet"@,
                "--allow-empty"@,
                "--amend"@,
                "--only"@,
                "--no-verify"@,
                "--cleanup=verbatim"@,
                "-m"@,
                message@,
            ],
        ),
{
    let mut a: Vec<String> = Vec::new();
    arg(&mut a, "commit");
    arg(&mut a, "--quiet");
    arg(&mut a, "--allow-empty");
    arg(&mut a, "--amend");
    arg(&mut a, "--only");
    arg(&mut a, "--no-verify");
    arg(&mut a, "--cleanup=verbatim");
    arg(&mut a, "-m");
    arg(&mut a, message);
    proof {
        assert(views(a@) =~= seq![
            "commit"@,
            "--quiet"@,
            "--allow-empty"@,
            "--amend"@,
            "--only"@,
            "--no-verify"@,
            "--cleanup=verbatim"@,
            "-m"@,
            message@,
        ]);
    }
    GitCommand::captured(a)
}

/// Amend the current commit, keeping its message and including staged changes
/// (`git commit <opts> --amend --no-edit --allow-empty` — no `--only`, unlike
/// [`commit_amend`]).
///
/// `opts` is what followed a `--` on a `fold` command line, forwarded verbatim
/// and placed first, so git's last-wins parse keeps the `--amend` loom asked
/// for. Captured whatever it holds: loom reads the result with
/// [`amend_needs_check`] and [`check_amended`] and rewrites on it.
pub fn commit_amend_no_edit(opts: &[String]) -> (c: GitCommand)
    ensures
        captured(
            c,
            seq!["commit"@] + views(opts@) + seq!["--amend"@, "--no-edit"@, "--allow-empty"@],
        ),
{
    let mut a: Vec<String> = Vec::new();
    arg(&mut a, "commit");
    args_from(&mut a, opts);
    arg(&mut a, "--amend");
    arg(&mut a, "--no-edit");
    arg(&mut a, "--allow-empty");
    proof {
        assert(views(a@) =~= seq!["commit"@] + views(opts@) + seq![
            "--amend"@,
            "--no-edit"@,
            "--allow-empty"@,
        ]);
    }
    GitCommand::captured(a)
}

/// Whether [`commit_amend_no_edit`] must be checked afterwards: only with
/// forwarded arguments, since without one git cannot be told to do anything
/// but amend. [`amend_checked`] reads HEAD and its tree before the amend when
/// it is.
pub fn amend_needs_check(opts: &[String]) -> (r: bool)
    ensures
        r == (opts@.len() > 0),
{
    opts.len() > 0
}

pub open spec fn unchanged_amend_text() -> Seq<char> {
    "`git commit --amend` left the commit as it was, so nothing was amended\nEither an argument after `--` kept git from committing, or what was staged already matched the commit"@
}

pub open spec fn stacked_amend_text() -> Seq<char> {
    "`git commit --amend` committed on top of the target instead of amending it"@
}

/// Whether a checked amend took, from HEAD and its tree read before it, the
/// tree read after it, and HEAD's parent after it when git could name one.
///
/// Every fold amend has something to commit, so HEAD's tree has to come out
/// different; git printing instead of committing leaves it alone. An amend
/// replaces HEAD, so HEAD's new parent being the old HEAD means git
/// committed on top instead.
pub fn check_amended(head_before: &str, tree_before: &str, tree_after: &str, parent_after: Option<
    &str,
>) -> (r: Result<(), LoomError>)
    ensures
        tree_after@ == tree_before@ ==> (r matches Err(e) && e.message@ == unchanged_amend_text()
            && e.replayed_empty is None && !e.not_started),
        tree_after@ != tree_before@ && (parent_after matches Some(p) && p@ == head_before@) ==> (
        r matches Err(e) && e.message@ == stacked_amend_text() && e.replayed_empty is None
            && !e.not_started),
        tree_after@ != tree_before@ && !(parent_after matches Some(p) && p@ == head_before@) ==> r
            is Ok,
{
    if text_eq(tree_after, tree_before) {
        return Err(
            LoomError::new(
                owned(
                    "`git commit --amend` left the commit as it was, so nothing was amended\nEither an argument after `--` kept git from committing, or what was staged already matched the commit",
                ),
            ),
        );
    }
    match parent_after {
        Some(p) => {
            if text_eq(p, head_before) {
                return Err(
                    LoomError::new(
                        owned(
                            "`git commit --amend` committed on top of the target instead of amending it",
                        ),
                    ),
                );
            }
            Ok(())
        },
        None => Ok(()),
    }
}

/// Where a checked amend stands.
pub enum AmendAt {
    /// Reading HEAD before the amend.
    ReadingHead,
    /// Reading HEAD's tree before the amend.
    ReadingTree { head: String },
    /// Amending; `before` holds HEAD and its tree when the amend is checked.
    Amending { before: Option<(String, String)> },
    /// Reading HEAD's tree after the amend.
    ReadingTreeAfter { head: String, tree: String },
    /// Reading HEAD's parent after the amend.
    ReadingParent { head: String, tree: String, tree_after: String },
    Done,
}

/// [`commit_amend_no_edit`] with `opts` forwarded, checked as
/// [`amend_needs_check`] asks.
pub struct CheckedAmend {
    pub opts: Vec<String>,
    pub at: AmendAt,
}

/// What a checked amend asks for next.
pub enum AmendAction {
    /// Run this command; answer [`AmendEvent::Ran`].
    Run(GitCommand),
    /// Run this command and read what it prints; answer [`AmendEvent::Read`].
    Read(GitCommand),
    /// Done: whether the amend took.
    Finish(Result<(), LoomError>),
}

pub enum AmendEvent {
    Ran(Result<(), GitFailure>),
    Read(Result<String, GitFailure>),
}

pub open spec fn amend_args(opts: Seq<String>) -> Seq<Seq<char>> {
    seq!["commit"@] + views(opts) + seq!["--amend"@, "--no-edit"@, "--allow-empty"@]
}

pub open spec fn plain_failure(e: LoomError, m: Seq<char>) -> bool {
    e.message@ == m && e.replayed_empty is None && !e.not_started
}

pub open spec fn amend_fails(r: (CheckedAmend, AmendAction), m: Seq<char>) -> bool {
    r.0.at is Done && (r.1 matches AmendAction::Finish(Err(e)) && plain_failure(e, m))
}

pub open spec fn amend_runs(a: AmendAction, args: Seq<Seq<char>>) -> bool {
    a matches AmendAction::Run(c) && captured(c, args)
}

pub open spec fn amend_reads(a: AmendAction, args: Seq<Seq<char>>) -> bool {
    a matches AmendAction::Read(c) && captured(c, args)
}

/// How a checked amend begins: straight with the amend when nothing is
/// forwarded, else with reading HEAD.
pub open spec fn amend_begins(opts: Seq<String>, r: (CheckedAmend, AmendAction)) -> bool {
    &&& r.0.opts@ == opts
    &&& if opts.len() == 0 {
        (r.0.at matches AmendAt::Amending { before } && before is None) && amend_runs(r.1, amend_args(opts))
    } else {
        r.0.at is ReadingHead && amend_reads(r.1, seq!["rev-parse"@, "HEAD"@])
    }
}

/// The verdict on an amend, as [`check_amended`] gives it.
pub open spec fn amend_verdict(res: Result<(), LoomError>, head: Seq<char>, tree: Seq<char>, tree_after: Seq<char>, parent: Option<Seq<char>>) -> bool {
    if tree_after == tree {
        res matches Err(e) && plain_failure(e, unchanged_amend_text())
    } else if parent == Some(head) {
        res matches Err(e) && plain_failure(e, stacked_amend_text())
    } else {
        res is Ok
    }
}

/// Each step of a checked amend. A failed read before or after the amend
/// fails it, but for HEAD's parent, which a root commit lacks.
pub open spec fn amend_next(s: CheckedAmend, ev: AmendEvent, r: (CheckedAmend, AmendAction)) -> bool {
    &&& r.0.opts == s.opts
    &&& match (s.at, ev) {
        (AmendAt::ReadingHead, AmendEvent::Read(x)) => match x {
            Err(f) => amend_fails(r, f.message@),
            Ok(out) => (r.0.at matches AmendAt::ReadingTree { head } && head@ == trim(out@)) && amend_reads(
                r.1,
                seq!["rev-parse"@, "HEAD^{tree}"@],
            ),
        },
        (AmendAt::ReadingTree { head }, AmendEvent::Read(x)) => match x {
            Err(f) => amend_fails(r, f.message@),
            Ok(out) => (r.0.at matches AmendAt::Amending { before } && (before matches Some((h, t)) && h == head
                && t@ == trim(out@))) && amend_runs(r.1, amend_args(s.opts@)),
        },
        (AmendAt::Amending { before }, AmendEvent::Ran(x)) => match x {
            Err(f) => amend_fails(r, f.message@),
            Ok(()) => match before {
                None => r.0.at is Done && r.1 == AmendAction::Finish(Ok(())),
                Some((head, tree)) => r.0.at == (AmendAt::ReadingTreeAfter { head, tree }) && amend_reads(
                    r.1,
                    seq!["rev-parse"@, "HEAD^{tree}"@],
                ),
            },
        },
        (AmendAt::ReadingTreeAfter { head, tree }, AmendEvent::Read(x)) => match x {
            Err(f) => amend_fails(r, f.message@),
            Ok(out) => (r.0.at matches AmendAt::ReadingParent { head: h, tree: t, tree_after } && h == head && t == tree
                && tree_after@ == trim(out@)) && amend_reads(r.1, seq!["rev-parse"@, "HEAD^"@]),
        },
        (AmendAt::ReadingParent { head, tree, tree_after }, AmendEvent::Read(x)) => r.0.at is Done && (r.1 matches AmendAction::Finish(
            res,
        ) && amend_verdict(
            res,
            head@,
            tree@,
            tree_after@,
            match x {
                Ok(out) => Some(trim(out@)),
                Err(_) => None,
            },
        )),
        _ => false,
    }
}

pub open spec fn amend_answers(s: CheckedAmend, ev: AmendEvent) -> bool {
    match s.at {
        AmendAt::Amending { .. } => ev is Ran,
        AmendAt::Done => false,
        _ => ev is Read,
    }
}

/// Amend HEAD with `opts` forwarded (`git commit <opts> --amend --no-edit
/// --allow-empty`). With forwarded arguments git can print instead of
/// committing while exiting 0, so HEAD and its tree are read before, and the
/// tree and HEAD's parent after, and [`check_amended`] decides.
pub fn amend_checked(opts: Vec<String>) -> (r: (CheckedAmend, AmendAction))
    ensures
        amend_begins(opts@, r),
{
    if amend_needs_check(&opts) {
        (CheckedAmend { opts, at: AmendAt::ReadingHead }, AmendAction::Read(rev_parse("HEAD")))
    } else {
        let c = commit_amend_no_edit(&opts);
        (CheckedAmend { opts, at: AmendAt::Amending { before: None } }, AmendAction::Run(c))
    }
}

fn amend_failure(f: GitFailure) -> (e: LoomError)
    ensures
        plain_failure(e, f.message@),
{
    LoomError::new(f.message)
}

/// One step of [`amend_checked`].
pub fn amend_step(s: CheckedAmend, ev: AmendEvent) -> (r: (CheckedAmend, AmendAction))
    requires
        amend_answers(s, ev),
    ensures
        amend_next(s, ev, r),
{
    let CheckedAmend { opts, at } = s;
    match (at, ev) {
        (AmendAt::ReadingHead, AmendEvent::Read(x)) => match x {
            Err(f) => (CheckedAmend { opts, at: AmendAt::Done }, AmendAction::Finish(Err(amend_failure(f)))),
            Ok(out) => (
                CheckedAmend { opts, at: AmendAt::ReadingTree { head: trim_str(out.as_str()) } },
                AmendAction::Read(rev_parse("HEAD^{tree}")),
            ),
        },
        (AmendAt::ReadingTree { head }, AmendEvent::Read(x)) => match x {
            Err(f) => (CheckedAmend { opts, at: AmendAt::Done }, AmendAction::Finish(Err(amend_failure(f)))),
            Ok(out) => {
                let c = commit_amend_no_edit(&opts);
                (CheckedAmend { opts, at: AmendAt::Amending { before: Some((head, trim_str(out.as_str()))) } }, AmendAction::Run(c))
            },
        },
        (AmendAt::Amending { before }, AmendEvent::Ran(x)) => match x {
            Err(f) => (CheckedAmend { opts, at: AmendAt::Done }, AmendAction::Finish(Err(amend_failure(f)))),
            Ok(()) => match before {
                None => (CheckedAmend { opts, at: AmendAt::Done }, AmendAction::Finish(Ok(()))),
                Some((head, tree)) => (
                    CheckedAmend { opts, at: AmendAt::ReadingTreeAfter { head, tree } },
                    AmendAction::Read(rev_parse("HEAD^{tree}")),
                ),
            },
        },
        (AmendAt::ReadingTreeAfter { head, tree }, AmendEvent::Read(x)) => match x {
            Err(f) => (CheckedAmend { opts, at: AmendAt::Done }, AmendAction::Finish(Err(amend_failure(f)))),
            Ok(out) => (
                CheckedAmend { opts, at: AmendAt::ReadingParent { head, tree, tree_after: trim_str(out.as_str()) } },
                AmendAction::Read(rev_parse("HEAD^")),
            ),
        },
        (AmendAt::ReadingParent { head, tree, tree_after }, AmendEvent::Read(x)) => {
            let parent = match x {
                Ok(out) => Some(trim_str(out.as_str())),
                Err(_) => None,
            };
            let res = match &parent {
                Some(p) => check_amended(head.as_str(), tree.as_str(), tree_after.as_str(), Some(p.as_str())),
                None => check_amended(head.as_str(), tree.as_str(), tree_after.as_str(), None),
            };
            (CheckedAmend { opts, at: AmendAt::Done }, AmendAction::Finish(res))
        },
        (at, _) => (CheckedAmend { opts, at }, AmendAction::Finish(Ok(()))),
    }
}

/// `git diff --cached --name-only --diff-filter=D -- <path>`: whether the
/// deletion of `path` is staged, read by [`deletion_already_staged`].
pub fn staged_deletion(path: &str) -> (c: GitCommand)
    ensures
        captured(
            c,
            seq!["diff"@, "--cached"@, "--name-only"@, "--diff-filter=D"@, "--"@, path@],
        ),
{
    let mut a: Vec<String> = Vec::new();
    arg(&mut a, "diff");
    arg(&mut a, "--cached");
    arg(&mut a, "--name-only");
    arg(&mut a, "--diff-filter=D");
    arg(&mut a, "--");
    arg(&mut a, path);
    proof {
        assert(views(a@) =~= seq![
            "diff"@,
            "--cached"@,
            "--name-only"@,
            "--diff-filter=D"@,
            "--"@,
            path@,
        ]);
    }
    GitCommand::captured(a)
}

/// True when a path is gone from both the working tree and the index because
/// its deletion is already staged: such a path matches nothing, so `git add`
/// and `git rm` both fail on it although it is correctly staged.
///
/// `on_disk` is whether the working tree has an entry at the path (a broken
/// symlink counts: `git add` has to stage it); `staged` is what
/// [`staged_deletion`] printed, asked only when nothing is on disk.
pub fn deletion_already_staged(on_disk: bool, staged: &str) -> (r: bool)
    ensures
        r == (!on_disk && trim(staged@).len() > 0),
{
    if on_disk {
        return false;
    }
    trim_str(staged).as_str().unicode_len() > 0
}

/// Whether a git command carrying `opts` the user forwarded runs uncaptured.
///
/// A forwarded option may exist purely to print (`--dry-run`, `-v`) or to open
/// something (`-e`, `--interactive`), and a captured command sends the report
/// to the trace log and answers the editor with `true`. Agent mode is the
/// exception: there is nobody to close an editor there.
pub fn runs_uncaptured(opts: &[String], agent: bool) -> (r: bool)
    ensures
        r == (opts@.len() > 0 && !agent),
{
    opts.len() > 0 && !agent
}

/// The files of `files` whose flag in `already_staged` is off, in order.
pub open spec fn to_stage(files: Seq<Seq<char>>, already_staged: Seq<bool>) -> Seq<Seq<char>>
    decreases files.len(),
{
    if files.len() == 0 || already_staged.len() == 0 {
        Seq::empty()
    } else {
        let rest = to_stage(files.drop_last(), already_staged.drop_last());
        if already_staged.last() {
            rest
        } else {
            rest.push(files.last())
        }
    }
}

/// Stage specific files, with extra `git add` options from the user
/// (`git add <opts> -- <files>`). Files whose deletion is already staged
/// ([`deletion_already_staged`], one flag per file) are left out, and with
/// none left there is nothing to run. `opts` precedes the pathspec so an
/// option is still read as an option; forwarded options run uncaptured
/// ([`runs_uncaptured`]).
pub fn stage_files_opts(files: &[String], already_staged: &[bool], opts: &[String], agent: bool) -> (r:
    Option<GitCommand>)
    requires
        files@.len() == already_staged@.len(),
    ensures
        to_stage(views(files@), already_staged@).len() == 0 ==> r is None,
        to_stage(views(files@), already_staged@).len() > 0 ==> (r matches Some(c) && views(c.args@)
            == seq!["add"@] + views(opts@) + seq!["--"@] + to_stage(views(files@), already_staged@)
            && c.interactive == (opts@.len() > 0 && !agent) && c.config@.len() == 0
            && c.stdin is None && c.index_file is None),
{
    let mut to_add: Vec<String> = Vec::new();
    let mut i: usize = 0;
    while i < files.len()
        invariant
            i <= files@.len(),
            files@.len() == already_staged@.len(),
            views(to_add@) == to_stage(views(files@).take(i as int), already_staged@.take(i as int)),
        decreases files.len() - i,
    {
        proof {
            assert(views(files@).take(i + 1).drop_last() =~= views(files@).take(i as int));
            assert(already_staged@.take(i + 1).drop_last() =~= already_staged@.take(i as int));
        }
        if !already_staged[i] {
            let ghost before = views(to_add@);
            to_add.push(files[i].clone());
            proof {
                assert(views(to_add@) =~= before.push(files@[i as int]@));
            }
        }
        i = i + 1;
    }
    proof {
        assert(views(files@).take(files@.len() as int) =~= views(files@));
        assert(already_staged@.take(files@.len() as int) =~= already_staged@);
    }
    if to_add.len() == 0 {
        return None;
    }
    let mut a: Vec<String> = Vec::new();
    arg(&mut a, "add");
    args_from(&mut a, opts);
    arg(&mut a, "--");
    args_from(&mut a, to_add.as_slice());
    proof {
        assert(views(a@) =~= seq!["add"@] + views(opts@) + seq!["--"@] + views(to_add@));
    }
    if runs_uncaptured(opts, agent) {
        Some(GitCommand::interactive(a))
    } else {
        Some(GitCommand::captured(a))
    }
}

/// Stage specific files (`git add -- <files>`), leaving out those whose
/// deletion is already staged.
pub fn stage_files(files: &[String], already_staged: &[bool]) -> (r: Option<GitCommand>)
    requires
        files@.len() == already_staged@.len(),
    ensures
        to_stage(views(files@), already_staged@).len() == 0 ==> r is None,
        to_stage(views(files@), already_staged@).len() > 0 ==> (r matches Some(c) && captured(
            c,
            seq!["add"@, "--"@] + to_stage(views(files@), already_staged@),
        )),
{
    let none: Vec<String> = Vec::new();
    let r = stage_files_opts(files, already_staged, none.as_slice(), false);
    proof {
        assert(seq!["add"@] + views(none@) + seq!["--"@] =~= seq!["add"@, "--"@]);
    }
    r
}

/// Stage all changes for a specific path, including deletions; nothing to
/// run when its deletion is already staged.
pub fn stage_path(path: &str, already_staged: bool) -> (r: Option<GitCommand>)
    ensures
        already_staged ==> r is None,
        !already_staged ==> (r matches Some(c) && captured(c, seq!["add"@, "--"@, path@])),
{
    if already_staged {
        return None;
    }
    let mut a: Vec<String> = Vec::new();
    arg(&mut a, "add");
    arg(&mut a, "--");
    arg(&mut a, path);
    proof {
        assert(views(a@) =~= seq!["add"@, "--"@, path@]);
    }
    Some(GitCommand::captured(a))
}

/// Stage `files` as `source` records them, whatever the working tree holds
/// (`git restore --staged --source=<source> -- <literal pathspecs>`). A path
/// absent from `source` is dropped from the index. Nothing to run for no
/// files: no pathspec would mean every path.
pub fn stage_from(source: &str, files: &[String]) -> (r: Option<GitCommand>)
    ensures
        files@.len() == 0 ==> r is None,
        files@.len() > 0 ==> (r matches Some(c) && captured(
            c,
            seq!["restore"@, "--staged"@, "--source="@ + source@, "--"@] + literals(views(files@)),
        )),
{
    if files.len() == 0 {
        return None;
    }
    let specs = literal_pathspecs(files);
    let mut src = owned("--source=");
    crate::text::push_str(&mut src, source);
    let mut a: Vec<String> = Vec::new();
    arg(&mut a, "restore");
    arg(&mut a, "--staged");
    arg(&mut a, src.as_str());
    arg(&mut a, "--");
    args_from(&mut a, specs.as_slice());
    proof {
        assert(views(a@) =~= seq!["restore"@, "--staged"@, "--source="@ + source@, "--"@]
            + literals(views(files@)));
    }
    Some(GitCommand::captured(a))
}

/// Create a commit with forwarded options, always captured
/// (`git commit <opts> -m <message>`): for a commit loom makes as one step
/// of a longer operation, which reads the result itself.
pub fn commit_captured(message: &str, opts: &[String]) -> (c: GitCommand)
    ensures
        captured(c, seq!["commit"@] + views(opts@) + seq!["-m"@, message@]),
{
    let mut a: Vec<String> = Vec::new();
    arg(&mut a, "commit");
    args_from(&mut a, opts);
    arg(&mut a, "-m");
    arg(&mut a, message);
    proof {
        assert(views(a@) =~= seq!["commit"@] + views(opts@) + seq!["-m"@, message@]);
    }
    GitCommand::captured(a)
}

/// Create a commit with a message (`git commit -m <message>`).
pub fn commit(message: &str) -> (c: GitCommand)
    ensures
        captured(c, seq!["commit"@, "-m"@, message@]),
{
    let none: Vec<String> = Vec::new();
    let c = commit_captured(message, none.as_slice());
    proof {
        assert(seq!["commit"@] + views(none@) + seq!["-m"@, message@] =~= seq![
            "commit"@,
            "-m"@,
            message@,
        ]);
    }
    c
}

/// Create a commit, with extra `git commit` options from the user
/// (`git commit <opts> [-m <message>]`). Only the plain `-m` case is
/// captured: a captured command answers the editor with `true` and swallows
/// stdout, which would defeat a forwarded `-e` and hide a `--dry-run`
/// report. Without a message git opens the user's editor.
pub fn commit_opts(message: Option<&str>, opts: &[String], agent: bool) -> (c: GitCommand)
    ensures
        views(c.args@) == seq!["commit"@] + views(opts@) + match message {
            Some(m) => seq!["-m"@, m@],
            None => Seq::empty(),
        },
        c.interactive == (message is None || (opts@.len() > 0 && !agent)),
        c.config@.len() == 0,
        c.stdin is None,
        c.index_file is None,
{
    let mut a: Vec<String> = Vec::new();
    arg(&mut a, "commit");
    args_from(&mut a, opts);
    match message {
        Some(m) => {
            arg(&mut a, "-m");
            arg(&mut a, m);
            proof {
                assert(views(a@) =~= seq!["commit"@] + views(opts@) + seq!["-m"@, m@]);
            }
        },
        None => {
            proof {
                assert(views(a@) =~= seq!["commit"@] + views(opts@) + Seq::<Seq<char>>::empty());
            }
        },
    }
    if message.is_none() || runs_uncaptured(opts, agent) {
        GitCommand::interactive(a)
    } else {
        GitCommand::captured(a)
    }
}

/// Create a commit by opening the user's editor for the message
/// (`git commit`, no `-m`), on the terminal.
pub fn commit_with_editor() -> (c: GitCommand)
    ensures
        interactive(c, seq!["commit"@]),
{
    let none: Vec<String> = Vec::new();
    let c = commit_opts(None, none.as_slice(), false);
    proof {
        assert(seq!["commit"@] + views(none@) + Seq::<Seq<char>>::empty() =~= seq!["commit"@]);
    }
    c
}

/// Mixed reset to a target ref (`git reset <target>`): HEAD moves, and what
/// the commit held comes back as unstaged working-tree changes.
pub fn reset_mixed(target: &str) -> (c: GitCommand)
    ensures
        captured(c, seq!["reset"@, target@]),
{
    let mut a: Vec<String> = Vec::new();
    arg(&mut a, "reset");
    arg(&mut a, target);
    proof {
        assert(views(a@) =~= seq!["reset"@, target@]);
    }
    GitCommand::captured(a)
}

/// Soft reset to a target ref (`git reset --soft <target>`): undoing a commit
/// loom made itself, so what it held goes back to the index as staged.
pub fn reset_soft(target: &str) -> (c: GitCommand)
    ensures
        captured(c, seq!["reset"@, "--soft"@, target@]),
{
    let mut a: Vec<String> = Vec::new();
    arg(&mut a, "reset");
    arg(&mut a, "--soft");
    arg(&mut a, target);
    proof {
        assert(views(a@) =~= seq!["reset"@, "--soft"@, target@]);
    }
    GitCommand::captured(a)
}

/// Hard reset to a target ref (`git reset --hard <target>`), discarding all
/// working directory and index changes.
pub fn reset_hard(target: &str) -> (c: GitCommand)
    ensures
        captured(c, seq!["reset"@, "--hard"@, target@]),
{
    let mut a: Vec<String> = Vec::new();
    arg(&mut a, "reset");
    arg(&mut a, "--hard");
    arg(&mut a, target);
    proof {
        assert(views(a@) =~= seq!["reset"@, "--hard"@, target@]);
    }
    GitCommand::captured(a)
}

/// Stage all changes, with extra `git add` options from the user
/// (`git add <opts> -A`), uncaptured when the options need the terminal.
pub fn stage_all_opts(opts: &[String], agent: bool) -> (c: GitCommand)
    ensures
        views(c.args@) == seq!["add"@] + views(opts@) + seq!["-A"@],
        c.interactive == (opts@.len() > 0 && !agent),
        c.config@.len() == 0,
        c.stdin is None,
        c.index_file is None,
{
    let mut a: Vec<String> = Vec::new();
    arg(&mut a, "add");
    args_from(&mut a, opts);
    arg(&mut a, "-A");
    proof {
        assert(views(a@) =~= seq!["add"@] + views(opts@) + seq!["-A"@]);
    }
    if runs_uncaptured(opts, agent) {
        GitCommand::interactive(a)
    } else {
        GitCommand::captured(a)
    }
}

/// Stage all changes — staged, unstaged, and untracked (`git add -A`).
pub fn stage_all() -> (c: GitCommand)
    ensures
        captured(c, seq!["add"@, "-A"@]),
{
    let none: Vec<String> = Vec::new();
    let c = stage_all_opts(none.as_slice(), false);
    proof {
        assert(seq!["add"@] + views(none@) + seq!["-A"@] =~= seq!["add"@, "-A"@]);
    }
    c
}

} // verus!

verus! {

/// Staging leaves out exactly the files whose deletion is already staged:
/// every other file is staged, nothing else is, and with no such file the
/// whole list is.
pub proof fn staging_skips_only_staged_deletions(files: Seq<Seq<char>>, already_staged: Seq<bool>)
    requires
        files.len() == already_staged.len(),
    ensures
        forall|i: int|
            0 <= i < files.len() && !already_staged[i] ==> #[trigger] to_stage(
                files,
                already_staged,
            ).contains(files[i]),
        forall|x: Seq<char>|
            #[trigger] to_stage(files, already_staged).contains(x) ==> exists|i: int|
                0 <= i < files.len() && files[i] == x && !already_staged[i],
        (forall|i: int| 0 <= i < files.len() ==> !already_staged[i]) ==> to_stage(
            files,
            already_staged,
        ) == files,
    decreases files.len(),
{
    if files.len() > 0 {
        let f0 = files.drop_last();
        let g0 = already_staged.drop_last();
        staging_skips_only_staged_deletions(f0, g0);
        let rest = to_stage(f0, g0);
        let all = to_stage(files, already_staged);
        let n = files.len() - 1;
        assert forall|i: int|
            0 <= i < files.len() && !already_staged[i] implies #[trigger] all.contains(files[i]) by {
            if i < n {
                assert(f0[i] == files[i]);
                assert(g0[i] == already_staged[i]);
                assert(rest.contains(f0[i]));
                let k = choose|k: int| 0 <= k < rest.len() && rest[k] == f0[i];
                if !already_staged.last() {
                    assert(all[k] == rest[k]);
                }
                assert(all.contains(files[i]));
            } else {
                assert(all[all.len() - 1] == files.last());
            }
        }
        assert forall|x: Seq<char>| #[trigger] all.contains(x) implies exists|i: int|
            0 <= i < files.len() && files[i] == x && !already_staged[i] by {
            let k = choose|k: int| 0 <= k < all.len() && all[k] == x;
            if k < rest.len() {
                assert(rest[k] == all[k]);
                assert(rest.contains(x));
                let i = choose|i: int| 0 <= i < f0.len() && f0[i] == x && !g0[i];
                assert(files[i] == f0[i]);
            } else {
                assert(files[n] == x);
            }
        }
        if forall|i: int| 0 <= i < files.len() ==> !already_staged[i] {
            assert(forall|i: int| 0 <= i < f0.len() ==> !g0[i]);
            assert(!already_staged[n]);
            assert(all =~= files);
        }
    }
}

} // verus!
