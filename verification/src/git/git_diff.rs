//! The diffs loom reads: replayable ones it parses or hands back to
//! `git apply`, and display ones shown to the user as they are.
use vstd::prelude::*;

use crate::git::{arg, args_from, captured, GitCommand};
use crate::text::{
    chars_of, has_prefix, lines, lines_of, owned, push_str, split_once, split_once_chars,
    starts_with, string_of, trim, trim_chars, views,
};

verus! {

/// Flags forced on every diff loom reads back for display: `--no-color`
/// rather than `-c color.ui=false`, since an explicit `color.diff=always`
/// beats `color.ui`; no external diff driver, which prints whatever it likes.
pub open spec fn display_flags() -> Seq<Seq<char>> {
    seq!["--no-color"@, "--no-ext-diff"@]
}

/// Flags forced on every diff loom parses or hands back to `git apply`: no
/// textconv (it rewrites a binary patch into text `git apply` cannot apply),
/// three lines of context (`diff.context=0` makes hunks it refuses), short
/// submodule entries, and full blob ids for a three-way apply.
pub open spec fn replay_flags() -> Seq<Seq<char>> {
    seq![
        "--no-color"@,
        "--no-ext-diff"@,
        "--no-textconv"@,
        "--unified=3"@,
        "--submodule=short"@,
        "--full-index"@,
    ]
}

/// `git <command> <flags> <args>`, captured, with the display flags or the
/// replay ones.
fn patch_command(command: &str, replay: bool, args: &[String]) -> (c: GitCommand)
    ensures
        captured(
            c,
            seq![command@] + (if replay {
                replay_flags()
            } else {
                display_flags()
            }) + views(args@),
        ),
{
    let mut a: Vec<String> = Vec::new();
    arg(&mut a, command);
    arg(&mut a, "--no-color");
    arg(&mut a, "--no-ext-diff");
    if replay {
        arg(&mut a, "--no-textconv");
        arg(&mut a, "--unified=3");
        arg(&mut a, "--submodule=short");
        arg(&mut a, "--full-index");
    }
    args_from(&mut a, args);
    proof {
        if replay {
            assert(views(a@) =~= seq![command@] + replay_flags() + views(args@));
        } else {
            assert(views(a@) =~= seq![command@] + display_flags() + views(args@));
        }
    }
    GitCommand::captured(a)
}

/// `git diff` with the replay flags.
pub open spec fn replay_diff(args: Seq<Seq<char>>) -> Seq<Seq<char>> {
    seq!["diff"@] + replay_flags() + args
}

/// `git diff` with the replay flags and `--binary`: a diff saved only to be
/// restored later needs it, since `git apply` refuses the `Binary files …
/// differ` line a binary file otherwise prints, and applies all or nothing.
pub open spec fn restore_diff(args: Seq<Seq<char>>) -> Seq<Seq<char>> {
    seq!["diff"@] + replay_flags() + seq!["--binary"@] + args
}

/// `git <command>` with the display flags.
pub open spec fn display(command: Seq<char>, args: Seq<Seq<char>>) -> Seq<Seq<char>> {
    seq![command] + display_flags() + args
}

/// A commit's own range, `<oid>^..<oid>`.
pub open spec fn commit_range(oid: Seq<char>) -> Seq<char> {
    oid + "^.."@ + oid
}

fn commit_range_text(oid: &str) -> (s: String)
    ensures
        s@ == commit_range(oid@),
{
    let mut s = owned(oid);
    push_str(&mut s, "^..");
    push_str(&mut s, oid);
    s
}

fn words1(a: &str) -> (r: Vec<String>)
    ensures
        views(r@) == seq![a@],
{
    let mut r: Vec<String> = Vec::new();
    arg(&mut r, a);
    proof {
        assert(views(r@) =~= seq![a@]);
    }
    r
}

fn words2(a: &str, b: &str) -> (r: Vec<String>)
    ensures
        views(r@) == seq![a@, b@],
{
    let mut r: Vec<String> = Vec::new();
    arg(&mut r, a);
    arg(&mut r, b);
    proof {
        assert(views(r@) =~= seq![a@, b@]);
    }
    r
}

fn words3(a: &str, b: &str, c: &str) -> (r: Vec<String>)
    ensures
        views(r@) == seq![a@, b@, c@],
{
    let mut r: Vec<String> = Vec::new();
    arg(&mut r, a);
    arg(&mut r, b);
    arg(&mut r, c);
    proof {
        assert(views(r@) =~= seq![a@, b@, c@]);
    }
    r
}

fn words4(a: &str, b: &str, c: &str, d: &str) -> (r: Vec<String>)
    ensures
        views(r@) == seq![a@, b@, c@, d@],
{
    let mut r: Vec<String> = Vec::new();
    arg(&mut r, a);
    arg(&mut r, b);
    arg(&mut r, c);
    arg(&mut r, d);
    proof {
        assert(views(r@) =~= seq![a@, b@, c@, d@]);
    }
    r
}

/// The diff of a single commit (`git diff <oid>^..<oid>`).
pub fn diff_commit(oid: &str) -> (c: GitCommand)
    ensures
        captured(c, replay_diff(seq![commit_range(oid@)])),
{
    let range = commit_range_text(oid);
    patch_command("diff", true, words1(range.as_str()).as_slice())
}

/// The diff of a single file within a commit
/// (`git diff <oid>^..<oid> -- :(literal)<path>`): `:(literal)` because a
/// caller moving this diff whole would otherwise move whatever else the path
/// matched as a glob.
pub fn diff_commit_file(oid: &str, path: &str) -> (c: GitCommand)
    ensures
        captured(c, replay_diff(seq![commit_range(oid@), "--"@, ":(literal)"@ + path@])),
{
    let range = commit_range_text(oid);
    let mut lit = owned(":(literal)");
    push_str(&mut lit, path);
    patch_command("diff", true, words3(range.as_str(), "--", lit.as_str()).as_slice())
}

/// The staged diff, HEAD → index, for the listed files or for all of them
/// (`git diff --binary --cached -- <files>`), saved to be restored.
pub fn diff_cached_files(files: &[String]) -> (c: GitCommand)
    ensures
        captured(c, restore_diff(seq!["--cached"@, "--"@] + views(files@))),
{
    let mut a: Vec<String> = Vec::new();
    arg(&mut a, "--binary");
    arg(&mut a, "--cached");
    arg(&mut a, "--");
    args_from(&mut a, files);
    let c = patch_command("diff", true, a.as_slice());
    proof {
        assert(seq!["diff"@] + replay_flags() + views(a@) =~= restore_diff(
            seq!["--cached"@, "--"@] + views(files@),
        ));
    }
    c
}

/// The whole staged diff, HEAD → index (`git diff --binary --cached --`).
pub fn diff_cached() -> (c: GitCommand)
    ensures
        captured(c, restore_diff(seq!["--cached"@, "--"@])),
{
    let none: Vec<String> = Vec::new();
    let c = diff_cached_files(none.as_slice());
    proof {
        assert(seq!["--cached"@, "--"@] + views(none@) =~= seq!["--cached"@, "--"@]);
    }
    c
}

/// Every tracked file changed against HEAD, one name per line
/// (`git diff HEAD --name-only`).
pub fn diff_head_name_only() -> (c: GitCommand)
    ensures
        captured(c, replay_diff(seq!["HEAD"@, "--name-only"@])),
{
    patch_command("diff", true, words2("HEAD", "--name-only").as_slice())
}

/// The diff of one file against HEAD (`git diff HEAD -- <path>`).
pub fn diff_head_file(path: &str) -> (c: GitCommand)
    ensures
        captured(c, replay_diff(seq!["HEAD"@, "--"@, path@])),
{
    patch_command("diff", true, words3("HEAD", "--", path).as_slice())
}

/// The unstaged diff of one file, index → worktree (`git diff -- <path>`).
pub fn diff_file(path: &str) -> (c: GitCommand)
    ensures
        captured(c, replay_diff(seq!["--"@, path@])),
{
    patch_command("diff", true, words2("--", path).as_slice())
}

/// The staged diff of one file, HEAD → index (`git diff --cached -- <path>`).
pub fn diff_cached_file(path: &str) -> (c: GitCommand)
    ensures
        captured(c, replay_diff(seq!["--cached"@, "--"@, path@])),
{
    patch_command("diff", true, words3("--cached", "--", path).as_slice())
}

/// `git diff --numstat HEAD -- <path>`, read by [`numstat_is_binary`].
pub fn diff_head_file_is_binary(path: &str) -> (c: GitCommand)
    ensures
        captured(c, replay_diff(seq!["--numstat"@, "HEAD"@, "--"@, path@])),
{
    patch_command("diff", true, words4("--numstat", "HEAD", "--", path).as_slice())
}

/// `git diff --numstat -- <path>`, read by [`numstat_is_binary`].
pub fn diff_file_is_binary(path: &str) -> (c: GitCommand)
    ensures
        captured(c, replay_diff(seq!["--numstat"@, "--"@, path@])),
{
    patch_command("diff", true, words3("--numstat", "--", path).as_slice())
}

/// `git diff --cached --numstat -- <path>`, read by [`numstat_is_binary`].
pub fn diff_cached_file_is_binary(path: &str) -> (c: GitCommand)
    ensures
        captured(c, replay_diff(seq!["--cached"@, "--numstat"@, "--"@, path@])),
{
    patch_command("diff", true, words4("--cached", "--numstat", "--", path).as_slice())
}

/// `git diff --numstat <oid>^..<oid> -- <path>`, read by
/// [`numstat_is_binary`].
pub fn diff_commit_file_is_binary(oid: &str, path: &str) -> (c: GitCommand)
    ensures
        captured(c, replay_diff(seq!["--numstat"@, commit_range(oid@), "--"@, path@])),
{
    let range = commit_range_text(oid);
    patch_command("diff", true, words4("--numstat", range.as_str(), "--", path).as_slice())
}

/// Whether a `--numstat` line reports a binary file: binary files report
/// dashes instead of counts, which unlike the "Binary files" sentence does
/// not depend on the locale.
pub fn numstat_is_binary(out: &str) -> (r: bool)
    ensures
        r == has_prefix(out@, "-\t"@),
{
    let v = chars_of(out);
    let p = chars_of("-\t");
    starts_with(&v, &p)
}

/// `git diff --name-status <oid>^..<oid>`, read by [`parse_name_status`].
pub fn diff_commit_name_status(oid: &str) -> (c: GitCommand)
    ensures
        captured(c, replay_diff(seq!["--name-status"@, commit_range(oid@)])),
{
    let range = commit_range_text(oid);
    patch_command("diff", true, words2("--name-status", range.as_str()).as_slice())
}

/// The fields of a `--name-status` line after the status, split at most
/// twice on tabs: the first path, and what follows a second tab.
pub open spec fn paths_field(rest: Option<Seq<char>>) -> (Seq<char>, Option<Seq<char>>) {
    match rest {
        None => (Seq::empty(), None),
        Some(r) => match split_once(r, '\t') {
            Some((a, b)) => (trim(a), Some(trim(b))),
            None => (trim(r), None),
        },
    }
}

/// One `--name-status` line as `(status, path)`: the status is the first
/// character of the first field, and for a rename or copy (`R`/`C`) with a
/// destination the path is that destination. A blank line, or one without a
/// status or a first path, gives nothing.
pub open spec fn name_status_entry(line: Seq<char>) -> Option<(char, Seq<char>)> {
    let l = trim(line);
    let (status, rest) = match split_once(l, '\t') {
        Some((a, b)) => (a, Some(b)),
        None => (l, None),
    };
    let (path1, path2) = paths_field(rest);
    if status.len() == 0 || path1.len() == 0 {
        None
    } else {
        let st = status[0];
        Some(
            (
                st,
                if (st == 'R' || st == 'C') && path2 is Some {
                    path2->0
                } else {
                    path1
                },
            ),
        )
    }
}

/// Every entry of the lines, in order.
pub open spec fn name_status_entries(ls: Seq<Seq<char>>) -> Seq<(char, Seq<char>)>
    decreases ls.len(),
{
    if ls.len() == 0 {
        Seq::empty()
    } else {
        let rest = name_status_entries(ls.drop_last());
        match name_status_entry(ls.last()) {
            Some(e) => rest.push(e),
            None => rest,
        }
    }
}

/// The files a commit changed, as [`diff_commit_name_status`] printed them.
pub open spec fn name_status(out: Seq<char>) -> Seq<(char, Seq<char>)> {
    name_status_entries(lines(out))
}

/// An entry's path as its view.
pub open spec fn entry_views(v: Seq<(char, String)>) -> Seq<(char, Seq<char>)> {
    v.map_values(|e: (char, String)| (e.0, e.1@))
}

fn name_status_line(line: &[char]) -> (r: Option<(char, String)>)
    ensures
        match name_status_entry(line@) {
            Some((st, p)) => r matches Some((s, q)) && s == st && q@ == p,
            None => r is None,
        },
{
    let l = trim_chars(line);
    let (status, rest) = match split_once_chars(&l, '\t') {
        Some((a, b)) => (a, Some(b)),
        None => (l, None),
    };
    let (path1, path2): (Vec<char>, Option<Vec<char>>) = match rest {
        None => (Vec::new(), None),
        Some(r) => match split_once_chars(&r, '\t') {
            Some((a, b)) => (trim_chars(&a), Some(trim_chars(&b))),
            None => (trim_chars(&r), None),
        },
    };
    proof {
        assert(path1@ == paths_field(
            match split_once(trim(line@), '\t') {
                Some((a, b)) => Some(b),
                None => None,
            },
        ).0);
    }
    if status.len() == 0 || path1.len() == 0 {
        return None;
    }
    let st = status[0];
    let path = match path2 {
        Some(p2) => if st == 'R' || st == 'C' {
            p2
        } else {
            path1
        },
        None => path1,
    };
    Some((st, string_of(&path)))
}

/// Reads [`diff_commit_name_status`]'s output.
pub fn parse_name_status(out: &str) -> (r: Vec<(char, String)>)
    ensures
        entry_views(r@) == name_status(out@),
{
    let v = chars_of(out);
    let ls = lines_of(&v);
    let mut r: Vec<(char, String)> = Vec::new();
    let mut i: usize = 0;
    while i < ls.len()
        invariant
            i <= ls@.len(),
            crate::text::rows(ls@) == lines(out@),
            entry_views(r@) == name_status_entries(lines(out@).take(i as int)),
        decreases ls.len() - i,
    {
        proof {
            assert(lines(out@).take(i + 1).drop_last() =~= lines(out@).take(i as int));
            assert(lines(out@).take(i + 1).last() == ls@[i as int]@);
        }
        let ghost before = entry_views(r@);
        match name_status_line(ls[i].as_slice()) {
            Some(e) => {
                r.push(e);
                proof {
                    assert(entry_views(r@) =~= before.push(name_status_entry(ls@[i as int]@)->0));
                }
            },
            None => {},
        }
        i = i + 1;
    }
    proof {
        assert(lines(out@).take(ls@.len() as int) =~= lines(out@));
    }
    r
}

/// The full diff of all working-tree changes against HEAD
/// (`git diff --binary HEAD`): the snapshot a rollback restores the user's
/// uncommitted changes from, so it carries binary files too.
pub fn diff_head() -> (c: GitCommand)
    ensures
        captured(c, restore_diff(seq!["HEAD"@])),
{
    let a = words2("--binary", "HEAD");
    let c = patch_command("diff", true, a.as_slice());
    proof {
        assert(seq!["diff"@] + replay_flags() + views(a@) =~= restore_diff(seq!["HEAD"@]));
    }
    c
}

/// The diff of some files against HEAD (`git diff --binary HEAD -- <files>`),
/// saved to be restored like [`diff_head`].
pub fn diff_head_files(files: &[String]) -> (c: GitCommand)
    ensures
        captured(c, restore_diff(seq!["HEAD"@, "--"@] + views(files@))),
{
    let mut a = words3("--binary", "HEAD", "--");
    args_from(&mut a, files);
    let c = patch_command("diff", true, a.as_slice());
    proof {
        assert(seq!["diff"@] + replay_flags() + views(a@) =~= restore_diff(
            seq!["HEAD"@, "--"@] + views(files@),
        ));
    }
    c
}

/// The working-tree diff against HEAD, for display (`git diff HEAD`),
/// keeping the user's textconv filters: it is read, never applied.
pub fn diff_head_display() -> (c: GitCommand)
    ensures
        captured(c, display("diff"@, seq!["HEAD"@])),
{
    patch_command("diff", false, words1("HEAD").as_slice())
}

/// The staged diff against HEAD, for display (`git diff --cached`).
pub fn diff_cached_display() -> (c: GitCommand)
    ensures
        captured(c, display("diff"@, seq!["--cached"@])),
{
    patch_command("diff", false, words1("--cached").as_slice())
}

/// The working-tree diff of several files against HEAD, for display
/// (`git diff HEAD -- <paths>`), in one call. No paths means no diff — the
/// result is empty and there is nothing to run — not every file, which an
/// empty pathspec would make git match.
pub fn diff_head_files_display(paths: &[String]) -> (r: Option<GitCommand>)
    ensures
        paths@.len() == 0 ==> r is None,
        paths@.len() > 0 ==> (r matches Some(c) && captured(
            c,
            display("diff"@, seq!["HEAD"@, "--"@] + views(paths@)),
        )),
{
    if paths.len() == 0 {
        return None;
    }
    let mut a = words2("HEAD", "--");
    args_from(&mut a, paths);
    let c = patch_command("diff", false, a.as_slice());
    proof {
        assert(seq!["diff"@] + display_flags() + views(a@) =~= display(
            "diff"@,
            seq!["HEAD"@, "--"@] + views(paths@),
        ));
    }
    Some(c)
}

/// The working-tree diff of one file against HEAD, for display.
pub fn diff_head_file_display(path: &str) -> (c: GitCommand)
    ensures
        captured(c, display("diff"@, seq!["HEAD"@, "--"@, path@])),
{
    let one = words1(path);
    let r = diff_head_files_display(one.as_slice());
    proof {
        assert(seq!["HEAD"@, "--"@] + views(one@) =~= seq!["HEAD"@, "--"@, path@]);
    }
    match r {
        Some(c) => c,
        None => patch_command("diff", false, words3("HEAD", "--", path).as_slice()),
    }
}

/// The diff between two commits, for display (`git diff <base> <tip>`).
pub fn diff_range(base: &str, tip: &str) -> (c: GitCommand)
    ensures
        captured(c, display("diff"@, seq![base@, tip@])),
{
    patch_command("diff", false, words2(base, tip).as_slice())
}

/// A commit's summary and patch, for display (`git show --stat --patch <oid>`).
pub fn show_commit_patch(oid: &str) -> (c: GitCommand)
    ensures
        captured(c, display("show"@, seq!["--stat"@, "--patch"@, oid@])),
{
    patch_command("show", false, words3("--stat", "--patch", oid).as_slice())
}

/// The patch a commit applied to one file, without the commit header, for
/// display (`git show --format= <oid> -- <path>`).
pub fn show_commit_file(oid: &str, path: &str) -> (c: GitCommand)
    ensures
        captured(c, display("show"@, seq!["--format="@, oid@, "--"@, path@])),
{
    patch_command("show", false, words4("--format=", oid, "--", path).as_slice())
}

} // verus!
