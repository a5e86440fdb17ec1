//! The git invocations loom makes, as values: what to run, and how to read
//! what came back. Running them is the caller's business.
use vstd::prelude::*;

pub mod git_apply;
pub mod git_commit;
pub mod git_diff;
pub mod git_rebase;
pub mod git_worktree;

use crate::text::{
    byte_len, bytes_of, decimal, decimal_text, parse_u32, parse_u32_chars, strip_prefix, byte_prefix, chars_in_bytes, chars_of, non_empty, non_empty_texts, owned, push_str, split,
    split_chars, string_of_range, trim, trim_str, utf8_len, utf8_width, views, lemma_bytes_of_grows,
};

verus! {

/// A git invocation: the arguments after `git`, extra `-c` settings placed
/// before them, what goes to its stdin, and the index file it works on when
/// that is not the repository's own.
///
/// A captured command runs with loom's forced configuration in front of
/// everything and `GIT_EDITOR=true`; an interactive one inherits the
/// terminal (an editor, a pager, a report the user reads).
pub struct GitCommand {
    pub args: Vec<String>,
    pub config: Vec<String>,
    pub stdin: Option<String>,
    pub index_file: Option<String>,
    pub interactive: bool,
}

/// How a git invocation ended: whether it exited 0, and what it printed.
pub struct GitOutcome {
    pub success: bool,
    pub stdout: String,
    pub stderr: String,
}

/// A git invocation that exited non-zero.
pub struct GitFailure {
    pub message: String,
}

/// Appends one argument.
pub fn arg(v: &mut Vec<String>, s: &str)
    ensures
        views(final(v)@) == views(old(v)@).push(s@),
{
    let ghost before = views(v@);
    v.push(owned(s));
    proof {
        assert(views(v@) =~= before.push(s@));
    }
}

/// Appends every argument of `src`.
pub fn args_from(v: &mut Vec<String>, src: &[String])
    ensures
        views(final(v)@) == views(old(v)@) + views(src@),
{
    let ghost before = views(v@);
    let mut i: usize = 0;
    while i < src.len()
        invariant
            i <= src@.len(),
            views(v@) == before + views(src@).take(i as int),
        decreases src.len() - i,
    {
        let ghost mid = views(v@);
        v.push(src[i].clone());
        proof {
            assert(views(v@) =~= mid.push(src@[i as int]@));
            assert(views(src@).take(i + 1) =~= views(src@).take(i as int).push(src@[i as int]@));
        }
        i = i + 1;
    }
    proof {
        assert(views(src@).take(src@.len() as int) =~= views(src@));
    }
}

/// The configuration forced on every git command loom reads back or feeds
/// patches to: settings a user's gitconfig may hold that would change the
/// output loom parses or the patches it replays.
pub open spec fn forced_config_spec() -> Seq<Seq<char>> {
    seq![
        "-c"@,
        "commit.verbose=false"@,
        "-c"@,
        "diff.noprefix=false"@,
        "-c"@,
        "diff.mnemonicPrefix=false"@,
        "-c"@,
        "diff.srcPrefix=a/"@,
        "-c"@,
        "diff.dstPrefix=b/"@,
        "-c"@,
        "apply.whitespace=nowarn"@,
        "-c"@,
        "apply.ignoreWhitespace=no"@,
        "-c"@,
        "rebase.missingCommitsCheck=ignore"@,
    ]
}

/// See [`forced_config_spec`].
pub fn forced_config() -> (r: Vec<String>)
    ensures
        views(r@) == forced_config_spec(),
{
    let mut v: Vec<String> = Vec::new();
    arg(&mut v, "-c");
    arg(&mut v, "commit.verbose=false");
    arg(&mut v, "-c");
    arg(&mut v, "diff.noprefix=false");
    arg(&mut v, "-c");
    arg(&mut v, "diff.mnemonicPrefix=false");
    arg(&mut v, "-c");
    arg(&mut v, "diff.srcPrefix=a/");
    arg(&mut v, "-c");
    arg(&mut v, "diff.dstPrefix=b/");
    arg(&mut v, "-c");
    arg(&mut v, "apply.whitespace=nowarn");
    arg(&mut v, "-c");
    arg(&mut v, "apply.ignoreWhitespace=no");
    arg(&mut v, "-c");
    arg(&mut v, "rebase.missingCommitsCheck=ignore");
    proof {
        assert(views(v@) =~= forced_config_spec());
    }
    v
}

} // verus!

verus! {

/// A captured command with these arguments and nothing else.
pub open spec fn captured(c: GitCommand, args: Seq<Seq<char>>) -> bool {
    &&& views(c.args@) == args
    &&& c.config@.len() == 0
    &&& c.stdin is None
    &&& c.index_file is None
    &&& !c.interactive
}

/// An interactive command with these arguments and nothing else.
pub open spec fn interactive(c: GitCommand, args: Seq<Seq<char>>) -> bool {
    &&& views(c.args@) == args
    &&& c.config@.len() == 0
    &&& c.stdin is None
    &&& c.index_file is None
    &&& c.interactive
}

impl GitCommand {
    /// A command whose output loom captures.
    pub fn captured(args: Vec<String>) -> (c: GitCommand)
        ensures
            captured(c, views(args@)),
    {
        GitCommand { args, config: Vec::new(), stdin: None, index_file: None, interactive: false }
    }

    /// A command that inherits the terminal.
    pub fn interactive(args: Vec<String>) -> (c: GitCommand)
        ensures
            interactive(c, views(args@)),
    {
        GitCommand { args, config: Vec::new(), stdin: None, index_file: None, interactive: true }
    }
}

/// The full argument list after `git`: a captured command gets the forced
/// configuration and its own `-c` settings first; an interactive one gets
/// `core.pager=cat` when a pty-hosted agent drives loom, which must never
/// hang inside `less`.
pub open spec fn argv_spec(c: GitCommand, agent: bool) -> Seq<Seq<char>> {
    if c.interactive {
        if agent {
            seq!["-c"@, "core.pager=cat"@] + views(c.args@)
        } else {
            views(c.args@)
        }
    } else {
        forced_config_spec() + views(c.config@) + views(c.args@)
    }
}

/// See [`argv_spec`].
pub fn argv(c: &GitCommand, agent: bool) -> (r: Vec<String>)
    ensures
        views(r@) == argv_spec(*c, agent),
{
    if c.interactive {
        let mut r: Vec<String> = Vec::new();
        if agent {
            arg(&mut r, "-c");
            arg(&mut r, "core.pager=cat");
        }
        args_from(&mut r, c.args.as_slice());
        proof {
            if !agent {
                assert(views(r@) =~= views(c.args@));
            }
        }
        r
    } else {
        let mut r = forced_config();
        args_from(&mut r, c.config.as_slice());
        args_from(&mut r, c.args.as_slice());
        r
    }
}

/// The error a failed command reports: `git <subcommand> failed`. Its
/// stderr goes to the trace log, not into the message.
pub open spec fn failed_text(c: GitCommand) -> Seq<char> {
    "git "@ + c.args@[0]@ + " failed"@
}

/// See [`failed_text`].
pub fn failure(c: &GitCommand) -> (f: GitFailure)
    requires
        c.args@.len() > 0,
    ensures
        f.message@ == failed_text(*c),
{
    let mut message = owned("git ");
    push_str(&mut message, c.args[0].as_str());
    push_str(&mut message, " failed");
    GitFailure { message }
}

/// Whether a git command succeeded: an error naming it when it did not.
pub fn run_git(c: &GitCommand, out: &GitOutcome) -> (r: Result<(), GitFailure>)
    requires
        c.args@.len() > 0,
    ensures
        out.success ==> r is Ok,
        !out.success ==> (r matches Err(f) && f.message@ == failed_text(*c)),
{
    if out.success {
        Ok(())
    } else {
        Err(failure(c))
    }
}

/// A git command's stdout, or an error naming it when it failed.
pub fn run_git_stdout(c: &GitCommand, out: &GitOutcome) -> (r: Result<String, GitFailure>)
    requires
        c.args@.len() > 0,
    ensures
        out.success ==> (r matches Ok(s) && s@ == out.stdout@),
        !out.success ==> (r matches Err(f) && f.message@ == failed_text(*c)),
{
    if out.success {
        Ok(out.stdout.clone())
    } else {
        Err(failure(c))
    }
}

/// A git command's stdout and stderr together, trimmed: for commands like
/// `fetch` that print their summary to stderr, shown after a spinner
/// instead of streamed live. An error naming it when it failed.
pub fn run_git_combined(c: &GitCommand, out: &GitOutcome) -> (r: Result<String, GitFailure>)
    requires
        c.args@.len() > 0,
    ensures
        out.success ==> (r matches Ok(s) && s@ == trim(out.stdout@ + out.stderr@)),
        !out.success ==> (r matches Err(f) && f.message@ == failed_text(*c)),
{
    if out.success {
        let mut combined = out.stdout.clone();
        push_str(&mut combined, out.stderr.as_str());
        Ok(trim_str(combined.as_str()))
    } else {
        Err(failure(c))
    }
}

/// `git rev-parse --absolute-git-dir`: the git dir, which in a linked
/// worktree or under `GIT_DIR` is not `<workdir>/.git`.
pub fn absolute_git_dir() -> (c: GitCommand)
    ensures
        captured(c, seq!["rev-parse"@, "--absolute-git-dir"@]),
{
    let mut a: Vec<String> = Vec::new();
    arg(&mut a, "rev-parse");
    arg(&mut a, "--absolute-git-dir");
    proof {
        assert(views(a@) =~= seq!["rev-parse"@, "--absolute-git-dir"@]);
    }
    GitCommand::captured(a)
}

/// The path [`absolute_git_dir`] printed.
pub fn absolute_git_dir_output(stdout: &str) -> (r: String)
    ensures
        r@ == trim(stdout@),
{
    trim_str(stdout)
}

pub(crate) fn files_after(head: &[&str], files: &[String]) -> (r: Vec<String>)
    ensures
        views(r@) == head@.map_values(|s: &str| s@) + views(files@),
{
    let mut r: Vec<String> = Vec::new();
    let mut i: usize = 0;
    while i < head.len()
        invariant
            i <= head@.len(),
            views(r@) == head@.map_values(|s: &str| s@).take(i as int),
        decreases head.len() - i,
    {
        arg(&mut r, head[i]);
        proof {
            assert(head@.map_values(|s: &str| s@).take(i + 1) =~= head@.map_values(
                |s: &str| s@,
            ).take(i as int).push(head@[i as int]@));
        }
        i = i + 1;
    }
    proof {
        assert(head@.map_values(|s: &str| s@).take(head@.len() as int) =~= head@.map_values(
            |s: &str| s@,
        ));
    }
    args_from(&mut r, files);
    r
}

/// Unstage specific files, leaving the working tree alone
/// (`git reset HEAD -- <files>`).
pub fn unstage_files(files: &[String]) -> (c: GitCommand)
    ensures
        captured(c, seq!["reset"@, "HEAD"@, "--"@] + views(files@)),
{
    let r = files_after(&["reset", "HEAD", "--"], files);
    proof {
        assert(["reset", "HEAD", "--"]@.map_values(|s: &str| s@) =~= seq!["reset"@, "HEAD"@, "--"@]);
    }
    GitCommand::captured(r)
}

/// Restore tracked files in the working tree to their HEAD state
/// (`git checkout HEAD -- <files>`).
pub fn restore_files_to_head(files: &[String]) -> (c: GitCommand)
    ensures
        captured(c, seq!["checkout"@, "HEAD"@, "--"@] + views(files@)),
{
    let r = files_after(&["checkout", "HEAD", "--"], files);
    proof {
        assert(["checkout", "HEAD", "--"]@.map_values(|s: &str| s@) =~= seq![
            "checkout"@,
            "HEAD"@,
            "--"@,
        ]);
    }
    GitCommand::captured(r)
}

/// Restore tracked files in the working tree to their index state
/// (`git checkout-index -f -- <files>`).
pub fn checkout_index_force(files: &[String]) -> (c: GitCommand)
    ensures
        captured(c, seq!["checkout-index"@, "-f"@, "--"@] + views(files@)),
{
    let r = files_after(&["checkout-index", "-f", "--"], files);
    proof {
        assert(["checkout-index", "-f", "--"]@.map_values(|s: &str| s@) =~= seq![
            "checkout-index"@,
            "-f"@,
            "--"@,
        ]);
    }
    GitCommand::captured(r)
}

/// A path as a `:(literal)` pathspec: a real file named `a[12].txt` would
/// otherwise match `a1.txt` as a glob, and the caller would act on a file it
/// never asked about.
pub open spec fn literal(path: Seq<char>) -> Seq<char> {
    ":(literal)"@ + path
}

/// Every path as a `:(literal)` pathspec.
pub open spec fn literals(paths: Seq<Seq<char>>) -> Seq<Seq<char>> {
    paths.map_values(|p: Seq<char>| literal(p))
}

/// See [`literals`].
pub fn literal_pathspecs(files: &[String]) -> (r: Vec<String>)
    ensures
        views(r@) == literals(views(files@)),
{
    let mut r: Vec<String> = Vec::new();
    let mut i: usize = 0;
    while i < files.len()
        invariant
            i <= files@.len(),
            views(r@) == literals(views(files@)).take(i as int),
        decreases files.len() - i,
    {
        let mut spec = owned(":(literal)");
        push_str(&mut spec, files[i].as_str());
        let ghost before = views(r@);
        r.push(spec);
        proof {
            assert(views(r@) =~= before.push(literal(files@[i as int]@)));
            assert(literals(views(files@)).take(i + 1) =~= before.push(literal(files@[i as int]@)));
        }
        i = i + 1;
    }
    proof {
        assert(literals(views(files@)).take(files@.len() as int) =~= literals(views(files@)));
    }
    r
}

/// `git ls-files -z -- <literal pathspecs>`: which of `files` the index
/// knows about. `None` for an empty list, whose answer is empty: no
/// pathspec means every path in the index to git, never what a caller
/// asking about a list of files wants when that list came up empty. `-z`
/// because the default `core.quotePath` would escape a non-ASCII path.
pub fn ls_files(files: &[String]) -> (c: Option<GitCommand>)
    ensures
        files@.len() == 0 ==> c is None,
        files@.len() > 0 ==> (c matches Some(c) && captured(
            c,
            seq!["ls-files"@, "-z"@, "--"@] + literals(views(files@)),
        )),
{
    if files.len() == 0 {
        return None;
    }
    let specs = literal_pathspecs(files);
    let r = files_after(&["ls-files", "-z", "--"], &specs);
    proof {
        assert(["ls-files", "-z", "--"]@.map_values(|s: &str| s@) =~= seq![
            "ls-files"@,
            "-z"@,
            "--"@,
        ]);
    }
    Some(GitCommand::captured(r))
}

/// The paths in NUL-separated output, without the empty pieces.
pub open spec fn nul_separated(out: Seq<char>) -> Seq<Seq<char>> {
    non_empty(split(out, '\0'))
}

/// The paths [`ls_files`] printed.
pub fn ls_files_output(stdout: &str) -> (r: Vec<String>)
    ensures
        views(r@) == nul_separated(stdout@),
{
    let v = chars_of(stdout);
    let pieces = split_chars(&v, '\0');
    non_empty_texts(&pieces)
}

/// `git status --porcelain -z -uall`, which [`worktree_dirty_paths_output`]
/// reads. `-uall` lists the files inside an untracked directory instead of
/// collapsing them into the directory itself.
pub fn worktree_dirty_paths() -> (c: GitCommand)
    ensures
        captured(c, seq!["status"@, "--porcelain"@, "-z"@, "-uall"@]),
{
    let mut a: Vec<String> = Vec::new();
    arg(&mut a, "status");
    arg(&mut a, "--porcelain");
    arg(&mut a, "-z");
    arg(&mut a, "-uall");
    proof {
        assert(views(a@) =~= seq!["status"@, "--porcelain"@, "-z"@, "-uall"@]);
    }
    GitCommand::captured(a)
}

/// Reading `git status --porcelain -z` entry by entry: the paths kept so
/// far, whether the next entry is a rename's source, and whether every entry
/// read had status columns that can be sliced where git puts them.
pub struct StatusScan {
    pub paths: Seq<Seq<char>>,
    pub rename_source_next: bool,
    pub readable: bool,
}

pub open spec fn is_rename_or_copy(c: char) -> bool {
    c == 'R' || c == 'C'
}

/// One NUL-separated entry, `XY <path>`.
///
/// The status is the first three bytes; an entry too short for them, or
/// whose third byte falls inside a character, is passed over. A rename or a
/// copy, recorded in either column, is followed by its source path as an
/// entry of its own, which names a file the rename left behind and is never
/// worktree-dirty. A path is kept when its worktree column is set.
pub open spec fn status_step(st: StatusScan, entry: Seq<char>) -> StatusScan {
    if st.rename_source_next {
        StatusScan { rename_source_next: false, ..st }
    } else {
        match chars_in_bytes(entry, 3) {
            None => st,
            Some(k) => {
                let worktree_col = entry.subrange(1, k as int);
                StatusScan {
                    paths: if worktree_col.len() > 0 && worktree_col[0] == ' ' {
                        st.paths
                    } else {
                        st.paths.push(entry.skip(k as int))
                    },
                    rename_source_next: is_rename_or_copy(entry[0]) || (worktree_col.len() > 0
                        && is_rename_or_copy(worktree_col[0])),
                    readable: st.readable && utf8_len(entry[0]) == 1,
                }
            },
        }
    }
}

pub open spec fn status_scan(entries: Seq<Seq<char>>) -> StatusScan
    decreases entries.len(),
{
    if entries.len() == 0 {
        StatusScan { paths: seq![], rename_source_next: false, readable: true }
    } else {
        status_step(status_scan(entries.drop_last()), entries.last())
    }
}

/// Every path whose working-tree content differs from the index, untracked
/// files included — but not ignored ones, and not a file that is only
/// staged: its working-tree content still matches the index.
pub open spec fn dirty_paths(out: Seq<char>) -> Seq<Seq<char>> {
    status_scan(nul_separated(out)).paths
}

/// Whether every entry [`worktree_dirty_paths_output`] reads has status
/// columns it can slice: git writes them in ASCII.
pub open spec fn status_readable(out: Seq<char>) -> bool {
    status_scan(nul_separated(out)).readable
}

fn status_scan_exec(stdout: &str) -> (r: (Vec<String>, bool))
    ensures
        views(r.0@) == dirty_paths(stdout@),
        r.1 == status_readable(stdout@),
{
    let entries = ls_files_output(stdout);
    let ghost es = nul_separated(stdout@);
    let mut paths: Vec<String> = Vec::new();
    let mut rename_source_next = false;
    let mut readable = true;
    let mut i: usize = 0;
    while i < entries.len()
        invariant
            i <= entries@.len(),
            views(entries@) == es,
            ({
                let st = status_scan(es.take(i as int));
                &&& views(paths@) == st.paths
                &&& rename_source_next == st.rename_source_next
                &&& readable == st.readable
            }),
        decreases entries.len() - i,
    {
        proof {
            assert(es.take(i + 1).drop_last() =~= es.take(i as int));
            assert(es.take(i + 1).last() == entries@[i as int]@);
        }
        if rename_source_next {
            rename_source_next = false;
        } else {
            let e = chars_of(entries[i].as_str());
            match byte_prefix(&e, 3) {
                None => {},
                Some(k) => {
                    let first = e[0];
                    let col_set = k > 1;
                    let second = if col_set {
                        e[1]
                    } else {
                        ' '
                    };
                    if !(col_set && second == ' ') {
                        let ghost before = views(paths@);
                        paths.push(string_of_range(&e, k, e.len()));
                        proof {
                            assert(e@.subrange(k as int, e@.len() as int) =~= e@.skip(k as int));
                            assert(views(paths@) =~= before.push(e@.skip(k as int)));
                        }
                    }
                    rename_source_next = first == 'R' || first == 'C' || (col_set && (second
                        == 'R' || second == 'C'));
                    readable = readable && utf8_width(first) == 1;
                    proof {
                        assert(k > 0);
                        if col_set {
                            assert(e@.subrange(1, k as int)[0] == e@[1]);
                        }
                    }
                },
            }
        }
        i = i + 1;
    }
    proof {
        assert(es.take(entries@.len() as int) =~= es);
    }
    (paths, readable)
}

/// The paths `git status --porcelain -z -uall` reports as differing in the
/// working tree.
pub fn worktree_dirty_paths_output(stdout: &str) -> (r: Vec<String>)
    requires
        status_readable(stdout@),
    ensures
        views(r@) == dirty_paths(stdout@),
{
    status_scan_exec(stdout).0
}

/// Whether [`worktree_dirty_paths_output`] can read this output.
pub fn worktree_status_readable(stdout: &str) -> (b: bool)
    ensures
        b == status_readable(stdout@),
{
    status_scan_exec(stdout).1
}

} // verus!

verus! {

/// `git rev-parse --git-path <name>`: a path inside the git dir, e.g.
/// `index`, which knows where a linked worktree's own git dir is and, for
/// `index`, honors `GIT_INDEX_FILE`.
pub fn git_path(name: &str) -> (c: GitCommand)
    ensures
        captured(c, seq!["rev-parse"@, "--git-path"@, name@]),
{
    let mut a: Vec<String> = Vec::new();
    arg(&mut a, "rev-parse");
    arg(&mut a, "--git-path");
    arg(&mut a, name);
    proof {
        assert(views(a@) =~= seq!["rev-parse"@, "--git-path"@, name@]);
    }
    GitCommand::captured(a)
}

/// The text without its trailing newlines (`trim_end_matches('\n')`).
pub open spec fn strip_newlines(s: Seq<char>) -> Seq<char>
    decreases s.len(),
{
    if s.len() > 0 && s.last() == '\n' {
        strip_newlines(s.drop_last())
    } else {
        s
    }
}

/// The path [`git_path`] printed, relative to the working directory unless
/// absolute. Only the trailing newline goes: a git dir path may
/// legitimately begin or end with a space, and git never pads its own
/// output.
pub fn git_path_output(stdout: &str) -> (r: String)
    ensures
        r@ == strip_newlines(stdout@),
{
    let v = chars_of(stdout);
    let mut end = v.len();
    assert(v@.take(end as int) =~= v@);
    while end > 0 && v[end - 1] == '\n'
        invariant
            end <= v@.len(),
            strip_newlines(v@) == strip_newlines(v@.take(end as int)),
        decreases end,
    {
        proof {
            assert(v@.take(end as int).drop_last() =~= v@.take(end - 1));
        }
        end = end - 1;
    }
    proof {
        assert(v@.take(v@.len() as int) =~= v@);
        assert(v@.subrange(0, end as int) =~= v@.take(end as int));
    }
    string_of_range(&v, 0, end)
}

/// `git symbolic-ref --quiet --short HEAD`: the branch HEAD points at,
/// without `refs/heads/`. It fails when HEAD is detached.
pub fn current_branch() -> (c: GitCommand)
    ensures
        captured(c, seq!["symbolic-ref"@, "--quiet"@, "--short"@, "HEAD"@]),
{
    let mut a: Vec<String> = Vec::new();
    arg(&mut a, "symbolic-ref");
    arg(&mut a, "--quiet");
    arg(&mut a, "--short");
    arg(&mut a, "HEAD");
    proof {
        assert(views(a@) =~= seq!["symbolic-ref"@, "--quiet"@, "--short"@, "HEAD"@]);
    }
    GitCommand::captured(a)
}

/// The branch name [`current_branch`] printed.
pub fn current_branch_output(stdout: &str) -> (r: String)
    ensures
        r@ == trim(stdout@),
{
    trim_str(stdout)
}

/// `git rev-parse <ref>`: the full hash a ref resolves to.
pub fn rev_parse(reference: &str) -> (c: GitCommand)
    ensures
        captured(c, seq!["rev-parse"@, reference@]),
{
    let mut a: Vec<String> = Vec::new();
    arg(&mut a, "rev-parse");
    arg(&mut a, reference);
    proof {
        assert(views(a@) =~= seq!["rev-parse"@, reference@]);
    }
    GitCommand::captured(a)
}

/// The hash [`rev_parse`] printed.
pub fn rev_parse_output(stdout: &str) -> (r: String)
    ensures
        r@ == trim(stdout@),
{
    trim_str(stdout)
}

/// The first seven bytes of a hash, the whole hash when it is shorter: the
/// short form shown to the user.
pub open spec fn short_hash_spec(hash: Seq<char>) -> Seq<char> {
    if byte_len(hash) <= 7 {
        hash
    } else {
        hash.take(chars_in_bytes(hash, 7)->0 as int)
    }
}

/// A hash can be cut after its seventh byte: it is no longer, or that byte
/// ends a character (a hash is hex, so it always does).
pub open spec fn cuttable_hash(hash: Seq<char>) -> bool {
    byte_len(hash) <= 7 || chars_in_bytes(hash, 7) is Some
}

/// Whether [`short_hash`] can cut `hash` ([`cuttable_hash`]).
pub fn is_cuttable_hash(hash: &str) -> (r: bool)
    ensures
        r == cuttable_hash(hash@),
{
    let v = chars_of(hash);
    match byte_prefix(&v, 7) {
        Some(_) => true,
        None => {
            let mut b: u128 = 0;
            let mut k: usize = 0;
            while k < v.len() && b <= 7
                invariant
                    k <= v@.len(),
                    v@ == hash@,
                    b == bytes_of(v@, k as nat),
                    b <= 11,
                decreases v.len() - k,
            {
                b = b + utf8_width(v[k]) as u128;
                k = k + 1;
            }
            proof {
                if b <= 7 {
                    assert(k == v@.len());
                } else if k < v@.len() {
                    lemma_bytes_of_grows(v@, k as nat, v@.len() as nat);
                }
            }
            b <= 7
        },
    }
}

/// See [`short_hash_spec`].
pub fn short_hash(hash: &str) -> (r: String)
    requires
        cuttable_hash(hash@),
    ensures
        r@ == short_hash_spec(hash@),
{
    let v = chars_of(hash);
    match byte_prefix(&v, 7) {
        Some(k) => {
            proof {
                if byte_len(hash@) <= 7 {
                    if k < v@.len() {
                        lemma_bytes_of_grows(hash@, k as nat, v@.len() as nat);
                    }
                    assert(k == v@.len());
                    assert(v@.take(k as int) =~= v@);
                }
                assert(v@.subrange(0, k as int) =~= v@.take(k as int));
            }
            string_of_range(&v, 0, k)
        },
        None => {
            proof {
                assert(v@.subrange(0, v@.len() as int) =~= v@);
            }
            string_of_range(&v, 0, v.len())
        },
    }
}

/// The `X.Y` of `git version X.Y.Z...`, each part as `u32::from_str` reads
/// it.
pub open spec fn git_version(out: Seq<char>) -> Option<(u32, u32)> {
    match strip_prefix(trim(out), "git version "@) {
        None => None,
        Some(rest) => {
            let parts = split(rest, '.');
            if parts.len() < 2 {
                None
            } else {
                match (parse_u32(parts[0]), parse_u32(parts[1])) {
                    (Some(major), Some(minor)) => Some((major, minor)),
                    _ => None,
                }
            }
        },
    }
}

/// Parse "git version X.Y.Z..." into (major, minor).
pub fn parse_git_version(version_str: &str) -> (r: Option<(u32, u32)>)
    ensures
        r == git_version(version_str@),
{
    let t = trim_str(version_str);
    let v = chars_of(t.as_str());
    let prefix = chars_of("git version ");
    if !crate::text::starts_with(&v, &prefix) {
        return None;
    }
    let rest = crate::text::subrange(&v, prefix.len(), v.len());
    proof {
        assert(rest@ =~= v@.skip(prefix@.len() as int));
    }
    let parts = split_chars(&rest, '.');
    if parts.len() < 2 {
        return None;
    }
    proof {
        assert(parts@[0]@ == split(rest@, '.')[0]);
        assert(parts@[1]@ == split(rest@, '.')[1]);
    }
    let major = parse_u32_chars(&parts[0]);
    let minor = parse_u32_chars(&parts[1]);
    match (major, minor) {
        (Some(a), Some(b)) => Some((a, b)),
        _ => None,
    }
}

/// The oldest git loom runs on: `--update-refs` came with 2.38.
pub open spec fn too_old(major: u32, minor: u32) -> bool {
    major < 2 || (major == 2 && minor < 38)
}

/// The installed git cannot serve loom.
#[derive(Debug, Clone, PartialEq, Eq)]
pub enum VersionError {
    /// `git --version` printed something else; the trimmed output.
    Unparseable(String),
    /// Older than 2.38; the version and the trimmed output.
    TooOld { major: u32, minor: u32, reported: String },
}

impl VersionError {
    /// The message shown to the user.
    pub fn message(&self) -> (s: String)
        ensures
            self matches VersionError::Unparseable(out) ==> s@ == "Could not parse Git version from: "@
                + out@,
            self matches VersionError::TooOld { major, minor, reported } ==> s@ == "Git "@ + decimal(
                major as nat,
            ) + "."@ + decimal(minor as nat)
                + " is too old, git-loom requires Git 2.38 or later (for --update-refs)\nCurrent version: "@
                + reported@,
    {
        match self {
            VersionError::Unparseable(out) => {
                let mut s = owned("Could not parse Git version from: ");
                push_str(&mut s, out.as_str());
                s
            },
            VersionError::TooOld { major, minor, reported } => {
                let mut s = owned("Git ");
                push_str(&mut s, decimal_text(*major as u64).as_str());
                push_str(&mut s, ".");
                push_str(&mut s, decimal_text(*minor as u64).as_str());
                push_str(
                    &mut s,
                    " is too old, git-loom requires Git 2.38 or later (for --update-refs)\nCurrent version: ",
                );
                push_str(&mut s, reported.as_str());
                s
            },
        }
    }
}

/// Check the output of `git --version` against the minimum requirement.
pub fn check_git_version(version_output: &str) -> (r: Result<(), VersionError>)
    ensures
        match git_version(version_output@) {
            None => r matches Err(VersionError::Unparseable(out)) && out@ == trim(version_output@),
            Some((major, minor)) => if too_old(major, minor) {
                r matches Err(VersionError::TooOld { major: a, minor: b, reported }) && a == major
                    && b == minor && reported@ == trim(version_output@)
            } else {
                r is Ok
            },
        },
{
    match parse_git_version(version_output) {
        None => Err(VersionError::Unparseable(trim_str(version_output))),
        Some((major, minor)) => {
            if major < 2 || (major == 2 && minor < 38) {
                Err(VersionError::TooOld { major, minor, reported: trim_str(version_output) })
            } else {
                Ok(())
            }
        },
    }
}

} // verus!

verus! {

/// An error on its way to the user: the message shown, and the two things a
/// caller further up asks of it.
#[derive(Debug)]
pub struct LoomError {
    pub message: String,
    /// The commit git recorded as `stopped-sha` when this is the refusal of
    /// [`git_rebase::skip_empty_stops`] over a protected commit that replays
    /// empty.
    pub replayed_empty: Option<String>,
    /// Raised before the rebase could start, so an undo knows nothing was
    /// rewritten and leaves the index where the user left it.
    pub not_started: bool,
}

impl LoomError {
    /// An error with a message and no marker.
    pub fn new(message: String) -> (e: LoomError)
        ensures
            e.message == message,
            e.replayed_empty is None,
            !e.not_started,
    {
        LoomError { message, replayed_empty: None, not_started: false }
    }
}

/// The usual reason an abort fails, wherever that is reported — rebase or merge.
pub const ABORT_FAILED_CAUSE: &'static str =
    "a stale `.git/index.lock` or a concurrent git process is the usual cause";

pub open spec fn abort_failed_cause() -> Seq<char> {
    "a stale `.git/index.lock` or a concurrent git process is the usual cause"@
}

} // verus!
