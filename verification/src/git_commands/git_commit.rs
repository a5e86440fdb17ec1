//! Commit, staging and reset commands.
use vstd::prelude::*;

use crate::git::{arg, args_from, files_after};
use crate::git_commands::{plain, PlainGit};
use crate::text::{owned, views};

verus! {

pub open spec fn commit_aborted_text() -> Seq<char> {
    "Git commit failed - aborted"@
}

/// Amend the current commit, optionally replacing its message
/// (`git commit --allow-empty --amend --only [-m msg]`). `--only` keeps
/// staged changes out; without a message git opens the user's editor on the
/// terminal.
pub fn amend(message: Option<&str>) -> (c: PlainGit)
    ensures
        views(c.args@) == seq!["commit"@, "--allow-empty"@, "--amend"@, "--only"@] + match message {
            Some(m) => seq!["-m"@, m@],
            None => Seq::empty(),
        },
        c.interactive == message is None,
        c.context matches Some(t) && t@ == commit_aborted_text(),
{
    let mut a: Vec<String> = Vec::new();
    arg(&mut a, "commit");
    arg(&mut a, "--allow-empty");
    arg(&mut a, "--amend");
    arg(&mut a, "--only");
    let interactive = match message {
        Some(m) => {
            arg(&mut a, "-m");
            arg(&mut a, m);
            proof {
                assert(views(a@) =~= seq!["commit"@, "--allow-empty"@, "--amend"@, "--only"@]
                    + seq!["-m"@, m@]);
            }
            false
        },
        None => {
            proof {
                assert(views(a@) =~= seq!["commit"@, "--allow-empty"@, "--amend"@, "--only"@]
                    + Seq::<Seq<char>>::empty());
            }
            true
        },
    };
    PlainGit { args: a, interactive, context: Some(owned("Git commit failed - aborted")) }
}

/// Amend the current commit, keeping its message and including staged
/// changes (`git commit --amend --no-edit --allow-empty`).
pub fn amend_no_edit() -> (c: PlainGit)
    ensures
        views(c.args@) == seq!["commit"@, "--amend"@, "--no-edit"@, "--allow-empty"@],
        !c.interactive,
        c.context matches Some(t) && t@ == commit_aborted_text(),
{
    let mut a: Vec<String> = Vec::new();
    arg(&mut a, "commit");
    arg(&mut a, "--amend");
    arg(&mut a, "--no-edit");
    arg(&mut a, "--allow-empty");
    proof {
        assert(views(a@) =~= seq!["commit"@, "--amend"@, "--no-edit"@, "--allow-empty"@]);
    }
    PlainGit::captured(a).with_context("Git commit failed - aborted")
}

/// Stage specific files (`git add -- <files>`).
pub fn stage_files(files: &[String]) -> (c: PlainGit)
    ensures
        plain(c, seq!["add"@, "--"@] + views(files@)),
{
    let a = files_after(&["add", "--"], files);
    proof {
        assert(["add", "--"]@.map_values(|s: &str| s@) =~= seq!["add"@, "--"@]);
    }
    PlainGit::captured(a)
}

/// Stage all changes for a path, including deletions: `git add` for a path
/// the working tree has, `git rm -f` for one it no longer has — needed when
/// reverse-applying a patch that added a file.
pub fn stage_path(path: &str, exists: bool) -> (c: PlainGit)
    ensures
        exists ==> plain(c, seq!["add"@, "--"@, path@]),
        !exists ==> plain(c, seq!["rm"@, "-f"@, "--"@, path@]),
{
    let mut a: Vec<String> = Vec::new();
    if exists {
        arg(&mut a, "add");
        arg(&mut a, "--");
        arg(&mut a, path);
        proof {
            assert(views(a@) =~= seq!["add"@, "--"@, path@]);
        }
    } else {
        arg(&mut a, "rm");
        arg(&mut a, "-f");
        arg(&mut a, "--");
        arg(&mut a, path);
        proof {
            assert(views(a@) =~= seq!["rm"@, "-f"@, "--"@, path@]);
        }
    }
    PlainGit::captured(a)
}

/// Create a commit with a message (`git commit -m <message>`).
pub fn commit(message: &str) -> (c: PlainGit)
    ensures
        plain(c, seq!["commit"@, "-m"@, message@]),
{
    let mut a: Vec<String> = Vec::new();
    arg(&mut a, "commit");
    arg(&mut a, "-m");
    arg(&mut a, message);
    proof {
        assert(views(a@) =~= seq!["commit"@, "-m"@, message@]);
    }
    PlainGit::captured(a)
}

/// Mixed reset to a target ref (`git reset <target>`): HEAD moves, and what
/// the commits held stays in the working directory, unstaged.
pub fn reset_mixed(target: &str) -> (c: PlainGit)
    ensures
        plain(c, seq!["reset"@, target@]),
{
    let mut a: Vec<String> = Vec::new();
    arg(&mut a, "reset");
    arg(&mut a, target);
    proof {
        assert(views(a@) =~= seq!["reset"@, target@]);
    }
    PlainGit::captured(a)
}

/// Hard reset to a target ref (`git reset --hard <target>`), discarding all
/// working directory and index changes.
pub fn reset_hard(target: &str) -> (c: PlainGit)
    ensures
        plain(c, seq!["reset"@, "--hard"@, target@]),
{
    let mut a: Vec<String> = Vec::new();
    arg(&mut a, "reset");
    arg(&mut a, "--hard");
    arg(&mut a, target);
    proof {
        assert(views(a@) =~= seq!["reset"@, "--hard"@, target@]);
    }
    PlainGit::captured(a)
}

/// Stage all changes, staged, unstaged and untracked (`git add -A`).
pub fn stage_all() -> (c: PlainGit)
    ensures
        plain(c, seq!["add"@, "-A"@]),
{
    let mut a: Vec<String> = Vec::new();
    arg(&mut a, "add");
    arg(&mut a, "-A");
    proof {
        assert(views(a@) =~= seq!["add"@, "-A"@]);
    }
    PlainGit::captured(a)
}

pub open spec fn editor_aborted_text() -> Seq<char> {
    "Git commit failed (editor aborted or empty message)"@
}

/// Create a commit by opening the user's editor for the message (`git
/// commit`, no `-m`), on the terminal.
pub fn commit_with_editor() -> (c: PlainGit)
    ensures
        views(c.args@) == seq!["commit"@],
        c.interactive,
        c.context matches Some(t) && t@ == editor_aborted_text(),
{
    let mut a: Vec<String> = Vec::new();
    arg(&mut a, "commit");
    proof {
        assert(views(a@) =~= seq!["commit"@]);
    }
    PlainGit {
        args: a,
        interactive: true,
        context: Some(owned("Git commit failed (editor aborted or empty message)")),
    }
}

} // verus!
