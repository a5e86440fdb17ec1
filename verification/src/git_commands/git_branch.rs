//! Branch commands.
use vstd::prelude::*;

use crate::git::{arg, LoomError};
use crate::git_commands::PlainGit;
use crate::text::{owned, push_str, views};

verus! {

/// `git check-ref-format --branch <name>`, which exits 0 for a valid branch
/// name; read by [`validate_name`].
pub fn check_ref_format(name: &str) -> (c: PlainGit)
    ensures
        crate::git_commands::plain(c, seq!["check-ref-format"@, "--branch"@, name@]),
{
    let mut a: Vec<String> = Vec::new();
    arg(&mut a, "check-ref-format");
    arg(&mut a, "--branch");
    arg(&mut a, name);
    proof {
        assert(views(a@) =~= seq!["check-ref-format"@, "--branch"@, name@]);
    }
    PlainGit::captured(a)
}

pub open spec fn invalid_name_text(name: Seq<char>) -> Seq<char> {
    "Branch name '"@ + name + "' is not valid"@
}

/// Whether `name` is a valid branch name, from whether [`check_ref_format`]
/// accepted it.
pub fn validate_name(name: &str, accepted: bool) -> (r: Result<(), LoomError>)
    ensures
        accepted ==> r is Ok,
        !accepted ==> (r matches Err(e) && e.message@ == invalid_name_text(name@)),
{
    if accepted {
        return Ok(());
    }
    let mut s = owned("Branch name '");
    push_str(&mut s, name);
    push_str(&mut s, "' is not valid");
    Err(LoomError::new(s))
}

/// Create a branch at a specific commit (`git branch <name> <commit>`).
pub fn create(name: &str, commit_hash: &str) -> (c: PlainGit)
    ensures
        views(c.args@) == seq!["branch"@, name@, commit_hash@],
        !c.interactive,
        c.context matches Some(m) && m@ == "Failed to create branch"@,
{
    let mut a: Vec<String> = Vec::new();
    arg(&mut a, "branch");
    arg(&mut a, name);
    arg(&mut a, commit_hash);
    proof {
        assert(views(a@) =~= seq!["branch"@, name@, commit_hash@]);
    }
    PlainGit::captured(a).with_context("Failed to create branch")
}

pub open spec fn delete_failed_text(name: Seq<char>) -> Seq<char> {
    "Failed to delete branch '"@ + name + "'"@
}

/// Delete a local branch, forcing it, to handle branches whose commits were
/// dropped (`git branch -D <name>`).
pub fn delete(name: &str) -> (c: PlainGit)
    ensures
        views(c.args@) == seq!["branch"@, "-D"@, name@],
        !c.interactive,
        c.context matches Some(m) && m@ == delete_failed_text(name@),
{
    let mut a: Vec<String> = Vec::new();
    arg(&mut a, "branch");
    arg(&mut a, "-D");
    arg(&mut a, name);
    proof {
        assert(views(a@) =~= seq!["branch"@, "-D"@, name@]);
    }
    let mut m = owned("Failed to delete branch '");
    push_str(&mut m, name);
    push_str(&mut m, "'");
    PlainGit::captured(a).with_context(m.as_str())
}

/// Create a new branch at a remote tracking ref and switch to it
/// (`git switch -c <name> --track <upstream>`).
pub fn switch_create_tracking(name: &str, upstream: &str) -> (c: PlainGit)
    ensures
        views(c.args@) == seq!["switch"@, "-c"@, name@, "--track"@, upstream@],
        !c.interactive,
        c.context matches Some(m) && m@ == "Failed to create tracking branch"@,
{
    let mut a: Vec<String> = Vec::new();
    arg(&mut a, "switch");
    arg(&mut a, "-c");
    arg(&mut a, name);
    arg(&mut a, "--track");
    arg(&mut a, upstream);
    proof {
        assert(views(a@) =~= seq!["switch"@, "-c"@, name@, "--track"@, upstream@]);
    }
    PlainGit::captured(a).with_context("Failed to create tracking branch")
}

/// Rename a branch (`git branch -m <old> <new>`).
pub fn rename(old_name: &str, new_name: &str) -> (c: PlainGit)
    ensures
        views(c.args@) == seq!["branch"@, "-m"@, old_name@, new_name@],
        !c.interactive,
        c.context matches Some(m) && m@ == "Failed to rename branch"@,
{
    let mut a: Vec<String> = Vec::new();
    arg(&mut a, "branch");
    arg(&mut a, "-m");
    arg(&mut a, old_name);
    arg(&mut a, new_name);
    proof {
        assert(views(a@) =~= seq!["branch"@, "-m"@, old_name@, new_name@]);
    }
    PlainGit::captured(a).with_context("Failed to rename branch")
}

} // verus!
