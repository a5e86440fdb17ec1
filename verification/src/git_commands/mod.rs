//! The plain git invocations of loom's first command set: no forced
//! configuration, and an error naming the whole command line when one
//! fails.
use vstd::prelude::*;

pub mod git_branch;
pub mod git_commit;
pub mod git_merge;
pub mod git_rebase;

pub use crate::git::short_hash;

use crate::git::{arg, args_from, files_after, LoomError};
use crate::text::{join, join_texts, owned, push_str, trim, trim_str, views};

verus! {

/// A git invocation: its arguments after `git`, whether it inherits the
/// terminal, and the message to report instead of git's own failure when
/// it fails.
pub struct PlainGit {
    pub args: Vec<String>,
    pub interactive: bool,
    pub context: Option<String>,
}

/// A captured invocation with these arguments and no message of its own.
pub open spec fn plain(c: PlainGit, args: Seq<Seq<char>>) -> bool {
    &&& views(c.args@) == args
    &&& !c.interactive
    &&& c.context is None
}

impl PlainGit {
    /// A captured invocation.
    pub fn captured(args: Vec<String>) -> (c: PlainGit)
        ensures
            plain(c, views(args@)),
    {
        PlainGit { args, interactive: false, context: None }
    }

    /// The same invocation, reporting `context` when it fails.
    pub fn with_context(self, context: &str) -> (c: PlainGit)
        ensures
            c.args == self.args,
            c.interactive == self.interactive,
            c.context matches Some(m) && m@ == context@,
    {
        PlainGit { args: self.args, interactive: self.interactive, context: Some(owned(context)) }
    }
}

/// `Git <args joined by spaces> failed`: what a failure reports without a
/// message of its own. git's stderr goes to the trace log.
pub open spec fn failed_command_text(args: Seq<Seq<char>>) -> Seq<char> {
    "Git "@ + join(args, " "@) + " failed"@
}

/// The error a failed invocation reports.
pub open spec fn failure_text(c: PlainGit) -> Seq<char> {
    match c.context {
        Some(m) => m@,
        None => failed_command_text(views(c.args@)),
    }
}

/// See [`failure_text`].
pub fn failure(c: &PlainGit) -> (e: LoomError)
    ensures
        e.message@ == failure_text(*c),
        e.replayed_empty is None,
        !e.not_started,
{
    match &c.context {
        Some(m) => LoomError::new(m.clone()),
        None => {
            let mut s = owned("Git ");
            push_str(&mut s, join_texts(c.args.as_slice(), " ").as_str());
            push_str(&mut s, " failed");
            LoomError::new(s)
        },
    }
}

/// Whether an invocation succeeded, from whether git exited 0.
pub fn run_git(c: &PlainGit, success: bool) -> (r: Result<(), LoomError>)
    ensures
        success ==> r is Ok,
        !success ==> (r matches Err(e) && e.message@ == failure_text(*c)),
{
    if success {
        Ok(())
    } else {
        Err(failure(c))
    }
}

/// An invocation's stdout, or its error when it failed.
pub fn run_git_stdout(c: &PlainGit, success: bool, stdout: &str) -> (r: Result<String, LoomError>)
    ensures
        success ==> (r matches Ok(s) && s@ == stdout@),
        !success ==> (r matches Err(e) && e.message@ == failure_text(*c)),
{
    if success {
        Ok(owned(stdout))
    } else {
        Err(failure(c))
    }
}

/// Unstage specific files (`git reset HEAD -- <files>`).
pub fn unstage_files(files: &[String]) -> (c: PlainGit)
    ensures
        plain(c, seq!["reset"@, "HEAD"@, "--"@] + views(files@)),
{
    let a = files_after(&["reset", "HEAD", "--"], files);
    proof {
        assert(["reset", "HEAD", "--"]@.map_values(|s: &str| s@) =~= seq!["reset"@, "HEAD"@, "--"@]);
    }
    PlainGit::captured(a)
}

/// Restore tracked files in the working tree to their HEAD state
/// (`git checkout HEAD -- <files>`).
pub fn restore_files_to_head(files: &[String]) -> (c: PlainGit)
    ensures
        plain(c, seq!["checkout"@, "HEAD"@, "--"@] + views(files@)),
{
    let a = files_after(&["checkout", "HEAD", "--"], files);
    proof {
        assert(["checkout", "HEAD", "--"]@.map_values(|s: &str| s@) =~= seq![
            "checkout"@,
            "HEAD"@,
            "--"@,
        ]);
    }
    PlainGit::captured(a)
}

/// Resolve a ref to its full commit hash (`git rev-parse <ref>`), read by
/// [`rev_parse_output`].
pub fn rev_parse(reference: &str) -> (c: PlainGit)
    ensures
        plain(c, seq!["rev-parse"@, reference@]),
{
    let mut a: Vec<String> = Vec::new();
    arg(&mut a, "rev-parse");
    arg(&mut a, reference);
    proof {
        assert(views(a@) =~= seq!["rev-parse"@, reference@]);
    }
    PlainGit::captured(a)
}

/// The hash [`rev_parse`] printed.
pub fn rev_parse_output(stdout: &str) -> (r: String)
    ensures
        r@ == trim(stdout@),
{
    trim_str(stdout)
}

} // verus!
