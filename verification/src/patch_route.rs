//! Where `fold -p` goes: hunks of one commit into another, hunks of a
//! commit back to the working tree, or working-tree hunks into a commit.
//! Each argument is resolved by the caller, one at a time, as the route
//! asks.
use vstd::prelude::*;

use crate::fold_steps::{fold_files_into_commit, is_failure, FilesFold, FoldAction};
use crate::git::LoomError;
use crate::repo::Target;
use crate::text::{owned, text_eq, views};

verus! {

/// What an argument may be resolved as.
#[derive(Debug, Clone, Copy, PartialEq, Eq, Structural)]
pub enum TargetKind {
    File,
    Commit,
    Branch,
}

/// What the route asks for next.
pub enum PatchAction {
    /// Resolve `arg` as one of `kinds` (`repo::resolve_arg`); answer with
    /// what it named, or why it named nothing.
    Resolve { arg: String, kinds: Vec<TargetKind> },
    /// Pick hunks of `source` and take them out to the working tree
    /// ([`crate::fold_steps::run_patch_fold_commit_to_unstaged`]).
    UncommitHunks { source: String, source_arg: String },
    /// Pick hunks of `source` and move them into `target`
    /// ([`crate::fold_steps::fold_selected_hunks_to_commit`]).
    MoveHunks { source: String, target: String, source_arg: String, target_arg: String },
    /// Pick working-tree hunks among the changes `filters` name (all of
    /// them when there is none), stage them, then fold what was picked into
    /// `commit` ([`fold_picked_hunks`]).
    PickWorktreeHunks { commit: String, filters: Vec<String> },
    Fail(LoomError),
}

/// Where the route stands.
pub enum PatchAt {
    /// Resolving the one source as a commit.
    Source,
    /// The source is the commit `source`; resolving the target as one.
    Target { source: String },
    /// Resolving the `i`th source, which must not be a commit or a branch.
    Checking { i: usize },
    /// Resolving the target of a working-tree hunk fold.
    Final,
    Done,
}

pub struct PatchRoute {
    /// The sources, then the target.
    pub args: Vec<String>,
    /// `--hunks` was given.
    pub hunks_given: bool,
    pub agent: bool,
    pub at: PatchAt,
}

pub open spec fn sources(job: PatchRoute) -> Seq<String> {
    job.args@.drop_last()
}

pub open spec fn target_arg(job: PatchRoute) -> Seq<char> {
    job.args@.last()@
}

/// The first source from `i` on that is not `zz`; the number of sources
/// when there is none.
pub open spec fn first_named(srcs: Seq<String>, i: int) -> int
    decreases srcs.len() - i,
{
    if i >= srcs.len() || i < 0 {
        srcs.len() as int
    } else if srcs[i]@ == "zz"@ {
        first_named(srcs, i + 1)
    } else {
        i
    }
}

pub open spec fn no_commit_sources_text() -> Seq<char> {
    "fold -p does not support commit or branch sources\nUse file paths, short IDs, or 'zz' to filter the hunk picker"@
}

pub open spec fn hunks_need_commit_text() -> Seq<char> {
    "--hunks only applies to a commit source\nUse `loom fold -p <commit> <target>`, or pass explicit files"@
}

pub open spec fn worktree_patch_agent_text() -> Seq<char> {
    "--patch over working-tree changes is interactive and unavailable in agent mode\nPass explicit files instead"@
}

pub open spec fn resolves(a: PatchAction, arg: Seq<char>, kinds: Seq<TargetKind>) -> bool {
    a matches PatchAction::Resolve { arg: x, kinds: k } && x@ == arg && k@ == kinds
}

pub open spec fn fails_with(r: (PatchRoute, PatchAction), m: Seq<char>) -> bool {
    r.0.at is Done && (r.1 matches PatchAction::Fail(e) && is_failure(e, m))
}

/// Once the sources are checked: `--hunks` and agent mode are refused,
/// else the target is resolved as a commit.
pub open spec fn final_checks(s: PatchRoute, r: (PatchRoute, PatchAction)) -> bool {
    if s.hunks_given {
        fails_with(r, hunks_need_commit_text())
    } else if s.agent {
        fails_with(r, worktree_patch_agent_text())
    } else {
        r.0.at is Final && resolves(r.1, target_arg(s), seq![TargetKind::Commit])
    }
}

/// Checking the sources from the `i`th on, `zz` passed over.
pub open spec fn checks_from(s: PatchRoute, i: int, r: (PatchRoute, PatchAction)) -> bool {
    let j = first_named(sources(s), i);
    if j < sources(s).len() {
        (r.0.at matches PatchAt::Checking { i: k } && k == j) && resolves(
            r.1,
            sources(s)[j]@,
            seq![TargetKind::File, TargetKind::Commit, TargetKind::Branch],
        )
    } else {
        final_checks(s, r)
    }
}

pub open spec fn keeps_job(s: PatchRoute, t: PatchRoute) -> bool {
    t.args == s.args && t.hunks_given == s.hunks_given && t.agent == s.agent
}

pub open spec fn route_answers(s: PatchRoute, resolved: Result<Target, LoomError>) -> bool {
    &&& s.args@.len() > 0
    &&& match s.at {
        PatchAt::Source | PatchAt::Target { .. } => s.args@.len() == 2,
        PatchAt::Checking { i } => i < sources(s).len(),
        PatchAt::Final => resolved is Err || resolved matches Ok(Target::Commit(_)),
        PatchAt::Done => false,
        _ => true,
    }
}

/// Each step of the route.
pub open spec fn route_next(s: PatchRoute, resolved: Result<Target, LoomError>, r: (PatchRoute, PatchAction)) -> bool {
    match s.at {
        PatchAt::Source => match resolved {
            Ok(Target::Commit(h)) => if target_arg(s) == "zz"@ {
                r.0.at is Done && (r.1 matches PatchAction::UncommitHunks { source, source_arg } && source == h
                    && source_arg == sources(s)[0])
            } else {
                (r.0.at matches PatchAt::Target { source } && source == h) && resolves(r.1, target_arg(s), seq![TargetKind::Commit])
            },
            _ => checks_from(s, 0, r),
        },
        PatchAt::Target { source } => match resolved {
            Ok(Target::Commit(t)) => r.0.at is Done && (r.1 matches PatchAction::MoveHunks { source: a, target, source_arg, target_arg: b }
                && a == source && target == t && source_arg == sources(s)[0] && b@ == target_arg(s)),
            _ => checks_from(s, 0, r),
        },
        PatchAt::Checking { i } => match resolved {
            Ok(Target::Commit(_)) | Ok(Target::Branch(_)) => fails_with(r, no_commit_sources_text()),
            Err(e) => r.0.at is Done && r.1 == PatchAction::Fail(e),
            Ok(_) => checks_from(s, i + 1, r),
        },
        PatchAt::Final => match resolved {
            Ok(Target::Commit(h)) => r.0.at is Done && (r.1 matches PatchAction::PickWorktreeHunks { commit, filters }
                && commit == h && filters@ == sources(s)),
            Err(e) => r.0.at is Done && r.1 == PatchAction::Fail(e),
            _ => false,
        },
        PatchAt::Done => false,
    }
}

fn kinds_commit() -> (v: Vec<TargetKind>)
    ensures
        v@ == seq![TargetKind::Commit],
{
    let mut v: Vec<TargetKind> = Vec::new();
    v.push(TargetKind::Commit);
    proof {
        assert(v@ =~= seq![TargetKind::Commit]);
    }
    v
}

fn kinds_any() -> (v: Vec<TargetKind>)
    ensures
        v@ == seq![TargetKind::File, TargetKind::Commit, TargetKind::Branch],
{
    let mut v: Vec<TargetKind> = Vec::new();
    v.push(TargetKind::File);
    v.push(TargetKind::Commit);
    v.push(TargetKind::Branch);
    proof {
        assert(v@ =~= seq![TargetKind::File, TargetKind::Commit, TargetKind::Branch]);
    }
    v
}

fn fail(args: Vec<String>, hunks_given: bool, agent: bool, m: &str) -> (r: (PatchRoute, PatchAction))
    ensures
        r.0.args == args && r.0.hunks_given == hunks_given && r.0.agent == agent,
        r.0.at is Done && (r.1 matches PatchAction::Fail(e) && is_failure(e, m@)),
{
    (PatchRoute { args, hunks_given, agent, at: PatchAt::Done }, PatchAction::Fail(LoomError::new(owned(m))))
}

fn copy_args(v: &Vec<String>, n: usize) -> (r: Vec<String>)
    requires
        n <= v@.len(),
    ensures
        r@ == v@.take(n as int),
{
    let mut r: Vec<String> = Vec::new();
    let mut i: usize = 0;
    while i < n
        invariant
            i <= n <= v@.len(),
            r@ == v@.take(i as int),
        decreases n - i,
    {
        r.push(v[i].clone());
        proof {
            assert(r@ =~= v@.take(i + 1));
        }
        i = i + 1;
    }
    r
}

/// Check the sources from the `i`th on.
fn check_from(args: Vec<String>, hunks_given: bool, agent: bool, i: usize) -> (r: (PatchRoute, PatchAction))
    requires
        args@.len() > 0,
        i <= args@.len() - 1,
    ensures
        r.0.args == args && r.0.hunks_given == hunks_given && r.0.agent == agent,
        checks_from(PatchRoute { args, hunks_given, agent, at: PatchAt::Done }, i as int, r),
{
    let ghost s = PatchRoute { args, hunks_given, agent, at: PatchAt::Done };
    let n = args.len() - 1;
    let mut j = i;
    while j < n && text_eq(args[j].as_str(), "zz")
        invariant
            i <= j <= n,
            n == args@.len() - 1,
            first_named(sources(s), i as int) == first_named(sources(s), j as int),
            s.args == args,
        decreases n - j,
    {
        proof {
            assert(sources(s)[j as int] == args@[j as int]);
        }
        j = j + 1;
    }
    proof {
        if j < n {
            assert(sources(s)[j as int] == args@[j as int]);
        }
    }
    if j < n {
        let a = PatchAction::Resolve { arg: args[j].clone(), kinds: kinds_any() };
        (PatchRoute { args, hunks_given, agent, at: PatchAt::Checking { i: j } }, a)
    } else if hunks_given {
        fail(args, hunks_given, agent, "--hunks only applies to a commit source\nUse `loom fold -p <commit> <target>`, or pass explicit files")
    } else if agent {
        fail(args, hunks_given, agent, "--patch over working-tree changes is interactive and unavailable in agent mode\nPass explicit files instead")
    } else {
        let a = PatchAction::Resolve { arg: args[n].clone(), kinds: kinds_commit() };
        (PatchRoute { args, hunks_given, agent, at: PatchAt::Final }, a)
    }
}

/// Route `fold -p <args>`: the last argument is the target, the rest the
/// sources. One source that is a commit, with `zz` or a commit for target,
/// picks hunks of that commit; otherwise the sources only filter a
/// working-tree hunk picker, and a commit or branch among them is refused.
pub fn run_patch_fold(args: Vec<String>, hunks_given: bool, agent: bool) -> (r: (PatchRoute, PatchAction))
    requires
        args@.len() > 0,
    ensures
        keeps_job(PatchRoute { args, hunks_given, agent, at: PatchAt::Done }, r.0),
        args@.len() == 2 ==> r.0.at is Source && resolves(r.1, args@[0]@, seq![TargetKind::Commit]),
        args@.len() != 2 ==> checks_from(PatchRoute { args, hunks_given, agent, at: PatchAt::Done }, 0, r),
{
    if args.len() == 2 {
        let a = PatchAction::Resolve { arg: args[0].clone(), kinds: kinds_commit() };
        (PatchRoute { args, hunks_given, agent, at: PatchAt::Source }, a)
    } else {
        check_from(args, hunks_given, agent, 0)
    }
}

/// One step of [`run_patch_fold`], `resolved` being what the last
/// argument it asked for named.
pub fn patch_route_step(state: PatchRoute, resolved: Result<Target, LoomError>) -> (r: (PatchRoute, PatchAction))
    requires
        route_answers(state, resolved),
    ensures
        keeps_job(state, r.0),
        route_next(state, resolved, r),
{
    let ghost s = state;
    let PatchRoute { args, hunks_given, agent, at } = state;
    let n = args.len() - 1;
    match at {
        PatchAt::Source => match resolved {
            Ok(Target::Commit(h)) => {
                if text_eq(args[n].as_str(), "zz") {
                    let a = PatchAction::UncommitHunks { source: h, source_arg: args[0].clone() };
                    (PatchRoute { args, hunks_given, agent, at: PatchAt::Done }, a)
                } else {
                    let a = PatchAction::Resolve { arg: args[n].clone(), kinds: kinds_commit() };
                    (PatchRoute { args, hunks_given, agent, at: PatchAt::Target { source: h } }, a)
                }
            },
            _ => check_from(args, hunks_given, agent, 0),
        },
        PatchAt::Target { source } => match resolved {
            Ok(Target::Commit(t)) => {
                let a = PatchAction::MoveHunks { source, target: t, source_arg: args[0].clone(), target_arg: args[n].clone() };
                (PatchRoute { args, hunks_given, agent, at: PatchAt::Done }, a)
            },
            _ => check_from(args, hunks_given, agent, 0),
        },
        PatchAt::Checking { i } => match resolved {
            Ok(Target::Commit(_)) | Ok(Target::Branch(_)) => fail(
                args,
                hunks_given,
                agent,
                "fold -p does not support commit or branch sources\nUse file paths, short IDs, or 'zz' to filter the hunk picker",
            ),
            Err(e) => (PatchRoute { args, hunks_given, agent, at: PatchAt::Done }, PatchAction::Fail(e)),
            Ok(_) => check_from(args, hunks_given, agent, i + 1),
        },
        PatchAt::Final => match resolved {
            Ok(Target::Commit(h)) => {
                let filters = copy_args(&args, n);
                proof {
                    assert(filters@ =~= sources(s));
                }
                (PatchRoute { args, hunks_given, agent, at: PatchAt::Done }, PatchAction::PickWorktreeHunks { commit: h, filters })
            },
            Err(e) => (PatchRoute { args, hunks_given, agent, at: PatchAt::Done }, PatchAction::Fail(e)),
            _ => (PatchRoute { args, hunks_given, agent, at: PatchAt::Done }, PatchAction::Fail(LoomError::new(String::new()))),
        },
        PatchAt::Done => (PatchRoute { args, hunks_given, agent, at: PatchAt::Done }, PatchAction::Fail(LoomError::new(String::new()))),
    }
}

/// Fold the working-tree hunks a picker staged into `commit`: refused when
/// it staged nothing, else a files fold over what is staged, with no
/// staging of its own.
pub fn fold_picked_hunks(staged: Vec<String>, commit: String, head: String, git_opts: Vec<String>) -> (r: Result<(FilesFold, FoldAction), LoomError>)
    ensures
        staged@.len() == 0 <==> (r matches Err(e) && is_failure(e, crate::fold_steps::no_hunks_text())),
        staged@.len() > 0 ==> (r matches Ok(x) && x.0.job == (crate::fold_steps::FilesJob { files: staged, commit, head, skip_staging: true, git_opts })
            && crate::fold_steps::after_checks(x.0.job, x)),
{
    if staged.len() == 0 {
        return Err(LoomError::new(owned("No hunks selected")));
    }
    Ok(fold_files_into_commit(staged, commit, head, true, git_opts))
}

} // verus!
