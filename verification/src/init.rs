//! `loom init`: create an integration branch at the upstream tip, tracking
//! it, and switch to it.
use vstd::prelude::*;

use crate::git::LoomError;
use crate::git_commands::git_branch::{
    check_ref_format, invalid_name_text, switch_create_tracking, validate_name,
};
use crate::git_commands::PlainGit;
use crate::text::{contains_str, has_infix, owned, push_str, text_eq, trim, trim_str, views};

verus! {

/// What the repository says about one remote: its name, its URL, the
/// branch its `refs/remotes/<name>/HEAD` symref resolves to (short, such as
/// `origin/main`), and whether its `main`, `master` and `develop` branches
/// exist.
pub struct RemoteFacts {
    pub name: String,
    pub url: Option<String>,
    pub head: Option<String>,
    pub main: bool,
    pub master: bool,
    pub develop: bool,
}

/// A remote's default branch: what its HEAD symref points to, or else the
/// first of `main`, `master`, `develop` it has.
pub open spec fn default_branch(r: RemoteFacts) -> Option<Seq<char>> {
    match r.head {
        Some(h) => Some(h@),
        None => if r.main {
            Some(r.name@ + "/main"@)
        } else if r.master {
            Some(r.name@ + "/master"@)
        } else if r.develop {
            Some(r.name@ + "/develop"@)
        } else {
            None
        },
    }
}

fn default_branch_of(r: &RemoteFacts) -> (b: Option<String>)
    ensures
        match default_branch(*r) {
            Some(d) => b matches Some(x) && x@ == d,
            None => b is None,
        },
{
    match &r.head {
        Some(h) => Some(h.clone()),
        None => {
            let common = if r.main {
                "/main"
            } else if r.master {
                "/master"
            } else if r.develop {
                "/develop"
            } else {
                return None;
            };
            let mut s = r.name.clone();
            push_str(&mut s, common);
            Some(s)
        },
    }
}

/// Every remote's default branch, in order, skipping a remote that has none.
pub open spec fn remote_candidates(remotes: Seq<RemoteFacts>) -> Seq<Seq<char>>
    decreases remotes.len(),
{
    if remotes.len() == 0 {
        Seq::empty()
    } else {
        let rest = remote_candidates(remotes.drop_last());
        match default_branch(remotes.last()) {
            Some(d) => rest.push(d),
            None => rest,
        }
    }
}

/// Gather candidate remote tracking branches: for each remote, its HEAD
/// symref, falling back to the first common default branch name it has.
pub fn gather_remote_candidates(remotes: &[RemoteFacts]) -> (r: Vec<String>)
    ensures
        views(r@) == remote_candidates(remotes@),
{
    let mut r: Vec<String> = Vec::new();
    let mut i: usize = 0;
    while i < remotes.len()
        invariant
            i <= remotes@.len(),
            views(r@) == remote_candidates(remotes@.take(i as int)),
        decreases remotes.len() - i,
    {
        proof {
            assert(remotes@.take(i + 1).drop_last() =~= remotes@.take(i as int));
        }
        match default_branch_of(&remotes[i]) {
            Some(d) => {
                let ghost before = views(r@);
                r.push(d);
                proof {
                    assert(views(r@) =~= before.push(default_branch(remotes@[i as int])->0));
                }
            },
            None => {},
        }
        i = i + 1;
    }
    proof {
        assert(remotes@.take(remotes@.len() as int) =~= remotes@);
    }
    r
}

/// The remote's URL points to GitHub.
pub open spec fn on_github_url(r: RemoteFacts) -> bool {
    r.url matches Some(u) && has_infix(u@, "github.com"@)
}

/// Some remote's URL points to GitHub.
pub open spec fn on_github(remotes: Seq<RemoteFacts>) -> bool {
    exists|i: int|
        0 <= i < remotes.len() && on_github_url(#[trigger] remotes[i])
}

/// The first remote named `upstream`, if there is one.
pub open spec fn upstream_remote(remotes: Seq<RemoteFacts>) -> Option<RemoteFacts>
    decreases remotes.len(),
{
    if remotes.len() == 0 {
        None
    } else if remotes[0].name@ == "upstream"@ {
        Some(remotes[0])
    } else {
        upstream_remote(remotes.drop_first())
    }
}

/// In the fork workflow on GitHub, "origin" is the user's fork and
/// "upstream" the original repository, which the integration branch should
/// track: the default branch of the `upstream` remote when some remote is on
/// GitHub and one is named so.
pub open spec fn github_upstream(remotes: Seq<RemoteFacts>) -> Option<Seq<char>> {
    if !on_github(remotes) {
        None
    } else {
        match upstream_remote(remotes) {
            Some(r) => default_branch(r),
            None => None,
        }
    }
}

fn any_on_github(remotes: &[RemoteFacts]) -> (r: bool)
    ensures
        r == on_github(remotes@),
{
    let mut i: usize = 0;
    while i < remotes.len()
        invariant
            i <= remotes@.len(),
            forall|k: int| 0 <= k < i ==> !on_github_url(#[trigger] remotes@[k]),
        decreases remotes.len() - i,
    {
        match &remotes[i].url {
            Some(u) => {
                if contains_str(u.as_str(), "github.com") {
                    proof {
                        assert(on_github_url(remotes@[i as int]));
                    }
                    return true;
                }
            },
            None => {},
        }
        i = i + 1;
    }
    false
}

/// See [`github_upstream`].
pub fn try_github_upstream(remotes: &[RemoteFacts]) -> (r: Option<String>)
    ensures
        match github_upstream(remotes@) {
            Some(u) => r matches Some(x) && x@ == u,
            None => r is None,
        },
{
    if !any_on_github(remotes) {
        return None;
    }
    let mut j: usize = 0;
    proof {
        assert(remotes@.skip(0) =~= remotes@);
    }
    while j < remotes.len()
        invariant
            j <= remotes@.len(),
            on_github(remotes@),
            upstream_remote(remotes@) == upstream_remote(remotes@.skip(j as int)),
        decreases remotes.len() - j,
    {
        proof {
            assert(remotes@.skip(j as int).drop_first() =~= remotes@.skip(j + 1));
        }
        if text_eq(remotes[j].name.as_str(), "upstream") {
            proof {
                assert(remotes@.skip(j as int)[0] == remotes@[j as int]);
            }
            return default_branch_of(&remotes[j]);
        }
        j = j + 1;
    }
    proof {
        assert(remotes@.skip(remotes@.len() as int).len() == 0);
    }
    None
}

pub open spec fn no_remote_text() -> Seq<char> {
    "No remote tracking branches found.\nSet up a remote with: `git remote add origin <url>`"@
}

/// Which upstream the integration branch tracks.
pub enum UpstreamChoice {
    /// This one.
    Found(String),
    /// The user picks one of these.
    Choose(Vec<String>),
    /// There is none.
    Missing(LoomError),
}

/// Detect the upstream tracking ref: the GitHub fork workflow's `upstream`
/// first, then the current branch's own upstream, then the remotes' default
/// branches — the only one, or the user's pick among several.
pub fn detect_upstream(remotes: &[RemoteFacts], branch_upstream: Option<String>) -> (r:
    UpstreamChoice)
    ensures
        match github_upstream(remotes@) {
            Some(u) => r matches UpstreamChoice::Found(x) && x@ == u,
            None => match branch_upstream {
                Some(b) => r matches UpstreamChoice::Found(x) && x == b,
                None => {
                    let c = remote_candidates(remotes@);
                    if c.len() == 0 {
                        r matches UpstreamChoice::Missing(e) && e.message@ == no_remote_text()
                    } else if c.len() == 1 {
                        r matches UpstreamChoice::Found(x) && x@ == c[0]
                    } else {
                        r matches UpstreamChoice::Choose(v) && views(v@) == c
                    }
                },
            },
        },
{
    match try_github_upstream(remotes) {
        Some(u) => return UpstreamChoice::Found(u),
        None => {},
    }
    match branch_upstream {
        Some(b) => return UpstreamChoice::Found(b),
        None => {},
    }
    let candidates = gather_remote_candidates(remotes);
    if candidates.len() == 0 {
        UpstreamChoice::Missing(
            LoomError::new(
                owned(
                    "No remote tracking branches found.\nSet up a remote with: `git remote add origin <url>`",
                ),
            ),
        )
    } else if candidates.len() == 1 {
        UpstreamChoice::Found(candidates[0].clone())
    } else {
        UpstreamChoice::Choose(candidates)
    }
}

/// The question the pick among several upstreams asks.
pub const PICK_UPSTREAM: &'static str = "Which remote branch should this integration track?";

/// Where `loom init` has got to.
pub enum Init {
    /// `git check-ref-format` is judging the name.
    Validating { name: String },
    /// Looking up whether a local branch of that name exists.
    Checking { name: String },
    /// Detecting the upstream ([`detect_upstream`]) and the working tree.
    Detecting { name: String },
    /// `git switch -c <name> --track <upstream>` is running.
    Switching { name: String, upstream: String },
    /// Finished.
    Done,
}

/// What the last action of `loom init` found out.
pub enum InitEvent {
    /// Whether `git check-ref-format` accepted the name.
    Accepted(bool),
    /// Whether a local branch of that name exists.
    Exists(bool),
    /// The upstream chosen, and whether the repository is bare.
    Located { upstream: Result<String, LoomError>, bare: bool },
    /// How the switch ended ([`crate::git_commands::run_git`]).
    Switched(Result<(), LoomError>),
}

/// What `loom init` does next.
pub enum InitAction {
    /// Run this command.
    Run(PlainGit),
    /// Look up the local branch of this name.
    LookUpBranch(String),
    /// Detect the upstream and whether the repository is bare.
    Locate,
    /// Finished: the success message, or the error.
    Finish(Result<String, LoomError>),
}

pub open spec fn empty_name_text() -> Seq<char> {
    "Branch name cannot be empty"@
}

pub open spec fn exists_text(name: Seq<char>) -> Seq<char> {
    "Branch '"@ + name + "' already exists"@
}

pub open spec fn bare_text() -> Seq<char> {
    "Cannot create branch in bare repository"@
}

pub open spec fn initialized_text(name: Seq<char>, upstream: Seq<char>) -> Seq<char> {
    "Initialized integration branch `"@ + name + "` tracking `"@ + upstream + "`"@
}

/// The branch name `loom init` uses: the one given, `integration` by
/// default, trimmed.
pub open spec fn init_name(name: Option<String>) -> Seq<char> {
    trim(
        match name {
            Some(n) => n@,
            None => "integration"@,
        },
    )
}

/// Start `loom init`: an empty name is refused at once, any other is
/// handed to `git check-ref-format`.
pub fn run(name: Option<String>) -> (r: (Init, InitAction))
    ensures
        init_name(name).len() == 0 ==> r.0 is Done && (r.1 matches InitAction::Finish(Err(e))
            && e.message@ == empty_name_text()),
        init_name(name).len() > 0 ==> (r.0 matches Init::Validating { name: n } && n@ == init_name(
            name,
        )) && (r.1 matches InitAction::Run(c) && crate::git_commands::plain(
            c,
            seq!["check-ref-format"@, "--branch"@, init_name(name)],
        )),
{
    let raw = match name {
        Some(n) => n,
        None => owned("integration"),
    };
    let name = trim_str(raw.as_str());
    if name.as_str().unicode_len() == 0 {
        return (
            Init::Done,
            InitAction::Finish(Err(LoomError::new(owned("Branch name cannot be empty")))),
        );
    }
    let c = check_ref_format(name.as_str());
    (Init::Validating { name }, InitAction::Run(c))
}

/// Whether `event` answers what `state` asked for.
pub open spec fn init_answers(state: Init, event: InitEvent) -> bool {
    match state {
        Init::Validating { .. } => event is Accepted,
        Init::Checking { .. } => event is Exists,
        Init::Detecting { .. } => event is Located,
        Init::Switching { .. } => event is Switched,
        Init::Done => false,
    }
}

/// One step of `loom init`: validate the name, refuse one a local branch
/// already has, detect the upstream (refusing a bare repository), and switch
/// to the new branch tracking it.
pub fn init_step(state: Init, event: InitEvent) -> (r: (Init, InitAction))
    requires
        init_answers(state, event),
    ensures
        match (state, event) {
            (Init::Validating { name }, InitEvent::Accepted(ok)) => if ok {
                (r.0 matches Init::Checking { name: n } && n == name) && (r.1 matches InitAction::LookUpBranch(b) && b == name)
            } else {
                r.0 is Done && (r.1 matches InitAction::Finish(Err(e)) && e.message@ == invalid_name_text(name@))
            },
            (Init::Checking { name }, InitEvent::Exists(exists)) => if exists {
                r.0 is Done && (r.1 matches InitAction::Finish(Err(e)) && e.message@ == exists_text(name@))
            } else {
                (r.0 matches Init::Detecting { name: n } && n == name) && r.1 is Locate
            },
            (Init::Detecting { name }, InitEvent::Located { upstream, bare }) => match upstream {
                Err(e) => r.0 is Done && (r.1 matches InitAction::Finish(Err(x)) && x == e),
                Ok(u) => if bare {
                    r.0 is Done && (r.1 matches InitAction::Finish(Err(x)) && x.message@ == bare_text())
                } else {
                    (r.0 matches Init::Switching { name: n, upstream: v } && n == name && v == u)
                        && (r.1 matches InitAction::Run(c) && views(c.args@) == seq!["switch"@, "-c"@, name@, "--track"@, u@]
                            && (c.context matches Some(m) && m@ == "Failed to create tracking branch"@))
                },
            },
            (Init::Switching { name, upstream }, InitEvent::Switched(result)) => r.0 is Done && match result {
                Err(e) => r.1 matches InitAction::Finish(Err(x)) && x == e,
                Ok(()) => r.1 matches InitAction::Finish(Ok(m)) && m@ == initialized_text(name@, upstream@),
            },
            _ => false,
        },
{
    match (state, event) {
        (Init::Validating { name }, InitEvent::Accepted(ok)) => match validate_name(name.as_str(), ok) {
            Err(e) => (Init::Done, InitAction::Finish(Err(e))),
            Ok(()) => {
                let b = name.clone();
                (Init::Checking { name }, InitAction::LookUpBranch(b))
            },
        },
        (Init::Checking { name }, InitEvent::Exists(exists)) => {
            if exists {
                let mut m = owned("Branch '");
                push_str(&mut m, name.as_str());
                push_str(&mut m, "' already exists");
                (Init::Done, InitAction::Finish(Err(LoomError::new(m))))
            } else {
                (Init::Detecting { name }, InitAction::Locate)
            }
        },
        (Init::Detecting { name }, InitEvent::Located { upstream, bare }) => match upstream {
            Err(e) => (Init::Done, InitAction::Finish(Err(e))),
            Ok(u) => {
                if bare {
                    (
                        Init::Done,
                        InitAction::Finish(
                            Err(LoomError::new(owned("Cannot create branch in bare repository"))),
                        ),
                    )
                } else {
                    let c = switch_create_tracking(name.as_str(), u.as_str());
                    (Init::Switching { name, upstream: u }, InitAction::Run(c))
                }
            },
        },
        (Init::Switching { name, upstream }, InitEvent::Switched(result)) => match result {
            Err(e) => (Init::Done, InitAction::Finish(Err(e))),
            Ok(()) => {
                let mut m = owned("Initialized integration branch `");
                push_str(&mut m, name.as_str());
                push_str(&mut m, "` tracking `");
                push_str(&mut m, upstream.as_str());
                push_str(&mut m, "`");
                (Init::Done, InitAction::Finish(Ok(m)))
            },
        },
        (s, _) => (s, InitAction::Locate),
    }
}


/// A remote whose HEAD names no branch still has a default branch when it
/// has `main`, `master` or `develop`, tried in that order; one with none of
/// them has none. A HEAD that names one wins.
pub proof fn a_remote_falls_back_on_its_common_branches(r: RemoteFacts)
    ensures
        r.head matches Some(h) ==> default_branch(r) == Some(h@),
        r.head is None ==> (default_branch(r) is Some <==> (r.main || r.master || r.develop)),
        r.head is None && r.main ==> default_branch(r) == Some(r.name@ + "/main"@),
        r.head is None && !r.main && r.master ==> default_branch(r) == Some(r.name@ + "/master"@),
        r.head is None && !r.main && !r.master && r.develop ==> default_branch(r) == Some(r.name@ + "/develop"@),
{
}


/// Every remote that has a default branch puts it among the candidates,
/// and nothing else is a candidate.
pub proof fn every_default_branch_is_a_candidate(remotes: Seq<RemoteFacts>)
    ensures
        forall|i: int| 0 <= i < remotes.len() ==> (#[trigger] default_branch(remotes[i]) matches Some(d) ==> remote_candidates(
            remotes,
        ).contains(d)),
        forall|d: Seq<char>| #[trigger] remote_candidates(remotes).contains(d) ==> exists|i: int| 0 <= i < remotes.len()
            && default_branch(remotes[i]) == Some(d),
    decreases remotes.len(),
{
    if remotes.len() > 0 {
        let rest = remotes.drop_last();
        every_default_branch_is_a_candidate(rest);
        let c = remote_candidates(rest);
        assert forall|i: int| 0 <= i < remotes.len() implies (#[trigger] default_branch(remotes[i]) matches Some(d) ==> remote_candidates(
            remotes,
        ).contains(d)) by {
            if let Some(d) = default_branch(remotes[i]) {
                if i < remotes.len() - 1 {
                    assert(rest[i] == remotes[i]);
                    assert(c.contains(d));
                    let k = choose|k: int| 0 <= k < c.len() && c[k] == d;
                    if default_branch(remotes.last()) is Some {
                        assert(c.push(default_branch(remotes.last())->0)[k] == d);
                    }
                } else {
                    assert(remote_candidates(remotes) == c.push(d));
                    assert(c.push(d)[c.len() as int] == d);
                }
            }
        }
        assert forall|d: Seq<char>| #[trigger] remote_candidates(remotes).contains(d) implies exists|i: int| 0 <= i < remotes.len()
            && default_branch(remotes[i]) == Some(d) by {
            let all = remote_candidates(remotes);
            let k = choose|k: int| 0 <= k < all.len() && all[k] == d;
            if k < c.len() {
                assert(all[k] == c[k]);
                assert(c.contains(d));
                let i = choose|i: int| 0 <= i < rest.len() && default_branch(rest[i]) == Some(d);
                assert(rest[i] == remotes[i]);
            } else {
                assert(default_branch(remotes[remotes.len() - 1]) == Some(d));
            }
        }
    }
}
} // verus!
