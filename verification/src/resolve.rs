//! What a command-line identifier names: a branch, a commit, or, failing
//! both, a short ID from the status graph.
use vstd::prelude::*;

use crate::git::LoomError;
use crate::graph::{BranchInfo, CommitInfo, RepoInfo};
use crate::render::{lookup, lookup_id, ShortIds};
use crate::repo::{FileChange, Target};
use crate::text::{chars_of, decimal, decimal_text, owned, parse_usize, push_str, split_once, split_once_chars, string_of, text_eq};

verus! {

/// The first branch whose short ID is `sid`.
pub open spec fn branch_with(bs: Seq<BranchInfo>, table: Seq<(String, String)>, sid: Seq<char>) -> Option<String>
    decreases bs.len(),
{
    if bs.len() == 0 {
        None
    } else if lookup(table, bs[0].name@) == sid {
        Some(bs[0].name)
    } else {
        branch_with(bs.drop_first(), table, sid)
    }
}

/// The first commit whose short ID is `sid`.
pub open spec fn commit_with(cs: Seq<CommitInfo>, table: Seq<(String, String)>, sid: Seq<char>) -> Option<CommitInfo>
    decreases cs.len(),
{
    if cs.len() == 0 {
        None
    } else if lookup(table, cs[0].oid@) == sid {
        Some(cs[0])
    } else {
        commit_with(cs.drop_first(), table, sid)
    }
}

/// The first changed file whose short ID is `sid`.
pub open spec fn file_with(fs: Seq<FileChange>, table: Seq<(String, String)>, sid: Seq<char>) -> Option<String>
    decreases fs.len(),
{
    if fs.len() == 0 {
        None
    } else if lookup(table, fs[0].path@) == sid {
        Some(fs[0].path)
    } else {
        file_with(fs.drop_first(), table, sid)
    }
}

pub open spec fn no_file_at_text(index: nat) -> Seq<char> {
    "Commit has no file at index "@ + decimal(index) + ". Run 'git-loom status -f' to see available IDs."@
}

pub open spec fn unknown_shortid_text(sid: Seq<char>) -> Seq<char> {
    "No commit, branch, file, or target with shortid '"@ + sid + "'. Run 'git-loom status' to see available IDs."@
}

/// What a short ID names, searched in order: the working tree, branches,
/// commits, changed files, then `<commit>:<index>` for a file of a commit.
pub open spec fn shortid_target(sid: Seq<char>, info: RepoInfo, ids: ShortIds) -> Result<Target, Seq<char>> {
    if ids.unstaged@ == sid {
        Ok(Target::Unstaged)
    } else if let Some(n) = branch_with(info.branches@, ids.branches@, sid) {
        Ok(Target::Branch(n))
    } else if let Some(c) = commit_with(info.commits@, ids.commits@, sid) {
        Ok(Target::Commit(c.oid))
    } else if let Some(p) = file_with(info.working_changes@, ids.files@, sid) {
        Ok(Target::File(p))
    } else {
        match split_once(sid, ':') {
            Some((cp, ip)) => match parse_usize(ip) {
                Some(i) => match commit_with(info.commits@, ids.commits@, cp) {
                    Some(c) => if i < c.files@.len() {
                        Ok(Target::CommitFile { commit: c.oid, path: c.files@[i as int].path })
                    } else {
                        Err(no_file_at_text(i as nat))
                    },
                    None => Err(unknown_shortid_text(sid)),
                },
                None => Err(unknown_shortid_text(sid)),
            },
            None => Err(unknown_shortid_text(sid)),
        }
    }
}

fn find_branch(bs: &Vec<BranchInfo>, table: &Vec<(String, String)>, sid: &str) -> (r: Option<String>)
    ensures
        r == branch_with(bs@, table@, sid@),
{
    let mut i: usize = 0;
    proof {
        assert(bs@.skip(0) =~= bs@);
    }
    while i < bs.len()
        invariant
            i <= bs@.len(),
            branch_with(bs@, table@, sid@) == branch_with(bs@.skip(i as int), table@, sid@),
        decreases bs.len() - i,
    {
        proof {
            assert(bs@.skip(i as int).drop_first() =~= bs@.skip(i + 1));
            assert(bs@.skip(i as int)[0] == bs@[i as int]);
        }
        let id = lookup_id(table.as_slice(), bs[i].name.as_str());
        if text_eq(id.as_str(), sid) {
            return Some(bs[i].name.clone());
        }
        i = i + 1;
    }
    proof {
        assert(bs@.skip(i as int).len() == 0);
    }
    None
}

fn find_commit(cs: &Vec<CommitInfo>, table: &Vec<(String, String)>, sid: &str) -> (r: Option<usize>)
    ensures
        match commit_with(cs@, table@, sid@) {
            Some(c) => r matches Some(k) && k < cs@.len() && cs@[k as int] == c,
            None => r is None,
        },
{
    let mut i: usize = 0;
    proof {
        assert(cs@.skip(0) =~= cs@);
    }
    while i < cs.len()
        invariant
            i <= cs@.len(),
            commit_with(cs@, table@, sid@) == commit_with(cs@.skip(i as int), table@, sid@),
        decreases cs.len() - i,
    {
        proof {
            assert(cs@.skip(i as int).drop_first() =~= cs@.skip(i + 1));
            assert(cs@.skip(i as int)[0] == cs@[i as int]);
        }
        let id = lookup_id(table.as_slice(), cs[i].oid.as_str());
        if text_eq(id.as_str(), sid) {
            return Some(i);
        }
        i = i + 1;
    }
    proof {
        assert(cs@.skip(i as int).len() == 0);
    }
    None
}

fn find_file(fs: &Vec<FileChange>, table: &Vec<(String, String)>, sid: &str) -> (r: Option<String>)
    ensures
        r == file_with(fs@, table@, sid@),
{
    let mut i: usize = 0;
    proof {
        assert(fs@.skip(0) =~= fs@);
    }
    while i < fs.len()
        invariant
            i <= fs@.len(),
            file_with(fs@, table@, sid@) == file_with(fs@.skip(i as int), table@, sid@),
        decreases fs.len() - i,
    {
        proof {
            assert(fs@.skip(i as int).drop_first() =~= fs@.skip(i + 1));
            assert(fs@.skip(i as int)[0] == fs@[i as int]);
        }
        let id = lookup_id(table.as_slice(), fs[i].path.as_str());
        if text_eq(id.as_str(), sid) {
            return Some(fs[i].path.clone());
        }
        i = i + 1;
    }
    proof {
        assert(fs@.skip(i as int).len() == 0);
    }
    None
}

fn unknown_shortid(sid: &str) -> (e: LoomError)
    ensures
        e.message@ == unknown_shortid_text(sid@),
{
    let mut m = owned("No commit, branch, file, or target with shortid '");
    push_str(&mut m, sid);
    push_str(&mut m, "'. Run 'git-loom status' to see available IDs.");
    LoomError::new(m)
}

/// What the short ID `sid` names in the status graph `info`, whose IDs are
/// `ids` ([`shortid_target`]).
pub fn resolve_shortid(sid: &str, info: &RepoInfo, ids: &ShortIds) -> (r: Result<Target, LoomError>)
    ensures
        match shortid_target(sid@, *info, *ids) {
            Ok(t) => r == Ok::<Target, LoomError>(t),
            Err(m) => r matches Err(e) && e.message@ == m,
        },
{
    if text_eq(ids.unstaged.as_str(), sid) {
        return Ok(Target::Unstaged);
    }
    if let Some(n) = find_branch(&info.branches, &ids.branches, sid) {
        return Ok(Target::Branch(n));
    }
    if let Some(k) = find_commit(&info.commits, &ids.commits, sid) {
        return Ok(Target::Commit(info.commits[k].oid.clone()));
    }
    if let Some(p) = find_file(&info.working_changes, &ids.files, sid) {
        return Ok(Target::File(p));
    }
    let v = chars_of(sid);
    match split_once_chars(&v, ':') {
        Some((cp, ip)) => {
            let commit_part = string_of(&cp);
            let index_part = string_of(&ip);
            match crate::text::parse_usize_str(index_part.as_str()) {
                Some(i) => match find_commit(&info.commits, &ids.commits, commit_part.as_str()) {
                    Some(k) => {
                        let c = &info.commits[k];
                        if i < c.files.len() {
                            Ok(Target::CommitFile { commit: c.oid.clone(), path: c.files[i].path.clone() })
                        } else {
                            let mut m = owned("Commit has no file at index ");
                            push_str(&mut m, decimal_text(i as u64).as_str());
                            push_str(&mut m, ". Run 'git-loom status -f' to see available IDs.");
                            Err(LoomError::new(m))
                        }
                    },
                    None => Err(unknown_shortid(sid)),
                },
                None => Err(unknown_shortid(sid)),
            }
        },
        None => Err(unknown_shortid(sid)),
    }
}

/// What `target` names: a local branch (`branch`, its name when one is
/// called that) first, so that a branch name always means the branch; else
/// the commit git resolves it to (`commit`); else a short ID of the status
/// graph `info`, whose IDs are `ids`.
pub fn resolve_target(target: &str, branch: Option<String>, commit: Option<String>, info: &RepoInfo, ids: &ShortIds) -> (r:
    Result<Target, LoomError>)
    ensures
        branch matches Some(n) ==> r == Ok::<Target, LoomError>(Target::Branch(n)),
        branch is None ==> (commit matches Some(h) ==> r == Ok::<Target, LoomError>(Target::Commit(h))),
        branch is None && commit is None ==> match shortid_target(target@, *info, *ids) {
            Ok(t) => r == Ok::<Target, LoomError>(t),
            Err(m) => r matches Err(e) && e.message@ == m,
        },
{
    if let Some(n) = branch {
        return Ok(Target::Branch(n));
    }
    if let Some(h) = commit {
        return Ok(Target::Commit(h));
    }
    resolve_shortid(target, info, ids)
}


proof fn lemma_branch_with_found(bs: Seq<BranchInfo>, table: Seq<(String, String)>, sid: Seq<char>, i: int)
    requires
        0 <= i < bs.len(),
        lookup(table, bs[i].name@) == sid,
    ensures
        branch_with(bs, table, sid) matches Some(n) && lookup(table, n@) == sid && exists|j: int| 0 <= j <= i && bs[j].name
            == n,
    decreases i,
{
    if lookup(table, bs[0].name@) != sid {
        lemma_branch_with_found(bs.drop_first(), table, sid, i - 1);
        let n = branch_with(bs.drop_first(), table, sid)->0;
        let j = choose|j: int| 0 <= j <= i - 1 && bs.drop_first()[j].name == n;
        assert(bs[j + 1].name == n);
    }
}

/// A short ID that some branch of the graph has, and the working tree has
/// not, names a branch with that short ID, whichever of the branches it is.
pub proof fn a_branch_shortid_names_a_branch(sid: Seq<char>, info: RepoInfo, ids: ShortIds, i: int)
    requires
        0 <= i < info.branches@.len(),
        lookup(ids.branches@, info.branches@[i].name@) == sid,
        ids.unstaged@ != sid,
    ensures
        shortid_target(sid, info, ids) matches Ok(Target::Branch(n)) && lookup(ids.branches@, n@) == sid && exists|j: int|
            0 <= j < info.branches@.len() && info.branches@[j].name == n,
{
    lemma_branch_with_found(info.branches@, ids.branches@, sid, i);
}

} // verus!
