//! Worktree ref safety.
//!
//! A weave rebase moves branch refs two ways: the explicit `update-ref` todo
//! lines move the feature branches, and completing the rebase moves HEAD's own
//! branch. Neither goes through git's porcelain check against moving a branch
//! that is checked out in another worktree, and moving such a ref desyncs that
//! worktree: its index and files stay at the old tip.
//!
//! Loom therefore applies git's own rule itself, before the rebase starts.
use vstd::prelude::*;

use crate::git::{arg, GitCommand};
use crate::text::{
    chars_eq, chars_of, contains_text, has_prefix, join, join_texts, lines, lines_of, owned,
    push_str, rows, string_of_range, views,
};

verus! {

/// A local branch checked out in a worktree.
///
/// Detached, bare, and prunable (directory gone) worktrees are excluded.
#[derive(Debug, Clone, PartialEq, Eq)]
pub struct WorktreeCheckout {
    pub path: String,
    /// Branch name without the `refs/heads/` prefix.
    pub branch: String,
}

impl WorktreeCheckout {
    /// A copy of the checkout.
    pub fn duplicate(&self) -> (r: Self)
        ensures
            r == *self,
    {
        WorktreeCheckout { path: self.path.clone(), branch: self.branch.clone() }
    }
}

/// `git worktree list --porcelain`, which [`parse_worktree_list`] reads.
pub fn worktree_checkouts() -> (c: GitCommand)
    ensures
        views(c.args@) == seq!["worktree"@, "list"@, "--porcelain"@],
        c.config@.len() == 0,
        c.stdin is None,
        c.index_file is None,
        !c.interactive,
{
    let mut args: Vec<String> = Vec::new();
    arg(&mut args, "worktree");
    arg(&mut args, "list");
    arg(&mut args, "--porcelain");
    GitCommand { args, config: Vec::new(), stdin: None, index_file: None, interactive: false }
}

/// What reading the porcelain listing knows so far: the block being read,
/// and the checkouts of the blocks already closed.
pub struct WorktreeScan {
    pub path: Option<Seq<char>>,
    pub branch: Option<Seq<char>>,
    pub skip: bool,
    pub found: Seq<(Seq<char>, Seq<char>)>,
}

/// One line of `git worktree list --porcelain`.
///
/// Each worktree is a block of `attribute [value]` lines ended by a blank
/// line: `worktree <path>`, `HEAD <sha>`, then `branch refs/heads/<name>` or
/// `detached`, optionally `bare`, `locked [reason]`, `prunable [reason]`.
/// A block closes into a checkout when it named a path and a local branch
/// and is neither bare nor prunable.
pub open spec fn worktree_step(st: WorktreeScan, line: Seq<char>) -> WorktreeScan {
    if line.len() == 0 {
        WorktreeScan {
            path: None,
            branch: None,
            skip: false,
            found: if st.path is Some && st.branch is Some && !st.skip {
                st.found.push((st.path->0, st.branch->0))
            } else {
                st.found
            },
        }
    } else if has_prefix(line, "worktree "@) {
        WorktreeScan { path: Some(line.skip("worktree "@.len() as int)), ..st }
    } else if has_prefix(line, "branch refs/heads/"@) {
        WorktreeScan { branch: Some(line.skip("branch refs/heads/"@.len() as int)), ..st }
    } else if line == "bare"@ || has_prefix(line, "prunable"@) {
        WorktreeScan { skip: true, ..st }
    } else {
        st
    }
}

/// Reading the listing's lines in order.
pub open spec fn worktree_scan(ls: Seq<Seq<char>>) -> WorktreeScan
    decreases ls.len(),
{
    if ls.len() == 0 {
        WorktreeScan { path: None, branch: None, skip: false, found: seq![] }
    } else {
        worktree_step(worktree_scan(ls.drop_last()), ls.last())
    }
}

/// The checkouts a porcelain listing names: its lines, with a closing blank
/// line so the last block counts even without one.
pub open spec fn worktree_list(porcelain: Seq<char>) -> Seq<(Seq<char>, Seq<char>)> {
    worktree_scan(lines(porcelain).push(Seq::<char>::empty())).found
}

/// The `(path, branch)` pairs of the checkouts.
pub open spec fn checkout_pairs(v: Seq<WorktreeCheckout>) -> Seq<(Seq<char>, Seq<char>)> {
    v.map_values(|c: WorktreeCheckout| (c.path@, c.branch@))
}

/// Parse `git worktree list --porcelain` output.
pub fn parse_worktree_list(porcelain: &str) -> (r: Vec<WorktreeCheckout>)
    ensures
        checkout_pairs(r@) == worktree_list(porcelain@),
{
    let text = chars_of(porcelain);
    let mut ls = lines_of(&text);
    // Trailing sentinel so the last block is flushed even without a blank line.
    ls.push(Vec::new());
    let ghost all = lines(porcelain@).push(Seq::<char>::empty());
    proof {
        assert(rows(ls@) =~= all);
    }
    let worktree_prefix = chars_of("worktree ");
    let branch_prefix = chars_of("branch refs/heads/");
    let bare = chars_of("bare");
    let prunable = chars_of("prunable");

    let mut result: Vec<WorktreeCheckout> = Vec::new();
    let mut path: Option<String> = None;
    let mut branch: Option<String> = None;
    let mut skip = false;
    let mut i: usize = 0;
    proof {
        assert(all.take(0) =~= Seq::<Seq<char>>::empty());
        assert(checkout_pairs(result@) =~= seq![]);
    }
    while i < ls.len()
        invariant
            i <= ls@.len(),
            rows(ls@) == all,
            worktree_prefix@ == "worktree "@,
            branch_prefix@ == "branch refs/heads/"@,
            bare@ == "bare"@,
            prunable@ == "prunable"@,
            ({
                let st = worktree_scan(all.take(i as int));
                &&& checkout_pairs(result@) == st.found
                &&& skip == st.skip
                &&& match path {
                    Some(p) => st.path == Some(p@),
                    None => st.path is None,
                }
                &&& match branch {
                    Some(b) => st.branch == Some(b@),
                    None => st.branch is None,
                }
            }),
        decreases ls.len() - i,
    {
        let line = &ls[i];
        let ghost before = worktree_scan(all.take(i as int));
        proof {
            assert(all.take(i + 1).drop_last() =~= all.take(i as int));
            assert(all.take(i + 1).last() == line@);
        }
        if line.len() == 0 {
            let p = path.take();
            let b = branch.take();
            match (p, b) {
                (Some(p), Some(b)) => {
                    if !skip {
                        let ghost old_found = checkout_pairs(result@);
                        result.push(WorktreeCheckout { path: p, branch: b });
                        proof {
                            assert(checkout_pairs(result@) =~= old_found.push(
                                (before.path->0, before.branch->0),
                            ));
                        }
                    }
                },
                _ => {},
            }
            skip = false;
        } else if crate::text::starts_with(line, &worktree_prefix) {
            path = Some(string_of_range(line, worktree_prefix.len(), line.len()));
            proof {
                assert(line@.subrange(worktree_prefix@.len() as int, line@.len() as int)
                    =~= line@.skip(worktree_prefix@.len() as int));
            }
        } else if crate::text::starts_with(line, &branch_prefix) {
            branch = Some(string_of_range(line, branch_prefix.len(), line.len()));
            proof {
                assert(line@.subrange(branch_prefix@.len() as int, line@.len() as int)
                    =~= line@.skip(branch_prefix@.len() as int));
            }
        } else if chars_eq(line, &bare) || crate::text::starts_with(line, &prunable) {
            skip = true;
        }
        i = i + 1;
    }
    proof {
        assert(all.take(ls@.len() as int) =~= all);
    }
    result
}

/// A worktree from the listing, with what the file system says of it: whether
/// its directory is still there, and its canonical path (the listed one when
/// it cannot be made canonical).
#[derive(Debug, Clone, PartialEq, Eq)]
pub struct WorktreeOnDisk {
    pub checkout: WorktreeCheckout,
    pub exists: bool,
    pub canonical: String,
}

/// The worktree holds one of `branches`, somewhere other than `current`.
///
/// A locked worktree whose directory is gone is not marked prunable, and is
/// not checked out either. The worktree loom runs in is exempt: the rebase
/// moves its ref, index and files together.
pub open spec fn blocks(branches: Seq<Seq<char>>, current: Seq<char>, w: WorktreeOnDisk) -> bool {
    branches.contains(w.checkout.branch@) && w.exists && w.canonical@ != current
}

/// The checkouts of `ws` that block a rewrite of `branches`, in listing order.
pub open spec fn blocked(branches: Seq<Seq<char>>, current: Seq<char>, ws: Seq<WorktreeOnDisk>) -> Seq<
    WorktreeCheckout,
>
    decreases ws.len(),
{
    if ws.len() == 0 {
        seq![]
    } else {
        let rest = blocked(branches, current, ws.drop_last());
        if blocks(branches, current, ws.last()) {
            rest.push(ws.last().checkout)
        } else {
            rest
        }
    }
}

/// Branches about to be rewritten are checked out in other worktrees.
#[derive(Debug, Clone, PartialEq, Eq)]
pub struct CheckedOutElsewhere {
    /// The checkouts in the way, at least one.
    pub blocked: Vec<WorktreeCheckout>,
}

pub open spec fn one_blocked_text(c: WorktreeCheckout) -> Seq<char> {
    "Cannot rewrite branch `"@ + c.branch@ + "` — it is checked out at `"@ + c.path@
        + "`\nThat worktree's index and files would stay at the old tip. Check out another branch there (or remove the worktree), then retry"@
}

pub open spec fn blocked_line(c: WorktreeCheckout) -> Seq<char> {
    "  `"@ + c.branch@ + "` at `"@ + c.path@ + "`"@
}

pub open spec fn many_blocked_text(cs: Seq<WorktreeCheckout>) -> Seq<char> {
    "Cannot rewrite branches that are checked out in other worktrees:\n"@ + join(
        cs.map_values(|c: WorktreeCheckout| blocked_line(c)),
        "\n"@,
    )
        + "\nTheir indexes and files would stay at the old tips. Check out other branches there (or remove the worktrees), then retry"@
}

fn blocked_line_text(c: &WorktreeCheckout) -> (s: String)
    ensures
        s@ == blocked_line(*c),
{
    let mut s = owned("  `");
    push_str(&mut s, c.branch.as_str());
    push_str(&mut s, "` at `");
    push_str(&mut s, c.path.as_str());
    push_str(&mut s, "`");
    s
}

impl CheckedOutElsewhere {
    /// The refusal shown to the user.
    pub fn message(&self) -> (s: String)
        ensures
            self.blocked@.len() == 1 ==> s@ == one_blocked_text(self.blocked@[0]),
            self.blocked@.len() != 1 ==> s@ == many_blocked_text(self.blocked@),
    {
        if self.blocked.len() == 1 {
            let c = &self.blocked[0];
            let mut s = owned("Cannot rewrite branch `");
            push_str(&mut s, c.branch.as_str());
            push_str(&mut s, "` — it is checked out at `");
            push_str(&mut s, c.path.as_str());
            push_str(
                &mut s,
                "`\nThat worktree's index and files would stay at the old tip. Check out another branch there (or remove the worktree), then retry",
            );
            s
        } else {
            let mut list: Vec<String> = Vec::new();
            let mut i: usize = 0;
            while i < self.blocked.len()
                invariant
                    i <= self.blocked@.len(),
                    views(list@) == self.blocked@.map_values(
                        |c: WorktreeCheckout| blocked_line(c),
                    ).take(i as int),
                decreases self.blocked.len() - i,
            {
                let ghost before = views(list@);
                list.push(blocked_line_text(&self.blocked[i]));
                proof {
                    assert(views(list@) =~= before.push(blocked_line(self.blocked@[i as int])));
                    assert(self.blocked@.map_values(|c: WorktreeCheckout| blocked_line(c)).take(
                        i + 1,
                    ) =~= before.push(blocked_line(self.blocked@[i as int])));
                }
                i = i + 1;
            }
            proof {
                assert(self.blocked@.map_values(|c: WorktreeCheckout| blocked_line(c)).take(
                    self.blocked@.len() as int,
                ) =~= self.blocked@.map_values(|c: WorktreeCheckout| blocked_line(c)));
            }
            let mut s = owned("Cannot rewrite branches that are checked out in other worktrees:\n");
            let joined = join_texts(&list, "\n");
            push_str(&mut s, joined.as_str());
            push_str(
                &mut s,
                "\nTheir indexes and files would stay at the old tips. Check out other branches there (or remove the worktrees), then retry",
            );
            s
        }
    }
}

/// Refuse the operation if any of `branches` is checked out in another
/// worktree, before anything has been rewritten. `current` is the canonical
/// path of the worktree loom runs in, `worktrees` the listing of
/// [`worktree_checkouts`] with what the file system says of each.
pub fn ensure_not_checked_out_elsewhere(
    branches: &[String],
    current: &str,
    worktrees: &[WorktreeOnDisk],
) -> (r: Result<(), CheckedOutElsewhere>)
    ensures
        ({
            let b = blocked(views(branches@), current@, worktrees@);
            &&& b.len() == 0 ==> r is Ok
            &&& b.len() > 0 ==> (r matches Err(e) && e.blocked@ == b)
        }),
{
    let ghost bs = views(branches@);
    let mut out: Vec<WorktreeCheckout> = Vec::new();
    let mut i: usize = 0;
    while i < worktrees.len()
        invariant
            i <= worktrees@.len(),
            bs == views(branches@),
            out@ == blocked(bs, current@, worktrees@.take(i as int)),
        decreases worktrees.len() - i,
    {
        let w = &worktrees[i];
        proof {
            assert(worktrees@.take(i + 1).drop_last() =~= worktrees@.take(i as int));
            assert(worktrees@.take(i + 1).last() == *w);
        }
        if contains_text(branches, &w.checkout.branch) && w.exists && !chars_eq(
            &chars_of(w.canonical.as_str()),
            &chars_of(current),
        ) {
            out.push(w.checkout.duplicate());
        }
        i = i + 1;
    }
    proof {
        assert(worktrees@.take(worktrees@.len() as int) =~= worktrees@);
    }
    if out.len() == 0 {
        Ok(())
    } else {
        Err(CheckedOutElsewhere { blocked: out })
    }
}

} // verus!

verus! {

/// Only a checkout elsewhere of a branch being rewritten ever blocks: every
/// checkout [`ensure_not_checked_out_elsewhere`] reports holds one of
/// `branches`, and comes from a worktree that is still on disk and is not
/// the one loom runs in.
pub proof fn only_other_checkouts_block(
    branches: Seq<Seq<char>>,
    current: Seq<char>,
    ws: Seq<WorktreeOnDisk>,
)
    ensures
        forall|i: int|
            0 <= i < blocked(branches, current, ws).len() ==> {
                let c = #[trigger] blocked(branches, current, ws)[i];
                &&& branches.contains(c.branch@)
                &&& exists|j: int|
                    0 <= j < ws.len() && ws[j].checkout == c && ws[j].exists && ws[j].canonical@
                        != current
            },
    decreases ws.len(),
{
    if ws.len() > 0 {
        let rest = ws.drop_last();
        only_other_checkouts_block(branches, current, rest);
        let b = blocked(branches, current, ws);
        assert forall|i: int| 0 <= i < b.len() implies {
            let c = #[trigger] b[i];
            &&& branches.contains(c.branch@)
            &&& exists|j: int|
                0 <= j < ws.len() && ws[j].checkout == c && ws[j].exists && ws[j].canonical@
                    != current
        } by {
            let rb = blocked(branches, current, rest);
            if i < rb.len() {
                assert(b[i] == rb[i]);
                let c = rb[i];
                let j = choose|j: int|
                    0 <= j < rest.len() && rest[j].checkout == c && rest[j].exists
                        && rest[j].canonical@ != current;
                assert(ws[j] == rest[j]);
            } else {
                assert(b[i] == ws.last().checkout);
                assert(ws[ws.len() - 1] == ws.last());
            }
        }
    }
}


/// A line that changes nothing in the block being read.
pub open spec fn inert_line(l: Seq<char>) -> bool {
    &&& l.len() > 0
    &&& !has_prefix(l, "worktree "@)
    &&& !has_prefix(l, "branch refs/heads/"@)
    &&& l != "bare"@
    &&& !has_prefix(l, "prunable"@)
}

proof fn lemma_scan_push(ls: Seq<Seq<char>>, l: Seq<char>)
    ensures
        worktree_scan(ls.push(l)) == worktree_step(worktree_scan(ls), l),
{
    assert(ls.push(l).drop_last() =~= ls);
}

proof fn lemma_scan_inert(ls: Seq<Seq<char>>, mid: Seq<Seq<char>>)
    requires
        forall|i: int| 0 <= i < mid.len() ==> inert_line(#[trigger] mid[i]),
    ensures
        worktree_scan(ls + mid) == worktree_scan(ls),
    decreases mid.len(),
{
    if mid.len() > 0 {
        let d = mid.drop_last();
        assert forall|i: int| 0 <= i < d.len() implies inert_line(#[trigger] d[i]) by {
            assert(d[i] == mid[i]);
        }
        lemma_scan_inert(ls, d);
        assert((ls + mid) =~= (ls + d).push(mid.last()));
        lemma_scan_push(ls + d, mid.last());
        assert(inert_line(mid[mid.len() - 1]));
    }
}

/// A worktree block that names a path and `branch refs/heads/<name>`, and
/// is neither bare nor prunable, yields a checkout of exactly that path and
/// of the whole branch name, slashes included, after what came before it.
pub proof fn a_checkout_names_the_whole_branch(pre: Seq<Seq<char>>, path: Seq<char>, mid: Seq<Seq<char>>, name: Seq<char>)
    requires
        pre.len() == 0 || pre.last().len() == 0,
        forall|i: int| 0 <= i < mid.len() ==> inert_line(#[trigger] mid[i]),
    ensures
        worktree_scan(pre + seq!["worktree "@ + path] + mid + seq!["branch refs/heads/"@ + name, Seq::<char>::empty()]).found
            == worktree_scan(pre).found.push((path, name)),
{
    reveal_strlit("worktree ");
    reveal_strlit("branch refs/heads/");
    let w = "worktree "@ + path;
    let b = "branch refs/heads/"@ + name;
    let s0 = worktree_scan(pre);
    assert(s0.path is None && s0.branch is None && !s0.skip) by {
        if pre.len() > 0 {
            lemma_scan_push(pre.drop_last(), pre.last());
            assert(pre.drop_last().push(pre.last()) =~= pre);
        }
    }
    assert(has_prefix(w, "worktree "@)) by {
        assert(w.take(9) =~= "worktree "@);
    }
    assert(w.skip(9) =~= path);
    lemma_scan_push(pre, w);
    let s1 = worktree_scan(pre.push(w));
    assert(s1.path == Some(path) && s1.branch is None && !s1.skip && s1.found == s0.found);
    lemma_scan_inert(pre.push(w), mid);
    assert(pre + seq![w] =~= pre.push(w));
    let s2 = worktree_scan(pre.push(w) + mid);
    assert(!has_prefix(b, "worktree "@)) by {
        assert(b[0] == 'b');
        assert("worktree "@[0] == 'w');
        if b.take(9) == "worktree "@ {
            assert(b.take(9)[0] == b[0]);
        }
    }
    assert(has_prefix(b, "branch refs/heads/"@)) by {
        assert(b.take(18) =~= "branch refs/heads/"@);
    }
    assert(b.skip(18) =~= name);
    assert(b.len() > 0);
    lemma_scan_push(pre.push(w) + mid, b);
    let s3 = worktree_scan((pre.push(w) + mid).push(b));
    assert(s3.path == Some(path) && s3.branch == Some(name) && !s3.skip && s3.found == s0.found);
    lemma_scan_push((pre.push(w) + mid).push(b), Seq::<char>::empty());
    assert(pre + seq![w] + mid + seq![b, Seq::<char>::empty()] =~= (pre.push(w) + mid).push(b).push(Seq::<char>::empty()));
}
} // verus!
