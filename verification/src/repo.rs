//! What the repository holds as the status graph reads it: targets, file
//! changes, the commits and branches of the range, and the branch refs a
//! rollback puts back.
use vstd::prelude::*;

use crate::git::arg;
use crate::git_commands::PlainGit;
use crate::graph::{in_range, last_index_of, opt_view, BranchInfo, CommitInfo, RemoteStatus};
use crate::text::{owned, push_str, views};

verus! {

/// What a target identifier resolved to.
#[derive(Debug, Clone, PartialEq, Eq)]
pub enum Target {
    /// A commit (full or partial hash).
    Commit(String),
    /// A branch name.
    Branch(String),
    /// A file path (working tree change).
    File(String),
    /// A file within a specific commit (e.g. short ID `02:0`).
    CommitFile { commit: String, path: String },
    /// The unstaged working directory (short ID: `zz`).
    Unstaged,
}

/// A file with staged or unstaged changes in the working tree.
#[derive(Debug, Clone, PartialEq, Eq)]
pub struct FileChange {
    pub path: String,
    /// Index (staged) status: ' ', 'A', 'M', 'D', 'R', or '?'
    pub index: char,
    /// Worktree (unstaged) status: ' ', 'M', 'D', 'R', or '?'
    pub worktree: char,
}

} // verus!

verus! {

/// The `YYYY-MM-DD` date, in UTC, of a Unix timestamp, when chrono can
/// represent it: `DateTime::<Utc>::from_timestamp(epoch, 0)` formatted with
/// `%Y-%m-%d`.
pub uninterp spec fn utc_date(epoch: i64) -> Option<Seq<char>>;

/// Calls chrono's `DateTime::<Utc>::from_timestamp(epoch, 0)` and formats
/// what it returns with `format("%Y-%m-%d")`. The contract claims only that
/// the result is [`utc_date`] of the timestamp — the same timestamp, the
/// same date — and nothing of the calendar arithmetic behind it. chrono
/// answers `None` for a timestamp outside the dates it represents.
#[verifier::external_body]
fn chrono_utc_date(epoch: i64) -> (r: Option<String>)
    ensures
        match utc_date(epoch) {
            Some(d) => r matches Some(s) && s@ == d,
            None => r is None,
        },
{
    match chrono::DateTime::<chrono::Utc>::from_timestamp(epoch, 0) {
        Some(dt) => Some(dt.format("%Y-%m-%d").to_string()),
        None => None,
    }
}

/// A date as shown, `????-??-??` when there is none.
pub fn date_or_unknown(date: Option<String>) -> (s: String)
    ensures
        match date {
            Some(d) => s == d,
            None => s@ == "????-??-??"@,
        },
{
    match date {
        Some(d) => d,
        None => crate::text::owned("????-??-??"),
    }
}

/// Format a Unix timestamp as `YYYY-MM-DD`, in UTC.
pub fn format_epoch(epoch: i64) -> (s: String)
    ensures
        s@ == match utc_date(epoch) {
            Some(d) => d,
            None => "????-??-??"@,
        },
{
    date_or_unknown(chrono_utc_date(epoch))
}

} // verus!

verus! {

/// What git's status reports of one path, state by state.
#[derive(Debug, Clone, Copy, PartialEq, Eq, Structural)]
pub struct StatusFlags {
    pub index_new: bool,
    pub index_modified: bool,
    pub index_deleted: bool,
    pub index_renamed: bool,
    pub wt_new: bool,
    pub wt_modified: bool,
    pub wt_deleted: bool,
    pub wt_renamed: bool,
}

/// The staged column: `?` for an untracked path, else the first of added,
/// modified, deleted, renamed that holds, else blank.
pub open spec fn index_code(f: StatusFlags) -> char {
    if f.wt_new {
        '?'
    } else if f.index_new {
        'A'
    } else if f.index_modified {
        'M'
    } else if f.index_deleted {
        'D'
    } else if f.index_renamed {
        'R'
    } else {
        ' '
    }
}

/// The unstaged column: `?` for an untracked path, else the first of
/// modified, deleted, renamed that holds, else blank.
pub open spec fn worktree_code(f: StatusFlags) -> char {
    if f.wt_new {
        '?'
    } else if f.wt_modified {
        'M'
    } else if f.wt_deleted {
        'D'
    } else if f.wt_renamed {
        'R'
    } else {
        ' '
    }
}

/// A working tree change with its two status columns.
pub fn working_change(path: String, flags: StatusFlags) -> (c: FileChange)
    ensures
        c.path == path,
        c.index == index_code(flags),
        c.worktree == worktree_code(flags),
{
    let index = if flags.wt_new {
        '?'
    } else if flags.index_new {
        'A'
    } else if flags.index_modified {
        'M'
    } else if flags.index_deleted {
        'D'
    } else if flags.index_renamed {
        'R'
    } else {
        ' '
    };
    let worktree = if flags.wt_new {
        '?'
    } else if flags.wt_modified {
        'M'
    } else if flags.wt_deleted {
        'D'
    } else if flags.wt_renamed {
        'R'
    } else {
        ' '
    };
    FileChange { path, index, worktree }
}

/// How a commit changed a file, as its diff against its parent says.
#[derive(Debug, Clone, Copy, PartialEq, Eq, Structural)]
pub enum DeltaKind {
    Added,
    Modified,
    Deleted,
    Renamed,
    /// Any other change (copied, type change, ...).
    Other,
}

/// The status letter of a change within a commit.
pub open spec fn delta_code(k: DeltaKind) -> char {
    match k {
        DeltaKind::Added => 'A',
        DeltaKind::Modified => 'M',
        DeltaKind::Deleted => 'D',
        DeltaKind::Renamed => 'R',
        DeltaKind::Other => '?',
    }
}

/// A file a commit touches: its letter in the staged column, the other blank.
pub fn commit_file(path: String, kind: DeltaKind) -> (c: FileChange)
    ensures
        c.path == path,
        c.index == delta_code(kind),
        c.worktree == ' ',
{
    let index = match kind {
        DeltaKind::Added => 'A',
        DeltaKind::Modified => 'M',
        DeltaKind::Deleted => 'D',
        DeltaKind::Renamed => 'R',
        DeltaKind::Other => '?',
    };
    FileChange { path, index, worktree: ' ' }
}

/// A commit as the walk from HEAD down to the merge-base meets it.
pub struct WalkedCommit {
    pub oid: String,
    pub short_id: String,
    /// Its summary line.
    pub message: String,
    pub parent_count: usize,
    /// Its first parent, when it has one.
    pub first_parent: Option<String>,
    pub files: Vec<FileChange>,
}

/// The commit as the status graph holds it.
pub open spec fn commit_info_of(w: WalkedCommit) -> CommitInfo {
    CommitInfo {
        oid: w.oid,
        short_id: w.short_id,
        message: w.message,
        parent_oid: w.first_parent,
        files: w.files,
    }
}

/// The walked commits that are not merges, in walk order.
pub open spec fn range_commits_spec(s: Seq<WalkedCommit>) -> Seq<CommitInfo>
    decreases s.len(),
{
    if s.len() == 0 {
        Seq::empty()
    } else {
        let rest = range_commits_spec(s.drop_last());
        if s.last().parent_count > 1 {
            rest
        } else {
            rest.push(commit_info_of(s.last()))
        }
    }
}

/// The items of `v`, last first.
fn reverse_vec<T>(v: Vec<T>) -> (r: Vec<T>)
    ensures
        r@.len() == v@.len(),
        forall|j: int| 0 <= j < v@.len() ==> #[trigger] r@[j] == v@[v@.len() - 1 - j],
{
    let ghost orig = v@;
    let mut pending = v;
    let mut back: Vec<T> = Vec::new();
    while pending.len() > 0
        invariant
            pending@ == orig.take(pending@.len() as int),
            back@.len() + pending@.len() == orig.len(),
            forall|j: int| 0 <= j < back@.len() ==> #[trigger] back@[j] == orig[orig.len() - 1 - j],
        decreases pending@.len(),
    {
        let x = pending.pop().unwrap();
        proof {
            assert(orig.take(pending@.len() + 1int)[pending@.len() as int] == x);
            assert(pending@ =~= orig.take(pending@.len() as int));
        }
        back.push(x);
    }
    back
}

/// The commits of the range, merges left out ([`range_commits_spec`]).
pub fn range_commits(walked: Vec<WalkedCommit>) -> (r: Vec<CommitInfo>)
    ensures
        r@ == range_commits_spec(walked@),
{
    let ghost ws = walked@;
    let n: usize = walked.len();
    let mut rest = reverse_vec(walked);
    let mut out: Vec<CommitInfo> = Vec::new();
    let mut i: usize = 0;
    while i < n
        invariant
            n == ws.len(),
            i <= n,
            rest@.len() == n - i,
            forall|j: int| 0 <= j < rest@.len() ==> #[trigger] rest@[j] == ws[n - 1 - j],
            out@ == range_commits_spec(ws.take(i as int)),
        decreases n - i,
    {
        let w = rest.pop().unwrap();
        proof {
            assert(ws.take(i + 1).drop_last() =~= ws.take(i as int));
            assert(ws.take(i + 1).last() == w);
        }
        if w.parent_count <= 1 {
            let WalkedCommit { oid, short_id, message, parent_count: _, first_parent, files } = w;
            out.push(CommitInfo { oid, short_id, message, parent_oid: first_parent, files });
        }
        i = i + 1;
    }
    proof {
        assert(ws.take(n as int) =~= ws);
    }
    out
}

/// A local branch as git lists it.
pub struct BranchFacts {
    /// Its name; `None` when the name is not valid UTF-8.
    pub name: Option<String>,
    /// The name of the branch its upstream is, when it has one.
    pub upstream: Option<String>,
    /// The commit its ref points at, when it points at one.
    pub tip: Option<String>,
    pub remote: Option<RemoteStatus>,
}

/// A branch is shown when it has a name other than the current branch's,
/// does not track the integration branch's own upstream, and points at a
/// commit of the range or at the merge-base.
pub open spec fn shows_branch(
    b: BranchFacts,
    cs: Seq<CommitInfo>,
    base: Seq<char>,
    current: Seq<char>,
    up: Seq<char>,
) -> bool {
    &&& b.name matches Some(n) && n@ != current
    &&& !(b.upstream matches Some(u) && u@ == up)
    &&& b.tip matches Some(t) && (in_range(cs, t@) || t@ == base)
}

/// The branch as the status graph holds it.
pub open spec fn branch_info_of(b: BranchFacts) -> BranchInfo {
    BranchInfo { name: b.name.unwrap(), tip_oid: b.tip.unwrap(), remote: b.remote }
}

/// The shown branches, in the order git lists them.
pub open spec fn branches_in_range_spec(
    s: Seq<BranchFacts>,
    cs: Seq<CommitInfo>,
    base: Seq<char>,
    current: Seq<char>,
    up: Seq<char>,
) -> Seq<BranchInfo>
    decreases s.len(),
{
    if s.len() == 0 {
        Seq::empty()
    } else {
        let rest = branches_in_range_spec(s.drop_last(), cs, base, current, up);
        if shows_branch(s.last(), cs, base, current, up) {
            rest.push(branch_info_of(s.last()))
        } else {
            rest
        }
    }
}

fn shows(b: &BranchFacts, commits: &[CommitInfo], merge_base: &str, current: &str, upstream_name: &str) -> (r: bool)
    ensures
        r == shows_branch(*b, commits@, merge_base@, current@, upstream_name@),
{
    let named = match &b.name {
        Some(n) => !crate::text::text_eq(n.as_str(), current),
        None => false,
    };
    let same_upstream = match &b.upstream {
        Some(u) => crate::text::text_eq(u.as_str(), upstream_name),
        None => false,
    };
    let placed = match &b.tip {
        Some(t) => last_index_of(commits, t.as_str()).is_some() || crate::text::text_eq(t.as_str(), merge_base),
        None => false,
    };
    named && !same_upstream && placed
}

/// The local branches the status graph shows ([`shows_branch`]), in the
/// order git lists them.
pub fn find_branches_in_range(
    listed: Vec<BranchFacts>,
    commits: &[CommitInfo],
    merge_base: &str,
    current: &str,
    upstream_name: &str,
) -> (r: Vec<BranchInfo>)
    ensures
        r@ == branches_in_range_spec(listed@, commits@, merge_base@, current@, upstream_name@),
{
    let ghost ls = listed@;
    let n: usize = listed.len();
    let mut rest = reverse_vec(listed);
    let mut out: Vec<BranchInfo> = Vec::new();
    let mut i: usize = 0;
    while i < n
        invariant
            n == ls.len(),
            i <= n,
            rest@.len() == n - i,
            forall|j: int| 0 <= j < rest@.len() ==> #[trigger] rest@[j] == ls[n - 1 - j],
            out@ == branches_in_range_spec(ls.take(i as int), commits@, merge_base@, current@, upstream_name@),
        decreases n - i,
    {
        let b = rest.pop().unwrap();
        proof {
            assert(ls.take(i + 1).drop_last() =~= ls.take(i as int));
            assert(ls.take(i + 1).last() == b);
        }
        if shows(&b, commits, merge_base, current, upstream_name) {
            let BranchFacts { name, upstream: _, tip, remote } = b;
            out.push(BranchInfo { name: name.unwrap(), tip_oid: tip.unwrap(), remote });
        }
        i = i + 1;
    }
    proof {
        assert(ls.take(n as int) =~= ls);
    }
    out
}

} // verus!

verus! {

/// The name and tip of every listed branch that has both, in listed order:
/// what a rollback restores.
pub open spec fn known_refs(s: Seq<BranchFacts>) -> Seq<(Seq<char>, Seq<char>)>
    decreases s.len(),
{
    if s.len() == 0 {
        Seq::empty()
    } else {
        let rest = known_refs(s.drop_last());
        match (s.last().name, s.last().tip) {
            (Some(n), Some(t)) => rest.push((n@, t@)),
            _ => rest,
        }
    }
}

/// The pairs as views.
pub open spec fn ref_views(v: Seq<(String, String)>) -> Seq<(Seq<char>, Seq<char>)> {
    v.map_values(|p: (String, String)| (p.0@, p.1@))
}

/// Every local branch's name and tip, for a rollback ([`known_refs`]).
pub fn snapshot_refs(listed: &[BranchFacts]) -> (r: Vec<(String, String)>)
    ensures
        ref_views(r@) == known_refs(listed@),
{
    let mut out: Vec<(String, String)> = Vec::new();
    let mut i: usize = 0;
    while i < listed.len()
        invariant
            i <= listed@.len(),
            ref_views(out@) == known_refs(listed@.take(i as int)),
        decreases listed.len() - i,
    {
        proof {
            assert(listed@.take(i + 1).drop_last() =~= listed@.take(i as int));
        }
        let ghost before = out@;
        match (&listed[i].name, &listed[i].tip) {
            (Some(n), Some(t)) => {
                out.push((n.clone(), t.clone()));
                proof {
                    assert(ref_views(out@) =~= ref_views(before).push((n@, t@)));
                }
            },
            _ => {},
        }
        i = i + 1;
    }
    proof {
        assert(listed@.take(listed@.len() as int) =~= listed@);
    }
    out
}

/// Some snapshot entry is named `n`.
pub open spec fn in_snapshot(snap: Seq<(Seq<char>, Seq<char>)>, n: Seq<char>) -> bool {
    exists|i: int| 0 <= i < snap.len() && snap[i].0 == n
}

/// `n` is the branch HEAD is on.
pub open spec fn is_head(head: Option<Seq<char>>, n: Seq<char>) -> bool {
    head == Some(n)
}

/// `git branch -D` for each present branch, in order, that the snapshot does
/// not hold and HEAD is not on.
pub open spec fn deletions(
    current: Seq<Seq<char>>,
    snap: Seq<(Seq<char>, Seq<char>)>,
    head: Option<Seq<char>>,
) -> Seq<Seq<Seq<char>>>
    decreases current.len(),
{
    if current.len() == 0 {
        Seq::empty()
    } else {
        let rest = deletions(current.drop_last(), snap, head);
        let n = current.last();
        if !in_snapshot(snap, n) && !is_head(head, n) {
            rest.push(seq!["branch"@, "-D"@, n])
        } else {
            rest
        }
    }
}

/// `git branch -f <name> <tip>` for each snapshot entry, in order, but the
/// one of HEAD's branch (a hard reset puts that one back).
pub open spec fn resets(snap: Seq<(Seq<char>, Seq<char>)>, head: Option<Seq<char>>) -> Seq<
    Seq<Seq<char>>,
>
    decreases snap.len(),
{
    if snap.len() == 0 {
        Seq::empty()
    } else {
        let rest = resets(snap.drop_last(), head);
        let (n, t) = snap.last();
        if !is_head(head, n) {
            rest.push(seq!["branch"@, "-f"@, n, t])
        } else {
            rest
        }
    }
}

/// The argument lists of the invocations.
pub open spec fn plan_args(v: Seq<PlainGit>) -> Seq<Seq<Seq<char>>> {
    v.map_values(|c: PlainGit| views(c.args@))
}

/// Captured, with no message of their own: a failure is passed over.
pub open spec fn all_captured(v: Seq<PlainGit>) -> bool {
    forall|i: int| 0 <= i < v.len() ==> !(#[trigger] v[i]).interactive && v[i].context is None
}

fn snapshot_has(snapshot: &[(String, String)], n: &str) -> (r: bool)
    ensures
        r == in_snapshot(ref_views(snapshot@), n@),
{
    let mut i: usize = 0;
    while i < snapshot.len()
        invariant
            i <= snapshot@.len(),
            forall|j: int| 0 <= j < i ==> snapshot@[j].0@ != n@,
        decreases snapshot.len() - i,
    {
        if crate::text::text_eq(snapshot[i].0.as_str(), n) {
            proof {
                assert(ref_views(snapshot@)[i as int].0 == n@);
            }
            return true;
        }
        i = i + 1;
    }
    proof {
        if in_snapshot(ref_views(snapshot@), n@) {
            let j = choose|j: int| 0 <= j < ref_views(snapshot@).len() && ref_views(snapshot@)[j].0 == n@;
            assert(snapshot@[j].0@ == n@);
        }
    }
    false
}

fn on_head(head: &Option<String>, n: &str) -> (r: bool)
    ensures
        r == is_head(opt_view(*head), n@),
{
    match head {
        Some(h) => crate::text::text_eq(h.as_str(), n),
        None => false,
    }
}

/// What a rollback runs to put the branches back as `snapshot` recorded
/// them: the [`deletions`] of the branches now present (`current`), then the
/// [`resets`] of the snapshot's. HEAD's branch is left alone.
pub fn restore_plan(current: &[String], snapshot: &[(String, String)], head: &Option<String>) -> (r: Vec<PlainGit>)
    ensures
        plan_args(r@) == deletions(views(current@), ref_views(snapshot@), opt_view(*head)) + resets(
            ref_views(snapshot@),
            opt_view(*head),
        ),
        all_captured(r@),
{
    let ghost snap = ref_views(snapshot@);
    let ghost hv = opt_view(*head);
    let ghost cur = views(current@);
    let mut out: Vec<PlainGit> = Vec::new();
    let mut i: usize = 0;
    while i < current.len()
        invariant
            i <= current@.len(),
            cur == views(current@),
            snap == ref_views(snapshot@),
            hv == opt_view(*head),
            plan_args(out@) == deletions(cur.take(i as int), snap, hv),
            all_captured(out@),
        decreases current.len() - i,
    {
        proof {
            assert(cur.take(i + 1).drop_last() =~= cur.take(i as int));
            assert(cur.take(i + 1).last() == current@[i as int]@);
        }
        let n = current[i].as_str();
        if !snapshot_has(snapshot, n) && !on_head(head, n) {
            let mut a: Vec<String> = Vec::new();
            arg(&mut a, "branch");
            arg(&mut a, "-D");
            arg(&mut a, n);
            let ghost before = out@;
            out.push(PlainGit::captured(a));
            proof {
                assert(views(a@) =~= seq!["branch"@, "-D"@, n@]);
                assert(plan_args(out@) =~= plan_args(before).push(seq!["branch"@, "-D"@, n@]));
            }
        }
        i = i + 1;
    }
    proof {
        assert(cur.take(current@.len() as int) =~= cur);
    }
    let ghost dels = plan_args(out@);
    let mut k: usize = 0;
    while k < snapshot.len()
        invariant
            k <= snapshot@.len(),
            snap == ref_views(snapshot@),
            hv == opt_view(*head),
            plan_args(out@) == dels + resets(snap.take(k as int), hv),
            all_captured(out@),
        decreases snapshot.len() - k,
    {
        proof {
            assert(snap.take(k + 1).drop_last() =~= snap.take(k as int));
            assert(snap.take(k + 1).last() == (snapshot@[k as int].0@, snapshot@[k as int].1@));
        }
        let n = snapshot[k].0.as_str();
        if !on_head(head, n) {
            let mut a: Vec<String> = Vec::new();
            arg(&mut a, "branch");
            arg(&mut a, "-f");
            arg(&mut a, n);
            arg(&mut a, snapshot[k].1.as_str());
            let ghost before = out@;
            out.push(PlainGit::captured(a));
            proof {
                assert(views(a@) =~= seq!["branch"@, "-f"@, n@, snapshot@[k as int].1@]);
                assert(plan_args(out@) =~= plan_args(before).push(
                    seq!["branch"@, "-f"@, n@, snapshot@[k as int].1@],
                ));
                assert(dels + resets(snap.take(k + 1), hv) =~= (dels + resets(snap.take(k as int), hv)).push(
                    seq!["branch"@, "-f"@, n@, snapshot@[k as int].1@],
                ));
            }
        }
        k = k + 1;
    }
    proof {
        assert(snap.take(snapshot@.len() as int) =~= snap);
    }
    out
}

} // verus!

verus! {

proof fn lemma_deletions(current: Seq<Seq<char>>, snap: Seq<(Seq<char>, Seq<char>)>, head: Option<Seq<char>>, n: Seq<char>)
    ensures
        current.contains(n) && !in_snapshot(snap, n) && !is_head(head, n) ==> deletions(current, snap, head).contains(
            seq!["branch"@, "-D"@, n],
        ),
        forall|i: int| 0 <= i < deletions(current, snap, head).len() ==> {
            let c = #[trigger] deletions(current, snap, head)[i];
            c.len() == 3 && !is_head(head, c[2])
        },
    decreases current.len(),
{
    if current.len() > 0 {
        lemma_deletions(current.drop_last(), snap, head, n);
        let rest = deletions(current.drop_last(), snap, head);
        if current.drop_last().contains(n) {
            if rest.contains(seq!["branch"@, "-D"@, n]) {
                let j = choose|j: int| 0 <= j < rest.len() && rest[j] == seq!["branch"@, "-D"@, n];
                assert(deletions(current, snap, head)[j] == seq!["branch"@, "-D"@, n]);
            }
        } else if current.contains(n) {
            let j = choose|j: int| 0 <= j < current.len() && current[j] == n;
            if j < current.len() - 1 {
                assert(current.drop_last()[j] == n);
            }
            assert(current.last() == n);
            if !in_snapshot(snap, n) && !is_head(head, n) {
                assert(deletions(current, snap, head)[rest.len() as int] == seq!["branch"@, "-D"@, n]);
            }
        }
    }
}

proof fn lemma_resets(snap: Seq<(Seq<char>, Seq<char>)>, head: Option<Seq<char>>, n: Seq<char>, t: Seq<char>)
    ensures
        snap.contains((n, t)) && !is_head(head, n) ==> resets(snap, head).contains(seq!["branch"@, "-f"@, n, t]),
        forall|i: int| 0 <= i < resets(snap, head).len() ==> {
            let c = #[trigger] resets(snap, head)[i];
            c.len() == 4 && !is_head(head, c[2])
        },
    decreases snap.len(),
{
    if snap.len() > 0 {
        lemma_resets(snap.drop_last(), head, n, t);
        let rest = resets(snap.drop_last(), head);
        if snap.drop_last().contains((n, t)) {
            if rest.contains(seq!["branch"@, "-f"@, n, t]) {
                let j = choose|j: int| 0 <= j < rest.len() && rest[j] == seq!["branch"@, "-f"@, n, t];
                assert(resets(snap, head)[j] == seq!["branch"@, "-f"@, n, t]);
            }
        } else if snap.contains((n, t)) {
            let j = choose|j: int| 0 <= j < snap.len() && snap[j] == (n, t);
            if j < snap.len() - 1 {
                assert(snap.drop_last()[j] == (n, t));
            }
            assert(snap.last() == (n, t));
            if !is_head(head, n) {
                assert(resets(snap, head)[rest.len() as int] == seq!["branch"@, "-f"@, n, t]);
            }
        }
    }
}

/// A rollback leaves no branch out: a branch present now that the snapshot
/// does not hold is deleted, a branch of the snapshot is forced back to its
/// recorded tip, and no step names HEAD's branch.
pub proof fn restore_plan_covers_every_branch(
    current: Seq<Seq<char>>,
    snap: Seq<(Seq<char>, Seq<char>)>,
    head: Option<Seq<char>>,
    n: Seq<char>,
    t: Seq<char>,
)
    ensures
        current.contains(n) && !in_snapshot(snap, n) && !is_head(head, n) ==> deletions(current, snap, head).contains(
            seq!["branch"@, "-D"@, n],
        ),
        snap.contains((n, t)) && !is_head(head, n) ==> resets(snap, head).contains(seq!["branch"@, "-f"@, n, t]),
        forall|i: int|
            0 <= i < (deletions(current, snap, head) + resets(snap, head)).len() ==> !is_head(
                head,
                #[trigger] (deletions(current, snap, head) + resets(snap, head))[i][2],
            ),
{
    lemma_deletions(current, snap, head, n);
    lemma_resets(snap, head, n, t);
    let d = deletions(current, snap, head);
    let r = resets(snap, head);
    assert forall|i: int| 0 <= i < (d + r).len() implies !is_head(head, #[trigger] (d + r)[i][2]) by {
        if i < d.len() {
            assert((d + r)[i] == d[i]);
        } else {
            assert((d + r)[i] == r[i - d.len()]);
        }
    }
}

} // verus!

verus! {

/// What the status graph answers when HEAD is on no branch.
pub const DETACHED_HEAD: &'static str = "HEAD is detached. git-loom requires being on a branch.";

/// What the status graph answers when the current branch tracks nothing.
pub open spec fn no_upstream_text(branch: Seq<char>) -> Seq<char> {
    "branch '"@ + branch + "' has no upstream tracking branch.\nSet one with: git branch --set-upstream-to=origin/main "@
        + branch
}

/// See [`no_upstream_text`].
pub fn no_upstream_message(branch: &str) -> (s: String)
    ensures
        s@ == no_upstream_text(branch@),
{
    let mut s = owned("branch '");
    push_str(&mut s, branch);
    push_str(&mut s, "' has no upstream tracking branch.\nSet one with: git branch --set-upstream-to=origin/main ");
    push_str(&mut s, branch);
    s
}

/// What creating a branch answers when one of that name exists.
pub open spec fn branch_exists_text(name: Seq<char>) -> Seq<char> {
    "Branch '"@ + name + "' already exists"@
}

/// See [`branch_exists_text`].
pub fn branch_exists_message(name: &str) -> (s: String)
    ensures
        s@ == branch_exists_text(name@),
{
    let mut s = owned("Branch '");
    push_str(&mut s, name);
    push_str(&mut s, "' already exists");
    s
}

} // verus!
