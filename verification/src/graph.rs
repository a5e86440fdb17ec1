//! The status graph's sections: which commits belong to which feature
//! branch, which sit loose on the integration line, and in what order the
//! sections are shown.
use vstd::prelude::*;

use crate::repo::FileChange;
use crate::text::text_eq;

verus! {

/// A branch's remote tracking state.
#[derive(Debug, Clone, Copy, PartialEq, Eq, Structural)]
pub enum RemoteStatus {
    /// The remote tracking ref exists and is in sync.
    Synced,
    /// The branch has commits its remote does not.
    Ahead,
    /// The remote tracking ref is gone.
    Gone,
}

/// A commit of the range shown, newest first.
pub struct CommitInfo {
    pub oid: String,
    /// Abbreviated hash.
    pub short_id: String,
    /// First line of the commit message.
    pub message: String,
    /// The parent commit (merge commits are excluded, so there is one).
    pub parent_oid: Option<String>,
    /// Files changed in this commit.
    pub files: Vec<FileChange>,
}

/// A local branch whose tip falls within the range shown.
pub struct BranchInfo {
    pub name: String,
    pub tip_oid: String,
    /// Its remote tracking state, `None` when never pushed.
    pub remote: Option<RemoteStatus>,
}

/// The upstream tracking branch and the merge-base the range starts from.
pub struct UpstreamInfo {
    pub label: String,
    pub merge_base_oid: String,
    pub base_short_id: String,
    pub base_message: String,
    pub base_date: String,
    /// How many commits upstream is ahead of the merge-base.
    pub commits_ahead: usize,
}

/// A commit before the merge-base, shown dimmed for context.
pub struct ContextCommit {
    pub short_hash: String,
    pub message: String,
    pub date: String,
}

/// What the status graph is built from.
pub struct RepoInfo {
    pub upstream: UpstreamInfo,
    /// Non-merge commits between the merge-base and HEAD, newest first.
    pub commits: Vec<CommitInfo>,
    /// Local branches whose tip is in that range.
    pub branches: Vec<BranchInfo>,
    pub working_changes: Vec<FileChange>,
    pub context_commits: Vec<ContextCommit>,
}

/// A logical section of the status output, shown top to bottom.
pub enum Section {
    /// Working tree status (always present, may hold no change).
    WorkingChanges(Vec<FileChange>),
    /// A feature branch: its names (several when several branches share its
    /// tip), each with its remote tracking state, and the commits it owns.
    Branch { names: Vec<(String, Option<RemoteStatus>)>, commits: Vec<CommitInfo> },
    /// Commits on the integration line that belong to no feature branch.
    Loose(Vec<CommitInfo>),
    /// The upstream marker at the bottom.
    Upstream(UpstreamInfo),
    /// Commits before the base, display only.
    Context(Vec<ContextCommit>),
}

/// A section as its contents.
pub ghost enum SectionModel {
    WorkingChanges(Seq<FileChange>),
    Branch { names: Seq<(Seq<char>, Option<RemoteStatus>)>, commits: Seq<CommitInfo> },
    Loose(Seq<CommitInfo>),
    Upstream(UpstreamInfo),
    Context(Seq<ContextCommit>),
}

/// A name list as views.
pub open spec fn names_view(v: Seq<(String, Option<RemoteStatus>)>) -> Seq<
    (Seq<char>, Option<RemoteStatus>),
> {
    v.map_values(|p: (String, Option<RemoteStatus>)| (p.0@, p.1))
}

impl View for Section {
    type V = SectionModel;

    open spec fn view(&self) -> SectionModel {
        match self {
            Section::WorkingChanges(c) => SectionModel::WorkingChanges(c@),
            Section::Branch { names, commits } => SectionModel::Branch {
                names: names_view(names@),
                commits: commits@,
            },
            Section::Loose(c) => SectionModel::Loose(c@),
            Section::Upstream(u) => SectionModel::Upstream(*u),
            Section::Context(c) => SectionModel::Context(c@),
        }
    }
}

/// Some commit of the range is `o`.
pub open spec fn in_range(cs: Seq<CommitInfo>, o: Seq<char>) -> bool {
    exists|i: int| 0 <= i < cs.len() && cs[i].oid@ == o
}

pub open spec fn opt_view(o: Option<String>) -> Option<Seq<char>> {
    match o {
        Some(s) => Some(s@),
        None => None,
    }
}

/// The parent of `o` as the range records it (the last commit of that id).
pub open spec fn parent_of(cs: Seq<CommitInfo>, o: Seq<char>) -> Option<Seq<char>>
    decreases cs.len(),
{
    if cs.len() == 0 {
        None
    } else if cs.last().oid@ == o {
        opt_view(cs.last().parent_oid)
    } else {
        parent_of(cs.drop_last(), o)
    }
}

/// Every branch tip.
pub open spec fn tips(bs: Seq<BranchInfo>) -> Seq<Seq<char>> {
    bs.map_values(|b: BranchInfo| b.tip_oid@)
}

/// The commits a branch owns: from its tip along parent links, stopping at a
/// commit outside the range or at another branch's tip (a stacked branch's
/// boundary). A walk takes one step per commit of the range at most, which
/// a walk over a history respects: a longer one would go round a loop.
pub open spec fn walk(
    cs: Seq<CommitInfo>,
    ts: Seq<Seq<char>>,
    cur: Option<Seq<char>>,
    first: bool,
    fuel: nat,
) -> Seq<Seq<char>>
    decreases fuel,
{
    if fuel == 0 {
        Seq::empty()
    } else {
        match cur {
            None => Seq::empty(),
            Some(o) => if !in_range(cs, o) || (!first && ts.contains(o)) {
                Seq::empty()
            } else {
                seq![o] + walk(cs, ts, parent_of(cs, o), false, (fuel - 1) as nat)
            },
        }
    }
}

/// No branch before the `k`th has its tip: the `k`th is the first of its
/// group, and names the group's commits.
pub open spec fn first_of_tip(bs: Seq<BranchInfo>, k: int) -> bool {
    forall|j: int| 0 <= j < k ==> bs[j].tip_oid@ != bs[k].tip_oid@
}

/// The branch that owns commit `o` once the first `k` branches have walked:
/// the last of them whose walk reaches it.
pub open spec fn owner_upto(cs: Seq<CommitInfo>, bs: Seq<BranchInfo>, k: int, o: Seq<char>) -> Option<
    Seq<char>,
>
    decreases k,
{
    if k <= 0 {
        None
    } else if first_of_tip(bs, k - 1) && walk(
        cs,
        tips(bs),
        Some(bs[k - 1].tip_oid@),
        true,
        cs.len(),
    ).contains(o) {
        Some(bs[k - 1].name@)
    } else {
        owner_upto(cs, bs, k - 1, o)
    }
}

/// The branch that owns commit `o`.
pub open spec fn owner(cs: Seq<CommitInfo>, bs: Seq<BranchInfo>, o: Seq<char>) -> Option<Seq<char>> {
    owner_upto(cs, bs, bs.len() as int, o)
}

/// The loose commits, and the branch runs: consecutive commits owned by the
/// same branch, with that branch's name. Every loose commit goes to the one
/// loose list, whatever separates them.
pub open spec fn runs(cs: Seq<CommitInfo>, own: Seq<Option<Seq<char>>>) -> (Seq<CommitInfo>, Seq<
    (Seq<char>, Seq<CommitInfo>),
>)
    decreases cs.len(),
{
    if cs.len() == 0 || own.len() != cs.len() {
        (Seq::empty(), Seq::empty())
    } else {
        let (loose, secs) = runs(cs.drop_last(), own.drop_last());
        match own.last() {
            None => (loose.push(cs.last()), secs),
            Some(n) => if cs.len() >= 2 && own[cs.len() - 2] == Some(n) && secs.len() > 0 {
                (loose, secs.update(secs.len() - 1, (n, secs.last().1.push(cs.last()))))
            } else {
                (loose, secs.push((n, seq![cs.last()])))
            },
        }
    }
}

/// The owners of the commits, in order.
pub open spec fn owners(cs: Seq<CommitInfo>, bs: Seq<BranchInfo>) -> Seq<Option<Seq<char>>> {
    Seq::new(cs.len(), |i: int| owner(cs, bs, cs[i].oid@))
}

/// The names and remote states of the branches whose tip is `t`, newest
/// (last listed) first.
pub open spec fn group(bs: Seq<BranchInfo>, t: Seq<char>) -> Seq<(Seq<char>, Option<RemoteStatus>)>
    decreases bs.len(),
{
    if bs.len() == 0 {
        Seq::empty()
    } else {
        let rest = group(bs.drop_last(), t);
        if bs.last().tip_oid@ == t {
            seq![(bs.last().name@, bs.last().remote)] + rest
        } else {
            rest
        }
    }
}

/// The tip of the first branch called `n`.
pub open spec fn tip_named(bs: Seq<BranchInfo>, n: Seq<char>) -> Seq<char>
    decreases bs.len(),
{
    if bs.len() == 0 {
        Seq::empty()
    } else if bs[0].name@ == n {
        bs[0].tip_oid@
    } else {
        tip_named(bs.drop_first(), n)
    }
}

/// Some commit is owned by `n`.
pub open spec fn owns_some(cs: Seq<CommitInfo>, bs: Seq<BranchInfo>, n: Seq<char>) -> bool {
    exists|i: int| 0 <= i < cs.len() && owner(cs, bs, cs[i].oid@) == Some(n)
}

/// The branch groups that own no commit — branches at the merge-base —
/// shown as empty sections, in the order their first branch is listed.
pub open spec fn empty_groups(cs: Seq<CommitInfo>, bs: Seq<BranchInfo>, k: int) -> Seq<
    Seq<(Seq<char>, Option<RemoteStatus>)>,
>
    decreases k,
{
    if k <= 0 {
        Seq::empty()
    } else {
        let rest = empty_groups(cs, bs, k - 1);
        if first_of_tip(bs, k - 1) && !owns_some(cs, bs, bs[k - 1].name@) {
            rest.push(group(bs, bs[k - 1].tip_oid@))
        } else {
            rest
        }
    }
}

/// The sections of the status graph: the working tree; the loose commits
/// when there are any; each branch run in order, named by its group; an
/// empty section for each group owning no commit; the upstream marker; and
/// the context commits when there are any.
pub open spec fn sections_spec(info: RepoInfo) -> Seq<SectionModel> {
    let cs = info.commits@;
    let bs = info.branches@;
    let (loose, secs) = runs(cs, owners(cs, bs));
    seq![SectionModel::WorkingChanges(info.working_changes@)] + (if loose.len() > 0 {
        seq![SectionModel::Loose(loose)]
    } else {
        Seq::empty()
    }) + secs.map_values(
        |s: (Seq<char>, Seq<CommitInfo>)|
            SectionModel::Branch { names: group(bs, tip_named(bs, s.0)), commits: s.1 },
    ) + empty_groups(cs, bs, bs.len() as int).map_values(
        |g: Seq<(Seq<char>, Option<RemoteStatus>)>| SectionModel::Branch { names: g, commits: Seq::empty() },
    ) + seq![SectionModel::Upstream(info.upstream)] + (if info.context_commits@.len() > 0 {
        seq![SectionModel::Context(info.context_commits@)]
    } else {
        Seq::empty()
    })
}

} // verus!

verus! {

/// The parent recorded by the last commit of an id is [`parent_of`] it.
proof fn lemma_parent_of_last(cs: Seq<CommitInfo>, o: Seq<char>, i: int)
    requires
        0 <= i < cs.len(),
        cs[i].oid@ == o,
        forall|j: int| i < j < cs.len() ==> cs[j].oid@ != o,
    ensures
        parent_of(cs, o) == opt_view(cs[i].parent_oid),
    decreases cs.len(),
{
    if i < cs.len() - 1 {
        lemma_parent_of_last(cs.drop_last(), o, i);
    }
}

/// The last commit of id `o`, if the range has one.
pub(crate) fn last_index_of(cs: &[CommitInfo], o: &str) -> (r: Option<usize>)
    ensures
        match r {
            Some(i) => i < cs@.len() && cs@[i as int].oid@ == o@ && forall|j: int|
                i < j < cs@.len() ==> cs@[j].oid@ != o@,
            None => !in_range(cs@, o@),
        },
{
    let mut k: usize = cs.len();
    while k > 0
        invariant
            k <= cs@.len(),
            forall|j: int| k <= j < cs@.len() ==> cs@[j].oid@ != o@,
        decreases k,
    {
        k = k - 1;
        if text_eq(cs[k].oid.as_str(), o) {
            return Some(k);
        }
    }
    None
}

fn opt_clone(o: &Option<String>) -> (r: Option<String>)
    ensures
        opt_view(r) == opt_view(*o),
{
    match o {
        Some(s) => Some(s.clone()),
        None => None,
    }
}

fn tips_of(bs: &[BranchInfo]) -> (r: Vec<String>)
    ensures
        crate::text::views(r@) == tips(bs@),
{
    let mut r: Vec<String> = Vec::new();
    let mut i: usize = 0;
    while i < bs.len()
        invariant
            i <= bs@.len(),
            crate::text::views(r@) == tips(bs@).take(i as int),
        decreases bs.len() - i,
    {
        let ghost before = crate::text::views(r@);
        r.push(bs[i].tip_oid.clone());
        proof {
            assert(crate::text::views(r@) =~= before.push(bs@[i as int].tip_oid@));
            assert(tips(bs@).take(i + 1) =~= tips(bs@).take(i as int).push(bs@[i as int].tip_oid@));
        }
        i = i + 1;
    }
    proof {
        assert(tips(bs@).take(bs@.len() as int) =~= tips(bs@));
    }
    r
}

fn is_first_of_tip(bs: &[BranchInfo], k: usize) -> (r: bool)
    requires
        k < bs@.len(),
    ensures
        r == first_of_tip(bs@, k as int),
{
    let mut j: usize = 0;
    while j < k
        invariant
            j <= k < bs@.len(),
            forall|m: int| 0 <= m < j ==> bs@[m].tip_oid@ != bs@[k as int].tip_oid@,
        decreases k - j,
    {
        if text_eq(bs[j].tip_oid.as_str(), bs[k].tip_oid.as_str()) {
            return false;
        }
        j = j + 1;
    }
    true
}

/// The owners of the commits, in order: each branch, first of its tip, walks
/// down from its tip and claims what it reaches, a later walk taking a
/// commit over from an earlier one.
pub fn owners_of(cs: &[CommitInfo], bs: &[BranchInfo]) -> (own: Vec<Option<String>>)
    ensures
        own@.len() == cs@.len(),
        forall|i: int| 0 <= i < cs@.len() ==> opt_view(#[trigger] own@[i]) == owner(cs@, bs@, cs@[i].oid@),
{
    let ts = tips_of(bs);
    let mut own: Vec<Option<String>> = Vec::new();
    let mut i: usize = 0;
    while i < cs.len()
        invariant
            i <= cs@.len(),
            own@.len() == i,
            forall|m: int| 0 <= m < i ==> opt_view(#[trigger] own@[m]) == owner_upto(cs@, bs@, 0, cs@[m].oid@),
        decreases cs.len() - i,
    {
        own.push(None);
        i = i + 1;
    }
    let mut k: usize = 0;
    while k < bs.len()
        invariant
            k <= bs@.len(),
            own@.len() == cs@.len(),
            crate::text::views(ts@) == tips(bs@),
            forall|m: int| 0 <= m < cs@.len() ==> opt_view(#[trigger] own@[m]) == owner_upto(cs@, bs@, k as int, cs@[m].oid@),
        decreases bs.len() - k,
    {
        if is_first_of_tip(bs, k) {
            let name = &bs[k].name;
            let ghost full = walk(cs@, tips(bs@), Some(bs@[k as int].tip_oid@), true, cs@.len());
            let mut cur: Option<String> = Some(bs[k].tip_oid.clone());
            let mut first = true;
            let mut fuel: usize = cs.len();
            let ghost mut walked: Seq<Seq<char>> = Seq::empty();
            loop
                invariant_except_break
                    k < bs@.len(),
                    name@ == bs@[k as int].name@,
                    own@.len() == cs@.len(),
                    crate::text::views(ts@) == tips(bs@),
                    walked + walk(cs@, tips(bs@), opt_view(cur), first, fuel as nat) == full,
                    forall|m: int| 0 <= m < cs@.len() ==> opt_view(#[trigger] own@[m]) == (if walked.contains(cs@[m].oid@) {
                        Some(bs@[k as int].name@)
                    } else {
                        owner_upto(cs@, bs@, k as int, cs@[m].oid@)
                    }),
                ensures
                    own@.len() == cs@.len(),
                    crate::text::views(ts@) == tips(bs@),
                    walked == full,
                    forall|m: int| 0 <= m < cs@.len() ==> opt_view(#[trigger] own@[m]) == (if walked.contains(cs@[m].oid@) {
                        Some(bs@[k as int].name@)
                    } else {
                        owner_upto(cs@, bs@, k as int, cs@[m].oid@)
                    }),
                decreases fuel,
            {
                if fuel == 0 {
                    proof {
                        assert(walked + Seq::<Seq<char>>::empty() =~= walked);
                    }
                    break;
                }
                let o = match &cur {
                    None => {
                        proof {
                            assert(walked + Seq::<Seq<char>>::empty() =~= walked);
                        }
                        break;
                    },
                    Some(o) => o.clone(),
                };
                let last = last_index_of(cs, o.as_str());
                let idx = match last {
                    None => {
                        proof {
                            assert(walked + Seq::<Seq<char>>::empty() =~= walked);
                        }
                        break;
                    },
                    Some(idx) => idx,
                };
                proof {
                    assert(in_range(cs@, o@));
                }
                if !first && crate::text::contains_text(ts.as_slice(), &o) {
                    proof {
                        assert(walked + Seq::<Seq<char>>::empty() =~= walked);
                    }
                    break;
                }
                let mut m: usize = 0;
                while m < cs.len()
                    invariant
                        m <= cs@.len(),
                        k < bs@.len(),
                        name@ == bs@[k as int].name@,
                        own@.len() == cs@.len(),
                        forall|x: int| 0 <= x < cs@.len() ==> opt_view(#[trigger] own@[x]) == (if walked.contains(cs@[x].oid@) || (x < m && cs@[x].oid@ == o@) {
                            Some(bs@[k as int].name@)
                        } else {
                            owner_upto(cs@, bs@, k as int, cs@[x].oid@)
                        }),
                    decreases cs.len() - m,
                {
                    if text_eq(cs[m].oid.as_str(), o.as_str()) {
                        own.set(m, Some(name.clone()));
                    }
                    m = m + 1;
                }
                proof {
                    lemma_parent_of_last(cs@, o@, idx as int);
                    assert(walk(cs@, tips(bs@), opt_view(cur), first, fuel as nat) == seq![o@] + walk(
                        cs@,
                        tips(bs@),
                        parent_of(cs@, o@),
                        false,
                        (fuel - 1) as nat,
                    ));
                    assert(walked + (seq![o@] + walk(cs@, tips(bs@), parent_of(cs@, o@), false, (fuel - 1) as nat))
                        =~= walked.push(o@) + walk(cs@, tips(bs@), parent_of(cs@, o@), false, (fuel - 1) as nat));
                    assert forall|x: int| 0 <= x < cs@.len() implies opt_view(#[trigger] own@[x]) == (if walked.push(o@).contains(cs@[x].oid@) {
                        Some(bs@[k as int].name@)
                    } else {
                        owner_upto(cs@, bs@, k as int, cs@[x].oid@)
                    }) by {
                        if cs@[x].oid@ == o@ {
                            assert(walked.push(o@)[walked.len() as int] == o@);
                        }
                        if walked.push(o@).contains(cs@[x].oid@) && !walked.contains(cs@[x].oid@) && cs@[x].oid@ != o@ {
                            let w = choose|w: int| 0 <= w < walked.push(o@).len() && walked.push(o@)[w] == cs@[x].oid@;
                            if w < walked.len() {
                                assert(walked[w] == walked.push(o@)[w]);
                            }
                        }
                        if walked.contains(cs@[x].oid@) {
                            let w = choose|w: int| 0 <= w < walked.len() && walked[w] == cs@[x].oid@;
                            assert(walked.push(o@)[w] == walked[w]);
                        }
                    }
                    walked = walked.push(o@);
                }
                cur = opt_clone(&cs[idx].parent_oid);
                first = false;
                fuel = fuel - 1;
            }
            proof {
                assert forall|m: int| 0 <= m < cs@.len() implies opt_view(#[trigger] own@[m]) == owner_upto(cs@, bs@, k + 1, cs@[m].oid@) by {
                }
            }
        } else {
            proof {
                assert forall|m: int| 0 <= m < cs@.len() implies opt_view(#[trigger] own@[m]) == owner_upto(cs@, bs@, k + 1, cs@[m].oid@) by {
                }
            }
        }
        k = k + 1;
    }
    own
}

} // verus!

verus! {

/// The runs of a list, each name and commits as views.
pub open spec fn run_views(v: Seq<(String, Vec<CommitInfo>)>) -> Seq<(Seq<char>, Seq<CommitInfo>)> {
    v.map_values(|r: (String, Vec<CommitInfo>)| (r.0@, r.1@))
}

/// The owners as views.
pub open spec fn owner_views(v: Seq<Option<String>>) -> Seq<Option<Seq<char>>> {
    v.map_values(|o: Option<String>| opt_view(o))
}

fn group_of(bs: &[BranchInfo], t: &str) -> (r: Vec<(String, Option<RemoteStatus>)>)
    ensures
        names_view(r@) == group(bs@, t@),
{
    let mut r: Vec<(String, Option<RemoteStatus>)> = Vec::new();
    let mut i: usize = 0;
    while i < bs.len()
        invariant
            i <= bs@.len(),
            names_view(r@) == group(bs@.take(i as int), t@),
        decreases bs.len() - i,
    {
        proof {
            assert(bs@.take(i + 1).drop_last() =~= bs@.take(i as int));
        }
        if text_eq(bs[i].tip_oid.as_str(), t) {
            let ghost before = names_view(r@);
            r.insert(0, (bs[i].name.clone(), bs[i].remote));
            proof {
                assert(names_view(r@) =~= seq![(bs@[i as int].name@, bs@[i as int].remote)] + before);
            }
        }
        i = i + 1;
    }
    proof {
        assert(bs@.take(bs@.len() as int) =~= bs@);
    }
    r
}

fn tip_named_of(bs: &[BranchInfo], n: &str) -> (r: String)
    ensures
        r@ == tip_named(bs@, n@),
{
    let mut i: usize = 0;
    proof {
        assert(bs@.skip(0) =~= bs@);
    }
    while i < bs.len()
        invariant
            i <= bs@.len(),
            tip_named(bs@, n@) == tip_named(bs@.skip(i as int), n@),
        decreases bs.len() - i,
    {
        proof {
            assert(bs@.skip(i as int)[0] == bs@[i as int]);
            assert(bs@.skip(i as int).drop_first() =~= bs@.skip(i + 1));
        }
        if text_eq(bs[i].name.as_str(), n) {
            return bs[i].tip_oid.clone();
        }
        i = i + 1;
    }
    proof {
        assert(bs@.skip(bs@.len() as int).len() == 0);
    }
    String::new()
}

/// The empty sections: see [`empty_groups`]. `own` are the commits' owners.
fn empty_group_names(cs: &[CommitInfo], bs: &[BranchInfo], own: &[Option<String>]) -> (r: Vec<
    Vec<(String, Option<RemoteStatus>)>,
>)
    requires
        own@.len() == cs@.len(),
        forall|i: int| 0 <= i < cs@.len() ==> opt_view(#[trigger] own@[i]) == owner(cs@, bs@, cs@[i].oid@),
    ensures
        r@.map_values(|g: Vec<(String, Option<RemoteStatus>)>| names_view(g@)) == empty_groups(
            cs@,
            bs@,
            bs@.len() as int,
        ),
{
    let mut r: Vec<Vec<(String, Option<RemoteStatus>)>> = Vec::new();
    let mut k: usize = 0;
    while k < bs.len()
        invariant
            k <= bs@.len(),
            own@.len() == cs@.len(),
            forall|i: int| 0 <= i < cs@.len() ==> opt_view(#[trigger] own@[i]) == owner(cs@, bs@, cs@[i].oid@),
            r@.map_values(|g: Vec<(String, Option<RemoteStatus>)>| names_view(g@)) == empty_groups(cs@, bs@, k as int),
        decreases bs.len() - k,
    {
        let mut owned = false;
        let mut i: usize = 0;
        while i < own.len()
            invariant
                i <= own@.len(),
                k < bs@.len(),
                own@.len() == cs@.len(),
                forall|x: int| 0 <= x < cs@.len() ==> opt_view(#[trigger] own@[x]) == owner(cs@, bs@, cs@[x].oid@),
                owned == exists|x: int| 0 <= x < i && owner(cs@, bs@, cs@[x].oid@) == Some(bs@[k as int].name@),
            decreases own.len() - i,
        {
            match &own[i] {
                Some(n) => {
                    if text_eq(n.as_str(), bs[k].name.as_str()) {
                        proof {
                            assert(opt_view(own@[i as int]) == Some(bs@[k as int].name@));
                        }
                        owned = true;
                    }
                },
                None => {},
            }
            proof {
                if !owned {
                    assert forall|x: int| 0 <= x < i + 1 implies owner(cs@, bs@, cs@[x].oid@) != Some(bs@[k as int].name@) by {
                        if x == i {
                            assert(opt_view(own@[x]) == owner(cs@, bs@, cs@[x].oid@));
                        }
                    }
                }
            }
            i = i + 1;
        }
        if is_first_of_tip(bs, k) && !owned {
            let g = group_of(bs, bs[k].tip_oid.as_str());
            let ghost before = r@.map_values(|g: Vec<(String, Option<RemoteStatus>)>| names_view(g@));
            r.push(g);
            proof {
                assert(r@.map_values(|g: Vec<(String, Option<RemoteStatus>)>| names_view(g@)) =~= before.push(
                    group(bs@, bs@[k as int].tip_oid@),
                ));
            }
        }
        k = k + 1;
    }
    r
}

} // verus!

verus! {

/// The runs as [`runs`] has them: `cur` is the run being grown, after the
/// flushed ones.
pub open spec fn all_runs(flushed: Seq<(String, Vec<CommitInfo>)>, cur: Option<(String, Vec<CommitInfo>)>) -> Seq<
    (Seq<char>, Seq<CommitInfo>),
> {
    match cur {
        Some(r) => run_views(flushed).push((r.0@, r.1@)),
        None => run_views(flushed),
    }
}

/// Group the commits, newest first, into the loose ones and the branch
/// runs; see [`runs`].
fn split_runs(commits: Vec<CommitInfo>, own: &[Option<String>]) -> (r: (
    Vec<CommitInfo>,
    Vec<(String, Vec<CommitInfo>)>,
))
    requires
        own@.len() == commits@.len(),
    ensures
        (r.0@, run_views(r.1@)) == runs(commits@, owner_views(own@)),
{
    let ghost cs = commits@;
    let ghost ov = owner_views(own@);
    let n = commits.len();
    let mut pending = commits;
    let mut rev: Vec<CommitInfo> = Vec::new();
    while pending.len() > 0
        invariant
            n == cs.len(),
            pending@ == cs.take(pending@.len() as int),
            rev@.len() + pending@.len() == n,
            forall|j: int| 0 <= j < rev@.len() ==> rev@[j] == cs[n - 1 - j],
        decreases pending@.len(),
    {
        let c = pending.pop().unwrap();
        proof {
            assert(c == cs[pending@.len() as int]);
            assert(pending@ =~= cs.take(pending@.len() as int));
        }
        rev.push(c);
    }
    let mut loose: Vec<CommitInfo> = Vec::new();
    let mut flushed: Vec<(String, Vec<CommitInfo>)> = Vec::new();
    let mut cur: Option<(String, Vec<CommitInfo>)> = None;
    let mut i: usize = 0;
    proof {
        assert(cs.take(0) =~= Seq::<CommitInfo>::empty());
        assert(ov.take(0) =~= Seq::<Option<Seq<char>>>::empty());
    }
    while i < n
        invariant
            n == cs.len(),
            ov == owner_views(own@),
            own@.len() == n,
            i <= n,
            rev@.len() == n - i,
            forall|j: int| 0 <= j < rev@.len() ==> rev@[j] == cs[n - 1 - j],
            (loose@, all_runs(flushed@, cur)) == runs(cs.take(i as int), ov.take(i as int)),
            (i > 0 && ov[i - 1] is Some) ==> (cur matches Some(r) && Some(r.0@) == ov[i - 1]),
            (i == 0 || ov[i - 1] is None) ==> cur is None,
        decreases n - i,
    {
        let c = rev.pop().unwrap();
        proof {
            assert(c == cs[i as int]);
            assert(cs.take(i + 1).drop_last() =~= cs.take(i as int));
            assert(ov.take(i + 1).drop_last() =~= ov.take(i as int));
            assert(cs.take(i + 1).last() == cs[i as int]);
            assert(ov.take(i + 1).last() == ov[i as int]);
            assert(ov[i as int] == opt_view(own@[i as int]));
            if i > 0 {
                assert(ov.take(i + 1)[i - 1] == ov[i - 1]);
            }
        }
        let ghost before_runs = all_runs(flushed@, cur);
        match &own[i] {
            None => {
                match cur {
                    Some(r) => {
                        flushed.push(r);
                    },
                    None => {},
                }
                cur = None;
                loose.push(c);
                proof {
                    assert(run_views(flushed@) =~= before_runs);
                }
            },
            Some(name) => {
                let continues = match &cur {
                    Some(r) => text_eq(r.0.as_str(), name.as_str()),
                    None => false,
                };
                if continues {
                    let mut r = cur.unwrap();
                    r.1.push(c);
                    proof {
                        assert(run_views(flushed@).push((r.0@, r.1@)) =~= before_runs.update(
                            before_runs.len() - 1,
                            (name@, before_runs.last().1.push(c)),
                        ));
                    }
                    cur = Some(r);
                } else {
                    match cur {
                        Some(r) => {
                            flushed.push(r);
                        },
                        None => {},
                    }
                    let mut v: Vec<CommitInfo> = Vec::new();
                    v.push(c);
                    proof {
                        assert(run_views(flushed@) =~= before_runs);
                        assert(v@ =~= seq![c]);
                    }
                    cur = Some((name.clone(), v));
                }
            },
        }
        i = i + 1;
    }
    match cur {
        Some(r) => {
            flushed.push(r);
        },
        None => {},
    }
    proof {
        assert(cs.take(n as int) =~= cs);
        assert(ov.take(n as int) =~= ov);
    }
    (loose, flushed)
}

} // verus!

verus! {

/// The sections as their contents.
pub open spec fn section_views(v: Seq<Section>) -> Seq<SectionModel> {
    v.map_values(|s: Section| s@)
}

/// Group commits into sections: working changes, loose commits, feature
/// branches, and the upstream marker ([`sections_spec`]). A commit belongs to
/// a branch when it follows the branch's tip down the range.
pub fn build_sections(info: RepoInfo) -> (r: Vec<Section>)
    ensures
        section_views(r@) == sections_spec(info),
{
    let ghost original = info;
    let RepoInfo { upstream, commits, branches, working_changes, context_commits } = info;
    let own = owners_of(commits.as_slice(), branches.as_slice());
    let empties = empty_group_names(commits.as_slice(), branches.as_slice(), own.as_slice());
    proof {
        assert(owner_views(own@) =~= owners(commits@, branches@));
    }
    let (loose, runs_found) = split_runs(commits, own.as_slice());
    let ghost bs = branches@;
    let ghost cs = original.commits@;
    let ghost rs = runs(cs, owners(cs, bs));
    let mut out: Vec<Section> = Vec::new();
    out.push(Section::WorkingChanges(working_changes));
    let has_loose = loose.len() > 0;
    if has_loose {
        out.push(Section::Loose(loose));
    }
    let ghost head = section_views(out@);
    proof {
        assert(head =~= seq![SectionModel::WorkingChanges(original.working_changes@)] + (if rs.0.len() > 0 {
            seq![SectionModel::Loose(rs.0)]
        } else {
            Seq::empty()
        }));
    }
    let ghost branch_model = rs.1.map_values(
        |s: (Seq<char>, Seq<CommitInfo>)|
            SectionModel::Branch { names: group(bs, tip_named(bs, s.0)), commits: s.1 },
    );
    let mut pending = runs_found;
    let mut back: Vec<(String, Vec<CommitInfo>)> = Vec::new();
    let total: usize = pending.len();
    while pending.len() > 0
        invariant
            run_views(pending@) == rs.1.take(pending@.len() as int),
            back@.len() + pending@.len() == total,
            total == rs.1.len(),
            forall|j: int| 0 <= j < back@.len() ==> (back@[j].0@, back@[j].1@) == rs.1[total - 1 - j],
        decreases pending@.len(),
    {
        let r = pending.pop().unwrap();
        proof {
            assert(run_views(pending@.push(r)) == rs.1.take((pending@.len() + 1) as int));
            assert(rs.1.take((pending@.len() + 1) as int)[pending@.len() as int] == (r.0@, r.1@));
            assert(run_views(pending@) =~= rs.1.take(pending@.len() as int));
        }
        back.push(r);
    }
    let mut k: usize = 0;
    while k < total
        invariant
            total == rs.1.len(),
            back@.len() == total - k,
            k <= total,
            forall|j: int| 0 <= j < back@.len() ==> (back@[j].0@, back@[j].1@) == rs.1[total - 1 - j],
            bs == branches@,
            section_views(out@) == head + branch_model.take(k as int),
            branch_model.len() == total,
            forall|j: int| 0 <= j < total ==> #[trigger] branch_model[j] == (SectionModel::Branch { names: group(bs, tip_named(bs, rs.1[j].0)), commits: rs.1[j].1 }),
        decreases total - k,
    {
        let (name, run) = back.pop().unwrap();
        let tip = tip_named_of(branches.as_slice(), name.as_str());
        let names = group_of(branches.as_slice(), tip.as_str());
        let ghost before = section_views(out@);
        out.push(Section::Branch { names, commits: run });
        proof {
            assert(section_views(out@) =~= before.push(branch_model[k as int]));
            assert(branch_model.take(k + 1) =~= branch_model.take(k as int).push(branch_model[k as int]));
        }
        k = k + 1;
    }
    proof {
        assert(branch_model.take(total as int) =~= branch_model);
    }
    let ghost eg = empty_groups(cs, bs, bs.len() as int);
    let ghost empty_model = eg.map_values(
        |g: Seq<(Seq<char>, Option<RemoteStatus>)>| SectionModel::Branch { names: g, commits: Seq::empty() },
    );
    let mut pend_e = empties;
    let mut back_e: Vec<Vec<(String, Option<RemoteStatus>)>> = Vec::new();
    let te: usize = pend_e.len();
    proof {
        assert(pend_e@.map_values(|g: Vec<(String, Option<RemoteStatus>)>| names_view(g@)).len() == pend_e@.len());
    }
    while pend_e.len() > 0
        invariant
            pend_e@.map_values(|g: Vec<(String, Option<RemoteStatus>)>| names_view(g@)) == eg.take(pend_e@.len() as int),
            back_e@.len() + pend_e@.len() == te,
            te == eg.len(),
            forall|j: int| 0 <= j < back_e@.len() ==> names_view(back_e@[j]@) == eg[te - 1 - j],
        decreases pend_e@.len(),
    {
        let g = pend_e.pop().unwrap();
        proof {
            assert(pend_e@.push(g).map_values(|g: Vec<(String, Option<RemoteStatus>)>| names_view(g@)) == eg.take((pend_e@.len() + 1) as int));
            assert(eg.take((pend_e@.len() + 1) as int)[pend_e@.len() as int] == names_view(g@));
            assert(pend_e@.map_values(|g: Vec<(String, Option<RemoteStatus>)>| names_view(g@)) =~= eg.take(pend_e@.len() as int));
        }
        back_e.push(g);
    }
    let mut e: usize = 0;
    while e < te
        invariant
            te == eg.len(),
            back_e@.len() == te - e,
            e <= te,
            forall|j: int| 0 <= j < back_e@.len() ==> names_view(back_e@[j]@) == eg[te - 1 - j],
            empty_model.len() == te,
            forall|j: int| 0 <= j < te ==> #[trigger] empty_model[j] == (SectionModel::Branch { names: eg[j], commits: Seq::empty() }),
            section_views(out@) == head + branch_model + empty_model.take(e as int),
        decreases te - e,
    {
        let names = back_e.pop().unwrap();
        let ghost before = section_views(out@);
        let none: Vec<CommitInfo> = Vec::new();
        out.push(Section::Branch { names, commits: none });
        proof {
            assert(none@ =~= Seq::<CommitInfo>::empty());
            assert(section_views(out@) =~= before.push(empty_model[e as int]));
            assert(empty_model.take(e + 1) =~= empty_model.take(e as int).push(empty_model[e as int]));
        }
        e = e + 1;
    }
    proof {
        assert(empty_model.take(te as int) =~= empty_model);
    }
    let ghost before_tail = section_views(out@);
    out.push(Section::Upstream(upstream));
    let has_context = context_commits.len() > 0;
    if has_context {
        out.push(Section::Context(context_commits));
    }
    proof {
        assert(section_views(out@) =~= sections_spec(original));
    }
    out
}

} // verus!

verus! {

/// Two branch sections are stacked when the first commit of the next one is
/// the parent of the last commit of this one.
pub open spec fn stacked(v: Seq<SectionModel>, idx: int) -> bool {
    0 <= idx && idx + 1 < v.len() && (v[idx] matches SectionModel::Branch { commits: mine, .. }
        && v[idx + 1] matches SectionModel::Branch { commits: next, .. } && mine.len() > 0
        && next.len() > 0 && opt_view(mine.last().parent_oid) == Some(next[0].oid@))
}

/// See [`stacked`]: stacked branches are drawn connected, independent ones
/// apart.
pub fn is_stacked_with_next(sections: &[Section], idx: usize) -> (r: bool)
    ensures
        r == stacked(section_views(sections@), idx as int),
{
    if idx >= sections.len() || idx + 1 >= sections.len() {
        return false;
    }
    let mine = match &sections[idx] {
        Section::Branch { commits, .. } => commits,
        _ => return false,
    };
    let next = match &sections[idx + 1] {
        Section::Branch { commits, .. } => commits,
        _ => return false,
    };
    if mine.len() == 0 || next.len() == 0 {
        return false;
    }
    let last = &mine[mine.len() - 1];
    match &last.parent_oid {
        Some(p) => text_eq(p.as_str(), next[0].oid.as_str()),
        None => false,
    }
}

} // verus!

verus! {

/// The commits of the branch runs, run after run.
pub open spec fn run_commits(secs: Seq<(Seq<char>, Seq<CommitInfo>)>) -> Seq<CommitInfo>
    decreases secs.len(),
{
    if secs.len() == 0 {
        Seq::empty()
    } else {
        run_commits(secs.drop_last()) + secs.last().1
    }
}

proof fn lemma_runs_partition(cs: Seq<CommitInfo>, own: Seq<Option<Seq<char>>>)
    requires
        own.len() == cs.len(),
    ensures
        (runs(cs, own).0 + run_commits(runs(cs, own).1)).to_multiset() =~= cs.to_multiset(),
    decreases cs.len(),
{
    broadcast use vstd::seq_lib::group_to_multiset_ensures;

    if cs.len() > 0 {
        let d = cs.drop_last();
        let c = cs.last();
        lemma_runs_partition(d, own.drop_last());
        let (l0, s0) = runs(d, own.drop_last());
        let (l, s) = runs(cs, own);
        vstd::seq_lib::lemma_multiset_commutative(l0, run_commits(s0));
        vstd::seq_lib::lemma_multiset_commutative(l, run_commits(s));
        assert(cs =~= d.push(c));
        match own.last() {
            None => {
                assert(l == l0.push(c));
                assert(s == s0);
            },
            Some(n) => {
                assert(l == l0);
                if cs.len() >= 2 && own[cs.len() - 2] == Some(n) && s0.len() > 0 {
                    let k = s0.len() - 1;
                    assert(s == s0.update(k, (n, s0.last().1.push(c))));
                    assert(s.drop_last() =~= s0.drop_last());
                    assert(run_commits(s) =~= run_commits(s0).push(c));
                } else {
                    assert(s == s0.push((n, seq![c])));
                    assert(s.drop_last() =~= s0);
                    assert(run_commits(s) =~= run_commits(s0).push(c));
                }
            },
        }
    }
}

/// The commits the sections show, top to bottom.
pub open spec fn shown_commits(v: Seq<SectionModel>) -> Seq<CommitInfo>
    decreases v.len(),
{
    if v.len() == 0 {
        Seq::empty()
    } else {
        shown_commits(v.drop_last()) + match v.last() {
            SectionModel::Loose(c) => c,
            SectionModel::Branch { commits, .. } => commits,
            _ => Seq::empty(),
        }
    }
}

proof fn lemma_shown_add(a: Seq<SectionModel>, b: Seq<SectionModel>)
    ensures
        shown_commits(a + b) =~= shown_commits(a) + shown_commits(b),
    decreases b.len(),
{
    if b.len() > 0 {
        lemma_shown_add(a, b.drop_last());
        assert((a + b).drop_last() =~= a + b.drop_last());
    }
}

proof fn lemma_shown_runs(bs: Seq<BranchInfo>, secs: Seq<(Seq<char>, Seq<CommitInfo>)>)
    ensures
        shown_commits(
            secs.map_values(
                |s: (Seq<char>, Seq<CommitInfo>)|
                    SectionModel::Branch { names: group(bs, tip_named(bs, s.0)), commits: s.1 },
            ),
        ) =~= run_commits(secs),
    decreases secs.len(),
{
    let f = |s: (Seq<char>, Seq<CommitInfo>)|
        SectionModel::Branch { names: group(bs, tip_named(bs, s.0)), commits: s.1 };
    if secs.len() > 0 {
        lemma_shown_runs(bs, secs.drop_last());
        assert(secs.map_values(f).drop_last() =~= secs.drop_last().map_values(f));
    }
}

proof fn lemma_shown_empties(gs: Seq<Seq<(Seq<char>, Option<RemoteStatus>)>>)
    ensures
        shown_commits(
            gs.map_values(
                |g: Seq<(Seq<char>, Option<RemoteStatus>)>| SectionModel::Branch { names: g, commits: Seq::empty() },
            ),
        ) =~= Seq::<CommitInfo>::empty(),
    decreases gs.len(),
{
    let f = |g: Seq<(Seq<char>, Option<RemoteStatus>)>| SectionModel::Branch { names: g, commits: Seq::empty() };
    if gs.len() > 0 {
        lemma_shown_empties(gs.drop_last());
        assert(gs.map_values(f).drop_last() =~= gs.drop_last().map_values(f));
    }
}

/// Every commit of the range is shown exactly once: the loose section and
/// the branch sections [`build_sections`] returns hold, together, the
/// range's commits — no more, no fewer, each as often as the range lists it.
pub proof fn every_commit_shown_once(info: RepoInfo)
    ensures
        shown_commits(sections_spec(info)).to_multiset() =~= info.commits@.to_multiset(),
{
    let cs = info.commits@;
    let bs = info.branches@;
    let (loose, secs) = runs(cs, owners(cs, bs));
    lemma_runs_partition(cs, owners(cs, bs));
    let head = seq![SectionModel::WorkingChanges(info.working_changes@)];
    let lp = if loose.len() > 0 {
        seq![SectionModel::Loose(loose)]
    } else {
        Seq::empty()
    };
    let bm = secs.map_values(
        |s: (Seq<char>, Seq<CommitInfo>)|
            SectionModel::Branch { names: group(bs, tip_named(bs, s.0)), commits: s.1 },
    );
    let em = empty_groups(cs, bs, bs.len() as int).map_values(
        |g: Seq<(Seq<char>, Option<RemoteStatus>)>| SectionModel::Branch { names: g, commits: Seq::empty() },
    );
    let up = seq![SectionModel::Upstream(info.upstream)];
    let ctx = if info.context_commits@.len() > 0 {
        seq![SectionModel::Context(info.context_commits@)]
    } else {
        Seq::empty()
    };
    assert(sections_spec(info) == head + lp + bm + em + up + ctx);
    lemma_shown_add(head + lp + bm + em + up, ctx);
    lemma_shown_add(head + lp + bm + em, up);
    lemma_shown_add(head + lp + bm, em);
    lemma_shown_add(head + lp, bm);
    lemma_shown_add(head, lp);
    lemma_shown_runs(bs, secs);
    lemma_shown_empties(empty_groups(cs, bs, bs.len() as int));
    assert(shown_commits(Seq::<SectionModel>::empty()) =~= Seq::<CommitInfo>::empty());
    assert(shown_commits(head) =~= Seq::<CommitInfo>::empty()) by {
        assert(head.drop_last() =~= Seq::<SectionModel>::empty());
        assert(head.last() == SectionModel::WorkingChanges(info.working_changes@));
    }
    assert(shown_commits(up) =~= Seq::<CommitInfo>::empty()) by {
        assert(up.drop_last() =~= Seq::<SectionModel>::empty());
        assert(up.last() == SectionModel::Upstream(info.upstream));
    }
    assert(shown_commits(ctx) =~= Seq::<CommitInfo>::empty()) by {
        if ctx.len() > 0 {
            assert(ctx.drop_last() =~= Seq::<SectionModel>::empty());
        }
    }
    assert(shown_commits(lp) =~= loose) by {
        if lp.len() > 0 {
            assert(lp.drop_last() =~= Seq::<SectionModel>::empty());
        }
    }
    assert(shown_commits(sections_spec(info)) =~= loose + run_commits(secs));
}


proof fn lemma_walk_past_start_avoids_tips(cs: Seq<CommitInfo>, ts: Seq<Seq<char>>, cur: Option<Seq<char>>, fuel: nat, x: Seq<char>)
    requires
        walk(cs, ts, cur, false, fuel).contains(x),
    ensures
        !ts.contains(x),
    decreases fuel,
{
    if fuel > 0 {
        if let Some(o) = cur {
            if in_range(cs, o) && !ts.contains(o) {
                let rest = walk(cs, ts, parent_of(cs, o), false, (fuel - 1) as nat);
                let all = seq![o] + rest;
                let k = choose|k: int| 0 <= k < all.len() && all[k] == x;
                if k > 0 {
                    assert(rest[k - 1] == x);
                    lemma_walk_past_start_avoids_tips(cs, ts, parent_of(cs, o), (fuel - 1) as nat, x);
                }
            }
        }
    }
}

proof fn lemma_walk_meets_tips_only_at_start(cs: Seq<CommitInfo>, ts: Seq<Seq<char>>, t: Seq<char>, fuel: nat, x: Seq<char>)
    requires
        walk(cs, ts, Some(t), true, fuel).contains(x),
        ts.contains(x),
    ensures
        x == t,
{
    if fuel > 0 && in_range(cs, t) {
        let rest = walk(cs, ts, parent_of(cs, t), false, (fuel - 1) as nat);
        let all = seq![t] + rest;
        assert(walk(cs, ts, Some(t), true, fuel) == all);
        let k = choose|k: int| 0 <= k < all.len() && all[k] == x;
        if k > 0 {
            assert(rest[k - 1] == x);
            lemma_walk_past_start_avoids_tips(cs, ts, parent_of(cs, t), (fuel - 1) as nat, x);
        }
    }
}

proof fn lemma_owner_upto_claimed(cs: Seq<CommitInfo>, bs: Seq<BranchInfo>, k: int, o: Seq<char>)
    requires
        0 <= k <= bs.len(),
    ensures
        owner_upto(cs, bs, k, o) matches Some(n) ==> exists|j: int| 0 <= j < k && bs[j].name@ == n && walk(
            cs,
            tips(bs),
            Some(bs[j].tip_oid@),
            true,
            cs.len(),
        ).contains(o),
    decreases k,
{
    if k > 0 {
        lemma_owner_upto_claimed(cs, bs, k - 1, o);
    }
}

proof fn lemma_owner_upto_some(cs: Seq<CommitInfo>, bs: Seq<BranchInfo>, k: int, j: int, o: Seq<char>)
    requires
        0 <= j < k <= bs.len(),
        first_of_tip(bs, j),
        walk(cs, tips(bs), Some(bs[j].tip_oid@), true, cs.len()).contains(o),
    ensures
        owner_upto(cs, bs, k, o) is Some,
    decreases k,
{
    if k - 1 != j {
        if !(first_of_tip(bs, k - 1) && walk(cs, tips(bs), Some(bs[k - 1].tip_oid@), true, cs.len()).contains(o)) {
            lemma_owner_upto_some(cs, bs, k - 1, j, o);
        }
    }
}

proof fn lemma_first_of_its_tip(bs: Seq<BranchInfo>, k: int)
    requires
        0 <= k < bs.len(),
    ensures
        exists|j: int| 0 <= j <= k && bs[j].tip_oid@ == bs[k].tip_oid@ && first_of_tip(bs, j),
    decreases k,
{
    if !first_of_tip(bs, k) {
        let j = choose|j: int| 0 <= j < k && bs[j].tip_oid@ == bs[k].tip_oid@;
        lemma_first_of_its_tip(bs, j);
    }
}

/// A branch whose tip is in the range shown has that commit owned by a
/// branch at the same tip: no branch claims another branch's tip, so a
/// branch stacked on another stops where the other one starts, whatever
/// order the branches are listed in.
pub proof fn a_branch_tip_is_owned_at_that_tip(cs: Seq<CommitInfo>, bs: Seq<BranchInfo>, k: int)
    requires
        0 <= k < bs.len(),
        in_range(cs, bs[k].tip_oid@),
    ensures
        exists|j: int| 0 <= j < bs.len() && bs[j].tip_oid@ == bs[k].tip_oid@ && owner(cs, bs, bs[k].tip_oid@) == Some(
            bs[j].name@,
        ),
{
    let t = bs[k].tip_oid@;
    let ts = tips(bs);
    lemma_first_of_its_tip(bs, k);
    let j0 = choose|j: int| 0 <= j <= k && bs[j].tip_oid@ == t && first_of_tip(bs, j);
    let i0 = choose|i: int| 0 <= i < cs.len() && cs[i].oid@ == t;
    assert(cs.len() > 0);
    let full = walk(cs, ts, Some(t), true, cs.len());
    assert(full == seq![t] + walk(cs, ts, parent_of(cs, t), false, (cs.len() - 1) as nat));
    assert(full[0] == t);
    assert(full.contains(t));
    lemma_owner_upto_some(cs, bs, bs.len() as int, j0, t);
    lemma_owner_upto_claimed(cs, bs, bs.len() as int, t);
    let n = owner(cs, bs, t)->0;
    let j = choose|j: int| 0 <= j < bs.len() && bs[j].name@ == n && walk(cs, ts, Some(bs[j].tip_oid@), true, cs.len()).contains(t);
    assert(ts[k] == t);
    assert(ts.contains(t));
    lemma_walk_meets_tips_only_at_start(cs, ts, bs[j].tip_oid@, cs.len(), t);
}

proof fn lemma_walk_is_a_path(cs: Seq<CommitInfo>, ts: Seq<Seq<char>>, cur: Option<Seq<char>>, first: bool, fuel: nat)
    ensures
        ({
            let w = walk(cs, ts, cur, first, fuel);
            &&& w.len() > 0 ==> cur == Some(w[0])
            &&& forall|q: int| 0 <= q < w.len() ==> in_range(cs, #[trigger] w[q])
            &&& forall|q: int| 0 < q < w.len() ==> parent_of(cs, w[q - 1]) == Some(#[trigger] w[q]) && !ts.contains(w[q])
            &&& !first ==> forall|q: int| 0 <= q < w.len() ==> !ts.contains(#[trigger] w[q])
        }),
    decreases fuel,
{
    if fuel > 0 {
        if let Some(o) = cur {
            if in_range(cs, o) && !(!first && ts.contains(o)) {
                let rest = walk(cs, ts, parent_of(cs, o), false, (fuel - 1) as nat);
                lemma_walk_is_a_path(cs, ts, parent_of(cs, o), false, (fuel - 1) as nat);
                let w = seq![o] + rest;
                assert(walk(cs, ts, cur, first, fuel) == w);
                assert forall|q: int| 0 <= q < w.len() implies in_range(cs, #[trigger] w[q]) by {
                    if q > 0 {
                        assert(w[q] == rest[q - 1]);
                    }
                }
                assert forall|q: int| 0 < q < w.len() implies parent_of(cs, w[q - 1]) == Some(#[trigger] w[q]) && !ts.contains(
                    w[q],
                ) by {
                    assert(w[q] == rest[q - 1]);
                    if q > 1 {
                        assert(w[q - 1] == rest[q - 2]);
                    }
                }
                assert forall|q: int| !first && 0 <= q < w.len() implies !ts.contains(#[trigger] w[q]) by {
                    if q > 0 {
                        assert(w[q] == rest[q - 1]);
                    }
                }
            }
        }
    }
}

/// A commit a branch owns is reached from that branch's tip along parent
/// links inside the range without passing any branch's tip on the way:
/// another branch's tip is where a stacked branch's commits stop.
pub proof fn an_owned_commit_is_reached_without_crossing_a_tip(cs: Seq<CommitInfo>, bs: Seq<BranchInfo>, c: Seq<char>)
    requires
        owner(cs, bs, c) is Some,
    ensures
        exists|j: int, path: Seq<Seq<char>>|
            #![trigger bs[j], path.len()]
            0 <= j < bs.len() && owner(cs, bs, c) == Some(bs[j].name@) && path.len() > 0 && path[0] == bs[j].tip_oid@
                && path.last() == c && (forall|q: int| 0 <= q < path.len() ==> in_range(cs, #[trigger] path[q])) && (forall|q: int|
                0 < q < path.len() ==> parent_of(cs, path[q - 1]) == Some(#[trigger] path[q]) && !tips(bs).contains(path[q])),
{
    lemma_owner_upto_claimed(cs, bs, bs.len() as int, c);
    let n = owner(cs, bs, c)->0;
    let ts = tips(bs);
    let j = choose|j: int| 0 <= j < bs.len() && bs[j].name@ == n && walk(cs, ts, Some(bs[j].tip_oid@), true, cs.len()).contains(c);
    let w = walk(cs, ts, Some(bs[j].tip_oid@), true, cs.len());
    lemma_walk_is_a_path(cs, ts, Some(bs[j].tip_oid@), true, cs.len());
    let q0 = choose|q: int| 0 <= q < w.len() && w[q] == c;
    let path = w.take(q0 + 1);
    assert(path[0] == w[0]);
    assert(path.last() == w[q0]);
    assert forall|q: int| 0 <= q < path.len() implies in_range(cs, #[trigger] path[q]) by {
        assert(path[q] == w[q]);
    }
    assert forall|q: int| 0 < q < path.len() implies parent_of(cs, path[q - 1]) == Some(#[trigger] path[q]) && !tips(bs).contains(
        path[q],
    ) by {
        assert(path[q] == w[q] && path[q - 1] == w[q - 1]);
    }
    assert(0 <= j < bs.len() && owner(cs, bs, c) == Some(bs[j].name@) && path.len() > 0 && path[0] == bs[j].tip_oid@
        && path.last() == c);
}
} // verus!
