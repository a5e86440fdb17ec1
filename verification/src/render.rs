//! The status graph as lines of styled text: each section drawn with its
//! box-drawing connectors, short IDs and file statuses. Which color each
//! style gets is the caller's: a dark or a light palette.
use vstd::prelude::*;

use crate::graph::{section_views, stacked, BranchInfo, CommitInfo, ContextCommit, RemoteStatus, Section, SectionModel, UpstreamInfo};
use crate::repo::FileChange;
use crate::text::{byte_len, chars_of, decimal, decimal_text, owned, push_str, string_of_range, text_eq, utf8_width};

verus! {

/// The role a piece of text plays; the palette gives each its color.
#[derive(Debug, Clone, Copy, PartialEq, Eq, Structural)]
pub enum Style {
    /// No color.
    Plain,
    /// Lines, connectors, dots on the integration line.
    Graph,
    /// A branch name (local or remote), shown bold.
    Branch,
    /// Labels such as `(upstream)` and `(common base)`.
    Label,
    /// Dimmed secondary text.
    Dim,
    /// Commit message text.
    Message,
    /// A short ID, shown underlined.
    ShortId,
    /// The staged (index) status letter.
    Staged,
    /// The unstaged (worktree) status letter.
    Unstaged,
    /// The untracked marker.
    Untracked,
    RemoteSynced,
    RemoteAhead,
    RemoteGone,
    /// The dots of the `n`th feature branch shown, the colors rotating
    /// through the palette's dot colors.
    Dot(usize),
}

/// The short IDs the allocator handed out: the working tree's, and each
/// branch's, commit's and file's, by name, hash and path.
pub struct ShortIds {
    pub unstaged: String,
    pub branches: Vec<(String, String)>,
    pub commits: Vec<(String, String)>,
    pub files: Vec<(String, String)>,
}

/// How the status is drawn.
pub struct RenderOpts {
    /// The terminal's width in columns; `None` when output is not a terminal.
    pub terminal_width: Option<u16>,
}

/// The ID of `key` in `table`: that of its first entry, empty when it has none.
pub open spec fn lookup(table: Seq<(String, String)>, key: Seq<char>) -> Seq<char>
    decreases table.len(),
{
    if table.len() == 0 {
        Seq::empty()
    } else if table[0].0@ == key {
        table[0].1@
    } else {
        lookup(table.drop_first(), key)
    }
}

pub fn lookup_id(table: &[(String, String)], key: &str) -> (r: String)
    ensures
        r@ == lookup(table@, key@),
{
    let mut i: usize = 0;
    proof {
        assert(table@.skip(0) =~= table@);
    }
    while i < table.len()
        invariant
            i <= table@.len(),
            lookup(table@, key@) == lookup(table@.skip(i as int), key@),
        decreases table.len() - i,
    {
        proof {
            assert(table@.skip(i as int).drop_first() =~= table@.skip(i + 1));
            assert(table@.skip(i as int)[0] == table@[i as int]);
        }
        if text_eq(table[i].0.as_str(), key) {
            return table[i].1.clone();
        }
        i = i + 1;
    }
    proof {
        assert(table@.skip(i as int).len() == 0);
    }
    String::new()
}

/// A line as text and style pairs.
pub open spec fn line_view(l: Vec<(String, Style)>) -> Seq<(Seq<char>, Style)> {
    l@.map_values(|p: (String, Style)| (p.0@, p.1))
}

pub open spec fn lines_view(v: Seq<Vec<(String, Style)>>) -> Seq<Seq<(Seq<char>, Style)>> {
    v.map_values(|l: Vec<(String, Style)>| line_view(l))
}

/// A line being built, one piece at a time.
fn put(l: &mut Vec<(String, Style)>, text: String, st: Style)
    ensures
        line_view(*final(l)) == line_view(*old(l)).push((text@, st)),
{
    let ghost before = line_view(*l);
    l.push((text, st));
    proof {
        assert(line_view(*l) =~= before.push((text@, st)));
    }
}

fn put_str(l: &mut Vec<(String, Style)>, text: &str, st: Style)
    ensures
        line_view(*final(l)) == line_view(*old(l)).push((text@, st)),
{
    put(l, owned(text), st);
}

fn add_line(out: &mut Vec<Vec<(String, Style)>>, l: Vec<(String, Style)>)
    ensures
        lines_view(final(out)@) == lines_view(old(out)@).push(line_view(l)),
{
    let ghost before = lines_view(out@);
    out.push(l);
    proof {
        assert(lines_view(out@) =~= before.push(line_view(l)));
    }
}

/// The status letter as text.
pub open spec fn letter(c: char) -> Seq<char> {
    seq![c]
}

fn letter_text(c: char) -> (s: String)
    ensures
        s@ == letter(c),
{
    let mut s = String::new();
    crate::text::push_char(&mut s, c);
    proof {
        assert(s@ =~= letter(c));
    }
    s
}

} // verus!

verus! {

proof fn lemma_bytes_bound(s: Seq<char>, k: nat)
    ensures
        bytes_of_le(s, k),
    decreases k,
{
    if k > 0 && k <= s.len() {
        lemma_bytes_bound(s, (k - 1) as nat);
    }
}

pub open spec fn bytes_of_le(s: Seq<char>, k: nat) -> bool {
    crate::text::bytes_of(s, k) <= 4 * k
}

/// How many bytes UTF-8 takes for the text (`str::len`).
fn byte_count(s: &str) -> (n: u128)
    ensures
        n == byte_len(s@),
        n <= 4 * usize::MAX,
{
    let v = chars_of(s);
    let mut n: u128 = 0;
    let mut k: usize = 0;
    while k < v.len()
        invariant
            k <= v@.len(),
            v@ == s@,
            n == crate::text::bytes_of(v@, k as nat),
        decreases v.len() - k,
    {
        proof {
            lemma_bytes_bound(v@, k as nat);
        }
        n = n + utf8_width(v[k]) as u128;
        k = k + 1;
    }
    proof {
        lemma_bytes_bound(v@, v@.len() as nat);
    }
    n
}

/// The characters of `short` after the first `byte_len(sid)`: the part of
/// an abbreviated hash that its short ID does not cover.
pub open spec fn rest_of(short: Seq<char>, sid: Seq<char>) -> Seq<char> {
    if byte_len(sid) >= short.len() {
        Seq::empty()
    } else {
        short.skip(byte_len(sid) as int)
    }
}

fn rest_text(short: &str, sid: &str) -> (r: String)
    ensures
        r@ == rest_of(short@, sid@),
{
    let n = byte_count(sid);
    let v = chars_of(short);
    if n >= v.len() as u128 {
        String::new()
    } else {
        let r = string_of_range(&v, n as usize, v.len());
        proof {
            assert(v@.subrange(n as int, v@.len() as int) =~= short@.skip(n as int));
        }
        r
    }
}

/// The status letters and path of a file: ` <index><worktree> <path>`.
pub open spec fn file_tail(f: FileChange) -> Seq<(Seq<char>, Style)> {
    seq![(" "@, Style::Plain), (letter(f.index), Style::Staged), (letter(f.worktree), Style::Unstaged), (" "@, Style::Plain), (f.path@, Style::Plain)]
}

fn put_file_tail(l: &mut Vec<(String, Style)>, f: &FileChange)
    ensures
        line_view(*final(l)) == line_view(*old(l)) + file_tail(*f),
{
    let ghost before = line_view(*l);
    put_str(l, " ", Style::Plain);
    put(l, letter_text(f.index), Style::Staged);
    put(l, letter_text(f.worktree), Style::Unstaged);
    put_str(l, " ", Style::Plain);
    put(l, f.path.clone(), Style::Plain);
    proof {
        assert(line_view(*l) =~= before + file_tail(*f));
    }
}

/// The ID of a commit's `i`th file: `<commit id>:<i>`.
pub open spec fn file_id(sid: Seq<char>, i: nat) -> Seq<char> {
    sid + ":"@ + decimal(i)
}

/// A commit's line and its files' lines, after `dot` (the dot and its
/// style) on the commit's line and `bar` on each file's line.
pub open spec fn commit_lines(
    c: CommitInfo,
    ids: ShortIds,
    first: Seq<(Seq<char>, Style)>,
    file_first: Seq<(Seq<char>, Style)>,
) -> Seq<Seq<(Seq<char>, Style)>> {
    let sid = lookup(ids.commits@, c.oid@);
    seq![first + seq![(sid, Style::ShortId), (rest_of(c.short_id@, sid), Style::Dim), (" "@, Style::Plain), (c.message@, Style::Plain)]]
        + Seq::new(
        c.files@.len(),
        |i: int| file_first + seq![(file_id(sid, i as nat), Style::ShortId)] + file_tail(c.files@[i]),
    )
}

pub open spec fn lines_of_commits(
    cs: Seq<CommitInfo>,
    ids: ShortIds,
    first: Seq<(Seq<char>, Style)>,
    file_first: Seq<(Seq<char>, Style)>,
) -> Seq<Seq<(Seq<char>, Style)>>
    decreases cs.len(),
{
    if cs.len() == 0 {
        Seq::empty()
    } else {
        lines_of_commits(cs.drop_last(), ids, first, file_first) + commit_lines(cs.last(), ids, first, file_first)
    }
}

fn copy_line(l: &Vec<(String, Style)>) -> (r: Vec<(String, Style)>)
    ensures
        line_view(r) == line_view(*l),
{
    let mut r: Vec<(String, Style)> = Vec::new();
    let mut i: usize = 0;
    while i < l.len()
        invariant
            i <= l@.len(),
            line_view(r) == line_view(*l).take(i as int),
        decreases l.len() - i,
    {
        put(&mut r, l[i].0.clone(), l[i].1);
        proof {
            assert(line_view(*l).take(i + 1) =~= line_view(*l).take(i as int).push((l@[i as int].0@, l@[i as int].1)));
        }
        i = i + 1;
    }
    proof {
        assert(line_view(*l).take(l@.len() as int) =~= line_view(*l));
    }
    r
}

fn add_commit_lines(
    out: &mut Vec<Vec<(String, Style)>>,
    c: &CommitInfo,
    ids: &ShortIds,
    first: &Vec<(String, Style)>,
    file_first: &Vec<(String, Style)>,
)
    ensures
        lines_view(final(out)@) == lines_view(old(out)@) + commit_lines(*c, *ids, line_view(*first), line_view(*file_first)),
{
    let ghost before = lines_view(out@);
    let sid = lookup_id(ids.commits.as_slice(), c.oid.as_str());
    let mut l = copy_line(first);
    put(&mut l, sid.clone(), Style::ShortId);
    put(&mut l, rest_text(c.short_id.as_str(), sid.as_str()), Style::Dim);
    put_str(&mut l, " ", Style::Plain);
    put(&mut l, c.message.clone(), Style::Plain);
    let ghost first_line = line_view(l);
    assert(first_line =~= line_view(*first) + seq![(sid@, Style::ShortId), (rest_of(c.short_id@, sid@), Style::Dim), (" "@, Style::Plain), (c.message@, Style::Plain)]);
    add_line(out, l);
    let ghost fl = Seq::new(
        c.files@.len(),
        |i: int| line_view(*file_first) + seq![(file_id(sid@, i as nat), Style::ShortId)] + file_tail(c.files@[i]),
    );
    let ghost head = lines_view(out@);
    let mut i: usize = 0;
    while i < c.files.len()
        invariant
            i <= c.files@.len(),
            lines_view(out@) == head + fl.take(i as int),
            fl.len() == c.files@.len(),
            forall|j: int| 0 <= j < c.files@.len() ==> #[trigger] fl[j] == line_view(*file_first) + seq![(file_id(sid@, j as nat), Style::ShortId)] + file_tail(c.files@[j]),
        decreases c.files.len() - i,
    {
        let mut l = copy_line(file_first);
        let mut fid = sid.clone();
        push_str(&mut fid, ":");
        push_str(&mut fid, decimal_text(i as u64).as_str());
        assert(fid@ == file_id(sid@, i as nat));
        put(&mut l, fid, Style::ShortId);
        put_file_tail(&mut l, &c.files[i]);
        assert(line_view(l) =~= fl[i as int]);
        add_line(out, l);
        proof {
            assert(fl.take(i + 1) =~= fl.take(i as int).push(fl[i as int]));
        }
        i = i + 1;
    }
    proof {
        assert(fl.take(c.files@.len() as int) =~= fl);
        assert(sid@ == lookup(ids.commits@, c.oid@));
        assert(head == before.push(first_line));
        assert(commit_lines(*c, *ids, line_view(*first), line_view(*file_first)) =~= seq![first_line] + fl);
        assert(lines_view(out@) =~= before + commit_lines(*c, *ids, line_view(*first), line_view(*file_first)));
    }
}

fn add_lines_of_commits(
    out: &mut Vec<Vec<(String, Style)>>,
    cs: &Vec<CommitInfo>,
    ids: &ShortIds,
    first: &Vec<(String, Style)>,
    file_first: &Vec<(String, Style)>,
)
    ensures
        lines_view(final(out)@) == lines_view(old(out)@) + lines_of_commits(cs@, *ids, line_view(*first), line_view(*file_first)),
{
    let ghost before = lines_view(out@);
    let mut i: usize = 0;
    while i < cs.len()
        invariant
            i <= cs@.len(),
            lines_view(out@) == before + lines_of_commits(cs@.take(i as int), *ids, line_view(*first), line_view(*file_first)),
        decreases cs.len() - i,
    {
        proof {
            assert(cs@.take(i + 1).drop_last() =~= cs@.take(i as int));
        }
        add_commit_lines(out, &cs[i], ids, first, file_first);
        proof {
            assert(lines_view(out@) =~= before + lines_of_commits(cs@.take(i + 1), *ids, line_view(*first), line_view(*file_first)));
        }
        i = i + 1;
    }
    proof {
        assert(cs@.take(cs@.len() as int) =~= cs@);
    }
}

} // verus!

verus! {

/// How many colors the feature-branch dots rotate through.
pub const DOT_COLORS: usize = 6;

pub open spec fn remote_mark(r: Option<RemoteStatus>) -> Seq<(Seq<char>, Style)> {
    match r {
        Some(RemoteStatus::Synced) => seq![(" "@, Style::Plain), ("✓"@, Style::RemoteSynced)],
        Some(RemoteStatus::Ahead) => seq![(" "@, Style::Plain), ("↑"@, Style::RemoteAhead)],
        Some(RemoteStatus::Gone) => seq![(" "@, Style::Plain), ("✗"@, Style::RemoteGone)],
        None => Seq::empty(),
    }
}

/// The header of one of a branch section's names: the first opens the
/// section (`│╭─`) unless it sits on the branch below it, the others join
/// it (`│├─`).
pub open spec fn name_line(ids: ShortIds, i: int, prev_stacked: bool, name: Seq<char>, r: Option<RemoteStatus>) -> Seq<
    (Seq<char>, Style),
> {
    seq![
        (if i == 0 && !prev_stacked { "│╭─"@ } else { "│├─"@ }, Style::Graph),
        (" "@, Style::Plain),
        (lookup(ids.branches@, name), Style::ShortId),
        (" "@, Style::Plain),
        ("["@, Style::Dim),
        (name, Style::Branch),
        ("]"@, Style::Dim),
    ] + remote_mark(r)
}

/// A branch section: its names, its commits on a side line in the `k`th
/// dot color, and how it closes — `││` into a branch stacked on it, else
/// `├╯`, then a blank graph line when more sections follow.
pub open spec fn branch_lines(
    ids: ShortIds,
    names: Seq<(Seq<char>, Option<RemoteStatus>)>,
    commits: Seq<CommitInfo>,
    k: usize,
    prev_stacked: bool,
    next_stacked: bool,
    more: bool,
) -> Seq<Seq<(Seq<char>, Style)>> {
    Seq::new(names.len(), |i: int| name_line(ids, i, prev_stacked, names[i].0, names[i].1)) + lines_of_commits(
        commits,
        ids,
        seq![("│"@, Style::Graph), ("●"@, Style::Dot(k)), ("    "@, Style::Plain)],
        seq![("│"@, Style::Graph), ("┊"@, Style::Dot(k)), ("      "@, Style::Plain)],
    ) + if next_stacked {
        seq![seq![("││"@, Style::Graph)]]
    } else {
        seq![seq![("├╯"@, Style::Graph)]] + if more {
            seq![seq![("│"@, Style::Graph)]]
        } else {
            Seq::empty()
        }
    }
}

/// The loose commits, on the integration line.
pub open spec fn loose_lines(ids: ShortIds, commits: Seq<CommitInfo>, more: bool) -> Seq<Seq<(Seq<char>, Style)>> {
    lines_of_commits(
        commits,
        ids,
        seq![("●"@, Style::Graph), ("    "@, Style::Plain)],
        seq![("┊"@, Style::Graph), ("       "@, Style::Plain)],
    ) + if more {
        seq![seq![("│"@, Style::Graph)]]
    } else {
        Seq::empty()
    }
}

/// `⏫ <n> new commit(s)`.
pub open spec fn ahead_text(n: nat) -> Seq<char> {
    if n == 1 {
        "\u{23EB} "@ + decimal(n) + " new commit"@
    } else {
        "\u{23EB} "@ + decimal(n) + " new commit"@ + "s"@
    }
}

/// The upstream marker: when upstream has moved on, a side line with how
/// far and the common base below it; else the base as the upstream.
pub open spec fn upstream_lines(u: UpstreamInfo) -> Seq<Seq<(Seq<char>, Style)>> {
    if u.commits_ahead > 0 {
        seq![
            seq![("│"@, Style::Graph), ("●"@, Style::Graph), ("  "@, Style::Plain), ("["@, Style::Dim), (u.label@, Style::Branch), ("]"@, Style::Dim), (" "@, Style::Plain), (ahead_text(u.commits_ahead as nat), Style::Message)],
            seq![("├╯"@, Style::Graph), (" "@, Style::Plain), (u.base_short_id@, Style::Dim), (" "@, Style::Plain), ("(common base)"@, Style::Label), (" "@, Style::Plain), (u.base_date@, Style::Dim), (" "@, Style::Plain), (u.base_message@, Style::Message)],
        ]
    } else {
        seq![
            seq![("●"@, Style::Graph), (" "@, Style::Plain), (u.base_short_id@, Style::Dim), (" "@, Style::Plain), ("(upstream)"@, Style::Label), (" "@, Style::Plain), ("["@, Style::Dim), (u.label@, Style::Branch), ("]"@, Style::Dim), (" "@, Style::Plain), (u.base_message@, Style::Message)],
        ]
    }
}

pub open spec fn context_line(c: ContextCommit) -> Seq<(Seq<char>, Style)> {
    seq![("·"@, Style::Dim), (" "@, Style::Plain), (c.short_hash@, Style::Dim), (" "@, Style::Plain), (c.date@, Style::Dim), (" "@, Style::Plain), (c.message@, Style::Message)]
}

/// The commits before the base, dimmed.
pub open spec fn context_lines(cs: Seq<ContextCommit>) -> Seq<Seq<(Seq<char>, Style)>> {
    Seq::new(cs.len(), |i: int| context_line(cs[i]))
}

fn add_lines(out: &mut Vec<Vec<(String, Style)>>, more: Vec<Vec<(String, Style)>>)
    ensures
        lines_view(final(out)@) == lines_view(old(out)@) + lines_view(more@),
{
    let ghost before = lines_view(out@);
    let mut rest = more;
    let mut back: Vec<Vec<(String, Style)>> = Vec::new();
    let ghost m = lines_view(rest@);
    let n: usize = rest.len();
    while rest.len() > 0
        invariant
            lines_view(rest@) == m.take(rest@.len() as int),
            back@.len() + rest@.len() == n,
            n == m.len(),
            forall|j: int| 0 <= j < back@.len() ==> #[trigger] line_view(back@[j]) == m[n - 1 - j],
        decreases rest@.len(),
    {
        let l = rest.pop().unwrap();
        proof {
            assert(m.take(rest@.len() + 1int)[rest@.len() as int] == line_view(l));
            assert(lines_view(rest@) =~= m.take(rest@.len() as int));
        }
        back.push(l);
    }
    let mut k: usize = 0;
    while k < n
        invariant
            n == m.len(),
            back@.len() == n - k,
            k <= n,
            forall|j: int| 0 <= j < back@.len() ==> #[trigger] line_view(back@[j]) == m[n - 1 - j],
            lines_view(out@) == before + m.take(k as int),
        decreases n - k,
    {
        let l = back.pop().unwrap();
        add_line(out, l);
        proof {
            assert(m.take(k + 1) =~= m.take(k as int).push(m[k as int]));
        }
        k = k + 1;
    }
    proof {
        assert(m.take(n as int) =~= m);
    }
}

fn line_of(pieces: &[(&str, Style)]) -> (l: Vec<(String, Style)>)
    ensures
        line_view(l) == pieces@.map_values(|p: (&str, Style)| (p.0@, p.1)),
{
    let mut l: Vec<(String, Style)> = Vec::new();
    let mut i: usize = 0;
    while i < pieces.len()
        invariant
            i <= pieces@.len(),
            line_view(l) == pieces@.map_values(|p: (&str, Style)| (p.0@, p.1)).take(i as int),
        decreases pieces.len() - i,
    {
        put_str(&mut l, pieces[i].0, pieces[i].1);
        proof {
            assert(pieces@.map_values(|p: (&str, Style)| (p.0@, p.1)).take(i + 1) =~= pieces@.map_values(
                |p: (&str, Style)| (p.0@, p.1),
            ).take(i as int).push((pieces@[i as int].0@, pieces@[i as int].1)));
        }
        i = i + 1;
    }
    proof {
        assert(pieces@.map_values(|p: (&str, Style)| (p.0@, p.1)).take(pieces@.len() as int) =~= pieces@.map_values(
            |p: (&str, Style)| (p.0@, p.1),
        ));
    }
    l
}

} // verus!

verus! {

fn one_piece(text: &str, st: Style) -> (l: Vec<(String, Style)>)
    ensures
        line_view(l) == seq![(text@, st)],
{
    let mut l: Vec<(String, Style)> = Vec::new();
    put_str(&mut l, text, st);
    proof {
        assert(line_view(l) =~= seq![(text@, st)]);
    }
    l
}

/// See [`upstream_lines`].
pub fn render_upstream(u: &UpstreamInfo) -> (r: Vec<Vec<(String, Style)>>)
    ensures
        lines_view(r@) == upstream_lines(*u),
{
    let mut out: Vec<Vec<(String, Style)>> = Vec::new();
    if u.commits_ahead > 0 {
        let mut count = owned("\u{23EB} ");
        push_str(&mut count, decimal_text(u.commits_ahead as u64).as_str());
        push_str(&mut count, " new commit");
        if u.commits_ahead != 1 {
            push_str(&mut count, "s");
        }
        proof {
            assert(count@ =~= ahead_text(u.commits_ahead as nat));
        }
        let mut a: Vec<(String, Style)> = Vec::new();
        put_str(&mut a, "│", Style::Graph);
        put_str(&mut a, "●", Style::Graph);
        put_str(&mut a, "  ", Style::Plain);
        put_str(&mut a, "[", Style::Dim);
        put(&mut a, u.label.clone(), Style::Branch);
        put_str(&mut a, "]", Style::Dim);
        put_str(&mut a, " ", Style::Plain);
        put(&mut a, count, Style::Message);
        let mut b: Vec<(String, Style)> = Vec::new();
        put_str(&mut b, "├╯", Style::Graph);
        put_str(&mut b, " ", Style::Plain);
        put(&mut b, u.base_short_id.clone(), Style::Dim);
        put_str(&mut b, " ", Style::Plain);
        put_str(&mut b, "(common base)", Style::Label);
        put_str(&mut b, " ", Style::Plain);
        put(&mut b, u.base_date.clone(), Style::Dim);
        put_str(&mut b, " ", Style::Plain);
        put(&mut b, u.base_message.clone(), Style::Message);
        proof {
            assert(line_view(a) =~= upstream_lines(*u)[0]);
            assert(line_view(b) =~= upstream_lines(*u)[1]);
        }
        add_line(&mut out, a);
        add_line(&mut out, b);
    } else {
        let mut a: Vec<(String, Style)> = Vec::new();
        put_str(&mut a, "●", Style::Graph);
        put_str(&mut a, " ", Style::Plain);
        put(&mut a, u.base_short_id.clone(), Style::Dim);
        put_str(&mut a, " ", Style::Plain);
        put_str(&mut a, "(upstream)", Style::Label);
        put_str(&mut a, " ", Style::Plain);
        put_str(&mut a, "[", Style::Dim);
        put(&mut a, u.label.clone(), Style::Branch);
        put_str(&mut a, "]", Style::Dim);
        put_str(&mut a, " ", Style::Plain);
        put(&mut a, u.base_message.clone(), Style::Message);
        proof {
            assert(line_view(a) =~= upstream_lines(*u)[0]);
        }
        add_line(&mut out, a);
    }
    proof {
        assert(lines_view(out@) =~= upstream_lines(*u));
    }
    out
}

/// See [`context_lines`].
pub fn render_context(cs: &Vec<ContextCommit>) -> (r: Vec<Vec<(String, Style)>>)
    ensures
        lines_view(r@) == context_lines(cs@),
{
    let mut out: Vec<Vec<(String, Style)>> = Vec::new();
    let mut i: usize = 0;
    while i < cs.len()
        invariant
            i <= cs@.len(),
            lines_view(out@) == context_lines(cs@).take(i as int),
        decreases cs.len() - i,
    {
        let c = &cs[i];
        let mut a: Vec<(String, Style)> = Vec::new();
        put_str(&mut a, "·", Style::Dim);
        put_str(&mut a, " ", Style::Plain);
        put(&mut a, c.short_hash.clone(), Style::Dim);
        put_str(&mut a, " ", Style::Plain);
        put(&mut a, c.date.clone(), Style::Dim);
        put_str(&mut a, " ", Style::Plain);
        put(&mut a, c.message.clone(), Style::Message);
        proof {
            assert(line_view(a) =~= context_line(cs@[i as int]));
        }
        add_line(&mut out, a);
        proof {
            assert(context_lines(cs@).take(i + 1) =~= context_lines(cs@).take(i as int).push(context_line(cs@[i as int])));
        }
        i = i + 1;
    }
    proof {
        assert(context_lines(cs@).take(cs@.len() as int) =~= context_lines(cs@));
    }
    out
}

/// See [`loose_lines`].
pub fn render_loose(commits: &Vec<CommitInfo>, more: bool, ids: &ShortIds) -> (r: Vec<Vec<(String, Style)>>)
    ensures
        lines_view(r@) == loose_lines(*ids, commits@, more),
{
    let mut out: Vec<Vec<(String, Style)>> = Vec::new();
    let mut first: Vec<(String, Style)> = Vec::new();
    put_str(&mut first, "●", Style::Graph);
    put_str(&mut first, "    ", Style::Plain);
    let mut file_first: Vec<(String, Style)> = Vec::new();
    put_str(&mut file_first, "┊", Style::Graph);
    put_str(&mut file_first, "       ", Style::Plain);
    proof {
        assert(line_view(first) =~= seq![("●"@, Style::Graph), ("    "@, Style::Plain)]);
        assert(line_view(file_first) =~= seq![("┊"@, Style::Graph), ("       "@, Style::Plain)]);
        assert(lines_view(out@) =~= Seq::<Seq<(Seq<char>, Style)>>::empty());
    }
    add_lines_of_commits(&mut out, commits, ids, &first, &file_first);
    if more {
        add_line(&mut out, one_piece("│", Style::Graph));
    }
    proof {
        assert(lines_view(out@) =~= loose_lines(*ids, commits@, more));
    }
    out
}

fn remote_pieces(l: &mut Vec<(String, Style)>, r: Option<RemoteStatus>)
    ensures
        line_view(*final(l)) == line_view(*old(l)) + remote_mark(r),
{
    let ghost before = line_view(*l);
    match r {
        Some(RemoteStatus::Synced) => {
            put_str(l, " ", Style::Plain);
            put_str(l, "✓", Style::RemoteSynced);
        },
        Some(RemoteStatus::Ahead) => {
            put_str(l, " ", Style::Plain);
            put_str(l, "↑", Style::RemoteAhead);
        },
        Some(RemoteStatus::Gone) => {
            put_str(l, " ", Style::Plain);
            put_str(l, "✗", Style::RemoteGone);
        },
        None => {},
    }
    proof {
        assert(line_view(*l) =~= before + remote_mark(r));
    }
}

/// See [`branch_lines`].
pub fn render_branch(
    names: &Vec<(String, Option<RemoteStatus>)>,
    commits: &Vec<CommitInfo>,
    k: usize,
    prev_stacked: bool,
    next_stacked: bool,
    more: bool,
    ids: &ShortIds,
) -> (r: Vec<Vec<(String, Style)>>)
    ensures
        lines_view(r@) == branch_lines(*ids, crate::graph::names_view(names@), commits@, k, prev_stacked, next_stacked, more),
{
    let ghost nv = crate::graph::names_view(names@);
    let ghost hl = Seq::new(nv.len(), |i: int| name_line(*ids, i, prev_stacked, nv[i].0, nv[i].1));
    let mut out: Vec<Vec<(String, Style)>> = Vec::new();
    let mut i: usize = 0;
    while i < names.len()
        invariant
            i <= names@.len(),
            nv == crate::graph::names_view(names@),
            hl.len() == names@.len(),
            forall|j: int| 0 <= j < names@.len() ==> #[trigger] hl[j] == name_line(*ids, j, prev_stacked, nv[j].0, nv[j].1),
            lines_view(out@) == hl.take(i as int),
        decreases names.len() - i,
    {
        let name = &names[i].0;
        let mut a: Vec<(String, Style)> = Vec::new();
        if i == 0 && !prev_stacked {
            put_str(&mut a, "│╭─", Style::Graph);
        } else {
            put_str(&mut a, "│├─", Style::Graph);
        }
        put_str(&mut a, " ", Style::Plain);
        put(&mut a, lookup_id(ids.branches.as_slice(), name.as_str()), Style::ShortId);
        put_str(&mut a, " ", Style::Plain);
        put_str(&mut a, "[", Style::Dim);
        put(&mut a, name.clone(), Style::Branch);
        put_str(&mut a, "]", Style::Dim);
        remote_pieces(&mut a, names[i].1);
        proof {
            assert(line_view(a) =~= hl[i as int]);
        }
        add_line(&mut out, a);
        proof {
            assert(hl.take(i + 1) =~= hl.take(i as int).push(hl[i as int]));
        }
        i = i + 1;
    }
    proof {
        assert(hl.take(names@.len() as int) =~= hl);
    }
    let mut first: Vec<(String, Style)> = Vec::new();
    put_str(&mut first, "│", Style::Graph);
    put_str(&mut first, "●", Style::Dot(k));
    put_str(&mut first, "    ", Style::Plain);
    let mut file_first: Vec<(String, Style)> = Vec::new();
    put_str(&mut file_first, "│", Style::Graph);
    put_str(&mut file_first, "┊", Style::Dot(k));
    put_str(&mut file_first, "      ", Style::Plain);
    proof {
        assert(line_view(first) =~= seq![("│"@, Style::Graph), ("●"@, Style::Dot(k)), ("    "@, Style::Plain)]);
        assert(line_view(file_first) =~= seq![("│"@, Style::Graph), ("┊"@, Style::Dot(k)), ("      "@, Style::Plain)]);
    }
    add_lines_of_commits(&mut out, commits, ids, &first, &file_first);
    if next_stacked {
        add_line(&mut out, one_piece("││", Style::Graph));
    } else {
        add_line(&mut out, one_piece("├╯", Style::Graph));
        if more {
            add_line(&mut out, one_piece("│", Style::Graph));
        }
    }
    proof {
        assert(lines_view(out@) =~= branch_lines(*ids, nv, commits@, k, prev_stacked, next_stacked, more));
    }
    out
}

} // verus!

verus! {

/// Above this many untracked files, and on a terminal, they are laid out
/// in columns.
pub const UNTRACKED_MULTICOLUMN_THRESHOLD: usize = 5;

pub open spec fn is_untracked(f: FileChange) -> bool {
    f.index == '?' && f.worktree == '?'
}

pub open spec fn tracked_of(s: Seq<FileChange>) -> Seq<FileChange>
    decreases s.len(),
{
    if s.len() == 0 {
        s
    } else if is_untracked(s.last()) {
        tracked_of(s.drop_last())
    } else {
        tracked_of(s.drop_last()).push(s.last())
    }
}

pub open spec fn untracked_of(s: Seq<FileChange>) -> Seq<FileChange>
    decreases s.len(),
{
    if s.len() == 0 {
        s
    } else if is_untracked(s.last()) {
        untracked_of(s.drop_last()).push(s.last())
    } else {
        untracked_of(s.drop_last())
    }
}

pub open spec fn fid(ids: ShortIds, f: FileChange) -> Seq<char> {
    lookup(ids.files@, f.path@)
}

pub open spec fn tracked_line(ids: ShortIds, f: FileChange) -> Seq<(Seq<char>, Style)> {
    seq![("│"@, Style::Graph), ("   "@, Style::Plain), (fid(ids, f), Style::ShortId)] + file_tail(f)
}

/// An untracked file's entry: `<id>  ⁕ <path>`.
pub open spec fn untracked_entry(ids: ShortIds, f: FileChange) -> Seq<(Seq<char>, Style)> {
    seq![(fid(ids, f), Style::ShortId), (" "@, Style::Plain), (" ⁕"@, Style::Untracked), (" "@, Style::Plain), (f.path@, Style::Plain)]
}

/// The entry's width in bytes, as the layout counts it.
pub open spec fn entry_width(ids: ShortIds, f: FileChange) -> int {
    (byte_len(fid(ids, f)) + 4 + byte_len(f.path@)) as int
}

pub open spec fn max_width(ids: ShortIds, u: Seq<FileChange>) -> int
    decreases u.len(),
{
    if u.len() == 0 {
        0
    } else {
        let m = max_width(ids, u.drop_last());
        let w = entry_width(ids, u.last());
        if w > m {
            w
        } else {
            m
        }
    }
}

/// How many columns fit: as many slots (the widest entry and a separator)
/// as the terminal has room for beside the graph, at least one, at most
/// one per entry.
pub open spec fn grid_cols(width: int, maxw: int, n: int) -> int {
    let avail = if width >= 4 { width - 4 } else { 0 };
    let c = avail / (maxw + 5);
    if c < 1 {
        1
    } else if c > n {
        n
    } else {
        c
    }
}

pub open spec fn spaces(k: int) -> Seq<char> {
    Seq::new(k as nat, |i: int| ' ')
}

/// Row `r`'s entries for the first `c` columns, filled top to bottom, then
/// left to right; an entry with another to its right is padded to the
/// widest and followed by a separator.
pub open spec fn grid_cells(ids: ShortIds, u: Seq<FileChange>, rows: int, cols: int, maxw: int, r: int, c: int) -> Seq<
    (Seq<char>, Style),
>
    decreases c,
{
    if c <= 0 {
        Seq::empty()
    } else {
        let prev = grid_cells(ids, u, rows, cols, maxw, r, c - 1);
        let col = c - 1;
        let idx = col * rows + r;
        if idx >= u.len() {
            prev
        } else {
            prev + untracked_entry(ids, u[idx]) + if col + 1 < cols && (col + 1) * rows + r < u.len() {
                seq![(spaces(maxw - entry_width(ids, u[idx])), Style::Plain), ("   │ "@, Style::Dim)]
            } else {
                Seq::empty()
            }
        }
    }
}

pub open spec fn grid_lines(ids: ShortIds, u: Seq<FileChange>, width: int) -> Seq<Seq<(Seq<char>, Style)>> {
    let maxw = max_width(ids, u);
    let cols = grid_cols(width, maxw, u.len() as int);
    let rows = (u.len() + cols - 1) / cols;
    Seq::new(
        rows as nat,
        |r: int| seq![("│"@, Style::Graph), ("   "@, Style::Plain)] + grid_cells(ids, u, rows, cols, maxw, r, cols),
    )
}

pub open spec fn single_line(ids: ShortIds, f: FileChange) -> Seq<(Seq<char>, Style)> {
    seq![("│"@, Style::Graph), ("   "@, Style::Plain)] + untracked_entry(ids, f)
}

/// The working-tree section: its header, then the tracked changes, then the
/// untracked files — in columns when there are more than
/// [`UNTRACKED_MULTICOLUMN_THRESHOLD`] and a terminal width — or
/// `no changes`, and a blank graph line.
pub open spec fn working_lines(ids: ShortIds, changes: Seq<FileChange>, width: Option<u16>) -> Seq<Seq<(Seq<char>, Style)>> {
    let t = tracked_of(changes);
    let u = untracked_of(changes);
    seq![seq![("╭─"@, Style::Graph), (" "@, Style::Plain), (ids.unstaged@, Style::ShortId), (" "@, Style::Plain), ("["@, Style::Dim), ("local changes"@, Style::Label), ("]"@, Style::Dim)]]
        + if t.len() == 0 && u.len() == 0 {
        seq![seq![("│"@, Style::Graph), ("   "@, Style::Plain), ("no changes"@, Style::Dim)]]
    } else {
        Seq::new(t.len(), |i: int| tracked_line(ids, t[i])) + if u.len() > 5 && width is Some {
            grid_lines(ids, u, width->0 as int)
        } else {
            Seq::new(u.len(), |i: int| single_line(ids, u[i]))
        }
    } + seq![seq![("│"@, Style::Graph)]]
}

} // verus!

verus! {

fn copy_change(f: &FileChange) -> (r: FileChange)
    ensures
        r == *f,
{
    FileChange { path: f.path.clone(), index: f.index, worktree: f.worktree }
}

fn split_changes(changes: &Vec<FileChange>) -> (r: (Vec<FileChange>, Vec<FileChange>))
    ensures
        r.0@ == tracked_of(changes@),
        r.1@ == untracked_of(changes@),
{
    let mut t: Vec<FileChange> = Vec::new();
    let mut u: Vec<FileChange> = Vec::new();
    let mut i: usize = 0;
    while i < changes.len()
        invariant
            i <= changes@.len(),
            t@ == tracked_of(changes@.take(i as int)),
            u@ == untracked_of(changes@.take(i as int)),
        decreases changes.len() - i,
    {
        proof {
            assert(changes@.take(i + 1).drop_last() =~= changes@.take(i as int));
        }
        let f = copy_change(&changes[i]);
        if f.index == '?' && f.worktree == '?' {
            u.push(f);
        } else {
            t.push(f);
        }
        i = i + 1;
    }
    proof {
        assert(changes@.take(changes@.len() as int) =~= changes@);
    }
    (t, u)
}

fn entry_pieces(l: &mut Vec<(String, Style)>, f: &FileChange, ids: &ShortIds)
    ensures
        line_view(*final(l)) == line_view(*old(l)) + untracked_entry(*ids, *f),
{
    let ghost before = line_view(*l);
    put(l, lookup_id(ids.files.as_slice(), f.path.as_str()), Style::ShortId);
    put_str(l, " ", Style::Plain);
    put_str(l, " ⁕", Style::Untracked);
    put_str(l, " ", Style::Plain);
    put(l, f.path.clone(), Style::Plain);
    proof {
        assert(line_view(*l) =~= before + untracked_entry(*ids, *f));
    }
}

proof fn lemma_max_width(ids: ShortIds, u: Seq<FileChange>, i: int)
    requires
        0 <= i < u.len(),
    ensures
        entry_width(ids, u[i]) <= max_width(ids, u),
        max_width(ids, u) >= 0,
    decreases u.len(),
{
    if i < u.len() - 1 {
        lemma_max_width(ids, u.drop_last(), i);
        assert(u.drop_last()[i] == u[i]);
    } else if u.len() > 1 {
        lemma_max_width(ids, u.drop_last(), 0);
    }
}

fn spaces_text(k: u128) -> (s: String)
    ensures
        s@ == spaces(k as int),
{
    let mut s = String::new();
    let mut j: u128 = 0;
    while j < k
        invariant
            j <= k,
            s@ == spaces(j as int),
        decreases k - j,
    {
        crate::text::push_char(&mut s, ' ');
        proof {
            assert(s@ =~= spaces(j + 1));
        }
        j = j + 1;
    }
    s
}

fn entry_width_of(f: &FileChange, ids: &ShortIds) -> (w: u128)
    ensures
        w == entry_width(*ids, *f),
        w <= 8 * usize::MAX + 4,
{
    let id = lookup_id(ids.files.as_slice(), f.path.as_str());
    byte_count(id.as_str()) + 4 + byte_count(f.path.as_str())
}

/// See [`grid_lines`].
fn render_untracked_multicolumn(out: &mut Vec<Vec<(String, Style)>>, u: &Vec<FileChange>, width: u16, ids: &ShortIds)
    requires
        u@.len() > 0,
    ensures
        lines_view(final(out)@) == lines_view(old(out)@) + grid_lines(*ids, u@, width as int),
{
    let ghost before = lines_view(out@);
    let n: usize = u.len();
    let mut widths: Vec<u128> = Vec::new();
    let mut maxw: u128 = 0;
    let mut i: usize = 0;
    while i < n
        invariant
            n == u@.len(),
            i <= n,
            widths@.len() == i,
            forall|j: int| 0 <= j < i ==> #[trigger] widths@[j] == entry_width(*ids, u@[j]),
            maxw == max_width(*ids, u@.take(i as int)),
            maxw <= 8 * usize::MAX + 4,
        decreases n - i,
    {
        let w = entry_width_of(&u[i], ids);
        proof {
            assert(u@.take(i + 1).drop_last() =~= u@.take(i as int));
            assert(u@.take(i + 1).last() == u@[i as int]);
        }
        widths.push(w);
        if w > maxw {
            maxw = w;
        }
        i = i + 1;
    }
    proof {
        assert(u@.take(n as int) =~= u@);
    }
    let avail: u128 = if width >= 4 { (width - 4) as u128 } else { 0 };
    let c = avail / (maxw + 5);
    let cols: u128 = if c < 1 { 1 } else if c > n as u128 { n as u128 } else { c };
    let rows: u128 = (n as u128 + cols - 1) / cols;
    let ghost gl = grid_lines(*ids, u@, width as int);
    proof {
        assert(cols == grid_cols(width as int, maxw as int, n as int));
        let nn: int = n as int;
        let d: int = cols as int;
        assert((nn + d - 1) / d <= nn) by (nonlinear_arith)
            requires d >= 1, nn >= 1, d <= nn;
        assert(gl.len() == rows);
        assert(usize::MAX <= 0xFFFF_FFFF_FFFF_FFFFu128);
    }
    let mut r: u128 = 0;
    while r < rows
        invariant
            n == u@.len(),
            widths@.len() == n,
            forall|j: int| 0 <= j < n ==> #[trigger] widths@[j] == entry_width(*ids, u@[j]),
            maxw == max_width(*ids, u@),
            cols == grid_cols(width as int, maxw as int, n as int),
            n > 0,
            rows == (n + cols - 1) / (cols as int),
            cols >= 1,
            cols <= n,
            rows <= n,
            usize::MAX <= 0xFFFF_FFFF_FFFF_FFFFu128,
            gl == grid_lines(*ids, u@, width as int),
            gl.len() == rows,
            r <= rows,
            lines_view(out@) == before + gl.take(r as int),
        decreases rows - r,
    {
        let mut l: Vec<(String, Style)> = Vec::new();
        put_str(&mut l, "│", Style::Graph);
        put_str(&mut l, "   ", Style::Plain);
        let ghost head = line_view(l);
        let mut col: u128 = 0;
        while col < cols
            invariant
                n == u@.len(),
                widths@.len() == n,
                forall|j: int| 0 <= j < n ==> #[trigger] widths@[j] == entry_width(*ids, u@[j]),
                maxw == max_width(*ids, u@),
                n > 0,
                cols >= 1,
                cols <= n,
                rows <= n,
                usize::MAX <= 0xFFFF_FFFF_FFFF_FFFFu128,
                r < rows,
                col <= cols,
                line_view(l) == head + grid_cells(*ids, u@, rows as int, cols as int, maxw as int, r as int, col as int),
            decreases cols - col,
        {
            proof {
                assert(col * rows <= 0xFFFF_FFFF_FFFF_FFFFu128 * 0xFFFF_FFFF_FFFF_FFFFu128) by (nonlinear_arith)
                    requires col <= 0xFFFF_FFFF_FFFF_FFFFu128, rows <= 0xFFFF_FFFF_FFFF_FFFFu128;
                assert((col + 1) * rows <= 0xFFFF_FFFF_FFFF_FFFFu128 * 0xFFFF_FFFF_FFFF_FFFFu128) by (nonlinear_arith)
                    requires col + 1 <= 0xFFFF_FFFF_FFFF_FFFFu128, rows <= 0xFFFF_FFFF_FFFF_FFFFu128;
            }
            let idx = col * rows + r;
            if idx < n as u128 {
                let k = idx as usize;
                entry_pieces(&mut l, &u[k], ids);
                let next = (col + 1) * rows + r;
                if col + 1 < cols && next < n as u128 {
                    proof {
                        lemma_max_width(*ids, u@, k as int);
                    }
                    put(&mut l, spaces_text(maxw - widths[k]), Style::Plain);
                    put_str(&mut l, "   │ ", Style::Dim);
                }
            }
            proof {
                assert(line_view(l) =~= head + grid_cells(*ids, u@, rows as int, cols as int, maxw as int, r as int, col + 1));
            }
            col = col + 1;
        }
        proof {
            assert(line_view(l) =~= gl[r as int]);
        }
        add_line(out, l);
        proof {
            assert(gl.take(r + 1) =~= gl.take(r as int).push(gl[r as int]));
        }
        r = r + 1;
    }
    proof {
        assert(gl.take(rows as int) =~= gl);
    }
}

} // verus!

verus! {

/// See [`working_lines`].
pub fn render_working_changes(changes: &Vec<FileChange>, ids: &ShortIds, opts: &RenderOpts) -> (r: Vec<Vec<(String, Style)>>)
    ensures
        lines_view(r@) == working_lines(*ids, changes@, opts.terminal_width),
{
    let mut out: Vec<Vec<(String, Style)>> = Vec::new();
    let mut h: Vec<(String, Style)> = Vec::new();
    put_str(&mut h, "╭─", Style::Graph);
    put_str(&mut h, " ", Style::Plain);
    put(&mut h, ids.unstaged.clone(), Style::ShortId);
    put_str(&mut h, " ", Style::Plain);
    put_str(&mut h, "[", Style::Dim);
    put_str(&mut h, "local changes", Style::Label);
    put_str(&mut h, "]", Style::Dim);
    proof {
        assert(line_view(h) =~= seq![("╭─"@, Style::Graph), (" "@, Style::Plain), (ids.unstaged@, Style::ShortId), (" "@, Style::Plain), ("["@, Style::Dim), ("local changes"@, Style::Label), ("]"@, Style::Dim)]);
    }
    add_line(&mut out, h);
    let ghost head = lines_view(out@);
    let (t, u) = split_changes(changes);
    if t.len() == 0 && u.len() == 0 {
        let mut l: Vec<(String, Style)> = Vec::new();
        put_str(&mut l, "│", Style::Graph);
        put_str(&mut l, "   ", Style::Plain);
        put_str(&mut l, "no changes", Style::Dim);
        proof {
            assert(line_view(l) =~= seq![("│"@, Style::Graph), ("   "@, Style::Plain), ("no changes"@, Style::Dim)]);
        }
        add_line(&mut out, l);
    } else {
        let ghost tl = Seq::new(t@.len(), |i: int| tracked_line(*ids, t@[i]));
        let mut i: usize = 0;
        while i < t.len()
            invariant
                i <= t@.len(),
                tl.len() == t@.len(),
                forall|j: int| 0 <= j < t@.len() ==> #[trigger] tl[j] == tracked_line(*ids, t@[j]),
                lines_view(out@) == head + tl.take(i as int),
            decreases t.len() - i,
        {
            let mut l: Vec<(String, Style)> = Vec::new();
            put_str(&mut l, "│", Style::Graph);
            put_str(&mut l, "   ", Style::Plain);
            put(&mut l, lookup_id(ids.files.as_slice(), t[i].path.as_str()), Style::ShortId);
            put_file_tail(&mut l, &t[i]);
            proof {
                assert(line_view(l) =~= tl[i as int]);
            }
            add_line(&mut out, l);
            proof {
                assert(tl.take(i + 1) =~= tl.take(i as int).push(tl[i as int]));
            }
            i = i + 1;
        }
        proof {
            assert(tl.take(t@.len() as int) =~= tl);
        }
        let multi = u.len() > UNTRACKED_MULTICOLUMN_THRESHOLD && opts.terminal_width.is_some();
        if multi {
            let w = match opts.terminal_width {
                Some(w) => w,
                None => 0,
            };
            render_untracked_multicolumn(&mut out, &u, w, ids);
        } else {
            let ghost sl = Seq::new(u@.len(), |i: int| single_line(*ids, u@[i]));
            let ghost mid = lines_view(out@);
            let mut k: usize = 0;
            while k < u.len()
                invariant
                    k <= u@.len(),
                    sl.len() == u@.len(),
                    forall|j: int| 0 <= j < u@.len() ==> #[trigger] sl[j] == single_line(*ids, u@[j]),
                    lines_view(out@) == mid + sl.take(k as int),
                decreases u.len() - k,
            {
                let mut l: Vec<(String, Style)> = Vec::new();
                put_str(&mut l, "│", Style::Graph);
                put_str(&mut l, "   ", Style::Plain);
                entry_pieces(&mut l, &u[k], ids);
                proof {
                    assert(line_view(l) =~= sl[k as int]);
                }
                add_line(&mut out, l);
                proof {
                    assert(sl.take(k + 1) =~= sl.take(k as int).push(sl[k as int]));
                }
                k = k + 1;
            }
            proof {
                assert(sl.take(u@.len() as int) =~= sl);
            }
        }
    }
    add_line(&mut out, one_piece("│", Style::Graph));
    proof {
        assert(lines_view(out@) =~= working_lines(*ids, changes@, opts.terminal_width));
    }
    out
}

/// How many branch sections come before the `idx`th.
pub open spec fn branches_before(v: Seq<SectionModel>, idx: int) -> nat
    decreases idx,
{
    if idx <= 0 {
        0
    } else {
        branches_before(v, idx - 1) + if v[idx - 1] is Branch {
            1nat
        } else {
            0nat
        }
    }
}

/// The lines of the `idx`th section.
pub open spec fn section_lines(v: Seq<SectionModel>, idx: int, ids: ShortIds, opts: RenderOpts) -> Seq<Seq<(Seq<char>, Style)>> {
    let more = idx < v.len() - 1;
    match v[idx] {
        SectionModel::WorkingChanges(c) => working_lines(ids, c, opts.terminal_width),
        SectionModel::Branch { names, commits } => branch_lines(
            ids,
            names,
            commits,
            (branches_before(v, idx) % (DOT_COLORS as nat)) as usize,
            idx > 0 && stacked(v, idx - 1),
            stacked(v, idx),
            more,
        ),
        SectionModel::Loose(c) => loose_lines(ids, c, more),
        SectionModel::Upstream(u) => upstream_lines(u),
        SectionModel::Context(c) => context_lines(c),
    }
}

/// The lines of the first `n` sections, top to bottom.
pub open spec fn render_spec(v: Seq<SectionModel>, ids: ShortIds, opts: RenderOpts, n: int) -> Seq<Seq<(Seq<char>, Style)>>
    decreases n,
{
    if n <= 0 {
        Seq::empty()
    } else {
        render_spec(v, ids, opts, n - 1) + section_lines(v, n - 1, ids, opts)
    }
}

/// Draw the sections ([`render_spec`]). Stacked branches are joined (`││`
/// and `│├─`); independent ones close (`├╯`) and the next opens (`│╭─`).
pub fn render_sections(sections: &[Section], ids: &ShortIds, opts: &RenderOpts) -> (r: Vec<Vec<(String, Style)>>)
    requires
        sections@.len() > 0,
    ensures
        lines_view(r@) == render_spec(section_views(sections@), *ids, *opts, sections@.len() as int),
{
    let ghost v = section_views(sections@);
    let last_idx = sections.len() - 1;
    let mut out: Vec<Vec<(String, Style)>> = Vec::new();
    let mut dots: usize = 0;
    let mut idx: usize = 0;
    while idx < sections.len()
        invariant
            idx <= sections@.len(),
            last_idx == sections@.len() - 1,
            v == section_views(sections@),
            v.len() == sections@.len(),
            dots == branches_before(v, idx as int) % (DOT_COLORS as nat),
            lines_view(out@) == render_spec(v, *ids, *opts, idx as int),
        decreases sections.len() - idx,
    {
        proof {
            assert(v[idx as int] == sections@[idx as int]@);
        }
        let more = idx < last_idx;
        let lines = match &sections[idx] {
            Section::WorkingChanges(c) => render_working_changes(c, ids, opts),
            Section::Branch { names, commits } => {
                let prev = idx > 0 && crate::graph::is_stacked_with_next(sections, idx - 1);
                let next = crate::graph::is_stacked_with_next(sections, idx);
                let k = dots;
                dots = if dots + 1 == DOT_COLORS { 0 } else { dots + 1 };
                render_branch(names, commits, k, prev, next, more, ids)
            },
            Section::Loose(c) => render_loose(c, more, ids),
            Section::Upstream(u) => render_upstream(u),
            Section::Context(c) => render_context(c),
        };
        proof {
            assert(lines_view(lines@) == section_lines(v, idx as int, *ids, *opts));
        }
        add_lines(&mut out, lines);
        idx = idx + 1;
    }
    out
}


/// The context section has one line per context commit, in order, each
/// showing that commit's short hash, date and message, dimmed but for the
/// message.
pub proof fn one_context_line_per_commit(cs: Seq<ContextCommit>)
    ensures
        context_lines(cs).len() == cs.len(),
        forall|i: int| 0 <= i < cs.len() ==> #[trigger] context_lines(cs)[i] == seq![
            ("·"@, Style::Dim),
            (" "@, Style::Plain),
            (cs[i].short_hash@, Style::Dim),
            (" "@, Style::Plain),
            (cs[i].date@, Style::Dim),
            (" "@, Style::Plain),
            (cs[i].message@, Style::Message),
        ],
{
}

} // verus!
