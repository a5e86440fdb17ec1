//! What the command line decides before any command runs: the theme asked
//! for, whether colors are on, the help text's style markers, and the
//! message that blocks a command while an operation is paused.
use vstd::prelude::*;

use crate::text::{
    chars_of, has_prefix, owned, push_char, push_str, split_once, split_once_chars, string_of,
};

verus! {

/// `--theme`: the terminal background the colors are tuned for.
#[derive(Debug, Clone, Copy, PartialEq, Eq, Structural)]
pub enum ThemeArg {
    /// Detect from the terminal background color (dark if undetectable).
    Auto,
    /// Dark terminal background.
    Dark,
    /// Light terminal background.
    Light,
}

/// Terminal background the colors are tuned for.
#[derive(Debug, Clone, Copy, PartialEq, Eq, Structural)]
pub enum ThemeMode {
    Dark,
    Light,
}

/// ASCII letters folded to lower case, anything else as it is.
pub open spec fn ascii_lower(c: char) -> char {
    if 'A' <= c && c <= 'Z' {
        ((c as u32) + 32) as char
    } else {
        c
    }
}

/// The text with its ASCII letters folded to lower case.
pub open spec fn lowered(s: Seq<char>) -> Seq<char> {
    s.map_values(|c: char| ascii_lower(c))
}

/// A `--theme` value, its case ignored as clap does for this option:
/// `auto`, `dark` or `light`.
pub open spec fn theme_value(v: Seq<char>) -> Option<ThemeArg> {
    if lowered(v) == "auto"@ {
        Some(ThemeArg::Auto)
    } else if lowered(v) == "dark"@ {
        Some(ThemeArg::Dark)
    } else if lowered(v) == "light"@ {
        Some(ThemeArg::Light)
    } else {
        None
    }
}

fn lower_text(s: &str) -> (r: Vec<char>)
    ensures
        r@ == lowered(s@),
{
    let v = chars_of(s);
    let mut r: Vec<char> = Vec::new();
    let mut i: usize = 0;
    while i < v.len()
        invariant
            i <= v@.len(),
            v@ == s@,
            r@ == lowered(v@.take(i as int)),
        decreases v.len() - i,
    {
        let c = v[i];
        let l = if 'A' <= c && c <= 'Z' {
            let b = (c as u8) + 32;
            b as char
        } else {
            c
        };
        r.push(l);
        proof {
            assert(lowered(v@.take(i + 1)) =~= lowered(v@.take(i as int)).push(ascii_lower(v@[i as int])));
        }
        i = i + 1;
    }
    proof {
        assert(v@.take(v@.len() as int) =~= v@);
    }
    r
}

/// See [`theme_value`].
pub fn parse_theme(v: &str) -> (r: Option<ThemeArg>)
    ensures
        r == theme_value(v@),
{
    let l = lower_text(v);
    if crate::text::chars_eq(&l, &chars_of("auto")) {
        Some(ThemeArg::Auto)
    } else if crate::text::chars_eq(&l, &chars_of("dark")) {
        Some(ThemeArg::Dark)
    } else if crate::text::chars_eq(&l, &chars_of("light")) {
        Some(ThemeArg::Light)
    } else {
        None
    }
}

/// `--theme` read from the arguments after the program's name, before the
/// real parse: `--theme <value>` (which takes the next argument) or
/// `--theme=<value>`. The first value that names a theme wins; anything
/// else is skipped, for clap to report during the real parse.
pub open spec fn early_theme_from(args: Seq<Seq<char>>) -> ThemeArg
    decreases args.len(),
{
    if args.len() == 0 {
        ThemeArg::Auto
    } else if !has_prefix(args[0], "--theme"@) {
        early_theme_from(args.drop_first())
    } else {
        let tail = args[0].skip(7);
        if tail.len() == 0 {
            if args.len() < 2 {
                ThemeArg::Auto
            } else {
                match theme_value(args[1]) {
                    Some(t) => t,
                    None => early_theme_from(args.skip(2)),
                }
            }
        } else if tail[0] == '=' {
            match theme_value(tail.drop_first()) {
                Some(t) => t,
                None => early_theme_from(args.drop_first()),
            }
        } else {
            early_theme_from(args.drop_first())
        }
    }
}

/// See [`early_theme_from`]. `args` are those after the program's name that
/// are valid UTF-8.
pub fn early_theme(args: &[String]) -> (r: ThemeArg)
    ensures
        r == early_theme_from(crate::text::views(args@)),
{
    let ghost all = crate::text::views(args@);
    let mut i: usize = 0;
    proof {
        assert(all.skip(0) =~= all);
    }
    while i < args.len()
        invariant
            i <= args@.len(),
            all == crate::text::views(args@),
            early_theme_from(all) == early_theme_from(all.skip(i as int)),
        decreases args.len() - i,
    {
        let ghost rest = all.skip(i as int);
        proof {
            assert(rest[0] == args@[i as int]@);
            assert(rest.drop_first() =~= all.skip(i + 1));
        }
        let a = chars_of(args[i].as_str());
        let p = chars_of("--theme");
        proof {
            reveal_strlit("--theme");
        }
        if !crate::text::starts_with(&a, &p) {
            i = i + 1;
        } else if a.len() == 7 {
            proof {
                assert(rest[0].skip(7).len() == 0);
            }
            if i + 1 >= args.len() {
                return ThemeArg::Auto;
            }
            proof {
                assert(rest[1] == args@[i + 1]@);
                assert(rest.skip(2) =~= all.skip(i + 2));
            }
            match parse_theme(args[i + 1].as_str()) {
                Some(t) => {
                    return t;
                },
                None => {
                    i = i + 2;
                },
            }
        } else if a[7] == '=' {
            let value = string_of(&crate::text::subrange(&a, 8, a.len()));
            proof {
                assert(rest[0].skip(7)[0] == a@[7]);
                assert(rest[0].skip(7).drop_first() =~= a@.subrange(8, a@.len() as int));
            }
            match parse_theme(value.as_str()) {
                Some(t) => {
                    return t;
                },
                None => {
                    i = i + 1;
                },
            }
        } else {
            proof {
                assert(rest[0].skip(7)[0] == a@[7]);
            }
            i = i + 1;
        }
    }
    proof {
        assert(all.skip(args@.len() as int).len() == 0);
    }
    ThemeArg::Auto
}

/// The theme a `--theme` resolves to, `detected` being what the terminal
/// reports for `auto`.
pub fn resolve_theme_mode(arg: ThemeArg, detected: ThemeMode) -> (r: ThemeMode)
    ensures
        arg == ThemeArg::Dark ==> r == ThemeMode::Dark,
        arg == ThemeArg::Light ==> r == ThemeMode::Light,
        arg == ThemeArg::Auto ==> r == detected,
{
    match arg {
        ThemeArg::Dark => ThemeMode::Dark,
        ThemeArg::Light => ThemeMode::Light,
        ThemeArg::Auto => detected,
    }
}

/// Whether colored output is emitted at all: not with `--no-color`, a set
/// `NO_COLOR`, a `dumb` terminal, or output that is not a terminal.
pub fn colors_enabled(no_color: bool, no_color_env: bool, dumb_term: bool, stdout_tty: bool) -> (r:
    bool)
    ensures
        r == (!no_color && !no_color_env && !dumb_term && stdout_tty),
{
    !no_color && !no_color_env && !dumb_term && stdout_tty
}

pub open spec fn interrupted_text(command: Seq<char>) -> Seq<char> {
    "A `loom "@ + command
        + "` is paused due to conflicts.\nResolve them, then run `loom continue` to resume, or `loom abort` to cancel."@
}

pub open spec fn finished_by_hand_text(command: Seq<char>) -> Seq<char> {
    "A `loom "@ + command
        + "` is paused, but no rebase is in progress.\nIf you finished it yourself, run `loom continue` to wrap up and clear the state.\nRun `loom abort` to discard it instead."@
}

/// The message that blocks a command while a loom operation is paused.
/// `interrupted` tells whether git still has a rebase or merge going: if
/// not, the user likely finished it by hand, and `loom continue` only has
/// the bookkeeping left to do.
pub fn paused_state_message(command: &str, interrupted: bool) -> (s: String)
    ensures
        interrupted ==> s@ == interrupted_text(command@),
        !interrupted ==> s@ == finished_by_hand_text(command@),
{
    let mut s = owned("A `loom ");
    push_str(&mut s, command);
    if interrupted {
        push_str(
            &mut s,
            "` is paused due to conflicts.\nResolve them, then run `loom continue` to resume, or `loom abort` to cancel.",
        );
    } else {
        push_str(
            &mut s,
            "` is paused, but no rebase is in progress.\nIf you finished it yourself, run `loom continue` to wrap up and clear the state.\nRun `loom abort` to discard it instead.",
        );
    }
    s
}

pub open spec fn patch_refused_text() -> Seq<char> {
    "--patch is interactive and unavailable in agent mode\nPass explicit files instead"@
}

/// The hunk pickers are full-screen terminal UIs, so `-p` is refused in
/// agent mode before any command stages anything.
pub fn patch_in_agent_mode(agent: bool, patch: bool) -> (r: Result<(), String>)
    ensures
        agent && patch ==> (r matches Err(m) && m@ == patch_refused_text()),
        !(agent && patch) ==> r is Ok,
{
    if agent && patch {
        return Err(owned("--patch is interactive and unavailable in agent mode\nPass explicit files instead"));
    }
    Ok(())
}

/// `s` with every occurrence of `p`, left to right and without overlap,
/// replaced by `w` (`str::replace`).
pub open spec fn replace(s: Seq<char>, p: Seq<char>, w: Seq<char>) -> Seq<char>
    decreases s.len(),
{
    if p.len() == 0 {
        interleave(s, w)
    } else if s.len() < p.len() {
        s
    } else if s.take(p.len() as int) == p {
        w + replace(s.skip(p.len() as int), p, w)
    } else {
        seq![s[0]] + replace(s.drop_first(), p, w)
    }
}

/// `w` before every character of `s` and after the last: what replacing
/// the empty pattern gives.
pub open spec fn interleave(s: Seq<char>, w: Seq<char>) -> Seq<char>
    decreases s.len(),
{
    if s.len() == 0 {
        w
    } else {
        interleave(s.drop_last(), w) + seq![s.last()] + w
    }
}

fn interleave_text(v: &[char], w: &str) -> (r: String)
    ensures
        r@ == interleave(v@, w@),
{
    let mut out = crate::text::owned(w);
    let mut i: usize = 0;
    while i < v.len()
        invariant
            i <= v@.len(),
            out@ == interleave(v@.take(i as int), w@),
        decreases v.len() - i,
    {
        proof {
            assert(v@.take(i + 1).drop_last() =~= v@.take(i as int));
        }
        crate::text::push_char(&mut out, v[i]);
        push_str(&mut out, w);
        proof {
            assert(out@ =~= interleave(v@.take(i + 1), w@));
        }
        i = i + 1;
    }
    proof {
        assert(v@.take(v@.len() as int) =~= v@);
    }
    out
}

/// See [`replace`].
pub fn replace_text(s: &str, p: &str, w: &str) -> (r: String)
    ensures
        r@ == replace(s@, p@, w@),
{
    let v = chars_of(s);
    let pv = chars_of(p);
    if pv.len() == 0 {
        return interleave_text(&v, w);
    }
    let mut out = String::new();
    let mut i: usize = 0;
    proof {
        assert(v@.skip(0) =~= v@);
    }
    while i < v.len()
        invariant
            i <= v@.len(),
            v@ == s@,
            pv@ == p@,
            pv@.len() > 0,
            out@ + replace(v@.skip(i as int), p@, w@) == replace(s@, p@, w@),
        decreases v.len() - i,
    {
        let ghost rest = v@.skip(i as int);
        let fits = pv.len() <= v.len() - i;
        let hit = fits && crate::text::chars_eq(&crate::text::subrange(&v, i, i + pv.len()), &pv);
        if hit {
            proof {
                assert(rest.take(pv@.len() as int) =~= v@.subrange(i as int, i + pv@.len()));
                assert(rest.skip(pv@.len() as int) =~= v@.skip(i + pv@.len()));
                assert(out@ + w@ + replace(v@.skip(i + pv@.len()), p@, w@) == out@ + (w@ + replace(
                    rest.skip(pv@.len() as int),
                    p@,
                    w@,
                )));
            }
            push_str(&mut out, w);
            i = i + pv.len();
        } else {
            proof {
                if fits {
                    assert(rest.take(pv@.len() as int) =~= v@.subrange(i as int, i + pv@.len()));
                }
                assert(rest[0] == v@[i as int]);
                assert(rest.drop_first() =~= v@.skip(i + 1));
                assert(out@.push(v@[i as int]) + replace(v@.skip(i + 1), p@, w@) == out@ + (seq![
                    rest[0],
                ] + replace(rest.drop_first(), p@, w@)));
            }
            push_char(&mut out, v[i]);
            i = i + 1;
        }
    }
    proof {
        assert(v@.skip(v@.len() as int).len() == 0);
        assert(out@ + Seq::<char>::empty() =~= out@);
    }
    out
}

/// The help texts' style markers, substituted: `{h}` header, `{l}`
/// literal, `{p}` placeholder, `{r}` the reset. Each is the escape sequence
/// the help style renders to, empty when colors are off.
pub open spec fn styled(t: Seq<char>, h: Seq<char>, l: Seq<char>, p: Seq<char>, r: Seq<char>) -> Seq<
    char,
> {
    replace(replace(replace(replace(t, "{h}"@, h), "{l}"@, l), "{p}"@, p), "{r}"@, r)
}

/// See [`styled`].
pub fn apply_styles(template: &str, header: &str, literal: &str, placeholder: &str, reset: &str) -> (s:
    String)
    ensures
        s@ == styled(template@, header@, literal@, placeholder@, reset@),
{
    proof {
        reveal_strlit("{h}");
        reveal_strlit("{l}");
        reveal_strlit("{p}");
        reveal_strlit("{r}");
    }
    let a = replace_text(template, "{h}", header);
    let b = replace_text(a.as_str(), "{l}", literal);
    let c = replace_text(b.as_str(), "{p}", placeholder);
    replace_text(c.as_str(), "{r}", reset)
}

/// The program's description, with its style markers.
pub const ABOUT: &'static str = "{p}Weave your branches together{r}\nCheckout the full docs here: https://narnaud.github.io/git-loom/";

/// The layout of the help text, with its style markers.
pub const HELP_TEMPLATE: &'static str = "{about-with-newline}\n{usage-heading} {usage}{after-help}\n\n{h}Options:{r}\n{options}\n";

/// The commands, grouped, with their style markers.
pub const GROUPED_COMMANDS: &'static str = "{h}Workflow:{r}\n  {l}init{r}              Initialize a new integration branch\n  {l}update{r}, {l}up{r}        Pull-rebase and update submodules\n  {l}push{r}, {l}pr{r}          Push a branch to remote\n  {l}agent{r}             Install the loom skill for AI agents\n\n{h}Staging:{r}\n  {l}add{r}               Stage files using short IDs or paths [{l}-p{r} for interactive hunks]\n\n{h}Commits:{r}\n  {l}commit{r}, {l}ci{r}        Create a commit on a feature branch [{l}-p{r} for interactive hunks]\n  {l}fold{r}              Amend, fixup, or move commits [{l}-p{r} for interactive hunks] [{l}amend{r}, {l}am{r}, {l}fixup{r}, {l}mv{r}, {l}rub{r}]\n  {l}absorb{r}            Auto-distribute changes into originating commits\n  {l}split{r}             Split a commit into two [{l}-p{r} for interactive hunks]\n  {l}swap{r}              Swap two commits\n  {l}reword{r}, {l}rw{r}        Reword a commit message or rename a branch\n  {l}drop{r}, {l}rm{r}          Drop a change, commit, or branch\n\n{h}Branches:{r}\n  {l}branch{r}, {l}br{r}        Manage feature branches (create, merge, unmerge)\n  {l}switch{r}, {l}sw{r}        Switch to any branch for testing (without weaving)\n\n{h}Inspection:{r}\n  {l}status{r}            Show the branch-aware status ({p}default{r} command)\n  {l}show{r}, {l}sh{r}          Show commit details (like git show)\n  {l}diff{r}, {l}di{r}          Show a diff using short IDs (like git diff)\n  {l}trace{r}             Show the latest command trace\n\n{h}Recovery:{r}\n  {l}continue{r}, {l}c{r}       Resume a paused operation after resolving conflicts\n  {l}abort{r}, {l}a{r}          Cancel a paused operation and restore original state";

} // verus!

verus! {

/// What follows a separator is shorter than the whole.
pub proof fn lemma_split_once_shorter(s: Seq<char>, sep: char)
    ensures
        split_once(s, sep) matches Some((a, b)) ==> a.len() < s.len() && b.len() < s.len(),
    decreases s.len(),
{
    if s.len() > 0 && s[0] != sep {
        lemma_split_once_shorter(s.drop_first(), sep);
    }
}

/// A message cut into the pieces printed plain and the pieces between
/// backticks, printed highlighted, in order. A backtick left without its
/// closing one ends the cut: the text before it, then the whole rest from
/// that text on, are printed plain.
pub open spec fn backtick_spans(s: Seq<char>) -> Seq<(Seq<char>, bool)>
    decreases s.len(),
{
    match split_once(s, '`') {
        None => seq![(s, false)],
        Some((before, after)) => match split_once(after, '`') {
            Some((inner, rest)) => {
                proof {
                    lemma_split_once_shorter(s, '`');
                    lemma_split_once_shorter(after, '`');
                }
                seq![(before, false), (inner, true)] + backtick_spans(rest)
            },
            None => seq![(before, false), (s, false)],
        },
    }
}

/// The pieces, each text by its view.
pub open spec fn span_views(v: Seq<(String, bool)>) -> Seq<(Seq<char>, bool)> {
    v.map_values(|p: (String, bool)| (p.0@, p.1))
}

/// See [`backtick_spans`].
pub fn spans_of(message: &str) -> (r: Vec<(String, bool)>)
    ensures
        span_views(r@) == backtick_spans(message@),
{
    let mut out: Vec<(String, bool)> = Vec::new();
    let mut rest = chars_of(message);
    loop
        invariant
            span_views(out@) + backtick_spans(rest@) == backtick_spans(message@),
        decreases rest@.len(),
    {
        let ghost s = rest@;
        match split_once_chars(&rest, '`') {
            None => {
                let ghost before = span_views(out@);
                out.push((string_of(&rest), false));
                proof {
                    assert(span_views(out@) =~= before.push((s, false)));
                    assert(before.push((s, false)) =~= before + seq![(s, false)]);
                }
                return out;
            },
            Some((before_text, after)) => match split_once_chars(&after, '`') {
                Some((inner, next)) => {
                    let ghost prev = span_views(out@);
                    out.push((string_of(&before_text), false));
                    out.push((string_of(&inner), true));
                    proof {
                        assert(span_views(out@) =~= prev + seq![(before_text@, false), (inner@, true)]);
                        lemma_split_once_shorter(s, '`');
                        lemma_split_once_shorter(after@, '`');
                        assert(prev + seq![(before_text@, false), (inner@, true)] + backtick_spans(next@)
                            =~= prev + (seq![(before_text@, false), (inner@, true)] + backtick_spans(next@)));
                    }
                    rest = next;
                },
                None => {
                    let ghost prev = span_views(out@);
                    out.push((string_of(&before_text), false));
                    out.push((string_of(&rest), false));
                    proof {
                        assert(span_views(out@) =~= prev + seq![(before_text@, false), (s, false)]);
                    }
                    return out;
                },
            },
        }
    }
}

} // verus!
