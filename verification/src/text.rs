//! Character-level text handling: the splitting, trimming and prefix tests
//! that reading git's output takes, over `Seq<char>` in specifications and
//! `Vec<char>` in executable code.
use vstd::prelude::*;

verus! {

/// `char::is_whitespace`: the Unicode `White_Space` property.
pub open spec fn is_ws(c: char) -> bool {
    ||| c == '\t'
    ||| c == '\n'
    ||| c == '\u{0B}'
    ||| c == '\u{0C}'
    ||| c == '\r'
    ||| c == ' '
    ||| c == '\u{85}'
    ||| c == '\u{A0}'
    ||| c == '\u{1680}'
    ||| ('\u{2000}' <= c && c <= '\u{200A}')
    ||| c == '\u{2028}'
    ||| c == '\u{2029}'
    ||| c == '\u{202F}'
    ||| c == '\u{205F}'
    ||| c == '\u{3000}'
}

/// The text without its leading whitespace.
pub open spec fn trim_start(s: Seq<char>) -> Seq<char>
    decreases s.len(),
{
    if s.len() > 0 && is_ws(s[0]) {
        trim_start(s.drop_first())
    } else {
        s
    }
}

/// The text without its trailing whitespace.
pub open spec fn trim_end(s: Seq<char>) -> Seq<char>
    decreases s.len(),
{
    if s.len() > 0 && is_ws(s.last()) {
        trim_end(s.drop_last())
    } else {
        s
    }
}

/// `str::trim`.
pub open spec fn trim(s: Seq<char>) -> Seq<char> {
    trim_end(trim_start(s))
}

/// `str::split(sep)`: every piece between separators, empty ones included.
pub open spec fn split(s: Seq<char>, sep: char) -> Seq<Seq<char>>
    decreases s.len(),
{
    if s.len() == 0 {
        seq![Seq::<char>::empty()]
    } else if s[0] == sep {
        seq![Seq::<char>::empty()] + split(s.drop_first(), sep)
    } else {
        let rest = split(s.drop_first(), sep);
        rest.update(0, seq![s[0]] + rest[0])
    }
}

/// `str::split_once(sep)`: the text before and after the first separator.
pub open spec fn split_once(s: Seq<char>, sep: char) -> Option<(Seq<char>, Seq<char>)>
    decreases s.len(),
{
    if s.len() == 0 {
        None
    } else if s[0] == sep {
        Some((Seq::<char>::empty(), s.drop_first()))
    } else {
        match split_once(s.drop_first(), sep) {
            Some((a, b)) => Some((seq![s[0]] + a, b)),
            None => None,
        }
    }
}

/// A line as `str::lines` yields it: a `\r` ends it only before a `\n`.
pub open spec fn strip_cr(piece: Seq<char>) -> Seq<char> {
    if piece.len() > 0 && piece.last() == '\r' {
        piece.drop_last()
    } else {
        piece
    }
}

/// `str::lines`: the pieces between `\n`s, each without the `\r` of a
/// `\r\n`, and no final empty line after a trailing newline.
pub open spec fn lines(s: Seq<char>) -> Seq<Seq<char>> {
    let pieces = split(s, '\n');
    let kept = if pieces.last().len() == 0 {
        pieces.drop_last()
    } else {
        pieces
    };
    Seq::new(
        kept.len(),
        |i: int|
            if i < pieces.len() - 1 {
                strip_cr(kept[i])
            } else {
                kept[i]
            },
    )
}

/// `str::starts_with`.
pub open spec fn has_prefix(s: Seq<char>, p: Seq<char>) -> bool {
    p.len() <= s.len() && s.take(p.len() as int) == p
}

/// `str::strip_prefix`.
pub open spec fn strip_prefix(s: Seq<char>, p: Seq<char>) -> Option<Seq<char>> {
    if has_prefix(s, p) {
        Some(s.skip(p.len() as int))
    } else {
        None
    }
}

/// Every piece, without the empty ones.
pub open spec fn non_empty(pieces: Seq<Seq<char>>) -> Seq<Seq<char>>
    decreases pieces.len(),
{
    if pieces.len() == 0 {
        seq![]
    } else if pieces.last().len() > 0 {
        non_empty(pieces.drop_last()).push(pieces.last())
    } else {
        non_empty(pieces.drop_last())
    }
}

/// How many bytes UTF-8 takes for the character.
pub open spec fn utf8_len(c: char) -> nat {
    if (c as u32) < 0x80 {
        1
    } else if (c as u32) < 0x800 {
        2
    } else if (c as u32) < 0x10000 {
        3
    } else {
        4
    }
}

/// How many bytes UTF-8 takes for the first `k` characters.
pub open spec fn bytes_of(s: Seq<char>, k: nat) -> nat
    decreases k,
{
    if k == 0 || k > s.len() {
        0
    } else {
        bytes_of(s, (k - 1) as nat) + utf8_len(s[k - 1])
    }
}

/// How many bytes UTF-8 takes for the text (`str::len`).
pub open spec fn byte_len(s: Seq<char>) -> nat {
    bytes_of(s, s.len())
}

/// The number of characters that fill exactly the first `n` bytes, when `n`
/// falls on a character boundary within the text.
pub open spec fn chars_in_bytes(s: Seq<char>, n: nat) -> Option<nat> {
    if exists|k: nat| k <= s.len() && bytes_of(s, k) == n {
        Some(choose|k: nat| k <= s.len() && bytes_of(s, k) == n)
    } else {
        None
    }
}

/// The characters as UTF-8 takes them, each one byte or more.
pub fn utf8_width(c: char) -> (n: usize)
    ensures
        n == utf8_len(c),
{
    let u = c as u32;
    if u < 0x80 {
        1
    } else if u < 0x800 {
        2
    } else if u < 0x10000 {
        3
    } else {
        4
    }
}

pub proof fn lemma_bytes_of_grows(s: Seq<char>, j: nat, k: nat)
    requires
        j < k <= s.len(),
    ensures
        bytes_of(s, j) < bytes_of(s, k),
    decreases k,
{
    if j < k - 1 {
        lemma_bytes_of_grows(s, j, (k - 1) as nat);
    }
}

/// The first characters of `v` that fill exactly `n` bytes, or `None` when
/// the text is longer and byte `n` falls inside a character.
pub fn byte_prefix(v: &[char], n: usize) -> (r: Option<usize>)
    ensures
        match r {
            Some(k) => k <= v@.len() && bytes_of(v@, k as nat) == n,
            None => chars_in_bytes(v@, n as nat) is None,
        },
        r is Some ==> chars_in_bytes(v@, n as nat) == Some(r->0 as nat),
{
    let mut k: usize = 0;
    let mut b: u128 = 0;
    let m: u128 = n as u128;
    while k < v.len() && b < m
        invariant
            k <= v@.len(),
            m == n,
            b == bytes_of(v@, k as nat),
            b <= n + 4,
            forall|j: nat| j < k ==> bytes_of(v@, j) < n,
        decreases v.len() - k,
    {
        proof {
            if k > 0 {
                assert(bytes_of(v@, k as nat) < n);
            }
        }
        b = b + utf8_width(v[k]) as u128;
        k = k + 1;
    }
    proof {
        if b == n {
            assert forall|j: nat| j <= v@.len() && bytes_of(v@, j) == n implies j == k by {
                if j < k {
                } else if j > k {
                    lemma_bytes_of_grows(v@, k as nat, j);
                }
            }
        } else {
            assert forall|j: nat| j <= v@.len() implies bytes_of(v@, j) != n by {
                if j < k {
                } else if j > k {
                    lemma_bytes_of_grows(v@, k as nat, j);
                }
            }
        }
    }
    if b == m {
        Some(k)
    } else {
        None
    }
}

/// Rows of characters, each one as its view.
pub open spec fn rows(v: Seq<Vec<char>>) -> Seq<Seq<char>> {
    v.map_values(|x: Vec<char>| x@)
}

/// A list of texts, each one as its view.
pub open spec fn views(v: Seq<String>) -> Seq<Seq<char>> {
    v.map_values(|s: String| s@)
}

/// The pieces with `sep` between each two.
pub open spec fn join(pieces: Seq<Seq<char>>, sep: Seq<char>) -> Seq<char>
    decreases pieces.len(),
{
    if pieces.len() == 0 {
        Seq::<char>::empty()
    } else if pieces.len() == 1 {
        pieces[0]
    } else {
        join(pieces.drop_last(), sep) + sep + pieces.last()
    }
}

/// Whether `s` is one of the texts.
pub fn contains_text(list: &[String], s: &String) -> (b: bool)
    ensures
        b == views(list@).contains(s@),
{
    let mut i: usize = 0;
    while i < list.len()
        invariant
            i <= list@.len(),
            forall|k: int| 0 <= k < i ==> list@[k]@ != s@,
        decreases list.len() - i,
    {
        if list[i] == *s {
            proof {
                assert(views(list@)[i as int] == s@);
            }
            return true;
        }
        i = i + 1;
    }
    proof {
        if views(list@).contains(s@) {
            let k = choose|k: int| 0 <= k < views(list@).len() && views(list@)[k] == s@;
            assert(list@[k]@ == s@);
        }
    }
    false
}

/// The texts with `sep` between each two.
pub fn join_texts(pieces: &[String], sep: &str) -> (r: String)
    ensures
        r@ == join(views(pieces@), sep@),
{
    let mut r = String::new();
    let mut i: usize = 0;
    while i < pieces.len()
        invariant
            i <= pieces@.len(),
            r@ == join(views(pieces@).take(i as int), sep@),
        decreases pieces.len() - i,
    {
        let ghost before = views(pieces@).take(i as int);
        proof {
            let t = views(pieces@).take(i + 1);
            assert(t.drop_last() =~= before);
            assert(t.last() == pieces@[i as int]@);
        }
        if i > 0 {
            push_str(&mut r, sep);
        }
        push_str(&mut r, pieces[i].as_str());
        proof {
            if i == 0 {
                assert(r@ =~= views(pieces@).take(1)[0]);
            }
        }
        i = i + 1;
    }
    proof {
        assert(views(pieces@).take(pieces@.len() as int) =~= views(pieces@));
    }
    r
}

/// The non-empty rows, each as a `String`.
pub fn non_empty_texts(pieces: &[Vec<char>]) -> (r: Vec<String>)
    ensures
        views(r@) == non_empty(rows(pieces@)),
{
    let mut r: Vec<String> = Vec::new();
    let mut i: usize = 0;
    while i < pieces.len()
        invariant
            i <= pieces@.len(),
            views(r@) == non_empty(rows(pieces@).take(i as int)),
        decreases pieces.len() - i,
    {
        proof {
            let t = rows(pieces@).take(i + 1);
            assert(t.drop_last() =~= rows(pieces@).take(i as int));
            assert(t.last() == pieces@[i as int]@);
        }
        if pieces[i].len() > 0 {
            let ghost before = views(r@);
            r.push(string_of(&pieces[i]));
            proof {
                assert(views(r@) =~= before.push(pieces@[i as int]@));
            }
        }
        i = i + 1;
    }
    proof {
        assert(rows(pieces@).take(pieces@.len() as int) =~= rows(pieces@));
    }
    r
}

pub open spec fn is_digit(c: char) -> bool {
    '0' <= c && c <= '9'
}

/// The value of a run of decimal digits.
pub open spec fn digits_value(d: Seq<char>) -> nat
    decreases d.len(),
{
    if d.len() == 0 {
        0
    } else {
        digits_value(d.drop_last()) * 10 + ((d.last() as u32) - ('0' as u32)) as nat
    }
}

/// The digits of `u32::from_str`: an optional `+`, then at least one digit.
pub open spec fn u32_digits(s: Seq<char>) -> Seq<char> {
    if s.len() > 0 && s[0] == '+' {
        s.drop_first()
    } else {
        s
    }
}

/// `FromStr` of an unsigned integer type whose largest value is `max`:
/// decimal digits after an optional `+`, no more than `max`.
pub open spec fn parse_unsigned(s: Seq<char>, max: nat) -> Option<nat> {
    let d = u32_digits(s);
    if d.len() > 0 && (forall|i: int| 0 <= i < d.len() ==> is_digit(d[i])) && digits_value(d)
        <= max {
        Some(digits_value(d))
    } else {
        None
    }
}

/// `u32::from_str`.
pub open spec fn parse_u32(s: Seq<char>) -> Option<u32> {
    match parse_unsigned(s, u32::MAX as nat) {
        Some(n) => Some(n as u32),
        None => None,
    }
}

/// `usize::from_str`.
pub open spec fn parse_usize(s: Seq<char>) -> Option<usize> {
    match parse_unsigned(s, usize::MAX as nat) {
        Some(n) => Some(n as usize),
        None => None,
    }
}

proof fn lemma_digits_value_grows(d: Seq<char>, k: int)
    requires
        0 <= k <= d.len(),
        forall|i: int| 0 <= i < d.len() ==> is_digit(d[i]),
    ensures
        digits_value(d.take(k)) <= digits_value(d),
    decreases d.len() - k,
{
    if k < d.len() {
        lemma_digits_value_grows(d, k + 1);
        assert(d.take(k + 1).drop_last() =~= d.take(k));
    } else {
        assert(d.take(k) =~= d);
    }
}

/// `FromStr` of an unsigned integer type no larger than 64 bits, over
/// characters.
pub fn parse_unsigned_chars(v: &[char], max: u64) -> (r: Option<u64>)
    ensures
        match parse_unsigned(v@, max as nat) {
            Some(n) => r == Some(n as u64),
            None => r is None,
        },
{
    let start: usize = if v.len() > 0 && v[0] == '+' {
        1
    } else {
        0
    };
    let ghost d = u32_digits(v@);
    proof {
        assert(d =~= v@.skip(start as int));
    }
    if start >= v.len() {
        return None;
    }
    let mut value: u128 = 0;
    let mut i: usize = start;
    while i < v.len()
        invariant
            start <= i <= v@.len(),
            d == v@.skip(start as int),
            d == u32_digits(v@),
            d.len() > 0,
            forall|k: int| 0 <= k < i - start ==> is_digit(d[k]),
            value == digits_value(d.take(i - start)),
            value <= max,
        decreases v.len() - i,
    {
        let c = v[i];
        proof {
            assert(d[i - start] == c);
        }
        if !('0' <= c && c <= '9') {
            proof {
                let j = (i - start) as int;
                assert(0 <= j < d.len());
                assert(!is_digit(d[j]));
                assert(!(forall|k: int| 0 <= k < d.len() ==> is_digit(d[k])));
            }
            return None;
        }
        proof {
            assert(d.take(i - start + 1).drop_last() =~= d.take(i - start));
            assert(d.take(i - start + 1).last() == c);
        }
        let next: u128 = value * 10 + ((c as u32) - ('0' as u32)) as u128;
        if next > max as u128 {
            proof {
                assert(digits_value(d.take(i - start + 1)) == next);
                if forall|k: int| 0 <= k < d.len() ==> is_digit(d[k]) {
                    lemma_digits_value_grows(d, i - start + 1);
                    assert(digits_value(d) > max);
                }
            }
            return None;
        }
        value = next;
        i = i + 1;
    }
    proof {
        assert(d.take(i - start) =~= d);
    }
    Some(value as u64)
}

/// `u32::from_str` over characters.
pub fn parse_u32_chars(v: &[char]) -> (r: Option<u32>)
    ensures
        r == parse_u32(v@),
{
    match parse_unsigned_chars(v, 0xffff_ffff) {
        Some(n) => Some(n as u32),
        None => None,
    }
}

/// `usize::from_str` of a text.
pub fn parse_usize_str(s: &str) -> (r: Option<usize>)
    ensures
        r == parse_usize(s@),
{
    let v = chars_of(s);
    match parse_unsigned_chars(&v, usize::MAX as u64) {
        Some(n) => Some(n as usize),
        None => None,
    }
}

/// The decimal digits of `n`, as `Display` writes them.
pub open spec fn decimal(n: nat) -> Seq<char>
    decreases n,
{
    if n < 10 {
        seq![(('0' as u32) + n) as char]
    } else {
        decimal(n / 10).push((('0' as u32) + (n % 10)) as char)
    }
}

/// `n.to_string()`.
pub fn decimal_text(n: u64) -> (s: String)
    ensures
        s@ == decimal(n as nat),
    decreases n,
{
    let d = (n % 10) as u8;
    let c = (48u8 + d) as char;
    if n < 10 {
        let mut s = String::new();
        push_char(&mut s, c);
        proof {
            assert(s@ =~= decimal(n as nat));
        }
        s
    } else {
        let mut s = decimal_text(n / 10);
        push_char(&mut s, c);
        s
    }
}

/// Appends one character with std's `String::push`; the contract claims
/// that the text gains exactly that character at its end.
#[verifier::external_body]
pub(crate) fn push_char(s: &mut String, c: char)
    ensures
        final(s)@ == old(s)@.push(c),
{
    s.push(c);
}

/// Appends a text.
pub(crate) fn push_str(s: &mut String, t: &str)
    ensures
        final(s)@ == old(s)@ + t@,
{
    s.append(t);
}

/// Whether `v` starts with `p`.
pub fn starts_with(v: &[char], p: &[char]) -> (b: bool)
    ensures
        b == has_prefix(v@, p@),
{
    if p.len() > v.len() {
        return false;
    }
    let mut i: usize = 0;
    while i < p.len()
        invariant
            i <= p@.len() <= v@.len(),
            forall|k: int| 0 <= k < i ==> v@[k] == p@[k],
        decreases p.len() - i,
    {
        if v[i] != p[i] {
            proof {
                assert(v@.take(p@.len() as int)[i as int] != p@[i as int]);
            }
            return false;
        }
        i = i + 1;
    }
    proof {
        assert(v@.take(p@.len() as int) =~= p@);
    }
    true
}

/// Whether two character sequences are equal.
pub fn chars_eq(a: &[char], b: &[char]) -> (r: bool)
    ensures
        r == (a@ == b@),
{
    if a.len() != b.len() {
        return false;
    }
    let r = starts_with(a, b);
    proof {
        if r {
            assert(a@.take(b@.len() as int) =~= a@);
        } else {
            assert(a@ != b@ ==> true);
            if a@ == b@ {
                assert(a@.take(b@.len() as int) =~= b@);
            }
        }
    }
    r
}

/// The text as a vector of characters.
pub fn chars_of(s: &str) -> (v: Vec<char>)
    ensures
        v@ == s@,
{
    let mut v: Vec<char> = Vec::new();
    for c in it: s.chars()
        invariant
            v@ == it.seq().take(it.index() as int),
    {
        v.push(c);
    }
    v
}

/// The characters `v[start..end]` as a `String`.
pub fn string_of_range(v: &[char], start: usize, end: usize) -> (s: String)
    requires
        start <= end <= v@.len(),
    ensures
        s@ == v@.subrange(start as int, end as int),
{
    let mut s = String::new();
    let mut i: usize = start;
    while i < end
        invariant
            start <= i <= end <= v@.len(),
            s@ == v@.subrange(start as int, i as int),
        decreases end - i,
    {
        push_char(&mut s, v[i]);
        proof {
            assert(v@.subrange(start as int, i + 1) =~= v@.subrange(start as int, i as int).push(
                v@[i as int],
            ));
        }
        i = i + 1;
    }
    s
}

/// The characters `v[start..end]`.
pub fn subrange(v: &[char], start: usize, end: usize) -> (r: Vec<char>)
    requires
        start <= end <= v@.len(),
    ensures
        r@ == v@.subrange(start as int, end as int),
{
    let mut r: Vec<char> = Vec::new();
    let mut i = start;
    while i < end
        invariant
            start <= i <= end <= v@.len(),
            r@ == v@.subrange(start as int, i as int),
        decreases end - i,
    {
        r.push(v[i]);
        proof {
            assert(v@.subrange(start as int, i + 1) =~= v@.subrange(start as int, i as int).push(
                v@[i as int],
            ));
        }
        i = i + 1;
    }
    r
}

/// The characters as a `String`.
pub fn string_of(v: &[char]) -> (s: String)
    ensures
        s@ == v@,
{
    let s = string_of_range(v, 0, v.len());
    proof {
        assert(v@.subrange(0, v@.len() as int) =~= v@);
    }
    s
}

/// Whether two texts are the same characters.
pub fn text_eq(a: &str, b: &str) -> (r: bool)
    ensures
        r == (a@ == b@),
{
    chars_eq(&chars_of(a), &chars_of(b))
}

/// A `String` holding the given text.
pub fn owned(x: &str) -> (s: String)
    ensures
        s@ == x@,
{
    x.to_owned()
}

/// `char::is_whitespace`.
pub fn is_whitespace(c: char) -> (b: bool)
    ensures
        b == is_ws(c),
{
    c == '\t' || c == '\n' || c == '\u{0B}' || c == '\u{0C}' || c == '\r' || c == ' ' || c
        == '\u{85}' || c == '\u{A0}' || c == '\u{1680}' || ('\u{2000}' <= c && c <= '\u{200A}')
        || c == '\u{2028}' || c == '\u{2029}' || c == '\u{202F}' || c == '\u{205F}' || c
        == '\u{3000}'
}

proof fn lemma_trim_start_skip(s: Seq<char>, i: int)
    requires
        0 <= i < s.len(),
        is_ws(s[i]),
    ensures
        trim_start(s.skip(i)) == trim_start(s.skip(i + 1)),
{
    assert(s.skip(i).drop_first() =~= s.skip(i + 1));
}

proof fn lemma_trim_end_take(s: Seq<char>, j: int)
    requires
        0 < j <= s.len(),
        is_ws(s[j - 1]),
    ensures
        trim_end(s.take(j)) == trim_end(s.take(j - 1)),
{
    assert(s.take(j).drop_last() =~= s.take(j - 1));
}

/// The bounds `(start, end)` of the text without surrounding whitespace.
pub fn trim_bounds(v: &[char]) -> (r: (usize, usize))
    ensures
        r.0 <= r.1 <= v@.len(),
        v@.subrange(r.0 as int, r.1 as int) == trim(v@),
{
    let mut i: usize = 0;
    assert(v@.skip(0) =~= v@);
    while i < v.len() && is_whitespace(v[i])
        invariant
            i <= v@.len(),
            trim_start(v@) == trim_start(v@.skip(i as int)),
        decreases v.len() - i,
    {
        proof {
            lemma_trim_start_skip(v@, i as int);
        }
        i = i + 1;
    }
    let ghost rest = v@.skip(i as int);
    assert(trim_start(v@) == rest) by {
        if rest.len() > 0 {
            assert(rest[0] == v@[i as int]);
        }
    }
    let mut j: usize = v.len();
    assert(rest.take(j - i) =~= rest);
    while j > i && is_whitespace(v[j - 1])
        invariant
            i <= j <= v@.len(),
            rest == v@.skip(i as int),
            trim_end(rest) == trim_end(rest.take(j - i)),
        decreases j,
    {
        proof {
            lemma_trim_end_take(rest, j - i);
        }
        j = j - 1;
    }
    assert(trim_end(rest.take(j - i)) == rest.take(j - i)) by {
        if j > i {
            assert(rest.take(j - i).last() == v@[j - 1]);
        }
    }
    assert(v@.subrange(i as int, j as int) =~= rest.take(j - i));
    (i, j)
}

/// `str::trim`, as a `String`.
pub fn trimmed(v: &[char]) -> (s: String)
    ensures
        s@ == trim(v@),
{
    let (a, b) = trim_bounds(v);
    string_of_range(v, a, b)
}

/// `str::trim` of a text.
pub fn trim_str(s: &str) -> (r: String)
    ensures
        r@ == trim(s@),
{
    let v = chars_of(s);
    trimmed(&v)
}

proof fn lemma_split_nonempty(s: Seq<char>, sep: char)
    ensures
        split(s, sep).len() >= 1,
    decreases s.len(),
{
    if s.len() > 0 {
        lemma_split_nonempty(s.drop_first(), sep);
    }
}

/// The piece `cur` goes in front of the first piece of `rest`.
pub open spec fn prepend(cur: Seq<char>, rest: Seq<Seq<char>>) -> Seq<Seq<char>> {
    rest.update(0, cur + rest[0])
}

proof fn lemma_split_step(s: Seq<char>, sep: char, i: int, done: Seq<Seq<char>>, cur: Seq<char>)
    requires
        0 <= i < s.len(),
        split(s, sep) == done + prepend(cur, split(s.skip(i), sep)),
    ensures
        s[i] == sep ==> split(s, sep) == done.push(cur) + prepend(
            Seq::<char>::empty(),
            split(s.skip(i + 1), sep),
        ),
        s[i] != sep ==> split(s, sep) == done + prepend(cur.push(s[i]), split(s.skip(i + 1), sep)),
{
    let t = s.skip(i);
    assert(t.drop_first() =~= s.skip(i + 1));
    assert(t[0] == s[i]);
    let r = split(s.skip(i + 1), sep);
    lemma_split_nonempty(s.skip(i + 1), sep);
    if s[i] == sep {
        assert(split(t, sep) == seq![Seq::<char>::empty()] + r);
        assert(prepend(cur, split(t, sep)) =~= seq![cur] + prepend(Seq::<char>::empty(), r)) by {
            assert(Seq::<char>::empty() + r[0] =~= r[0]);
            assert(cur + Seq::<char>::empty() =~= cur);
        }
        assert(done + (seq![cur] + prepend(Seq::<char>::empty(), r)) =~= done.push(cur) + prepend(
            Seq::<char>::empty(),
            r,
        ));
    } else {
        assert(split(t, sep) == r.update(0, seq![s[i]] + r[0]));
        assert(prepend(cur, split(t, sep)) =~= prepend(cur.push(s[i]), r)) by {
            assert(cur + (seq![s[i]] + r[0]) =~= cur.push(s[i]) + r[0]);
        }
    }
}

/// `str::split(sep)` over characters: every piece, empty ones included.
pub fn split_chars(v: &[char], sep: char) -> (r: Vec<Vec<char>>)
    ensures
        rows(r@) == split(v@, sep),
{
    let mut done: Vec<Vec<char>> = Vec::new();
    let mut cur: Vec<char> = Vec::new();
    let mut i: usize = 0;
    proof {
        assert(v@.skip(0) =~= v@);
        lemma_split_nonempty(v@, sep);
        assert(prepend(Seq::<char>::empty(), split(v@, sep)) =~= split(v@, sep)) by {
            assert(Seq::<char>::empty() + split(v@, sep)[0] =~= split(v@, sep)[0]);
        }
        assert(rows(done@) + split(v@, sep) =~= split(v@, sep));
    }
    while i < v.len()
        invariant
            i <= v@.len(),
            split(v@, sep) == rows(done@) + prepend(cur@, split(v@.skip(i as int), sep)),
        decreases v.len() - i,
    {
        proof {
            lemma_split_step(v@, sep, i as int, rows(done@), cur@);
        }
        if v[i] == sep {
            let ghost old_done = rows(done@);
            let piece = cur;
            done.push(piece);
            cur = Vec::new();
            proof {
                assert(rows(done@) =~= old_done.push(piece@));
            }
        } else {
            cur.push(v[i]);
        }
        i = i + 1;
    }
    proof {
        assert(v@.skip(i as int) =~= Seq::<char>::empty());
        assert(prepend(cur@, seq![Seq::<char>::empty()]) =~= seq![cur@]) by {
            assert(cur@ + Seq::<char>::empty() =~= cur@);
        }
    }
    let ghost old_done = rows(done@);
    let piece = cur;
    done.push(piece);
    proof {
        assert(rows(done@) =~= old_done.push(piece@));
        assert(old_done + seq![piece@] =~= old_done.push(piece@));
    }
    done
}

/// The lines of the text, as `str::lines` yields them.
pub fn lines_of(v: &[char]) -> (r: Vec<Vec<char>>)
    ensures
        rows(r@) == lines(v@),
{
    let pieces = split_chars(v, '\n');
    proof {
        lemma_split_nonempty(v@, '\n');
    }
    let n = pieces.len();
    let keep = if pieces[n - 1].len() == 0 {
        n - 1
    } else {
        n
    };
    let ghost spec_pieces = split(v@, '\n');
    let mut out: Vec<Vec<char>> = Vec::new();
    let mut i: usize = 0;
    while i < keep
        invariant
            i <= keep <= n,
            n == pieces@.len(),
            rows(pieces@) == spec_pieces,
            spec_pieces == split(v@, '\n'),
            keep == lines(v@).len(),
            out@.len() == i,
            forall|k: int| 0 <= k < i ==> #[trigger] out@[k]@ == lines(v@)[k],
        decreases keep - i,
    {
        let piece = &pieces[i];
        let m = piece.len();
        let mut line: Vec<char> = Vec::new();
        let cut = if i + 1 < n && m > 0 && piece[m - 1] == '\r' {
            m - 1
        } else {
            m
        };
        let mut j: usize = 0;
        while j < cut
            invariant
                j <= cut <= m,
                m == piece@.len(),
                line@ == piece@.take(j as int),
            decreases cut - j,
        {
            line.push(piece[j]);
            j = j + 1;
        }
        proof {
            assert(spec_pieces[i as int] == piece@);
            if i + 1 < n {
                assert(line@ =~= strip_cr(piece@));
            } else {
                assert(line@ =~= piece@);
            }
        }
        out.push(line);
        i = i + 1;
    }
    proof {
        assert(rows(out@) =~= lines(v@));
    }
    out
}

/// The position of the first `sep`, if there is one.
pub fn find_char(v: &[char], sep: char) -> (r: Option<usize>)
    ensures
        match r {
            Some(i) => i < v@.len() && v@[i as int] == sep && forall|k: int|
                0 <= k < i ==> v@[k] != sep,
            None => forall|k: int| 0 <= k < v@.len() ==> v@[k] != sep,
        },
{
    let mut i: usize = 0;
    while i < v.len()
        invariant
            i <= v@.len(),
            forall|k: int| 0 <= k < i ==> v@[k] != sep,
        decreases v.len() - i,
    {
        if v[i] == sep {
            return Some(i);
        }
        i = i + 1;
    }
    None
}

/// `split_once` in terms of the first separator.
#[verifier::spinoff_prover]
#[verifier::rlimit(40)]
pub proof fn lemma_split_once(s: Seq<char>, sep: char)
    ensures
        (forall|k: int| 0 <= k < s.len() ==> s[k] != sep) ==> split_once(s, sep) is None,
        forall|i: int|
            #![trigger s[i]]
            0 <= i < s.len() && s[i] == sep && (forall|k: int| 0 <= k < i ==> s[k] != sep)
                ==> split_once(s, sep) == Some((s.take(i), s.skip(i + 1))),
    decreases s.len(),
{
    if s.len() > 0 {
        let t = s.drop_first();
        lemma_split_once(t, sep);
        assert forall|i: int|
            #![trigger s[i]]
            0 <= i < s.len() && s[i] == sep && (forall|k: int| 0 <= k < i ==> s[k] != sep)
                implies split_once(s, sep) == Some((s.take(i), s.skip(i + 1))) by {
            if i == 0 {
                assert(s.take(0) =~= Seq::<char>::empty());
                assert(s.skip(1) =~= t);
            } else {
                assert(s[0] != sep);
                assert(t[i - 1] == s[i]);
                assert forall|k: int| 0 <= k < i - 1 implies t[k] != sep by {
                    assert(t[k] == s[k + 1]);
                }
                assert(seq![s[0]] + t.take(i - 1) =~= s.take(i));
                assert(t.skip(i) =~= s.skip(i + 1));
            }
        }
        if forall|k: int| 0 <= k < s.len() ==> s[k] != sep {
            assert(s[0] != sep);
            assert forall|k: int| 0 <= k < t.len() implies t[k] != sep by {
                assert(t[k] == s[k + 1]);
            }
        }
    }
}

} // verus!

verus! {

/// See [`split_once`].
pub fn split_once_chars(v: &[char], sep: char) -> (r: Option<(Vec<char>, Vec<char>)>)
    ensures
        match split_once(v@, sep) {
            Some((a, b)) => r matches Some((x, y)) && x@ == a && y@ == b,
            None => r is None,
        },
{
    proof {
        lemma_split_once(v@, sep);
    }
    match find_char(v, sep) {
        None => None,
        Some(i) => {
            assert(i < v.len());
            let a = subrange(v, 0, i);
            let b = subrange(v, i + 1, v.len());
            proof {
                assert(v@[i as int] == sep);
                assert(v@.subrange(0, i as int) =~= v@.take(i as int));
                assert(v@.subrange(i + 1, v@.len() as int) =~= v@.skip(i + 1));
            }
            Some((a, b))
        },
    }
}

/// The characters without leading and trailing whitespace.
pub fn trim_chars(v: &[char]) -> (r: Vec<char>)
    ensures
        r@ == trim(v@),
{
    let (a, b) = trim_bounds(v);
    subrange(v, a, b)
}

} // verus!

verus! {

/// `str::contains`: `p` occurs somewhere in `s`.
pub open spec fn has_infix(s: Seq<char>, p: Seq<char>) -> bool {
    exists|i: int| 0 <= i && i + p.len() <= s.len() && #[trigger] s.subrange(i, i + p.len()) == p
}

/// See [`has_infix`].
pub fn contains_str(s: &str, p: &str) -> (r: bool)
    ensures
        r == has_infix(s@, p@),
{
    let v = chars_of(s);
    let w = chars_of(p);
    if w.len() > v.len() {
        proof {
            assert forall|i: int| 0 <= i && i + w@.len() <= v@.len() implies #[trigger] v@.subrange(
                i,
                i + w@.len(),
            ) != w@ by {}
        }
        return false;
    }
    let n: usize = v.len();
    let last = n - w.len();
    let mut i: usize = 0;
    loop
        invariant
            n == v@.len(),
            v@ == s@,
            w@ == p@,
            w@.len() <= v@.len(),
            last == v@.len() - w@.len(),
            i <= last,
            forall|k: int| 0 <= k < i ==> #[trigger] v@.subrange(k, k + w@.len()) != w@,
        decreases last - i,
    {
        let piece = subrange(&v, i, i + w.len());
        if chars_eq(&piece, &w) {
            return true;
        }
        if i == last {
            return false;
        }
        i = i + 1;
    }
}

} // verus!
