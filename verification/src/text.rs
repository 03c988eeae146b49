//! Character-level text helpers: lines, whitespace-separated words, and
//! number rendering, each with a specification over `Seq<char>`.

use vstd::prelude::*;

verus! {

/// Collect the characters of a string slice into a vector.
pub fn chars_of(s: &str) -> (v: Vec<char>)
    ensures
        v@ == s@,
{
    let mut v: Vec<char> = Vec::new();
    for c in it: s.chars()
        invariant
            v@ == it.seq().take(it.index() as int),
            it.seq() == s@,
    {
        v.push(c);
    }
    v
}

// ---------------------------------------------------------------------------
// Whitespace
// ---------------------------------------------------------------------------

/// The Unicode `White_Space` property, which is what `char::is_whitespace` tests.
pub open spec fn is_ws(c: char) -> bool {
    ||| ('\u{9}' <= c && c <= '\u{d}')
    ||| c == ' '
    ||| c == '\u{85}'
    ||| c == '\u{a0}'
    ||| c == '\u{1680}'
    ||| ('\u{2000}' <= c && c <= '\u{200a}')
    ||| c == '\u{2028}'
    ||| c == '\u{2029}'
    ||| c == '\u{202f}'
    ||| c == '\u{205f}'
    ||| c == '\u{3000}'
}

/// Whether `c` is Unicode whitespace.
pub fn char_is_ws(c: char) -> (r: bool)
    ensures
        r == is_ws(c),
{
    ('\u{9}' <= c && c <= '\u{d}') || c == ' ' || c == '\u{85}' || c == '\u{a0}' || c
        == '\u{1680}' || ('\u{2000}' <= c && c <= '\u{200a}') || c == '\u{2028}' || c
        == '\u{2029}' || c == '\u{202f}' || c == '\u{205f}' || c == '\u{3000}'
}

/// A line holds something besides whitespace (`!line.trim().is_empty()`).
pub open spec fn has_content(line: Seq<char>) -> bool {
    exists|i: int| 0 <= i < line.len() && !is_ws(#[trigger] line[i])
}

// ---------------------------------------------------------------------------
// Lines
// ---------------------------------------------------------------------------

/// Index of the first `'\n'` at or after `p`, or the length of `s` if there is none.
pub open spec fn line_end(s: Seq<char>, p: int) -> int
    decreases s.len() - p,
{
    if p >= s.len() {
        s.len() as int
    } else if s[p] == '\n' {
        p
    } else {
        line_end(s, p + 1)
    }
}

pub proof fn lemma_line_end(s: Seq<char>, p: int)
    requires
        0 <= p <= s.len(),
    ensures
        p <= line_end(s, p) <= s.len(),
        line_end(s, p) < s.len() ==> s[line_end(s, p)] == '\n',
        forall|j: int| p <= j < line_end(s, p) ==> s[j] != '\n',
    decreases s.len() - p,
{
    if p < s.len() && s[p] != '\n' {
        lemma_line_end(s, p + 1);
    }
}

/// A data line of an observation feed: it has content and is not a `#` header.
pub open spec fn is_data_line(line: Seq<char>) -> bool {
    has_content(line) && !(line.len() > 0 && line[0] == '#')
}

/// The first data line among the lines of `s` that start at or after `p`.
///
/// Lines are the pieces of `s` between `'\n'` characters.  A `'\r'` before a
/// `'\n'` stays on its line; it is whitespace, so it changes neither which line
/// is a data line nor the words of that line.
pub open spec fn first_data_line_from(s: Seq<char>, p: int) -> Option<Seq<char>>
    decreases s.len() - p,
{
    if p < 0 || p >= s.len() {
        None
    } else {
        proof {
            lemma_line_end(s, p);
        }
        let e = line_end(s, p);
        if is_data_line(s.subrange(p, e)) {
            Some(s.subrange(p, e))
        } else if e >= s.len() {
            None
        } else {
            first_data_line_from(s, e + 1)
        }
    }
}

/// The first line of `s` that has content and does not start with `#`.
pub open spec fn first_data_line(s: Seq<char>) -> Option<Seq<char>> {
    first_data_line_from(s, 0)
}

/// Whether `s[a..b]` is a data line.
fn range_is_data_line(s: &Vec<char>, a: usize, b: usize) -> (r: bool)
    requires
        a <= b <= s.len(),
    ensures
        r == is_data_line(s@.subrange(a as int, b as int)),
{
    let ghost line = s@.subrange(a as int, b as int);
    if a < b && s[a] == '#' {
        return false;
    }
    let mut i = a;
    while i < b
        invariant
            a <= i <= b <= s.len(),
            line == s@.subrange(a as int, b as int),
            a < b ==> s@[a as int] != '#',
            forall|j: int| 0 <= j < i - a ==> is_ws(#[trigger] line[j]),
        decreases b - i,
    {
        if !char_is_ws(s[i]) {
            assert(!is_ws(line[i - a]));
            assert(line[0] == s@[a as int]);
            return true;
        }
        i = i + 1;
    }
    false
}

/// Locate the first data line of `s`, as the range `(start, end)` of its characters.
pub fn find_first_data_line(s: &Vec<char>) -> (r: Option<(usize, usize)>)
    ensures
        match r {
            Some((a, b)) => {
                &&& a <= b <= s.len()
                &&& first_data_line(s@) == Some(s@.subrange(a as int, b as int))
            },
            None => first_data_line(s@) is None,
        },
{
    let n = s.len();
    let mut p: usize = 0;
    while p < n
        invariant
            n == s.len(),
            p <= n,
            first_data_line(s@) == first_data_line_from(s@, p as int),
        decreases n - p,
    {
        let mut e = p;
        while e < n && s[e] != '\n'
            invariant
                p <= e <= n,
                n == s.len(),
                line_end(s@, p as int) == line_end(s@, e as int),
            decreases n - e,
        {
            e = e + 1;
        }
        proof {
            lemma_line_end(s@, p as int);
        }
        if range_is_data_line(s, p, e) {
            return Some((p, e));
        }
        if e >= n {
            // Nothing follows this line.
            return None;
        }
        p = e + 1;
    }
    None
}

// ---------------------------------------------------------------------------
// Words
// ---------------------------------------------------------------------------

/// Index of the first whitespace character at or after `p`, or the length of `s`.
pub open spec fn word_end(s: Seq<char>, p: int) -> int
    decreases s.len() - p,
{
    if p >= s.len() {
        s.len() as int
    } else if is_ws(s[p]) {
        p
    } else {
        word_end(s, p + 1)
    }
}

pub proof fn lemma_word_end(s: Seq<char>, p: int)
    requires
        0 <= p <= s.len(),
    ensures
        p <= word_end(s, p) <= s.len(),
        p < s.len() && !is_ws(s[p]) ==> p < word_end(s, p),
        word_end(s, p) < s.len() ==> is_ws(s[word_end(s, p)]),
        forall|j: int| p <= j < word_end(s, p) ==> !is_ws(s[j]),
    decreases s.len() - p,
{
    if p < s.len() && !is_ws(s[p]) {
        lemma_word_end(s, p + 1);
    }
}

/// The maximal runs of non-whitespace characters of `s` from position `p` on, in order.
pub open spec fn words_from(s: Seq<char>, p: int) -> Seq<Seq<char>>
    decreases s.len() - p,
{
    if p < 0 || p >= s.len() {
        seq![]
    } else if is_ws(s[p]) {
        words_from(s, p + 1)
    } else {
        let e = word_end(s, p);
        proof {
            lemma_word_end(s, p);
        }
        seq![s.subrange(p, e)] + words_from(s, e)
    }
}

/// The whitespace-separated words of `s` (what `str::split_whitespace` yields).
pub open spec fn words(s: Seq<char>) -> Seq<Seq<char>> {
    words_from(s, 0)
}

/// The character sequences held by a sequence of character vectors.
pub open spec fn views_of(w: Seq<Vec<char>>) -> Seq<Seq<char>> {
    w.map_values(|v: Vec<char>| v@)
}

/// Copy `s[a..b]` into a new vector.
pub fn copy_range(s: &Vec<char>, a: usize, b: usize) -> (v: Vec<char>)
    requires
        a <= b <= s.len(),
    ensures
        v@ == s@.subrange(a as int, b as int),
{
    let mut v: Vec<char> = Vec::new();
    let mut i = a;
    while i < b
        invariant
            a <= i <= b <= s.len(),
            v@ == s@.subrange(a as int, i as int),
        decreases b - i,
    {
        v.push(s[i]);
        i = i + 1;
    }
    v
}

/// Split `s[a..b]` into its whitespace-separated words.
pub fn split_words(s: &Vec<char>, a: usize, b: usize) -> (w: Vec<Vec<char>>)
    requires
        a <= b <= s.len(),
    ensures
        views_of(w@) == words(s@.subrange(a as int, b as int)),
{
    let ghost t = s@.subrange(a as int, b as int);
    let mut w: Vec<Vec<char>> = Vec::new();
    let mut p = a;
    while p < b
        invariant
            a <= p <= b <= s.len(),
            t == s@.subrange(a as int, b as int),
            words(t) == views_of(w@) + words_from(t, p - a),
        decreases b - p,
    {
        if char_is_ws(s[p]) {
            assert(is_ws(t[p - a]));
            p = p + 1;
        } else {
            let mut e = p;
            while e < b && !char_is_ws(s[e])
                invariant
                    a <= p <= e <= b <= s.len(),
                    t == s@.subrange(a as int, b as int),
                    word_end(t, p - a) == word_end(t, e - a),
                decreases b - e,
            {
                assert(t[e - a] == s@[e as int]);
                e = e + 1;
            }
            proof {
                lemma_word_end(t, p - a);
            }
            let word = copy_range(s, p, e);
            let ghost before = views_of(w@);
            w.push(word);
            proof {
                assert(t.subrange(p - a, e - a) =~= s@.subrange(p as int, e as int));
                assert(views_of(w@) =~= before.push(t.subrange(p - a, e - a)));
                assert(words_from(t, p - a) == seq![t.subrange(p - a, e - a)] + words_from(
                    t,
                    e - a,
                ));
                assert(before + (seq![t.subrange(p - a, e - a)] + words_from(t, e - a))
                    =~= before.push(t.subrange(p - a, e - a)) + words_from(t, e - a));
            }
            p = e;
        }
    }
    proof {
        assert(words_from(t, p - a) =~= Seq::<Seq<char>>::empty());
        assert(views_of(w@) + Seq::<Seq<char>>::empty() =~= views_of(w@));
    }
    w
}

// ---------------------------------------------------------------------------
// Strings
// ---------------------------------------------------------------------------

/// The text held by an optional string.
pub open spec fn opt_text(o: Option<String>) -> Option<Seq<char>> {
    match o {
        Some(s) => Some(s@),
        None => None,
    }
}

/// Append one character to a string (`String::push`).
#[verifier::external_body]
pub(crate) fn push_char(s: &mut String, c: char)
    ensures
        final(s)@ == old(s)@.push(c),
{
    s.push(c);
}

/// Append a string slice to a string.
pub(crate) fn push_str(s: &mut String, t: &str)
    ensures
        final(s)@ == old(s)@ + t@,
{
    s.append(t);
}

/// Append the characters of `v` to `s`.
pub fn push_chars(s: &mut String, v: &Vec<char>)
    ensures
        final(s)@ == old(s)@ + v@,
{
    let ghost start = s@;
    let mut i: usize = 0;
    while i < v.len()
        invariant
            i <= v.len(),
            s@ == start + v@.take(i as int),
        decreases v.len() - i,
    {
        push_char(s, v[i]);
        assert(v@.take(i + 1) =~= v@.take(i as int).push(v@[i as int]));
        i = i + 1;
    }
    assert(v@.take(v.len() as int) =~= v@);
}

/// A string holding the characters of `v`.
pub fn string_of(v: &Vec<char>) -> (s: String)
    ensures
        s@ == v@,
{
    let mut s = String::new();
    push_chars(&mut s, v);
    assert(Seq::<char>::empty() + v@ =~= v@);
    s
}

/// The result of `str::to_uppercase`: the Unicode uppercase mapping of each
/// character, concatenated.
pub uninterp spec fn uppercase(s: Seq<char>) -> Seq<char>;

/// ASCII text: every character below 128.
pub open spec fn is_ascii_text(s: Seq<char>) -> bool {
    forall|i: int| 0 <= i < s.len() ==> (#[trigger] s[i] as u32) < 128
}

/// The ASCII upper case of a character: `a` to `z` become `A` to `Z`.
pub open spec fn ascii_upper(c: char) -> char {
    if 'a' <= c && c <= 'z' {
        ((c as u32) - 32) as char
    } else {
        c
    }
}

/// `str::to_uppercase`.  Its result depends on the text alone (the mapping is
/// fixed by the Unicode tables and does not depend on a locale).  For ASCII
/// text it maps `a` to `z` to `A` to `Z` and keeps every other character, as
/// `str::to_uppercase` documents for ASCII; beyond ASCII the mapping is only
/// named (`uppercase`).
#[verifier::external_body]
pub(crate) fn to_uppercase(s: &str) -> (r: String)
    ensures
        r@ == uppercase(s@),
        is_ascii_text(s@) ==> r@ == s@.map_values(|c: char| ascii_upper(c)),
{
    s.to_uppercase()
}

// ---------------------------------------------------------------------------
// Numbers
// ---------------------------------------------------------------------------

/// The decimal digit character for `d` (0 to 9).
pub open spec fn digit_char(d: int) -> char {
    if d <= 0 {
        '0'
    } else if d == 1 {
        '1'
    } else if d == 2 {
        '2'
    } else if d == 3 {
        '3'
    } else if d == 4 {
        '4'
    } else if d == 5 {
        '5'
    } else if d == 6 {
        '6'
    } else if d == 7 {
        '7'
    } else if d == 8 {
        '8'
    } else {
        '9'
    }
}

/// The decimal representation of `n`, most significant digit first, without
/// leading zeros (`"0"` for zero).
pub open spec fn decimal_text(n: nat) -> Seq<char>
    decreases n,
{
    if n < 10 {
        seq![digit_char(n as int)]
    } else {
        decimal_text(n / 10).push(digit_char((n % 10) as int))
    }
}

fn digit_to_char(d: u64) -> (c: char)
    requires
        d < 10,
    ensures
        c == digit_char(d as int),
{
    match d {
        0 => '0',
        1 => '1',
        2 => '2',
        3 => '3',
        4 => '4',
        5 => '5',
        6 => '6',
        7 => '7',
        8 => '8',
        _ => '9',
    }
}

/// Append the decimal representation of `n` to `s`.
pub fn push_decimal(s: &mut String, n: u64)
    ensures
        final(s)@ == old(s)@ + decimal_text(n as nat),
    decreases n,
{
    if n >= 10 {
        push_decimal(s, n / 10);
    }
    let c = digit_to_char(n % 10);
    push_char(s, c);
    proof {
        if n >= 10 {
            assert(decimal_text(n as nat) == decimal_text((n / 10) as nat).push(c));
        }
    }
}

} // verus!
