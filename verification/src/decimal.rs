//! Numbers as they appear in the NOAA feeds (`1014.1`, `-0.5`, `300`).
//!
//! Text is read in the grammar of `f64::from_str` (sign, digits with at most
//! one point, optional exponent, or `inf`/`infinity`/`nan`).  A `Decimal` holds
//! a number exactly as an integer mantissa and a count of fraction digits.  A
//! `Reading` is what the feeds' values become: a `Decimal` where one holds the
//! number, and otherwise (`inf`, `nan`, more digits than `i64` holds, ...) the
//! text as written, which stands for the same `f64`.

use crate::text::{chars_of, copy_range, decimal_text, digit_char, push_char, string_of};
use vstd::prelude::*;

verus! {

/// The number `mantissa / 10^scale`.
#[derive(Clone, Copy, Debug, PartialEq, Eq, Structural)]
pub struct Decimal {
    pub mantissa: i64,
    pub scale: u32,
}

pub open spec fn pow10(n: nat) -> nat
    decreases n,
{
    if n == 0 {
        1
    } else {
        10 * pow10((n - 1) as nat)
    }
}

pub open spec fn is_digit(c: char) -> bool {
    '0' <= c && c <= '9'
}

pub open spec fn all_digits(s: Seq<char>) -> bool {
    forall|i: int| 0 <= i < s.len() ==> is_digit(#[trigger] s[i])
}

/// The value of a digit character.
pub open spec fn digit_value(c: char) -> nat {
    ((c as int) - ('0' as int)) as nat
}

/// The number written by a string of decimal digits (0 for the empty string).
pub open spec fn digits_value(s: Seq<char>) -> nat
    decreases s.len(),
{
    if s.len() == 0 {
        0
    } else {
        digits_value(s.drop_last()) * 10 + digit_value(s.last())
    }
}

/// A leading `-` or `+` and the rest of the text; `true` when the sign is `-`.
pub open spec fn sign_split(s: Seq<char>) -> (bool, Seq<char>) {
    if s.len() > 0 && s[0] == '-' {
        (true, s.drop_first())
    } else if s.len() > 0 && s[0] == '+' {
        (false, s.drop_first())
    } else {
        (false, s)
    }
}

/// `t` is `digits '.' digits` with the point at `k`, and holds at least one digit.
pub open spec fn is_point_split(t: Seq<char>, k: int) -> bool {
    &&& 0 <= k < t.len()
    &&& t[k] == '.'
    &&& all_digits(t.take(k))
    &&& all_digits(t.skip(k + 1))
    &&& t.len() >= 2
}

/// The integer and fraction digits of an unsigned decimal: `ddd`, `ddd.ddd`,
/// `ddd.` or `.ddd` (at least one digit in all).
pub open spec fn body_parts(t: Seq<char>) -> Option<(Seq<char>, Seq<char>)> {
    if t.len() > 0 && all_digits(t) {
        Some((t, Seq::<char>::empty()))
    } else if exists|k: int| #[trigger] is_point_split(t, k) {
        let k = choose|k: int| #[trigger] is_point_split(t, k);
        Some((t.take(k), t.skip(k + 1)))
    } else {
        None
    }
}

/// What reading a text as a number gives, in the grammar of `f64::from_str`.
#[derive(Clone, Copy, Debug, PartialEq, Eq, Structural)]
pub enum NumberText {
    /// A number that a `Decimal` holds exactly.
    Value(Decimal),
    /// A number that `f64::from_str` reads but a `Decimal` cannot hold:
    /// `inf`, `infinity` or `nan` (any case, with an optional sign), or a
    /// value whose digits exceed `i64::MAX` once the exponent is applied, or
    /// that needs more than `u32::MAX` fraction digits.
    Unrepresentable,
    /// Not a number in that grammar.
    Invalid,
}

/// `m` with the sign `-` when `neg`.
pub open spec fn signed(neg: bool, m: int) -> int {
    if neg {
        -m
    } else {
        m
    }
}

/// An exponent marker.
pub open spec fn is_exp_marker(c: char) -> bool {
    c == 'e' || c == 'E'
}

/// Index of the first exponent marker at or after `i`, or the length of `t`.
pub open spec fn marker_from(t: Seq<char>, i: int) -> int
    decreases t.len() - i,
{
    if i >= t.len() {
        t.len() as int
    } else if is_exp_marker(t[i]) {
        i
    } else {
        marker_from(t, i + 1)
    }
}

/// The exponent written after a marker: an optional sign and at least one digit.
pub open spec fn exponent_value(x: Seq<char>) -> Option<int> {
    let (neg, d) = sign_split(x);
    if d.len() > 0 && all_digits(d) {
        Some(signed(neg, digits_value(d) as int))
    } else {
        None
    }
}

/// The upper case of the letters of `inf`, `infinity` and `nan`.
pub open spec fn upper_of(c: char) -> char {
    if c == 'a' {
        'A'
    } else if c == 'f' {
        'F'
    } else if c == 'i' {
        'I'
    } else if c == 'n' {
        'N'
    } else if c == 't' {
        'T'
    } else if c == 'y' {
        'Y'
    } else {
        c
    }
}

/// `t` is the lower-case word `w`, each letter in either case.
pub open spec fn ci_equal(t: Seq<char>, w: Seq<char>) -> bool {
    &&& t.len() == w.len()
    &&& forall|i: int| 0 <= i < t.len() ==> #[trigger] t[i] == w[i] || t[i] == upper_of(w[i])
}

/// `inf`, `infinity` or `nan`, in any case.
pub open spec fn is_special_word(t: Seq<char>) -> bool {
    ||| ci_equal(t, seq!['i', 'n', 'f'])
    ||| ci_equal(t, seq!['i', 'n', 'f', 'i', 'n', 'i', 't', 'y'])
    ||| ci_equal(t, seq!['n', 'a', 'n'])
}

/// The number `±m × 10^k`, as a `Decimal` where one holds it: for `k >= 0` the
/// mantissa `m × 10^k` with scale 0, otherwise the mantissa `m` with scale `-k`.
pub open spec fn scaled_value(neg: bool, m: nat, k: int) -> NumberText {
    if k >= 0 {
        let v = m * pow10(k as nat);
        if v <= i64::MAX {
            NumberText::Value(Decimal { mantissa: signed(neg, v as int) as i64, scale: 0 })
        } else {
            NumberText::Unrepresentable
        }
    } else if m <= i64::MAX && -k <= u32::MAX {
        NumberText::Value(Decimal { mantissa: signed(neg, m as int) as i64, scale: (-k) as u32 })
    } else {
        NumberText::Unrepresentable
    }
}

/// The parts of a number text in the grammar of `f64::from_str`.
pub enum NumberForm {
    /// `inf`, `infinity` or `nan` (any case), with its sign.
    Special { neg: bool, nan: bool },
    /// `±digits × 10^power`: the digits of the mantissa (integer and fraction
    /// digits together) and the exponent less the number of fraction digits.
    Number { neg: bool, digits: Seq<char>, power: int },
    /// Not a number.
    NotNumber,
}

/// The parts of the number written by `s`, read as `f64::from_str` reads it:
/// an optional sign, then `inf`, `infinity` or `nan` in any case, or digits
/// with at most one point (at least one digit in all) followed by an optional
/// exponent (`e` or `E`, an optional sign, at least one digit).
pub open spec fn number_form(s: Seq<char>) -> NumberForm {
    let (neg, t) = sign_split(s);
    if is_special_word(t) {
        NumberForm::Special { neg, nan: ci_equal(t, seq!['n', 'a', 'n']) }
    } else {
        let k = marker_from(t, 0);
        let ex = if k < t.len() {
            exponent_value(t.skip(k + 1))
        } else {
            Some(0int)
        };
        match (body_parts(t.take(k)), ex) {
            (Some((i, f)), Some(e)) => NumberForm::Number { neg, digits: i + f, power: e - f.len() },
            _ => NumberForm::NotNumber,
        }
    }
}

/// The number written by `s` (see `number_form`), held exactly where a
/// `Decimal` can hold it.  That is where this differs from `f64`, which rounds
/// every number and reads the special words.
pub open spec fn parse_number(s: Seq<char>) -> NumberText {
    match number_form(s) {
        NumberForm::Special { .. } => NumberText::Unrepresentable,
        NumberForm::Number { neg, digits, power } => scaled_value(neg, digits_value(digits), power),
        NumberForm::NotNumber => NumberText::Invalid,
    }
}

/// The decimal written by `s`, where a `Decimal` holds it (see `parse_number`).
pub open spec fn parse_decimal(s: Seq<char>) -> Option<Decimal> {
    match parse_number(s) {
        NumberText::Value(d) => Some(d),
        _ => None,
    }
}

/// `n` zeros.
pub open spec fn zeros(n: nat) -> Seq<char> {
    Seq::new(n, |i: int| '0')
}

/// The digits of `|mantissa|`, with leading zeros so that there is at least one
/// digit before the point.
pub open spec fn padded_digits(d: Decimal) -> Seq<char> {
    let digits = decimal_text(abs(d.mantissa as int) as nat);
    let width = d.scale + 1;
    if digits.len() < width {
        zeros((width - digits.len()) as nat) + digits
    } else {
        digits
    }
}

pub open spec fn abs(x: int) -> int {
    if x < 0 {
        -x
    } else {
        x
    }
}

/// The text of a decimal: a `-` for a negative mantissa, the integer digits,
/// and, when the scale is positive, a point and `scale` fraction digits.
pub open spec fn decimal_to_text(d: Decimal) -> Seq<char> {
    let p = padded_digits(d);
    let split = p.len() - d.scale;
    let sign = if d.mantissa < 0 {
        seq!['-']
    } else {
        Seq::<char>::empty()
    };
    if d.scale == 0 {
        sign + p
    } else {
        sign + p.take(split) + seq!['.'] + p.skip(split)
    }
}

/// `d` is greater than the integer `k`.
pub open spec fn decimal_gt_int(d: Decimal, k: int) -> bool {
    d.mantissa > k * pow10(d.scale as nat)
}

// ---------------------------------------------------------------------------
// Lemmas
// ---------------------------------------------------------------------------

proof fn lemma_digits_value_prefix(s: Seq<char>, j: int)
    requires
        0 <= j <= s.len(),
    ensures
        digits_value(s.take(j)) <= digits_value(s),
    decreases s.len(),
{
    if j < s.len() {
        assert(s.drop_last().take(j) =~= s.take(j));
        lemma_digits_value_prefix(s.drop_last(), j);
    } else {
        assert(s.take(j) =~= s);
    }
}

proof fn lemma_zeros_value(n: nat)
    ensures
        digits_value(zeros(n)) == 0,
        all_digits(zeros(n)),
    decreases n,
{
    if n > 0 {
        assert(zeros(n).drop_last() =~= zeros((n - 1) as nat));
        lemma_zeros_value((n - 1) as nat);
    }
}

proof fn lemma_leading_zeros(n: nat, s: Seq<char>)
    ensures
        digits_value(zeros(n) + s) == digits_value(s),
    decreases s.len(),
{
    if s.len() == 0 {
        assert(zeros(n) + s =~= zeros(n));
        lemma_zeros_value(n);
    } else {
        assert((zeros(n) + s).drop_last() =~= zeros(n) + s.drop_last());
        lemma_leading_zeros(n, s.drop_last());
    }
}

proof fn lemma_decimal_text(n: nat)
    ensures
        digits_value(decimal_text(n)) == n,
        all_digits(decimal_text(n)),
        decimal_text(n).len() >= 1,
    decreases n,
{
    if n < 10 {
        assert(decimal_text(n).drop_last() =~= Seq::<char>::empty());
        lemma_digit_char(n as int);
        assert(digits_value(Seq::<char>::empty()) == 0);
        assert(decimal_text(n).last() == digit_char(n as int));
        assert(digits_value(decimal_text(n)) == digits_value(decimal_text(n).drop_last()) * 10 + digit_value(decimal_text(n).last()));
    } else {
        lemma_decimal_text(n / 10);
        let t = decimal_text(n);
        assert(t.drop_last() =~= decimal_text(n / 10));
        assert(t.last() == digit_char((n % 10) as int));
        lemma_digit_char((n % 10) as int);
        assert(n == (n / 10) * 10 + n % 10);
        assert(digits_value(t) == digits_value(t.drop_last()) * 10 + digit_value(t.last()));
    }
}

proof fn lemma_digit_char(d: int)
    requires
        0 <= d <= 9,
    ensures
        digit_value(digit_char(d)) == d,
        is_digit(digit_char(d)),
{
}

proof fn lemma_pow10_positive(n: nat)
    ensures
        pow10(n) >= 1,
    decreases n,
{
    if n > 0 {
        lemma_pow10_positive((n - 1) as nat);
    }
}

proof fn lemma_pow10_large(n: nat)
    requires
        n >= 19,
    ensures
        pow10(n) >= 10000000000000000000,
    decreases n,
{
    if n > 19 {
        lemma_pow10_large((n - 1) as nat);
    } else {
        reveal_with_fuel(pow10, 20);
        assert(pow10(19) == 10000000000000000000nat);
    }
}

proof fn lemma_pow10_mono(a: nat, b: nat)
    requires
        a <= b,
    ensures
        pow10(a) <= pow10(b),
    decreases b,
{
    if a < b {
        lemma_pow10_mono(a, (b - 1) as nat);
        lemma_pow10_positive((b - 1) as nat);
    }
}


proof fn lemma_padded_digits(d: Decimal)
    ensures
        all_digits(padded_digits(d)),
        digits_value(padded_digits(d)) == abs(d.mantissa as int),
        padded_digits(d).len() >= d.scale + 1,
{
    let digits = decimal_text(abs(d.mantissa as int) as nat);
    lemma_decimal_text(abs(d.mantissa as int) as nat);
    let width = d.scale + 1;
    if digits.len() < width {
        let z = zeros((width - digits.len()) as nat);
        lemma_leading_zeros((width - digits.len()) as nat, digits);
        lemma_zeros_value((width - digits.len()) as nat);
        assert forall|i: int| 0 <= i < (z + digits).len() implies is_digit(#[trigger] (z + digits)[i]) by {
            if i < z.len() {
                assert((z + digits)[i] == z[i]);
            } else {
                assert((z + digits)[i] == digits[i - z.len()]);
            }
        }
    }
}

/// The text of a decimal after its sign.
pub open spec fn text_body(d: Decimal) -> Seq<char> {
    let p = padded_digits(d);
    let split = p.len() - d.scale;
    if d.scale == 0 {
        p
    } else {
        p.take(split) + seq!['.'] + p.skip(split)
    }
}

proof fn lemma_text_parts(d: Decimal)
    ensures
        sign_split(decimal_to_text(d)) == (d.mantissa < 0, text_body(d)),
        body_parts(text_body(d)) matches Some((i, f)) && digits_value(i + f) == abs(
            d.mantissa as int,
        ) && f.len() == d.scale,
{
    let p = padded_digits(d);
    lemma_padded_digits(d);
    let split = p.len() - d.scale;
    let body = if d.scale == 0 {
        p
    } else {
        p.take(split) + seq!['.'] + p.skip(split)
    };
    let text = decimal_to_text(d);
    if d.mantissa < 0 {
        assert(text =~= seq!['-'] + body);
        assert(text.drop_first() =~= body);
    } else {
        assert(text =~= body);
        assert(is_digit(p[0]));
        assert(body[0] == p[0]);
    }
    assert(sign_split(text) == (d.mantissa < 0, body));
    if d.scale == 0 {
        assert(body_parts(body) == Some((p, Seq::<char>::empty())));
        assert(p + Seq::<char>::empty() =~= p);
    } else {
        let k = split;
        assert(body[k] == '.');
        assert(body.take(k) =~= p.take(split));
        assert(body.skip(k + 1) =~= p.skip(split));
        assert(all_digits(body.take(k)));
        assert(all_digits(body.skip(k + 1))) by {
            assert forall|i: int| 0 <= i < body.skip(k + 1).len() implies is_digit(#[trigger] body.skip(k + 1)[i]) by {
                assert(body.skip(k + 1)[i] == p[split + i]);
            }
        }
        assert(is_point_split(body, k));
        assert(!all_digits(body)) by {
            assert(!is_digit(body[k]));
        }
        let j = choose|j: int| #[trigger] is_point_split(body, j);
        if j != k {
            if j < k {
                assert(body[j] == p[j]);
            } else {
                assert(body[j] == p[j - 1]);
            }
        }
        assert(p.take(split) + p.skip(split) =~= p);
    }
    assert(body == text_body(d));
}

proof fn lemma_text_plain(d: Decimal)
    ensures
        !is_special_word(text_body(d)),
        marker_from(text_body(d), 0) == text_body(d).len(),
{
    let p = padded_digits(d);
    lemma_padded_digits(d);
    let split = p.len() - d.scale;
    let body = text_body(d);
    // The body is digits and at most a point: no special word, no exponent.
    assert forall|j: int| 0 <= j < body.len() implies is_digit(#[trigger] body[j]) || body[j]
        == '.' by {
        if d.scale != 0 {
            if j < split {
                assert(body[j] == p[j]);
            } else if j > split {
                assert(body[j] == p[j - 1]);
            }
        }
    }
    assert(is_digit(body[0]));
    assert(!is_special_word(body)) by {
        assert(!ci_equal(body, seq!['i', 'n', 'f']));
        assert(!ci_equal(body, seq!['i', 'n', 'f', 'i', 'n', 'i', 't', 'y']));
        assert(!ci_equal(body, seq!['n', 'a', 'n']));
    }
    lemma_marker_from(body, 0);
    assert(marker_from(body, 0) == body.len()) by {
        let k = marker_from(body, 0);
        if k < body.len() {
            assert(is_digit(body[k]) || body[k] == '.');
        }
    }
    assert(body.take(body.len() as int) =~= body);
    assert(pow10(0) == 1);
}


/// Rendering a decimal and parsing the text gives back the same decimal.
/// (The mantissa `i64::MIN` is left out: its magnitude is beyond what the
/// parser accepts.)
pub proof fn lemma_text_roundtrip(d: Decimal)
    requires
        d.mantissa != i64::MIN,
    ensures
        parse_decimal(decimal_to_text(d)) == Some(d),
{
    lemma_text_parts(d);
    lemma_text_plain(d);
    let body = text_body(d);
    let neg = d.mantissa < 0;
    let m = abs(d.mantissa as int);
    assert(body.take(body.len() as int) =~= body);
    assert(parse_number(decimal_to_text(d)) == scaled_value(neg, m as nat, 0 - d.scale));
    assert(signed(neg, m) == d.mantissa);
    if d.scale == 0 {
        assert(pow10(0) == 1);
        assert(m * pow10(0) == m) by (nonlinear_arith)
            requires
                pow10(0) == 1,
        ;
    }
}

/// What `marker_from` finds.
proof fn lemma_marker_from(t: Seq<char>, i: int)
    requires
        0 <= i <= t.len(),
    ensures
        i <= marker_from(t, i) <= t.len(),
        marker_from(t, i) < t.len() ==> is_exp_marker(t[marker_from(t, i)]),
        forall|j: int| i <= j < marker_from(t, i) ==> !is_exp_marker(#[trigger] t[j]),
    decreases t.len() - i,
{
    if i < t.len() && !is_exp_marker(t[i]) {
        lemma_marker_from(t, i + 1);
    }
}

// ---------------------------------------------------------------------------
// Parsing
// ---------------------------------------------------------------------------

/// Accumulate the digits `t[a..b]` onto `value`; `None` when a character is
/// not a digit or the total would exceed `i64::MAX`.
fn accumulate_digits(t: &Vec<char>, a: usize, b: usize, value: u64, Ghost(prefix): Ghost<Seq<char>>) -> (r: Option<u64>)
    requires
        a <= b <= t.len(),
        value == digits_value(prefix),
        all_digits(prefix),
        value <= i64::MAX,
    ensures
        match r {
            Some(v) => {
                &&& all_digits(t@.subrange(a as int, b as int))
                &&& v == digits_value(prefix + t@.subrange(a as int, b as int))
                &&& v <= i64::MAX
            },
            None => {
                ||| !all_digits(t@.subrange(a as int, b as int))
                ||| digits_value(prefix + t@.subrange(a as int, b as int)) > i64::MAX
            },
        },
{
    let mut v = value;
    let mut i = a;
    while i < b
        invariant
            a <= i <= b <= t.len(),
            all_digits(prefix),
            all_digits(t@.subrange(a as int, i as int)),
            v == digits_value(prefix + t@.subrange(a as int, i as int)),
            v <= i64::MAX,
        decreases b - i,
    {
        let c = t[i];
        let ghost seen = prefix + t@.subrange(a as int, i as int);
        let ghost next = prefix + t@.subrange(a as int, i + 1);
        assert(next.drop_last() =~= seen);
        if !('0' <= c && c <= '9') {
            assert(t@.subrange(a as int, b as int)[i - a] == c);
            return None;
        }
        let d = (c as u32 - '0' as u32) as u64;
        if v > (9223372036854775807u64 - d) / 10 {
            proof {
                assert(digits_value(next) == v * 10 + d);
                assert(digits_value(next) > i64::MAX) by (nonlinear_arith)
                    requires
                        v > (9223372036854775807u64 - d) / 10,
                        d <= 9,
                        digits_value(next) == v * 10 + d,
                ;
                let whole = prefix + t@.subrange(a as int, b as int);
                if all_digits(t@.subrange(a as int, b as int)) {
                    assert(whole.take(next.len() as int) =~= next);
                    lemma_digits_value_prefix(whole, next.len() as int);
                }
            }
            return None;
        }
        v = v * 10 + d;
        i = i + 1;
        assert(all_digits(t@.subrange(a as int, i as int))) by {
            assert forall|j: int| 0 <= j < i - a implies is_digit(
                #[trigger] t@.subrange(a as int, i as int)[j],
            ) by {
                if j < i - 1 - a {
                    assert(t@.subrange(a as int, i as int)[j] == t@.subrange(
                        a as int,
                        i - 1,
                    )[j]);
                }
            }
        }
    }
    Some(v)
}

/// Whether every character of `t[a..b]` is a digit.
fn digits_in(t: &Vec<char>, a: usize, b: usize) -> (r: bool)
    requires
        a <= b <= t.len(),
    ensures
        r == all_digits(t@.subrange(a as int, b as int)),
{
    let mut i = a;
    while i < b
        invariant
            a <= i <= b <= t.len(),
            all_digits(t@.subrange(a as int, i as int)),
        decreases b - i,
    {
        if !('0' <= t[i] && t[i] <= '9') {
            assert(t@.subrange(a as int, b as int)[i - a] == t@[i as int]);
            return false;
        }
        i = i + 1;
        assert(all_digits(t@.subrange(a as int, i as int))) by {
            assert forall|j: int| 0 <= j < i - a implies is_digit(
                #[trigger] t@.subrange(a as int, i as int)[j],
            ) by {
                if j < i - 1 - a {
                    assert(t@.subrange(a as int, i as int)[j] == t@.subrange(a as int, i - 1)[j]);
                }
            }
        }
    }
    true
}

/// The bound past which an exponent's magnitude is held saturated.
pub open spec fn exponent_cap() -> int {
    36893488147419103232
}

/// `e`, held within `[-exponent_cap(), exponent_cap()]`.
pub open spec fn saturate(e: int) -> int {
    if e > exponent_cap() {
        exponent_cap()
    } else if e < -exponent_cap() {
        -exponent_cap()
    } else {
        e
    }
}

/// The exponent written by `x` (see `exponent_value`), saturated.
fn exponent_of(x: &Vec<char>) -> (r: Option<i128>)
    ensures
        match exponent_value(x@) {
            None => r is None,
            Some(e) => r == Some(saturate(e) as i128),
        },
{
    let n = x.len();
    let mut start: usize = 0;
    let mut neg = false;
    if n > 0 && x[0] == '-' {
        neg = true;
        start = 1;
    } else if n > 0 && x[0] == '+' {
        start = 1;
    }
    let d = copy_range(x, start, n);
    proof {
        if start == 1 {
            assert(d@ =~= x@.drop_first());
        } else {
            assert(d@ =~= x@);
        }
        assert(sign_split(x@) == (neg, d@));
    }
    if d.len() == 0 {
        return None;
    }
    let cap: u128 = 36893488147419103232;
    let mut v: u128 = 0;
    let mut i: usize = 0;
    while i < d.len()
        invariant
            i <= d.len(),
            cap == exponent_cap(),
            sign_split(x@) == (neg, d@),
            all_digits(d@.take(i as int)),
            v == (if digits_value(d@.take(i as int)) > exponent_cap() {
                exponent_cap()
            } else {
                digits_value(d@.take(i as int)) as int
            }),
        decreases d.len() - i,
    {
        let c = d[i];
        if !('0' <= c && c <= '9') {
            assert(!all_digits(d@));
            return None;
        }
        let dig = (c as u32 - '0' as u32) as u128;
        let ghost before = digits_value(d@.take(i as int));
        assert(d@.take(i + 1).drop_last() =~= d@.take(i as int));
        assert(digits_value(d@.take(i + 1)) == before * 10 + dig);
        let next = v * 10 + dig;
        v = if next > cap {
            cap
        } else {
            next
        };
        proof {
            if before > exponent_cap() {
                assert(before * 10 + dig > exponent_cap()) by (nonlinear_arith)
                    requires
                        before > exponent_cap(),
                ;
            }
        }
        i = i + 1;
        assert(all_digits(d@.take(i as int))) by {
            assert forall|j: int| 0 <= j < i implies is_digit(#[trigger] d@.take(i as int)[j]) by {
                if j < i - 1 {
                    assert(d@.take(i as int)[j] == d@.take(i - 1)[j]);
                }
            }
        }
    }
    assert(d@.take(d.len() as int) =~= d@);
    let ghost dv = digits_value(d@) as int;
    assert(exponent_value(x@) == Some(signed(neg, dv)));
    assert(v <= cap);
    let mag = v as i128;
    assert(saturate(signed(neg, dv)) == if neg {
        -(mag as int)
    } else {
        mag as int
    });
    Some(
        if neg {
            -mag
        } else {
            mag
        },
    )
}

/// Whether `t` is the lower-case word `w` with each letter in either case.
fn ci_equal_exec(t: &Vec<char>, w: &Vec<char>) -> (r: bool)
    ensures
        r == ci_equal(t@, w@),
{
    if t.len() != w.len() {
        return false;
    }
    let mut i: usize = 0;
    while i < t.len()
        invariant
            i <= t.len() == w.len(),
            forall|j: int| 0 <= j < i ==> #[trigger] t@[j] == w@[j] || t@[j] == upper_of(w@[j]),
        decreases t.len() - i,
    {
        let c = w[i];
        let up = if c == 'a' {
            'A'
        } else if c == 'f' {
            'F'
        } else if c == 'i' {
            'I'
        } else if c == 'n' {
            'N'
        } else if c == 't' {
            'T'
        } else if c == 'y' {
            'Y'
        } else {
            c
        };
        if t[i] != c && t[i] != up {
            return false;
        }
        i = i + 1;
    }
    true
}

/// Whether `t` is `inf`, `infinity` or `nan`, in any case.
fn special_word(t: &Vec<char>) -> (r: bool)
    ensures
        r == is_special_word(t@),
{
    let w1 = vec!['i', 'n', 'f'];
    let w2 = vec!['i', 'n', 'f', 'i', 'n', 'i', 't', 'y'];
    let w3 = vec!['n', 'a', 'n'];
    assert(w1@ =~= seq!['i', 'n', 'f']);
    assert(w2@ =~= seq!['i', 'n', 'f', 'i', 'n', 'i', 't', 'y']);
    assert(w3@ =~= seq!['n', 'a', 'n']);
    ci_equal_exec(t, &w1) || ci_equal_exec(t, &w2) || ci_equal_exec(t, &w3)
}

/// `±m × 10^kk` as a number (see `scaled_value`).  `m` is absent when its
/// digits exceed `i64::MAX`; `kk` is the true power `k`, or stands on the
/// same side of every bound that matters when the exponent was saturated.
fn scaled(neg: bool, mo: Option<u64>, kk: i128, Ghost(m): Ghost<nat>, Ghost(k): Ghost<int>) -> (r:
    NumberText)
    requires
        mo matches Some(m0) ==> m0 == m && m <= i64::MAX,
        mo is None ==> m > i64::MAX,
        k == kk || (kk > 19 && k > kk) || (kk < -(u32::MAX as int) && k < kk),
    ensures
        r == scaled_value(neg, m, k),
{
    if kk >= 0 {
        match mo {
            None => {
                proof {
                    lemma_pow10_positive(k as nat);
                    assert(m * pow10(k as nat) >= m) by (nonlinear_arith)
                        requires
                            pow10(k as nat) >= 1,
                    ;
                }
                NumberText::Unrepresentable
            },
            Some(m0) => {
                if m0 == 0 {
                    assert(m * pow10(k as nat) == 0);
                    return NumberText::Value(Decimal { mantissa: 0, scale: 0 });
                }
                let mut v: u64 = m0;
                let mut i: i128 = 0;
                proof {
                    assert(pow10(0) == 1);
                    assert(m * pow10(0) == m) by (nonlinear_arith)
                        requires
                            pow10(0) == 1,
                    ;
                }
                while i < kk
                    invariant
                        0 <= i <= kk,
                        kk >= 0,
                        m0 == m,
                        1 <= m <= i64::MAX,
                        v == m * pow10(i as nat),
                        v <= i64::MAX,
                        k == kk || (kk > 19 && k > kk),
                    decreases kk - i,
                {
                    if v > 922337203685477580u64 {
                        proof {
                            lemma_pow10_mono((i + 1) as nat, k as nat);
                            assert(pow10((i + 1) as nat) == 10 * pow10(i as nat));
                            assert(m * pow10((i + 1) as nat) == 10 * v) by (nonlinear_arith)
                                requires
                                    pow10((i + 1) as nat) == 10 * pow10(i as nat),
                                    v == m * pow10(i as nat),
                            ;
                            assert(m * pow10(k as nat) >= m * pow10((i + 1) as nat)) by (nonlinear_arith)
                                requires
                                    pow10(k as nat) >= pow10((i + 1) as nat),
                                    m >= 1,
                            ;
                        }
                        return NumberText::Unrepresentable;
                    }
                    proof {
                        assert(pow10((i + 1) as nat) == 10 * pow10(i as nat));
                        assert(m * pow10((i + 1) as nat) == 10 * v) by (nonlinear_arith)
                            requires
                                pow10((i + 1) as nat) == 10 * pow10(i as nat),
                                v == m * pow10(i as nat),
                        ;
                    }
                    v = v * 10;
                    i = i + 1;
                }
                proof {
                    if k != kk {
                        // Saturated exponent: the power is far beyond what fits.
                        lemma_pow10_large(kk as nat);
                        assert(m * pow10(kk as nat) >= pow10(kk as nat)) by (nonlinear_arith)
                            requires
                                m >= 1,
                                pow10(kk as nat) >= 1,
                        ;
                        assert(false);
                    }
                }
                let mantissa: i64 = if neg {
                    -(v as i64)
                } else {
                    v as i64
                };
                NumberText::Value(Decimal { mantissa, scale: 0 })
            },
        }
    } else {
        match mo {
            None => NumberText::Unrepresentable,
            Some(m0) => {
                if kk < -4294967295i128 {
                    NumberText::Unrepresentable
                } else {
                    let mantissa: i64 = if neg {
                        -(m0 as i64)
                    } else {
                        m0 as i64
                    };
                    NumberText::Value(Decimal { mantissa, scale: (-kk) as u32 })
                }
            },
        }
    }
}

/// Index of the first exponent marker of `t`, or its length.
fn find_marker(t: &Vec<char>) -> (k: usize)
    ensures
        k == marker_from(t@, 0),
{
    let mut k: usize = 0;
    while k < t.len() && t[k] != 'e' && t[k] != 'E'
        invariant
            k <= t.len(),
            marker_from(t@, 0) == marker_from(t@, k as int),
        decreases t.len() - k,
    {
        k = k + 1;
    }
    k
}

impl Decimal {
    /// Read a number from text as `f64::from_str` reads it (see `parse_number`):
    /// its exact value where a `Decimal` holds it, `Unrepresentable` for a number
    /// a `Decimal` cannot hold, `Invalid` for text that is not a number.
    pub fn parse_number(text: &str) -> (r: NumberText)
        ensures
            r == parse_number(text@),
    {
        let chars = chars_of(text);
        Self::parse_number_chars(&chars)
    }

    /// Parse a decimal from text: the number it writes, where a `Decimal`
    /// holds it (see `parse_number`).
    pub fn parse(text: &str) -> (r: Option<Decimal>)
        ensures
            r == parse_decimal(text@),
    {
        let chars = chars_of(text);
        Self::parse_chars(&chars)
    }

    /// `parse` for text held as characters.
    pub fn parse_chars(s: &Vec<char>) -> (r: Option<Decimal>)
        ensures
            r == parse_decimal(s@),
    {
        match Self::parse_number_chars(s) {
            NumberText::Value(d) => Some(d),
            _ => None,
        }
    }

    /// `parse_number` for text held as characters.
    pub fn parse_number_chars(s: &Vec<char>) -> (r: NumberText)
        ensures
            r == parse_number(s@),
    {
        let n = s.len();
        let mut start: usize = 0;
        let mut neg = false;
        if n > 0 && s[0] == '-' {
            neg = true;
            start = 1;
        } else if n > 0 && s[0] == '+' {
            start = 1;
        }
        let t = copy_range(s, start, n);
        proof {
            assert(sign_split(s@) == (neg, t@)) by {
                if start == 1 {
                    assert(t@ =~= s@.drop_first());
                } else {
                    assert(t@ =~= s@);
                }
            }
        }
        if special_word(&t) {
            return NumberText::Unrepresentable;
        }
        let k = find_marker(&t);
        proof {
            lemma_marker_from(t@, 0);
        }
        let mant = copy_range(&t, 0, k);
        assert(mant@ =~= t@.take(k as int));
        let parts = Self::parse_unsigned(&mant);
        let (mo, fl) = match parts {
            None => {
                return NumberText::Invalid;
            },
            Some(p) => p,
        };
        let es: i128 = if k < t.len() {
            let x = copy_range(&t, k + 1, t.len());
            assert(x@ =~= t@.skip(k + 1));
            match exponent_of(&x) {
                None => {
                    return NumberText::Invalid;
                },
                Some(e) => e,
            }
        } else {
            0
        };
        let ghost (i, f) = body_parts(mant@)->0;
        let ghost e: int = if k < t.len() {
            exponent_value(t@.skip(k + 1))->0
        } else {
            0
        };
        assert(es == saturate(e));
        let kk: i128 = es - fl as i128;
        scaled(neg, mo, kk, Ghost(digits_value(i + f)), Ghost(e - f.len()))
    }

    /// The digits value (absent beyond `i64::MAX`) and fraction length of an
    /// unsigned decimal body.
    fn parse_unsigned(t: &Vec<char>) -> (r: Option<(Option<u64>, usize)>)
        ensures
            match body_parts(t@) {
                Some((i, f)) => r matches Some((mo, fl)) && fl == f.len() && match mo {
                    Some(m) => m == digits_value(i + f) && m <= i64::MAX,
                    None => digits_value(i + f) > i64::MAX,
                },
                None => r is None,
            },
    {
        let n = t.len();
        let mut k: usize = 0;
        while k < n && t[k] != '.'
            invariant
                k <= n == t.len(),
                forall|j: int| 0 <= j < k ==> t@[j] != '.',
            decreases n - k,
        {
            k = k + 1;
        }
        if k == n {
            // No point: the body must be all digits.
            proof {
                assert(forall|j: int| !#[trigger] is_point_split(t@, j));
                assert(t@.subrange(0, n as int) =~= t@);
            }
            if n == 0 || !digits_in(t, 0, n) {
                return None;
            }
            let r = accumulate_digits(t, 0, n, 0, Ghost(Seq::<char>::empty()));
            proof {
                assert(Seq::<char>::empty() + t@ =~= t@);
                assert(t@ + Seq::<char>::empty() =~= t@);
            }
            Some((r, 0))
        } else {
            // A point at `k`, the first one.
            let ghost int_part = t@.take(k as int);
            let ghost frac_part = t@.skip(k + 1);
            proof {
                assert(t@.subrange(0, k as int) =~= int_part);
                assert(t@.subrange(k + 1, n as int) =~= frac_part);
                assert(!all_digits(t@)) by {
                    assert(!is_digit(t@[k as int]));
                }
            }
            if n < 2 || !digits_in(t, 0, k) || !digits_in(t, k + 1, n) {
                proof {
                    assert forall|j: int| !#[trigger] is_point_split(t@, j) by {
                        if is_point_split(t@, j) {
                            Self::lemma_unique_point(t@, k as int, j);
                        }
                    }
                }
                return None;
            }
            proof {
                assert(is_point_split(t@, k as int));
                let j = choose|j: int| #[trigger] is_point_split(t@, j);
                Self::lemma_unique_point(t@, k as int, j);
                assert(Seq::<char>::empty() + int_part =~= int_part);
            }
            let flen = n - (k + 1);
            let r1 = accumulate_digits(t, 0, k, 0, Ghost(Seq::<char>::empty()));
            match r1 {
                None => {
                    proof {
                        lemma_digits_value_prefix(int_part + frac_part, k as int);
                        assert((int_part + frac_part).take(k as int) =~= int_part);
                    }
                    Some((None, flen))
                },
                Some(v1) => {
                    let r2 = accumulate_digits(t, k + 1, n, v1, Ghost(int_part));
                    Some((r2, flen))
                },
            }
        }
    }

    /// A point split is at the first point.
    proof fn lemma_unique_point(t: Seq<char>, k: int, j: int)
        requires
            0 <= k < t.len(),
            t[k] == '.',
            forall|i: int| 0 <= i < k ==> t[i] != '.',
            is_point_split(t, j),
        ensures
            j == k,
    {
        if j > k {
            assert(t.take(j)[k] == '.');
        }
    }

    // -----------------------------------------------------------------------
    // Rendering
    // -----------------------------------------------------------------------

    /// The text of this decimal (see `decimal_to_text`), e.g. `1014.1`, `-0.5`, `300`.
    pub fn to_text(&self) -> (r: String)
        ensures
            r@ == decimal_to_text(*self),
    {
        let m = self.mantissa;
        let mag: u64 = if m < 0 {
            ((-(m + 1)) as u64) + 1
        } else {
            m as u64
        };
        let mut digits: Vec<char> = Vec::new();
        Self::push_digits(&mut digits, mag);
        let ghost raw = digits@;
        proof {
            assert(raw == decimal_text(abs(m as int) as nat));
        }
        let width: u64 = self.scale as u64 + 1;
        let padded: Vec<char> = if (digits.len() as u64) < width {
            let pad = (width - digits.len() as u64) as usize;
            let mut p: Vec<char> = Vec::new();
            let mut i: usize = 0;
            while i < pad
                invariant
                    i <= pad,
                    p@ == zeros(i as nat),
                decreases pad - i,
            {
                p.push('0');
                i = i + 1;
                assert(p@ =~= zeros(i as nat));
            }
            let mut j: usize = 0;
            while j < digits.len()
                invariant
                    j <= digits.len(),
                    digits@ == raw,
                    p@ == zeros(pad as nat) + raw.take(j as int),
                decreases digits.len() - j,
            {
                p.push(digits[j]);
                j = j + 1;
                assert(p@ =~= zeros(pad as nat) + raw.take(j as int));
            }
            assert(raw.take(raw.len() as int) =~= raw);
            p
        } else {
            digits
        };
        proof {
            assert(padded@ == padded_digits(*self));
        }
        let mut out = String::new();
        if m < 0 {
            push_char(&mut out, '-');
        }
        let ghost sign = out@;
        let split: usize = padded.len() - self.scale as usize;
        let mut i: usize = 0;
        while i < padded.len()
            invariant
                i <= padded.len(),
                split == padded.len() - self.scale,
                split >= 1,
                out@ == if i <= split {
                    sign + padded@.take(i as int)
                } else {
                    sign + padded@.take(split as int) + seq!['.'] + padded@.subrange(
                        split as int,
                        i as int,
                    )
                },
            decreases padded.len() - i,
        {
            if i == split {
                push_char(&mut out, '.');
            }
            push_char(&mut out, padded[i]);
            i = i + 1;
            proof {
                if i <= split {
                    assert(sign + padded@.take(i as int) =~= (sign + padded@.take(i - 1)).push(
                        padded@[i - 1],
                    ));
                } else if i == split + 1 {
                    assert(sign + padded@.take(split as int) + seq!['.'] + padded@.subrange(
                        split as int,
                        i as int,
                    ) =~= (sign + padded@.take(split as int)).push('.').push(padded@[i - 1]));
                } else {
                    assert(sign + padded@.take(split as int) + seq!['.'] + padded@.subrange(
                        split as int,
                        i as int,
                    ) =~= (sign + padded@.take(split as int) + seq!['.'] + padded@.subrange(
                        split as int,
                        i - 1,
                    )).push(padded@[i - 1]));
                }
            }
        }
        proof {
            if self.scale == 0 {
                assert(padded@.take(padded.len() as int) =~= padded@);
            } else {
                assert(padded@.subrange(split as int, padded.len() as int) =~= padded@.skip(
                    split as int,
                ));
            }
        }
        out
    }

    /// Push the digits of `n` onto `v`.
    fn push_digits(v: &mut Vec<char>, n: u64)
        ensures
            final(v)@ == old(v)@ + decimal_text(n as nat),
        decreases n,
    {
        if n >= 10 {
            Self::push_digits(v, n / 10);
        }
        let d = n % 10;
        let c = match d {
            0 => '0',
            1 => '1',
            2 => '2',
            3 => '3',
            4 => '4',
            5 => '5',
            6 => '6',
            7 => '7',
            8 => '8',
            _ => '9',
        };
        v.push(c);
        proof {
            assert(c == digit_char(d as int));
            if n >= 10 {
                assert(decimal_text(n as nat) == decimal_text((n / 10) as nat).push(c));
            }
        }
    }

    // -----------------------------------------------------------------------
    // Comparison
    // -----------------------------------------------------------------------

    /// Whether this decimal is greater than the integer `k`.
    pub fn gt_int(&self, k: i64) -> (r: bool)
        ensures
            r == decimal_gt_int(*self, k as int),
    {
        let m = self.mantissa;
        let s = self.scale;
        if s >= 19 {
            proof {
                lemma_pow10_large(s as nat);
            }
            let ghost p = pow10(s as nat);
            if k > 0 {
                assert(k * p >= p) by (nonlinear_arith)
                    requires
                        k > 0,
                        p > 0,
                ;
                assert(!(m > k * p));
                false
            } else if k < 0 {
                assert(k * p <= -p) by (nonlinear_arith)
                    requires
                        k < 0,
                        p > 0,
                ;
                assert(m > k * p);
                true
            } else {
                assert(k * p == 0);
                m > 0
            }
        } else {
            let mut p: i128 = 1;
            let mut i: u32 = 0;
            while i < s
                invariant
                    i <= s < 19,
                    p == pow10(i as nat),
                    p <= 1000000000000000000,
                decreases s - i,
            {
                assert(pow10((i + 1) as nat) == 10 * pow10(i as nat));
                if i + 1 < 19 {
                    assert(p * 10 <= 1000000000000000000) by {
                        lemma_pow10_bounded_lt19((i + 1) as nat);
                    }
                }
                p = p * 10;
                i = i + 1;
            }
            proof {
                lemma_pow10_positive(s as nat);
                assert(k * p <= i64::MAX * 1000000000000000000 && k * p >= i64::MIN
                    * 1000000000000000000) by (nonlinear_arith)
                    requires
                        0 < p <= 1000000000000000000,
                        i64::MIN <= k <= i64::MAX,
                ;
                lemma_pow10_positive(s as nat);
            }
            let r = (m as i128) > (k as i128) * p;
            assert(r == (m > k * pow10(s as nat)));
            r
        }
    }
}

proof fn lemma_pow10_bounded_lt19(n: nat)
    requires
        n < 19,
    ensures
        pow10(n) <= 1000000000000000000,
{
    lemma_pow10_mono(n, 18);
    reveal_with_fuel(pow10, 19);
    assert(pow10(18) == 1000000000000000000nat);
}


// ---------------------------------------------------------------------------
// Readings
// ---------------------------------------------------------------------------

/// A reading from a feed: a number held exactly, or, for a number that `f64`
/// reads but a `Decimal` cannot hold (`inf`, `nan`, more digits than `i64`
/// holds, ...), the text as it was written, which stands for the same `f64`.
#[derive(Clone, Debug, PartialEq)]
pub enum Reading {
    Exact(Decimal),
    Written(String),
}

/// A reading, with written text as its characters.
pub enum ReadingView {
    Exact(Decimal),
    Written(Seq<char>),
}

impl View for Reading {
    type V = ReadingView;

    open spec fn view(&self) -> ReadingView {
        match self {
            Reading::Exact(d) => ReadingView::Exact(*d),
            Reading::Written(s) => ReadingView::Written(s@),
        }
    }
}

/// An optional reading, by its view.
pub open spec fn reading_of(o: Option<Reading>) -> Option<ReadingView> {
    match o {
        Some(r) => Some(r@),
        None => None,
    }
}

/// The reading of a text: every text that `f64::from_str` reads has one,
/// exact where a `Decimal` holds it and kept as written otherwise.
pub open spec fn parse_reading(s: Seq<char>) -> Option<ReadingView> {
    match parse_number(s) {
        NumberText::Value(d) => Some(ReadingView::Exact(d)),
        NumberText::Unrepresentable => Some(ReadingView::Written(s)),
        NumberText::Invalid => None,
    }
}

/// The text of a reading: the decimal's text, or the text as written.
pub open spec fn reading_text(r: ReadingView) -> Seq<char> {
    match r {
        ReadingView::Exact(d) => decimal_to_text(d),
        ReadingView::Written(t) => t,
    }
}

/// The number written by `s` is greater than the integer `k`, compared
/// exactly: `inf` is greater than every integer, `-inf` and `nan` are not, and
/// text that is not a number is not.
pub open spec fn number_gt_int(s: Seq<char>, k: int) -> bool {
    match number_form(s) {
        NumberForm::Special { neg, nan } => !nan && !neg,
        NumberForm::Number { neg, digits, power } => {
            let m = digits_value(digits) as int;
            if power >= 0 {
                signed(neg, m * pow10(power as nat)) > k
            } else {
                signed(neg, m) > k * pow10((-power) as nat)
            }
        },
        NumberForm::NotNumber => false,
    }
}

/// A reading is greater than the integer `k`.
pub open spec fn reading_gt_int(r: ReadingView, k: int) -> bool {
    match r {
        ReadingView::Exact(d) => decimal_gt_int(d, k),
        ReadingView::Written(t) => number_gt_int(t, k),
    }
}

/// The bound at which magnitudes are held saturated while comparing.
pub open spec fn magnitude_cap() -> int {
    18446744073709551616
}

pub open spec fn min_cap(x: int) -> int {
    if x > magnitude_cap() {
        magnitude_cap()
    } else {
        x
    }
}

proof fn lemma_digits_value_append(a: Seq<char>, b: Seq<char>)
    ensures
        digits_value(a + b) == digits_value(a) * pow10(b.len()) + digits_value(b),
    decreases b.len(),
{
    if b.len() == 0 {
        assert(a + b =~= a);
        assert(pow10(0) == 1);
        assert(digits_value(a) * pow10(0) == digits_value(a)) by (nonlinear_arith)
            requires
                pow10(0) == 1,
        ;
    } else {
        assert((a + b).drop_last() =~= a + b.drop_last());
        assert(digits_value(a + b) == digits_value((a + b).drop_last()) * 10 + digit_value(
            (a + b).last(),
        ));
        assert((a + b).last() == b.last());
        lemma_digits_value_append(a, b.drop_last());
        let p = pow10(b.drop_last().len());
        assert(pow10(b.len()) == 10 * p);
        let x = digits_value(a);
        let y = digits_value(b.drop_last());
        assert((x * p + y) * 10 + digit_value(b.last()) == x * (10 * p) + (y * 10 + digit_value(
            b.last(),
        ))) by (nonlinear_arith);
    }
}

proof fn lemma_digits_value_bound(b: Seq<char>)
    requires
        all_digits(b),
    ensures
        digits_value(b) < pow10(b.len()),
        digits_value(b) == 0 <==> (forall|i: int| 0 <= i < b.len() ==> b[i] == '0'),
    decreases b.len(),
{
    if b.len() > 0 {
        let c = b.drop_last();
        assert(all_digits(c)) by {
            assert forall|i: int| 0 <= i < c.len() implies is_digit(#[trigger] c[i]) by {
                assert(c[i] == b[i]);
            }
        }
        lemma_digits_value_bound(c);
        assert(is_digit(b[b.len() - 1]));
        let y = digits_value(c);
        let dl = digit_value(b.last());
        assert(dl <= 9);
        assert(pow10(b.len()) == 10 * pow10(c.len()));
        assert(y * 10 + dl < 10 * pow10(c.len())) by (nonlinear_arith)
            requires
                y < pow10(c.len()),
                dl <= 9,
        ;
        if forall|i: int| 0 <= i < b.len() ==> b[i] == '0' {
            assert forall|i: int| 0 <= i < c.len() implies c[i] == '0' by {
                assert(c[i] == b[i]);
            }
            assert(b[b.len() - 1] == '0');
        }
        if digits_value(b) == 0 {
            assert(y == 0 && dl == 0) by (nonlinear_arith)
                requires
                    y * 10 + dl == 0,
                    y >= 0,
                    dl >= 0,
            ;
            assert forall|i: int| 0 <= i < b.len() implies b[i] == '0' by {
                if i < c.len() {
                    assert(c[i] == b[i]);
                }
            }
        }
    }
}

/// `min(digits_value(d[a..b]), magnitude_cap())`.
fn sat_digits(d: &Vec<char>, a: usize, b: usize) -> (v: u128)
    requires
        a <= b <= d.len(),
        all_digits(d@.subrange(a as int, b as int)),
    ensures
        v == min_cap(digits_value(d@.subrange(a as int, b as int)) as int),
{
    let cap: u128 = 18446744073709551616;
    let mut v: u128 = 0;
    let mut i = a;
    while i < b
        invariant
            a <= i <= b <= d.len(),
            cap == magnitude_cap(),
            all_digits(d@.subrange(a as int, b as int)),
            v == min_cap(digits_value(d@.subrange(a as int, i as int)) as int),
        decreases b - i,
    {
        let c = d[i];
        assert(d@.subrange(a as int, b as int)[i - a] == c);
        let dig = (c as u32 - '0' as u32) as u128;
        let ghost before = digits_value(d@.subrange(a as int, i as int));
        assert(d@.subrange(a as int, i + 1).drop_last() =~= d@.subrange(a as int, i as int));
        assert(digits_value(d@.subrange(a as int, i + 1)) == before * 10 + dig);
        let next = v * 10 + dig;
        v = if next > cap {
            cap
        } else {
            next
        };
        proof {
            if before > magnitude_cap() {
                assert(before * 10 + dig > magnitude_cap()) by (nonlinear_arith)
                    requires
                        before > magnitude_cap(),
                ;
            }
        }
        i = i + 1;
    }
    v
}

/// Whether every character of `d[a..b]` is `0`.
fn zeros_in(d: &Vec<char>, a: usize, b: usize) -> (r: bool)
    requires
        a <= b <= d.len(),
    ensures
        r == (forall|i: int| 0 <= i < b - a ==> d@.subrange(a as int, b as int)[i] == '0'),
{
    let mut i = a;
    while i < b
        invariant
            a <= i <= b <= d.len(),
            forall|j: int| a <= j < i ==> d@[j] == '0',
        decreases b - i,
    {
        if d[i] != '0' {
            assert(d@.subrange(a as int, b as int)[i - a] == d@[i as int]);
            return false;
        }
        i = i + 1;
    }
    assert forall|j: int| 0 <= j < b - a implies d@.subrange(a as int, b as int)[j] == '0' by {
        assert(d@.subrange(a as int, b as int)[j] == d@[a + j]);
    }
    true
}

/// `min(m × 10^p, magnitude_cap())`, from `min(m, magnitude_cap())`.
fn scale_up_sat(ms: u128, ps: i128, Ghost(m): Ghost<nat>, Ghost(p): Ghost<int>) -> (v: u128)
    requires
        ms == min_cap(m as int),
        ps >= 0,
        p == ps || (ps > 64 && p > ps),
    ensures
        v == min_cap((m * pow10(p as nat)) as int),
{
    let cap: u128 = 18446744073709551616;
    if ms == 0 {
        assert(m * pow10(p as nat) == 0) by (nonlinear_arith)
            requires
                m == 0,
        ;
        return 0;
    }
    let mut v: u128 = ms;
    let mut i: i128 = 0;
    proof {
        assert(pow10(0) == 1);
        assert(m * pow10(0) == m) by (nonlinear_arith)
            requires
                pow10(0) == 1,
        ;
    }
    while i < ps && v < cap
        invariant
            0 <= i <= ps,
            m >= 1,
            cap == magnitude_cap(),
            v == min_cap((m * pow10(i as nat)) as int),
            v <= cap,
        decreases ps - i,
    {
        proof {
            assert(pow10((i + 1) as nat) == 10 * pow10(i as nat));
            assert(m * pow10((i + 1) as nat) == 10 * (m * pow10(i as nat))) by (nonlinear_arith)
                requires
                    pow10((i + 1) as nat) == 10 * pow10(i as nat),
            ;
        }
        let next = v * 10;
        v = if next > cap {
            cap
        } else {
            next
        };
        i = i + 1;
    }
    proof {
        lemma_pow10_positive(i as nat);
        if v >= cap {
            lemma_pow10_mono(i as nat, p as nat);
            assert(m * pow10(p as nat) >= m * pow10(i as nat)) by (nonlinear_arith)
                requires
                    pow10(p as nat) >= pow10(i as nat),
                    m >= 1,
            ;
        } else if p != ps {
            // A saturated power: far beyond the cap either way.
            lemma_pow10_large((i - 1) as nat);
            assert(pow10(i as nat) == 10 * pow10((i - 1) as nat));
            assert(m * pow10(i as nat) >= pow10(i as nat)) by (nonlinear_arith)
                requires
                    m >= 1,
                    pow10(i as nat) >= 1,
            ;
            assert(false);
        }
    }
    v
}

/// `ip × P + r` with `0 <= r < P` compared with `K × P`.
proof fn lemma_split_compare(ip: int, r: int, pp: int, kk: int)
    requires
        ip >= 0,
        0 <= r < pp,
    ensures
        ip * pp + r < kk * pp <==> ip < kk,
        ip * pp + r > kk * pp <==> (ip > kk || (ip == kk && r > 0)),
{
    assert(ip * pp + r < kk * pp <==> ip < kk) by (nonlinear_arith)
        requires
            ip >= 0,
            0 <= r < pp,
    ;
    assert(ip * pp + r > kk * pp <==> (ip > kk || (ip == kk && r > 0))) by (nonlinear_arith)
        requires
            ip >= 0,
            0 <= r < pp,
    ;
}

/// `±digits × 10^p` compared with `k` (see `number_gt_int`); `ps` is `p`, or
/// stands on the same side of every bound that matters when the exponent was
/// saturated.
fn digits_gt_int(neg: bool, d: &Vec<char>, ps: i128, k: i64, Ghost(p): Ghost<int>) -> (r: bool)
    requires
        all_digits(d@),
        ps > -147573952589676412928,
        p == ps || (ps > 64 && p > ps) || (ps < 0 && -ps >= d.len() && p < ps),
    ensures
        r == ({
            let m = digits_value(d@) as int;
            if p >= 0 {
                signed(neg, m * pow10(p as nat)) > k
            } else {
                signed(neg, m) > k * pow10((-p) as nat)
            }
        }),
{
    let n = d.len();
    let ghost m = digits_value(d@);
    assert(d@.subrange(0, n as int) =~= d@);
    if ps >= 0 {
        let ms = sat_digits(d, 0, n);
        let big = scale_up_sat(ms, ps, Ghost(m), Ghost(p));
        if big >= 18446744073709551616u128 {
            !neg
        } else {
            let v: i128 = if neg {
                -(big as i128)
            } else {
                big as i128
            };
            v > k as i128
        }
    } else {
        let j: i128 = -ps;
        let ghost jj: nat = (-p) as nat;
        proof {
            lemma_pow10_positive(jj);
        }
        if j >= n as i128 {
            let ms = sat_digits(d, 0, n);
            proof {
                lemma_digits_value_bound(d@);
                lemma_pow10_mono(n as nat, jj);
                lemma_split_compare(0, m as int, pow10(jj) as int, -(k as int));
                lemma_split_compare(0, m as int, pow10(jj) as int, k as int);
                assert(0 * pow10(jj) + m == m);
                assert((-(k as int)) * pow10(jj) == -(k * pow10(jj))) by (nonlinear_arith);
            }
            if neg {
                k < 0
            } else {
                k < 0 || (k == 0 && ms != 0)
            }
        } else {
            let split: usize = n - (j as usize);
            let ip = sat_digits(d, 0, split);
            let all_zero = zeros_in(d, split, n);
            let ghost a = d@.subrange(0, split as int);
            let ghost b = d@.subrange(split as int, n as int);
            proof {
                assert(p == ps);
                assert(a + b =~= d@);
                assert(all_digits(a)) by {
                    assert forall|i: int| 0 <= i < a.len() implies is_digit(#[trigger] a[i]) by {
                        assert(a[i] == d@[i]);
                    }
                }
                assert(all_digits(b)) by {
                    assert forall|i: int| 0 <= i < b.len() implies is_digit(#[trigger] b[i]) by {
                        assert(b[i] == d@[split + i]);
                    }
                }
                lemma_digits_value_append(a, b);
                lemma_digits_value_bound(b);
                assert(b.len() == jj);
                lemma_split_compare(
                    digits_value(a) as int,
                    digits_value(b) as int,
                    pow10(jj) as int,
                    -(k as int),
                );
                lemma_split_compare(
                    digits_value(a) as int,
                    digits_value(b) as int,
                    pow10(jj) as int,
                    k as int,
                );
                assert((-(k as int)) * pow10(jj) == -(k * pow10(jj))) by (nonlinear_arith);
            }
            if neg {
                k < 0 && (ip as i128) < -(k as i128)
            } else {
                k < 0 || (ip as i128) > (k as i128) || ((ip as i128) == (k as i128) && !all_zero)
            }
        }
    }
}

/// The digits of an unsigned decimal body (integer and fraction digits
/// together) and the number of fraction digits.
fn body_digits(t: &Vec<char>) -> (r: Option<(Vec<char>, usize)>)
    ensures
        match body_parts(t@) {
            Some((i, f)) => r matches Some((dg, fl)) && dg@ == i + f && fl == f.len(),
            None => r is None,
        },
{
    let n = t.len();
    let mut k: usize = 0;
    while k < n && t[k] != '.'
        invariant
            k <= n == t.len(),
            forall|j: int| 0 <= j < k ==> t@[j] != '.',
        decreases n - k,
    {
        k = k + 1;
    }
    if k == n {
        proof {
            assert(forall|j: int| !#[trigger] is_point_split(t@, j));
            assert(t@.subrange(0, n as int) =~= t@);
        }
        if n == 0 || !digits_in(t, 0, n) {
            return None;
        }
        let dg = copy_range(t, 0, n);
        assert(t@ + Seq::<char>::empty() =~= t@);
        Some((dg, 0))
    } else {
        proof {
            assert(!all_digits(t@)) by {
                assert(!is_digit(t@[k as int]));
            }
        }
        if n < 2 || !digits_in(t, 0, k) || !digits_in(t, k + 1, n) {
            proof {
                assert forall|j: int| !#[trigger] is_point_split(t@, j) by {
                    if is_point_split(t@, j) {
                        Decimal::lemma_unique_point(t@, k as int, j);
                        assert(t@.subrange(0, k as int) =~= t@.take(k as int));
                        assert(t@.subrange(k + 1, n as int) =~= t@.skip(k + 1));
                    }
                }
            }
            return None;
        }
        proof {
            assert(t@.subrange(0, k as int) =~= t@.take(k as int));
            assert(t@.subrange(k + 1, n as int) =~= t@.skip(k + 1));
            assert(is_point_split(t@, k as int));
            let j = choose|j: int| #[trigger] is_point_split(t@, j);
            Decimal::lemma_unique_point(t@, k as int, j);
        }
        let mut dg = copy_range(t, 0, k);
        let mut i = k + 1;
        while i < n
            invariant
                k + 1 <= i <= n == t.len(),
                dg@ == t@.take(k as int) + t@.subrange(k + 1, i as int),
            decreases n - i,
        {
            dg.push(t[i]);
            i = i + 1;
            assert(dg@ =~= t@.take(k as int) + t@.subrange(k + 1, i as int));
        }
        assert(t@.subrange(k + 1, n as int) =~= t@.skip(k + 1));
        Some((dg, n - (k + 1)))
    }
}

/// Whether the number written by `s` is greater than `k` (see `number_gt_int`).
fn text_gt_int(s: &Vec<char>, k: i64) -> (r: bool)
    ensures
        r == number_gt_int(s@, k as int),
{
    let n = s.len();
    let mut start: usize = 0;
    let mut neg = false;
    if n > 0 && s[0] == '-' {
        neg = true;
        start = 1;
    } else if n > 0 && s[0] == '+' {
        start = 1;
    }
    let t = copy_range(s, start, n);
    proof {
        assert(sign_split(s@) == (neg, t@)) by {
            if start == 1 {
                assert(t@ =~= s@.drop_first());
            } else {
                assert(t@ =~= s@);
            }
        }
    }
    if special_word(&t) {
        let w = vec!['n', 'a', 'n'];
        assert(w@ =~= seq!['n', 'a', 'n']);
        let nan = ci_equal_exec(&t, &w);
        return !nan && !neg;
    }
    let km = find_marker(&t);
    proof {
        lemma_marker_from(t@, 0);
    }
    let mant = copy_range(&t, 0, km);
    assert(mant@ =~= t@.take(km as int));
    let (dg, fl) = match body_digits(&mant) {
        None => {
            return false;
        },
        Some(p) => p,
    };
    let es: i128 = if km < t.len() {
        let x = copy_range(&t, km + 1, t.len());
        assert(x@ =~= t@.skip(km + 1));
        match exponent_of(&x) {
            None => {
                return false;
            },
            Some(e) => e,
        }
    } else {
        0
    };
    let ghost (i, f) = body_parts(mant@)->0;
    let ghost e: int = if km < t.len() {
        exponent_value(t@.skip(km + 1))->0
    } else {
        0
    };
    proof {
        assert(all_digits(i) && all_digits(f)) by {
            if f.len() == 0 && all_digits(mant@) {
            } else {
                let kp = choose|kp: int| #[trigger] is_point_split(mant@, kp);
                if !(mant@.len() > 0 && all_digits(mant@)) {
                    assert(is_point_split(mant@, kp));
                }
            }
        }
        assert(all_digits(dg@)) by {
            assert forall|q: int| 0 <= q < dg@.len() implies is_digit(#[trigger] dg@[q]) by {
                if q < i.len() {
                    assert(dg@[q] == i[q]);
                } else {
                    assert(dg@[q] == f[q - i.len()]);
                }
            }
        }
    }
    let ps: i128 = es - fl as i128;
    digits_gt_int(neg, &dg, ps, k, Ghost(e - f.len()))
}

impl Reading {
    /// Read a number as `f64::from_str` reads it: `None` for text that is
    /// not a number, the exact value where a `Decimal` holds it, and the text
    /// as written otherwise (see `parse_reading`).
    pub fn parse(text: &str) -> (r: Option<Reading>)
        ensures
            reading_of(r) == parse_reading(text@),
    {
        let chars = chars_of(text);
        Self::parse_chars(&chars)
    }

    /// `parse` for text held as characters.
    pub fn parse_chars(s: &Vec<char>) -> (r: Option<Reading>)
        ensures
            reading_of(r) == parse_reading(s@),
    {
        match Decimal::parse_number_chars(s) {
            NumberText::Value(d) => Some(Reading::Exact(d)),
            NumberText::Unrepresentable => Some(Reading::Written(string_of(s))),
            NumberText::Invalid => None,
        }
    }

    /// A copy of this reading.
    pub fn duplicate(&self) -> (r: Reading)
        ensures
            r@ == self@,
    {
        match self {
            Reading::Exact(d) => Reading::Exact(*d),
            Reading::Written(s) => Reading::Written(s.clone()),
        }
    }

    /// The text of this reading (see `reading_text`), which `f64::from_str`
    /// reads as the value the reading stands for.
    pub fn text(&self) -> (r: String)
        ensures
            r@ == reading_text(self@),
    {
        match self {
            Reading::Exact(d) => d.to_text(),
            Reading::Written(s) => s.clone(),
        }
    }

    /// Whether this reading is greater than the integer `k` (see `reading_gt_int`).
    pub fn gt_int(&self, k: i64) -> (r: bool)
        ensures
            r == reading_gt_int(self@, k as int),
    {
        match self {
            Reading::Exact(d) => d.gt_int(k),
            Reading::Written(s) => {
                let chars = chars_of(s.as_str());
                text_gt_int(&chars, k)
            },
        }
    }
}

/// A copy of an optional reading.
pub fn duplicate_opt(o: &Option<Reading>) -> (r: Option<Reading>)
    ensures
        reading_of(r) == reading_of(*o),
{
    match o {
        Some(x) => Some(x.duplicate()),
        None => None,
    }
}

} // verus!
