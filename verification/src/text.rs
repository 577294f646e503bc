//! Character-level text handling: whitespace trimming, line splitting, prefix
//! tests, decimal parsing and decimal/hexadecimal formatting, each stated over
//! `Seq<char>` and implemented over a vector of the text's characters.
use vstd::prelude::*;

verus! {

// ---------------------------------------------------------------------------
// Specifications
// ---------------------------------------------------------------------------

/// The characters that `char::is_whitespace` accepts (Unicode `White_Space`).
pub open spec fn is_whitespace(c: char) -> bool {
    let u = c as u32;
    ||| 9 <= u <= 13
    ||| u == 32
    ||| u == 0x85
    ||| u == 0xA0
    ||| u == 0x1680
    ||| 0x2000 <= u <= 0x200A
    ||| u == 0x2028
    ||| u == 0x2029
    ||| u == 0x202F
    ||| u == 0x205F
    ||| u == 0x3000
}

/// The characters removed by a trim: whitespace, or double quotes when `quotes`.
pub open spec fn is_trimmed(c: char, quotes: bool) -> bool {
    if quotes {
        c == '"'
    } else {
        is_whitespace(c)
    }
}

/// `s` without its leading trimmed characters.
pub open spec fn trim_start(s: Seq<char>, quotes: bool) -> Seq<char>
    decreases s.len(),
{
    if s.len() > 0 && is_trimmed(s[0], quotes) {
        trim_start(s.drop_first(), quotes)
    } else {
        s
    }
}

/// `s` without its trailing trimmed characters.
pub open spec fn trim_end(s: Seq<char>, quotes: bool) -> Seq<char>
    decreases s.len(),
{
    if s.len() > 0 && is_trimmed(s.last(), quotes) {
        trim_end(s.drop_last(), quotes)
    } else {
        s
    }
}

/// `str::trim`: leading and trailing whitespace removed.
pub open spec fn trim(s: Seq<char>) -> Seq<char> {
    trim_end(trim_start(s, false), false)
}

/// `str::trim_matches('"')`: leading and trailing double quotes removed.
pub open spec fn trim_quotes(s: Seq<char>) -> Seq<char> {
    trim_end(trim_start(s, true), true)
}

/// The index of the first occurrence of `c` in `s`, or `s.len()` when there is none.
pub open spec fn index_of(s: Seq<char>, c: char) -> int
    decreases s.len(),
{
    if s.len() == 0 {
        0
    } else if s[0] == c {
        0
    } else {
        1 + index_of(s.drop_first(), c)
    }
}

/// The index just after the last occurrence of `c` in `s`, or 0 when there is none.
pub open spec fn after_last(s: Seq<char>, c: char) -> int
    decreases s.len(),
{
    if s.len() == 0 {
        0
    } else if s.last() == c {
        s.len() as int
    } else {
        after_last(s.drop_last(), c)
    }
}

/// The part of `s` before the first `c` (`s.split(c).next()`).
pub open spec fn before_first(s: Seq<char>, c: char) -> Seq<char> {
    s.subrange(0, index_of(s, c))
}

/// The part of `s` after the last `c` (`s.split(c).next_back()`).
pub open spec fn after_last_part(s: Seq<char>, c: char) -> Seq<char> {
    s.subrange(after_last(s, c), s.len() as int)
}

/// The number of occurrences of `c` in `s`.
pub open spec fn count_char(s: Seq<char>, c: char) -> nat
    decreases s.len(),
{
    if s.len() == 0 {
        0
    } else {
        count_char(s.drop_last(), c) + if s.last() == c {
            1nat
        } else {
            0nat
        }
    }
}

/// A line without the carriage return that ended it.
pub open spec fn strip_cr(l: Seq<char>) -> Seq<char> {
    if l.len() > 0 && l.last() == '\r' {
        l.drop_last()
    } else {
        l
    }
}

/// `str::lines`: the text split at `\n`, a `\r` before the `\n` removed, and no
/// empty last line for a text that ends with `\n`.
pub open spec fn lines(s: Seq<char>) -> Seq<Seq<char>>
    decreases s.len(),
{
    if s.len() == 0 {
        seq![]
    } else {
        let i = index_of(s, '\n');
        if i < s.len() {
            proof {
                lemma_index_of_bounds(s, '\n');
            }
            seq![strip_cr(s.subrange(0, i))] + lines(s.subrange(i + 1, s.len() as int))
        } else {
            seq![s]
        }
    }
}

/// `s` begins with `p`.
pub open spec fn starts_with(s: Seq<char>, p: Seq<char>) -> bool {
    p.len() <= s.len() && s.subrange(0, p.len() as int) == p
}

/// What follows the prefix `p` in `s`.
pub open spec fn after_prefix(s: Seq<char>, p: Seq<char>) -> Seq<char> {
    s.subrange(p.len() as int, s.len() as int)
}

/// An ASCII decimal digit.
pub open spec fn is_digit(c: char) -> bool {
    '0' as u32 <= c as u32 <= '9' as u32
}

/// The value of a decimal digit.
pub open spec fn digit_value(c: char) -> nat {
    (c as u32 - '0' as u32) as nat
}

/// Every character of `s` is a decimal digit.
pub open spec fn all_digits(s: Seq<char>) -> bool {
    forall|i: int| 0 <= i < s.len() ==> is_digit(#[trigger] s[i])
}

/// The number that the decimal digits `s` denote.
pub open spec fn decimal_value(s: Seq<char>) -> nat
    decreases s.len(),
{
    if s.len() == 0 {
        0
    } else {
        decimal_value(s.drop_last()) * 10 + digit_value(s.last())
    }
}

/// The digits of an unsigned number: `s` without one leading `+`.
pub open spec fn unsigned_digits(s: Seq<char>) -> Seq<char> {
    if s.len() > 0 && s[0] == '+' {
        s.drop_first()
    } else {
        s
    }
}

/// `str::parse::<u32>`: an optional `+` then at least one decimal digit, and a
/// value that fits in `u32`.
pub open spec fn parse_u32(s: Seq<char>) -> Option<u32> {
    let d = unsigned_digits(s);
    if d.len() > 0 && all_digits(d) && decimal_value(d) <= u32::MAX {
        Some(decimal_value(d) as u32)
    } else {
        None
    }
}

/// `parse_u32(s)`, or 0 when it fails (`parse().unwrap_or(0)`).
pub open spec fn parse_u32_or_zero(s: Seq<char>) -> u32 {
    match parse_u32(s) {
        Some(v) => v,
        None => 0,
    }
}

/// The character of a digit below sixteen (upper-case letters above nine).
pub open spec fn digit_char(d: nat) -> char {
    if d == 0 {
        '0'
    } else if d == 1 {
        '1'
    } else if d == 2 {
        '2'
    } else if d == 3 {
        '3'
    } else if d == 4 {
        '4'
    } else if d == 5 {
        '5'
    } else if d == 6 {
        '6'
    } else if d == 7 {
        '7'
    } else if d == 8 {
        '8'
    } else if d == 9 {
        '9'
    } else if d == 10 {
        'A'
    } else if d == 11 {
        'B'
    } else if d == 12 {
        'C'
    } else if d == 13 {
        'D'
    } else if d == 14 {
        'E'
    } else {
        'F'
    }
}

/// The decimal representation of `n`, without sign or leading zeros.
pub open spec fn decimal_text(n: nat) -> Seq<char>
    decreases n,
{
    if n < 10 {
        seq![digit_char(n)]
    } else {
        decimal_text(n / 10) + seq![digit_char(n % 10)]
    }
}

/// The upper-case hexadecimal representation of `n` (`{:X}`), without prefix.
pub open spec fn hex_text(n: nat) -> Seq<char>
    decreases n,
{
    if n < 16 {
        seq![digit_char(n)]
    } else {
        hex_text(n / 16) + seq![digit_char(n % 16)]
    }
}

/// `s` preceded by as many `0` as make it `width` characters long.
pub open spec fn zero_padded(s: Seq<char>, width: nat) -> Seq<char> {
    if s.len() < width {
        Seq::new((width - s.len()) as nat, |_i: int| '0') + s
    } else {
        s
    }
}

/// `s` equals `yes` up to ASCII case (`eq_ignore_ascii_case("yes")`).
pub open spec fn is_yes(s: Seq<char>) -> bool {
    &&& s.len() == 3
    &&& (s[0] == 'y' || s[0] == 'Y')
    &&& (s[1] == 'e' || s[1] == 'E')
    &&& (s[2] == 's' || s[2] == 'S')
}

// ---------------------------------------------------------------------------
// Lemmas
// ---------------------------------------------------------------------------

pub proof fn lemma_index_of_bounds(s: Seq<char>, c: char)
    ensures
        0 <= index_of(s, c) <= s.len(),
        index_of(s, c) < s.len() ==> s[index_of(s, c)] == c,
        forall|k: int| 0 <= k < index_of(s, c) ==> s[k] != c,
    decreases s.len(),
{
    if s.len() > 0 && s[0] != c {
        lemma_index_of_bounds(s.drop_first(), c);
        assert forall|k: int| 0 <= k < index_of(s, c) implies s[k] != c by {
            if k > 0 {
                assert(s[k] == s.drop_first()[k - 1]);
            }
        }
    }
}

/// The first occurrence found by a scan is the one `index_of` names.
pub proof fn lemma_index_of_is(s: Seq<char>, c: char, k: int)
    requires
        0 <= k <= s.len(),
        forall|j: int| 0 <= j < k ==> s[j] != c,
        k == s.len() || s[k] == c,
    ensures
        index_of(s, c) == k,
    decreases k,
{
    if k > 0 {
        assert(s[0] != c);
        lemma_index_of_is(s.drop_first(), c, k - 1);
    }
}

/// The last occurrence found by a backward scan is the one `after_last` names.
pub proof fn lemma_after_last_is(s: Seq<char>, c: char, k: int)
    requires
        0 <= k <= s.len(),
        forall|j: int| k <= j < s.len() ==> s[j] != c,
        k == 0 || s[k - 1] == c,
    ensures
        after_last(s, c) == k,
    decreases s.len(),
{
    if s.len() > 0 && k < s.len() {
        assert(s.last() != c);
        lemma_after_last_is(s.drop_last(), c, k);
    }
}

pub proof fn lemma_trim_start_is(s: Seq<char>, quotes: bool, k: int)
    requires
        0 <= k <= s.len(),
        forall|j: int| 0 <= j < k ==> is_trimmed(#[trigger] s[j], quotes),
        k == s.len() || !is_trimmed(s[k], quotes),
    ensures
        trim_start(s, quotes) == s.subrange(k, s.len() as int),
    decreases k,
{
    if k > 0 {
        assert(is_trimmed(s[0], quotes));
        let t = s.drop_first();
        assert forall|j: int| 0 <= j < k - 1 implies is_trimmed(#[trigger] t[j], quotes) by {
            assert(t[j] == s[j + 1]);
        }
        lemma_trim_start_is(t, quotes, k - 1);
        assert(t.subrange(k - 1, t.len() as int) =~= s.subrange(k, s.len() as int));
    } else {
        assert(s.subrange(0, s.len() as int) =~= s);
    }
}

pub proof fn lemma_trim_end_is(s: Seq<char>, quotes: bool, k: int)
    requires
        0 <= k <= s.len(),
        forall|j: int| k <= j < s.len() ==> is_trimmed(#[trigger] s[j], quotes),
        k == 0 || !is_trimmed(s[k - 1], quotes),
    ensures
        trim_end(s, quotes) == s.subrange(0, k),
    decreases s.len(),
{
    if k < s.len() {
        assert(is_trimmed(s[s.len() - 1], quotes));
        let t = s.drop_last();
        assert forall|j: int| k <= j < t.len() implies is_trimmed(#[trigger] t[j], quotes) by {
            assert(t[j] == s[j]);
        }
        lemma_trim_end_is(t, quotes, k);
        assert(t.subrange(0, k) =~= s.subrange(0, k));
    } else {
        assert(s.subrange(0, k) =~= s);
    }
}

pub proof fn lemma_decimal_value_monotone(s: Seq<char>, k: int)
    requires
        0 <= k <= s.len(),
    ensures
        decimal_value(s.subrange(0, k)) <= decimal_value(s),
    decreases s.len() - k,
{
    if k < s.len() {
        lemma_decimal_value_monotone(s, k + 1);
        let p = s.subrange(0, k + 1);
        assert(p.drop_last() =~= s.subrange(0, k));
    } else {
        assert(s.subrange(0, k) =~= s);
    }
}

pub proof fn lemma_digit_char(d: nat)
    requires
        d < 16,
    ensures
        d < 10 ==> is_digit(digit_char(d)) && digit_value(digit_char(d)) == d,
        digit_char(d) != '+',
{
}

pub proof fn lemma_decimal_text(n: nat)
    ensures
        decimal_text(n).len() > 0,
        all_digits(decimal_text(n)),
        decimal_text(n)[0] != '+',
        decimal_value(decimal_text(n)) == n,
    decreases n,
{
    lemma_digit_char(n % 10);
    if n >= 10 {
        lemma_decimal_text(n / 10);
        let t = decimal_text(n);
        assert(t.last() == digit_char(n % 10));
        assert(t.drop_last() =~= decimal_text(n / 10));
        assert(t[0] == decimal_text(n / 10)[0]);
        assert((n / 10) * 10 + n % 10 == n) by (nonlinear_arith);
        assert(decimal_value(t) == decimal_value(t.drop_last()) * 10 + digit_value(t.last()));
        assert forall|i: int| 0 <= i < t.len() implies is_digit(#[trigger] t[i]) by {
            if i < t.len() - 1 {
                assert(t[i] == decimal_text(n / 10)[i]);
            }
        }
    } else {
        assert(n % 10 == n);
        let t = decimal_text(n);
        assert(t.drop_last() =~= Seq::<char>::empty());
        assert(decimal_value(t) == decimal_value(t.drop_last()) * 10 + digit_value(t.last()));
    }
}

/// Decimal formatting and parsing are inverse: the text of a number parses back to it.
pub proof fn lemma_parse_decimal_text(n: u32)
    ensures
        parse_u32(decimal_text(n as nat)) == Some(n),
{
    lemma_decimal_text(n as nat);
}

// ---------------------------------------------------------------------------
// Executable operations
// ---------------------------------------------------------------------------

/// The characters of `s`, in order.
pub fn chars_of(s: &str) -> (v: Vec<char>)
    ensures
        v@ == s@,
{
    let mut v: Vec<char> = Vec::new();
    for c in it: s.chars()
        invariant
            v@ == it.seq().subrange(0, it.index() as int),
    {
        v.push(c);
    }
    v
}

/// `char::is_whitespace`.
pub fn is_whitespace_char(c: char) -> (r: bool)
    ensures
        r == is_whitespace(c),
{
    let u = c as u32;
    (9 <= u && u <= 13) || u == 32 || u == 0x85 || u == 0xA0 || u == 0x1680 || (0x2000 <= u && u
        <= 0x200A) || u == 0x2028 || u == 0x2029 || u == 0x202F || u == 0x205F || u == 0x3000
}

fn is_trimmed_char(c: char, quotes: bool) -> (r: bool)
    ensures
        r == is_trimmed(c, quotes),
{
    if quotes {
        c == '"'
    } else {
        is_whitespace_char(c)
    }
}

/// The bounds of `v[start..end]` once its leading and trailing trimmed characters are removed.
pub fn trim_bounds(v: &Vec<char>, start: usize, end: usize, quotes: bool) -> (r: (usize, usize))
    requires
        start <= end <= v.len(),
    ensures
        start <= r.0 <= r.1 <= end,
        v@.subrange(r.0 as int, r.1 as int) == trim_end(
            trim_start(v@.subrange(start as int, end as int), quotes),
            quotes,
        ),
{
    let mut a = start;
    while a < end && is_trimmed_char(v[a], quotes)
        invariant
            start <= a <= end <= v.len(),
            forall|j: int| start <= j < a ==> is_trimmed(#[trigger] v@[j], quotes),
        decreases end - a,
    {
        a = a + 1;
    }
    let ghost s = v@.subrange(start as int, end as int);
    proof {
        assert forall|j: int| 0 <= j < a - start implies is_trimmed(#[trigger] s[j], quotes) by {
            assert(s[j] == v@[start + j]);
        }
        lemma_trim_start_is(s, quotes, a - start);
        assert(s.subrange(a - start, s.len() as int) =~= v@.subrange(a as int, end as int));
    }
    let mut b = end;
    while b > a && is_trimmed_char(v[b - 1], quotes)
        invariant
            start <= a <= b <= end <= v.len(),
            forall|j: int| b <= j < end ==> is_trimmed(#[trigger] v@[j], quotes),
        decreases b - a,
    {
        b = b - 1;
    }
    let ghost t = v@.subrange(a as int, end as int);
    proof {
        assert forall|j: int| b - a <= j < t.len() implies is_trimmed(#[trigger] t[j], quotes) by {
            assert(t[j] == v@[a + j]);
        }
        if b > a {
            assert(t[b - a - 1] == v@[b - 1]);
        }
        lemma_trim_end_is(t, quotes, b - a);
        assert(t.subrange(0, b - a) =~= v@.subrange(a as int, b as int));
    }
    (a, b)
}

/// The position of the first `c` in `v[start..end]`, or `end`.
pub fn find_char(v: &Vec<char>, start: usize, end: usize, c: char) -> (r: usize)
    requires
        start <= end <= v.len(),
    ensures
        start <= r <= end,
        r - start == index_of(v@.subrange(start as int, end as int), c),
{
    let mut i = start;
    while i < end && v[i] != c
        invariant
            start <= i <= end <= v.len(),
            forall|j: int| start <= j < i ==> v@[j] != c,
        decreases end - i,
    {
        i = i + 1;
    }
    proof {
        let s = v@.subrange(start as int, end as int);
        assert forall|j: int| 0 <= j < i - start implies s[j] != c by {
            assert(s[j] == v@[start + j]);
        }
        lemma_index_of_is(s, c, i - start);
    }
    i
}

/// The position just after the last `c` in `v[start..end]`, or `start`.
pub fn find_after_last(v: &Vec<char>, start: usize, end: usize, c: char) -> (r: usize)
    requires
        start <= end <= v.len(),
    ensures
        start <= r <= end,
        r - start == after_last(v@.subrange(start as int, end as int), c),
{
    let mut i = end;
    while i > start && v[i - 1] != c
        invariant
            start <= i <= end <= v.len(),
            forall|j: int| i <= j < end ==> v@[j] != c,
        decreases i - start,
    {
        i = i - 1;
    }
    proof {
        let s = v@.subrange(start as int, end as int);
        assert forall|j: int| i - start <= j < s.len() implies s[j] != c by {
            assert(s[j] == v@[start + j]);
        }
        if i > start {
            assert(s[i - start - 1] == v@[i - 1]);
        }
        lemma_after_last_is(s, c, i - start);
    }
    i
}

/// The number of `c` in `v[start..end]`.
pub fn count_in(v: &Vec<char>, start: usize, end: usize, c: char) -> (r: usize)
    requires
        start <= end <= v.len(),
    ensures
        r == count_char(v@.subrange(start as int, end as int), c),
{
    let mut n: usize = 0;
    let mut i = start;
    while i < end
        invariant
            start <= i <= end <= v.len(),
            n <= i - start,
            n == count_char(v@.subrange(start as int, i as int), c),
        decreases end - i,
    {
        proof {
            assert(v@.subrange(start as int, i + 1).drop_last() =~= v@.subrange(
                start as int,
                i as int,
            ));
        }
        if v[i] == c {
            n = n + 1;
        }
        i = i + 1;
    }
    n
}

/// Whether `v[start..end]` begins with `p`.
pub fn starts_with_at(v: &Vec<char>, start: usize, end: usize, p: &Vec<char>) -> (r: bool)
    requires
        start <= end <= v.len(),
    ensures
        r == starts_with(v@.subrange(start as int, end as int), p@),
{
    if p.len() > end - start {
        return false;
    }
    let mut i: usize = 0;
    while i < p.len()
        invariant
            start <= end <= v.len(),
            p.len() <= end - start,
            i <= p.len(),
            forall|j: int| 0 <= j < i ==> v@[start + j] == p@[j],
        decreases p.len() - i,
    {
        if v[start + i] != p[i] {
            proof {
                let s = v@.subrange(start as int, end as int);
                assert(s.subrange(0, p@.len() as int)[i as int] != p@[i as int]);
            }
            return false;
        }
        i = i + 1;
    }
    proof {
        let s = v@.subrange(start as int, end as int);
        assert(s.subrange(0, p@.len() as int) =~= p@);
    }
    true
}

/// Whether every character of `v[start..end]` is a decimal digit.
fn all_digits_at(v: &Vec<char>, start: usize, end: usize) -> (r: bool)
    requires
        start <= end <= v.len(),
    ensures
        r == all_digits(v@.subrange(start as int, end as int)),
{
    let mut i = start;
    while i < end
        invariant
            start <= i <= end <= v.len(),
            forall|j: int| start <= j < i ==> is_digit(#[trigger] v@[j]),
        decreases end - i,
    {
        let u = v[i] as u32;
        if u < 48 || u > 57 {
            proof {
                let s = v@.subrange(start as int, end as int);
                assert(!is_digit(s[i - start]));
            }
            return false;
        }
        i = i + 1;
    }
    proof {
        let s = v@.subrange(start as int, end as int);
        assert forall|j: int| 0 <= j < s.len() implies is_digit(#[trigger] s[j]) by {
            assert(s[j] == v@[start + j]);
        }
    }
    true
}

/// `parse_u32` of `v[start..end]`.
pub fn parse_u32_at(v: &Vec<char>, start: usize, end: usize) -> (r: Option<u32>)
    requires
        start <= end <= v.len(),
    ensures
        r == parse_u32(v@.subrange(start as int, end as int)),
{
    let ghost s = v@.subrange(start as int, end as int);
    let first = if start < end && v[start] == '+' {
        start + 1
    } else {
        start
    };
    let ghost d = v@.subrange(first as int, end as int);
    proof {
        assert(unsigned_digits(s) =~= d);
    }
    if first == end || !all_digits_at(v, first, end) {
        return None;
    }
    let mut acc: u64 = 0;
    let mut i = first;
    while i < end
        invariant
            first <= i <= end <= v.len(),
            d == v@.subrange(first as int, end as int),
            unsigned_digits(s) == d,
            s == v@.subrange(start as int, end as int),
            all_digits(d),
            acc == decimal_value(v@.subrange(first as int, i as int)),
            acc <= u32::MAX,
        decreases end - i,
    {
        let ghost p = v@.subrange(first as int, i + 1);
        proof {
            assert(p.drop_last() =~= v@.subrange(first as int, i as int));
            assert(p.last() == d[i - first]);
            assert(is_digit(d[i - first]));
        }
        let digit = (v[i] as u32 - 48) as u64;
        let next = acc * 10 + digit;
        assert(decimal_value(p) == next);
        if next > 0xFFFF_FFFF {
            proof {
                lemma_decimal_value_monotone(d, i + 1 - first);
                assert(d.subrange(0, i + 1 - first) =~= p);
            }
            return None;
        }
        acc = next;
        i = i + 1;
    }
    proof {
        assert(v@.subrange(first as int, i as int) =~= d);
    }
    Some(acc as u32)
}

/// `is_yes` of `v[start..end]`.
pub fn is_yes_at(v: &Vec<char>, start: usize, end: usize) -> (r: bool)
    requires
        start <= end <= v.len(),
    ensures
        r == is_yes(v@.subrange(start as int, end as int)),
{
    if end - start != 3 {
        return false;
    }
    let a = v[start];
    let b = v[start + 1];
    let c = v[start + 2];
    (a == 'y' || a == 'Y') && (b == 'e' || b == 'E') && (c == 's' || c == 'S')
}

/// The one-character text of a digit below sixteen.
pub fn digit_str(d: u32) -> (s: &'static str)
    requires
        d < 16,
    ensures
        s@ == seq![digit_char(d as nat)],
{
    proof {
        reveal_strlit("0");
        reveal_strlit("1");
        reveal_strlit("2");
        reveal_strlit("3");
        reveal_strlit("4");
        reveal_strlit("5");
        reveal_strlit("6");
        reveal_strlit("7");
        reveal_strlit("8");
        reveal_strlit("9");
        reveal_strlit("A");
        reveal_strlit("B");
        reveal_strlit("C");
        reveal_strlit("D");
        reveal_strlit("E");
        reveal_strlit("F");
    }
    let s = if d == 0 {
        "0"
    } else if d == 1 {
        "1"
    } else if d == 2 {
        "2"
    } else if d == 3 {
        "3"
    } else if d == 4 {
        "4"
    } else if d == 5 {
        "5"
    } else if d == 6 {
        "6"
    } else if d == 7 {
        "7"
    } else if d == 8 {
        "8"
    } else if d == 9 {
        "9"
    } else if d == 10 {
        "A"
    } else if d == 11 {
        "B"
    } else if d == 12 {
        "C"
    } else if d == 13 {
        "D"
    } else if d == 14 {
        "E"
    } else {
        "F"
    };
    assert(s@ =~= seq![digit_char(d as nat)]);
    s
}

/// Appends the decimal text of `n` to `out`.
pub fn push_decimal(out: &mut String, n: u64)
    ensures
        final(out)@ == old(out)@ + decimal_text(n as nat),
    decreases n,
{
    if n >= 10 {
        push_decimal(out, n / 10);
    }
    out.append(digit_str((n % 10) as u32));
    proof {
        assert(old(out)@ + decimal_text(n as nat) =~= if n >= 10 {
            old(out)@ + decimal_text((n / 10) as nat) + seq![digit_char((n % 10) as nat)]
        } else {
            old(out)@ + seq![digit_char((n % 10) as nat)]
        });
    }
}

/// Appends the upper-case hexadecimal text of `n` to `out`.
pub fn push_hex(out: &mut String, n: u32)
    ensures
        final(out)@ == old(out)@ + hex_text(n as nat),
    decreases n,
{
    if n >= 16 {
        push_hex(out, n / 16);
    }
    out.append(digit_str(n % 16));
    proof {
        assert(old(out)@ + hex_text(n as nat) =~= if n >= 16 {
            old(out)@ + hex_text((n / 16) as nat) + seq![digit_char((n % 16) as nat)]
        } else {
            old(out)@ + seq![digit_char((n % 16) as nat)]
        });
    }
}

/// The decimal text of `n` (`n.to_string()`).
pub fn decimal_string(n: u32) -> (s: String)
    ensures
        s@ == decimal_text(n as nat),
{
    let mut s = String::new();
    push_decimal(&mut s, n as u64);
    assert(s@ =~= decimal_text(n as nat));
    s
}

} // verus!
