//! Character sequences and decimal rendering/parsing.
//!
//! The filter language and the query builders work over `Seq<char>` models;
//! this module supplies the conversions between `&str`/`String` and
//! `Vec<char>` together with verified decimal printing and parsing.

use vstd::prelude::*;

verus! {

/// Relies on `str::chars`: yields the characters of the string in order
/// (the view of a `str` is exactly that character sequence).
#[verifier::external_body]
pub fn str_to_chars(s: &str) -> (v: Vec<char>)
    ensures
        v@ == s@,
{
    s.chars().collect()
}

/// Relies on `String`'s `FromIterator<char>`: collecting characters builds
/// the string holding exactly those characters in order.
#[verifier::external_body]
pub fn chars_to_string(v: &Vec<char>) -> (s: String)
    ensures
        s@ == v@,
{
    v.iter().collect()
}

/// The decimal digit character for a value in `0..=9`.
pub open spec fn spec_digit_char(d: int) -> char {
    if d == 0 {
        '0'
    } else if d == 1 {
        '1'
    } else if d == 2 {
        '2'
    } else if d == 3 {
        '3'
    } else if d == 4 {
        '4'
    } else if d == 5 {
        '5'
    } else if d == 6 {
        '6'
    } else if d == 7 {
        '7'
    } else if d == 8 {
        '8'
    } else {
        '9'
    }
}

/// The decimal rendering of a non-negative integer, without sign.
pub open spec fn spec_nat_chars(n: int) -> Seq<char>
    decreases n,
{
    if n <= 0 {
        seq!['0']
    } else if n < 10 {
        seq![spec_digit_char(n)]
    } else {
        spec_nat_chars(n / 10).push(spec_digit_char(n % 10))
    }
}

/// The decimal rendering of an integer: a minus sign for negative values,
/// then the digits.
pub open spec fn spec_int_chars(n: int) -> Seq<char> {
    if n < 0 {
        seq!['-'] + spec_nat_chars(-n)
    } else {
        spec_nat_chars(n)
    }
}

/// Pushes the decimal digits of `n` onto `out`.
fn push_nat_chars(out: &mut Vec<char>, n: u64)
    ensures
        final(out)@ == old(out)@ + spec_nat_chars(n as int),
    decreases n,
{
    if n < 10 {
        let d: u64 = n;
        let c: char = digit_char(d);
        out.push(c);
        assert(out@ =~= old(out)@ + spec_nat_chars(n as int));
    } else {
        push_nat_chars(out, n / 10);
        let c: char = digit_char(n % 10);
        out.push(c);
        assert(out@ =~= old(out)@ + spec_nat_chars(n as int));
    }
}

/// The decimal digit character of `d`, for `d` in `0..=9`.
fn digit_char(d: u64) -> (c: char)
    requires
        d <= 9,
    ensures
        c == spec_digit_char(d as int),
{
    match d {
        0 => '0',
        1 => '1',
        2 => '2',
        3 => '3',
        4 => '4',
        5 => '5',
        6 => '6',
        7 => '7',
        8 => '8',
        _ => '9',
    }
}

/// The decimal rendering of `n` as a character vector.
pub fn int_to_chars(n: i64) -> (v: Vec<char>)
    ensures
        v@ == spec_int_chars(n as int),
{
    let mut out: Vec<char> = Vec::new();
    if n < 0 {
        out.push('-');
        let m: u64 = if n == i64::MIN {
            9223372036854775808u64
        } else {
            (-n) as u64
        };
        assert(m == -(n as int));
        push_nat_chars(&mut out, m);
        assert(out@ =~= spec_int_chars(n as int));
    } else {
        push_nat_chars(&mut out, n as u64);
    }
    out
}

/// The decimal rendering of `n` as a `String`.
pub fn int_to_string(n: i64) -> (s: String)
    ensures
        s@ == spec_int_chars(n as int),
{
    let v = int_to_chars(n);
    chars_to_string(&v)
}

/// True when the two vectors hold the same characters in the same order.
pub fn chars_eq(a: &Vec<char>, b: &Vec<char>) -> (r: bool)
    ensures
        r == (a@ == b@),
{
    if a.len() != b.len() {
        assert(a@ != b@) by {
            assert(a@.len() != b@.len());
        }
        return false;
    }
    let n: usize = a.len();
    let mut i: usize = 0;
    while i < n
        invariant
            i <= n,
            n == a@.len() == b@.len(),
            forall|j: int| 0 <= j < i ==> a@[j] == b@[j],
        decreases n - i,
    {
        if a[i] != b[i] {
            return false;
        }
        i += 1;
    }
    assert(a@ =~= b@);
    true
}

/// True when the two string slices hold the same characters.
pub fn str_eq(a: &str, b: &str) -> (r: bool)
    ensures
        r == (a@ == b@),
{
    let va = str_to_chars(a);
    let vb = str_to_chars(b);
    chars_eq(&va, &vb)
}

/// True of the ten decimal digit characters.
pub open spec fn spec_is_digit(c: char) -> bool {
    '0' <= c <= '9'
}

/// The numeric value of a digit character.
pub open spec fn spec_digit_val(c: char) -> int {
    c as int - '0' as int
}

/// The non-negative integer denoted by a digit sequence, most significant
/// digit first.
pub open spec fn spec_digits_val(s: Seq<char>) -> int
    decreases s.len(),
{
    if s.len() == 0 {
        0
    } else {
        spec_digits_val(s.drop_last()) * 10 + spec_digit_val(s.last())
    }
}

/// The value of a digit sequence is non-negative.
pub proof fn lemma_digits_val_nonneg(s: Seq<char>)
    requires
        forall|k: int| 0 <= k < s.len() ==> spec_is_digit(s[k]),
    ensures
        0 <= spec_digits_val(s),
    decreases s.len(),
{
    if s.len() > 0 {
        lemma_digits_val_nonneg(s.drop_last());
        assert(spec_digit_val(s.last()) >= 0);
        assert(spec_digits_val(s.drop_last()) * 10 >= 0) by (nonlinear_arith)
            requires
                spec_digits_val(s.drop_last()) >= 0,
        {}
    }
}

/// A digit sequence is worth at least as much as any of its prefixes.
pub proof fn lemma_digits_val_prefix(s: Seq<char>, j: int)
    requires
        0 <= j <= s.len(),
        forall|k: int| 0 <= k < s.len() ==> spec_is_digit(s[k]),
    ensures
        spec_digits_val(s.subrange(0, j)) <= spec_digits_val(s),
    decreases s.len() - j,
{
    if j == s.len() {
        assert(s.subrange(0, j) =~= s);
    } else {
        lemma_digits_val_prefix(s, j + 1);
        let p = s.subrange(0, j);
        let q = s.subrange(0, j + 1);
        assert(q.drop_last() =~= p);
        lemma_digits_val_nonneg(p);
        assert(spec_digits_val(p) * 10 >= spec_digits_val(p)) by (nonlinear_arith)
            requires
                spec_digits_val(p) >= 0,
        {}
        assert(spec_digit_val(q.last()) >= 0);
    }
}

/// The characters of span `[start, end)` of `v`, as a `String`.
pub fn span_to_string(v: &Vec<char>, start: usize, end: usize) -> (r: String)
    requires
        start <= end <= v@.len(),
    ensures
        r@ == v@.subrange(start as int, end as int),
{
    let mut out: Vec<char> = Vec::new();
    let mut i = start;
    while i < end
        invariant
            start <= i <= end <= v@.len(),
            out@ == v@.subrange(start as int, i as int),
        decreases end - i,
    {
        out.push(v[i]);
        assert(out@ =~= v@.subrange(start as int, (i + 1) as int));
        i += 1;
    }
    chars_to_string(&out)
}

/// True when the characters of span `[start, end)` of `v` spell `word`.
pub fn span_matches(v: &Vec<char>, start: usize, end: usize, word: &str) -> (r: bool)
    requires
        start <= end <= v@.len(),
    ensures
        r == (v@.subrange(start as int, end as int) == word@),
{
    let w = str_to_chars(word);
    if end - start != w.len() {
        assert(v@.subrange(start as int, end as int).len() != word@.len());
        return false;
    }
    let mut i: usize = 0;
    let m = w.len();
    while i < m
        invariant
            i <= m,
            m == w@.len() == end - start,
            w@ == word@,
            start <= end <= v@.len(),
            forall|j: int| 0 <= j < i ==> v@.subrange(start as int, end as int)[j] == word@[j],
        decreases m - i,
    {
        if v[start + i] != w[i] {
            assert(v@.subrange(start as int, end as int)[i as int] != word@[i as int]);
            return false;
        }
        assert(v@.subrange(start as int, end as int)[i as int] == word@[i as int]);
        i = i + 1;
    }
    assert(v@.subrange(start as int, end as int) =~= word@);
    true
}

} // verus!
