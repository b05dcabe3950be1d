//! Character-level text helpers shared by the planner: whitespace trimming,
//! editing a `String` at its end, and decimal formatting of integers.

use vstd::prelude::*;
use vstd::string::StrSliceExecFns;

verus! {

/// Unicode `White_Space`, the property that `char::is_whitespace` tests.
pub open spec fn is_whitespace(c: char) -> bool {
    ||| ('\u{9}' <= c && c <= '\u{d}')
    ||| c == ' '
    ||| c == '\u{85}'
    ||| c == '\u{a0}'
    ||| c == '\u{1680}'
    ||| ('\u{2000}' <= c && c <= '\u{200a}')
    ||| c == '\u{2028}'
    ||| c == '\u{2029}'
    ||| c == '\u{202f}'
    ||| c == '\u{205f}'
    ||| c == '\u{3000}'
}

/// `s` without its leading whitespace.
pub open spec fn trim_start(s: Seq<char>) -> Seq<char>
    decreases s.len(),
{
    if s.len() > 0 && is_whitespace(s[0]) {
        trim_start(s.drop_first())
    } else {
        s
    }
}

/// `s` without its trailing whitespace.
pub open spec fn trim_end(s: Seq<char>) -> Seq<char>
    decreases s.len(),
{
    if s.len() > 0 && is_whitespace(s.last()) {
        trim_end(s.drop_last())
    } else {
        s
    }
}

/// `s` without leading and trailing whitespace.
pub open spec fn trimmed(s: Seq<char>) -> Seq<char> {
    trim_end(trim_start(s))
}

/// Text that is non-empty and neither starts nor ends with whitespace.
pub open spec fn is_clean(s: Seq<char>) -> bool {
    s.len() > 0 && !is_whitespace(s[0]) && !is_whitespace(s.last())
}

proof fn lemma_trim_start_head(s: Seq<char>)
    ensures
        trim_start(s).len() == 0 || !is_whitespace(trim_start(s)[0]),
    decreases s.len(),
{
    if s.len() > 0 && is_whitespace(s[0]) {
        lemma_trim_start_head(s.drop_first());
    }
}

proof fn lemma_trim_end_prefix(s: Seq<char>)
    ensures
        trim_end(s) == s.take(trim_end(s).len() as int),
        trim_end(s).len() <= s.len(),
        trim_end(s).len() == 0 || !is_whitespace(trim_end(s).last()),
    decreases s.len(),
{
    if s.len() > 0 && is_whitespace(s.last()) {
        lemma_trim_end_prefix(s.drop_last());
        let t = trim_end(s.drop_last());
        assert(s.drop_last().take(t.len() as int) =~= s.take(t.len() as int));
    } else {
        assert(s.take(s.len() as int) =~= s);
    }
}

/// Trimmed text is empty, or begins and ends with a non-whitespace char.
pub proof fn lemma_trimmed_is_clean(s: Seq<char>)
    ensures
        trimmed(s).len() == 0 || is_clean(trimmed(s)),
{
    let x = trim_start(s);
    lemma_trim_start_head(s);
    lemma_trim_end_prefix(x);
    let y = trim_end(x);
    if y.len() > 0 {
        assert(y[0] == x.take(y.len() as int)[0]);
    }
}

/// Trimming clean text leaves it as it is.
pub proof fn lemma_clean_is_trimmed(s: Seq<char>)
    requires
        is_clean(s),
    ensures
        trimmed(s) == s,
{
    assert(trim_start(s) == s);
    assert(trim_end(s) == s);
}

/// Trimming twice is trimming once.
pub proof fn lemma_trimmed_idempotent(s: Seq<char>)
    ensures
        trimmed(trimmed(s)) == trimmed(s),
{
    lemma_trimmed_is_clean(s);
    if trimmed(s).len() > 0 {
        lemma_clean_is_trimmed(trimmed(s));
    } else {
        assert(trim_start(trimmed(s)) == trimmed(s));
        assert(trim_end(trimmed(s)) == trimmed(s));
    }
}

/// `str::trim`: the slice of `s` without leading and trailing whitespace
/// (chars with the Unicode `White_Space` property).
#[verifier::external_body]
pub(crate) fn str_trim(s: &str) -> (r: &str)
    ensures
        r@ == trimmed(s@),
{
    s.trim()
}

/// `str == str`: the two slices hold the same chars.
#[verifier::external_body]
pub(crate) fn str_eq(a: &str, b: &str) -> (r: bool)
    ensures
        r == (a@ == b@),
{
    a == b
}

/// `String::push`: appends `c` at the end of `s`.
#[verifier::external_body]
pub(crate) fn push_char(s: &mut String, c: char)
    ensures
        final(s)@ == old(s)@.push(c),
{
    s.push(c)
}

/// `String::pop`: removes the last char of `s` and returns it, or returns
/// `None` and leaves `s` as it is when `s` is empty.
#[verifier::external_body]
pub(crate) fn pop_char(s: &mut String) -> (r: Option<char>)
    ensures
        match r {
            Some(c) => old(s)@.len() > 0 && c == old(s)@.last() && final(s)@ == old(s)@.drop_last(),
            None => old(s)@.len() == 0 && final(s)@ == old(s)@,
        },
{
    s.pop()
}

/// The trimmed text of `s`, as an owned `String`.
pub fn trimmed_string(s: &str) -> (r: String)
    ensures
        r@ == trimmed(s@),
{
    str_trim(s).to_owned()
}

/// The ASCII digit for `d`.
pub open spec fn digit(d: nat) -> char
    recommends
        d < 10,
{
    if d == 0 { '0' }
    else if d == 1 { '1' }
    else if d == 2 { '2' }
    else if d == 3 { '3' }
    else if d == 4 { '4' }
    else if d == 5 { '5' }
    else if d == 6 { '6' }
    else if d == 7 { '7' }
    else if d == 8 { '8' }
    else { '9' }
}

/// The decimal digits of `n`, most significant first, without leading zeros.
pub open spec fn decimal(n: nat) -> Seq<char>
    decreases n,
{
    if n < 10 {
        seq![digit(n)]
    } else {
        decimal(n / 10).push(digit(n % 10))
    }
}

/// The decimal text of an integer: a minus sign before the digits of its
/// magnitude when it is negative.
pub open spec fn signed_decimal(n: int) -> Seq<char> {
    if n < 0 {
        seq!['-'] + decimal((-n) as nat)
    } else {
        decimal(n as nat)
    }
}

/// An integer written as `format!("{n:02}")` writes it: at least two
/// characters, zero-padded after the sign.
pub open spec fn two_digits(n: int) -> Seq<char> {
    if 0 <= n && n < 10 {
        seq!['0', digit(n as nat)]
    } else {
        signed_decimal(n)
    }
}

fn digit_char(d: u64) -> (c: char)
    requires
        d < 10,
    ensures
        c == digit(d as nat),
{
    match d {
        0 => '0',
        1 => '1',
        2 => '2',
        3 => '3',
        4 => '4',
        5 => '5',
        6 => '6',
        7 => '7',
        8 => '8',
        _ => '9',
    }
}

/// Appends the decimal digits of `n` to `out`.
pub fn push_decimal(out: &mut String, n: u64)
    ensures
        final(out)@ == old(out)@ + decimal(n as nat),
    decreases n,
{
    if n >= 10 {
        push_decimal(out, n / 10);
    }
    push_char(out, digit_char(n % 10));
    assert(decimal(n as nat) == if n < 10 { seq![digit(n as nat)] } else { decimal((n / 10) as nat).push(digit((n % 10) as nat)) });
}

/// The magnitude of `n` as an unsigned integer.
pub fn magnitude(n: i64) -> (r: u64)
    ensures
        r as int == if n < 0 { -n } else { n as int },
{
    if n >= 0 {
        n as u64
    } else if n == i64::MIN {
        9223372036854775808u64
    } else {
        (-n) as u64
    }
}

/// Appends the decimal text of `n` (with a leading `-` when negative).
pub fn push_signed_decimal(out: &mut String, n: i64)
    ensures
        final(out)@ == old(out)@ + signed_decimal(n as int),
{
    if n < 0 {
        push_char(out, '-');
        let m = magnitude(n);
        push_decimal(out, m);
        assert(old(out)@.push('-') + decimal(m as nat) == old(out)@ + (seq!['-'] + decimal(((-n) as int) as nat)));
    } else {
        push_decimal(out, n as u64);
    }
}

/// Appends `n` zero-padded to at least two characters.
pub fn push_two_digits(out: &mut String, n: i64)
    ensures
        final(out)@ == old(out)@ + two_digits(n as int),
{
    if 0 <= n && n < 10 {
        push_char(out, '0');
        push_char(out, digit_char(n as u64));
        assert(old(out)@.push('0').push(digit(n as nat)) == old(out)@ + seq!['0', digit(n as nat)]);
    } else {
        push_signed_decimal(out, n);
    }
}

/// The decimal text of `n`, as `format!("{n}")` writes it.
pub fn decimal_string(n: i64) -> (r: String)
    ensures
        r@ == signed_decimal(n as int),
{
    let mut out = String::new();
    push_signed_decimal(&mut out, n);
    assert(Seq::<char>::empty() + signed_decimal(n as int) == signed_decimal(n as int));
    out
}

/// `n` spaces.
pub open spec fn spaces(n: nat) -> Seq<char> {
    Seq::new(n, |i: int| ' ')
}

/// `s` padded on the right with spaces to at least `width` chars, as
/// `format!("{s:<width$}")` pads it.
pub open spec fn pad_right(s: Seq<char>, width: nat) -> Seq<char> {
    if s.len() < width {
        s + spaces((width - s.len()) as nat)
    } else {
        s
    }
}

/// Appends `n` spaces.
pub fn push_spaces(out: &mut String, n: usize)
    ensures
        final(out)@ == old(out)@ + spaces(n as nat),
{
    let mut i: usize = 0;
    while i < n
        invariant
            i <= n,
            out@ == old(out)@ + spaces(i as nat),
        decreases n - i,
    {
        let ghost before = out@;
        push_char(out, ' ');
        assert(out@ =~= old(out)@ + spaces((i + 1) as nat));
        i = i + 1;
    }
}

/// Appends the first `n` chars of `s` (all of them when `s` is shorter).
pub fn push_prefix(out: &mut String, s: &str, n: usize)
    ensures
        final(out)@ == old(out)@ + s@.take(if n < s@.len() { n as int } else { s@.len() as int }),
{
    let len = s.unicode_len();
    let stop = if n < len {
        n
    } else {
        len
    };
    let mut i: usize = 0;
    while i < stop
        invariant
            i <= stop,
            stop <= len,
            len == s@.len(),
            out@ == old(out)@ + s@.take(i as int),
        decreases stop - i,
    {
        let c = s.get_char(i);
        push_char(out, c);
        assert(s@.take(i + 1) =~= s@.take(i as int).push(c));
        assert(out@ =~= old(out)@ + s@.take(i + 1));
        i = i + 1;
    }
}

/// `s` padded on the right with spaces to at least `width` chars.
pub fn padded(s: &str, width: usize) -> (r: String)
    ensures
        r@ == pad_right(s@, width as nat),
{
    let len = s.unicode_len();
    let mut out = s.to_owned();
    if len < width {
        push_spaces(&mut out, width - len);
    }
    out
}

} // verus!
