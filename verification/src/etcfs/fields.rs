use vstd::prelude::*;

use crate::seqs::views_of;
use crate::text::{chars_of, decimal, digit_char, push_str};

verus! {

/// Why a field of an entry could not be read.
#[derive(PartialEq, Eq, Clone, Debug)]
pub enum FieldError {
    /// The line ends before the field.
    Missing,
    /// The field is not a number that fits in 32 bits; it holds the text.
    InvalidNumber(String),
}

/// The message of a field error.
pub open spec fn field_error_text(e: FieldError) -> Seq<char> {
    match e {
        FieldError::Missing => "missing field"@,
        FieldError::InvalidNumber(t) => "invalid number: "@ + t@,
    }
}

impl FieldError {
    /// The message of the error, such as `invalid number: ten`.
    pub fn to_string(&self) -> (s: String)
        ensures
            s@ == field_error_text(*self),
    {
        match self {
            FieldError::Missing => "missing field".to_owned(),
            FieldError::InvalidNumber(t) => {
                let mut s = String::new();
                push_str(&mut s, "invalid number: ");
                push_str(&mut s, t.as_str());
                s
            },
        }
    }
}

/// Why an entries file could not be read.
#[derive(PartialEq, Eq, Clone, Debug)]
pub enum EtcfsError {
    /// A line is not an entry: the first eight bytes of the line, and the
    /// message of what is wrong with it.
    InvalidLine { line: String, errmsg: String },
}

/// The pieces of `s` between the occurrences of `sep`: one more piece than
/// there are separators, empty pieces included.
pub open spec fn split_text(s: Seq<char>, sep: char) -> Seq<Seq<char>>
    decreases s.len(),
{
    if s.len() == 0 {
        seq![Seq::<char>::empty()]
    } else {
        let init = split_text(s.drop_last(), sep);
        if s.last() == sep {
            init.push(Seq::<char>::empty())
        } else {
            init.update(init.len() - 1, init.last().push(s.last()))
        }
    }
}

/// Whether `c` is one of `0` to `9`.
pub open spec fn is_digit(c: char) -> bool {
    '0' as u32 <= c as u32 <= '9' as u32
}

/// The value of a string of decimal digits.
pub open spec fn digits_value(d: Seq<char>) -> nat
    decreases d.len(),
{
    if d.len() == 0 {
        0
    } else {
        digits_value(d.drop_last()) * 10 + ((d.last() as u32) - ('0' as u32)) as nat
    }
}

/// Whether every character of `d` is a decimal digit.
pub open spec fn all_digits(d: Seq<char>) -> bool {
    forall|i: int| 0 <= i < d.len() ==> is_digit(#[trigger] d[i])
}

/// The text of a number without its sign: a leading `+` is dropped when
/// something follows it.
pub open spec fn unsigned_digits(s: Seq<char>) -> Seq<char> {
    if s.len() > 1 && s[0] == '+' {
        s.drop_first()
    } else {
        s
    }
}

/// Reads a `u32` the way `str::parse::<u32>` does: an optional `+`, then
/// one or more decimal digits whose value fits in 32 bits.
pub open spec fn parse_u32_text(s: Seq<char>) -> Option<u32> {
    let digits = unsigned_digits(s);
    if digits.len() > 0 && all_digits(digits) && digits_value(digits) <= u32::MAX {
        Some(digits_value(digits) as u32)
    } else {
        None
    }
}

/// A longer string of digits is worth at least as much as its prefix.
proof fn lemma_digits_value_grows(d: Seq<char>, i: int)
    requires
        0 <= i <= d.len(),
        forall|j: int| 0 <= j < d.len() ==> is_digit(#[trigger] d[j]),
    ensures
        digits_value(d.take(i)) <= digits_value(d),
    decreases d.len() - i,
{
    if i < d.len() {
        lemma_digits_value_grows(d, i + 1);
        assert(d.take(i + 1).drop_last() =~= d.take(i));
    } else {
        assert(d.take(i) =~= d);
    }
}

/// The decimal text of `n` is digits worth `n`.
proof fn lemma_decimal_digits(n: nat)
    ensures
        decimal(n).len() > 0,
        all_digits(decimal(n)),
        digits_value(decimal(n)) == n,
    decreases n,
{
    if n < 10 {
        let d = decimal(n);
        assert(d =~= seq![digit_char(n)]);
        assert(d.drop_last() =~= Seq::<char>::empty());
        assert((digit_char(n) as u32) - ('0' as u32) == n);
        assert(d.last() == digit_char(n));
        assert(digits_value(d.drop_last()) == 0);
        assert(digits_value(d) == digits_value(d.drop_last()) * 10 + n);
    } else {
        lemma_decimal_digits(n / 10);
        let d = decimal(n);
        let init = decimal(n / 10);
        assert(d.drop_last() =~= init);
        assert forall|i: int| 0 <= i < d.len() implies is_digit(#[trigger] d[i]) by {
            if i < init.len() {
                assert(d[i] == init[i]);
            }
        }
        let r = n % 10;
        assert((digit_char(r) as u32) - ('0' as u32) == r);
        assert(d.last() == digit_char(r));
        assert(digits_value(d) == digits_value(init) * 10 + r);
        assert((n / 10) * 10 + r == n);
    }
}

/// A `u32` written in decimal reads back as the same number.
pub proof fn lemma_parse_u32_decimal(n: u32)
    ensures
        parse_u32_text(decimal(n as nat)) == Some(n),
{
    lemma_decimal_digits(n as nat);
    let d = decimal(n as nat);
    assert(is_digit(d[0]));
    assert(unsigned_digits(d) == d);
}

/// The pieces of `s` between the occurrences of `sep`.
pub fn split_fields(s: &str, sep: char) -> (parts: Vec<String>)
    ensures
        views_of(parts@) == split_text(s@, sep),
{
    let cs = chars_of(s);
    let mut parts: Vec<String> = Vec::new();
    let mut cur = String::new();
    let mut i: usize = 0;
    while i < cs.len()
        invariant
            i <= cs@.len(),
            cs@ == s@,
            views_of(parts@).push(cur@) == split_text(cs@.take(i as int), sep),
        decreases cs.len() - i,
    {
        let c = cs[i];
        let ghost before = views_of(parts@).push(cur@);
        proof {
            assert(cs@.take(i + 1).drop_last() =~= cs@.take(i as int));
            assert(cs@.take(i + 1).last() == c);
        }
        if c == sep {
            let mut done = String::new();
            std::mem::swap(&mut done, &mut cur);
            parts.push(done);
            assert(views_of(parts@).push(cur@) =~= before.push(Seq::<char>::empty()));
        } else {
            cur.push(c);
            assert(views_of(parts@).push(cur@) =~= before.update(before.len() - 1, before.last().push(c)));
        }
        i = i + 1;
    }
    parts.push(cur);
    assert(cs@.take(cs@.len() as int) =~= cs@);
    parts
}

/// Reads a `u32` the way `str::parse::<u32>` does.
pub fn parse_u32(s: &str) -> (r: Option<u32>)
    ensures
        r == parse_u32_text(s@),
{
    let cs = chars_of(s);
    let start: usize = if cs.len() > 1 && cs[0] == '+' { 1 } else { 0 };
    let ghost digits = unsigned_digits(s@);
    assert(digits =~= cs@.skip(start as int));
    if start == cs.len() {
        return None;
    }
    let mut value: u64 = 0;
    let mut i: usize = start;
    while i < cs.len()
        invariant
            start <= i <= cs@.len(),
            start < cs@.len(),
            cs@ == s@,
            digits == cs@.skip(start as int),
            digits == unsigned_digits(s@),
            forall|j: int| 0 <= j < i - start ==> is_digit(#[trigger] digits[j]),
            value == digits_value(digits.take(i - start)),
            value <= u32::MAX,
        decreases cs.len() - i,
    {
        let c = cs[i];
        let ghost k = i - start;
        assert(digits[k] == c);
        let code: u32 = c as u32;
        if !(48 <= code && code <= 57) {
            assert(!is_digit(digits[k]));
            return None;
        }
        let d: u64 = (code - 48) as u64;
        proof {
            assert(digits.take(k + 1).drop_last() =~= digits.take(k));
            assert(digits.take(k + 1).last() == c);
            assert(digits_value(digits.take(k + 1)) == digits_value(digits.take(k)) * 10 + d);
        }
        value = value * 10 + d;
        if value > 0xffff_ffff {
            proof {
                let n = digits.len() as int;
                if all_digits(digits) {
                    lemma_digits_value_grows(digits, k + 1);
                    assert(digits_value(digits) > u32::MAX);
                }
            }
            return None;
        }
        i = i + 1;
    }
    assert(digits.take(digits.len() as int) =~= digits);
    Some(value as u32)
}

} // verus!
