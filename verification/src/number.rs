//! Decimal numbers: the text that integer `Display` writes and the values that
//! the unsigned `FromStr` impls accept.
use vstd::prelude::*;

use crate::text::{is_ascii_digit, push_char, to_chars};

verus! {

pub open spec fn digit_char(d: nat) -> char
    recommends
        d < 10,
{
    (48 + d) as char
}

/// The decimal digits of `n`, most significant first, with no leading zero.
pub open spec fn digits(n: nat) -> Seq<char>
    decreases n,
{
    if n < 10 {
        seq![digit_char(n)]
    } else {
        digits(n / 10).push(digit_char(n % 10))
    }
}

proof fn lemma_digit_char(d: nat)
    requires
        d < 10,
    ensures
        digit_char(d) as int == 48 + d,
        is_ascii_digit(digit_char(d)),
{
}

/// What `Display` writes for an integer: a `-` before negative values.
pub open spec fn int_str(i: int) -> Seq<char> {
    if i < 0 {
        seq!['-'] + digits((-i) as nat)
    } else {
        digits(i as nat)
    }
}

fn digit_of(d: u64) -> (c: char)
    requires
        d < 10,
    ensures
        c == digit_char(d as nat),
{
    if d == 0 { '0' } else if d == 1 { '1' } else if d == 2 { '2' } else if d == 3 { '3' }
    else if d == 4 { '4' } else if d == 5 { '5' } else if d == 6 { '6' } else if d == 7 { '7' }
    else if d == 8 { '8' } else { '9' }
}

fn push_digits(s: &mut String, n: u64)
    ensures
        final(s)@ == old(s)@ + digits(n as nat),
    decreases n,
{
    if n < 10 {
        push_char(s, digit_of(n));
        assert(digits(n as nat) == seq![digit_char(n as nat)]);
    } else {
        push_digits(s, n / 10);
        push_char(s, digit_of(n % 10));
        assert(digits(n as nat) == digits((n / 10) as nat).push(digit_char((n % 10) as nat)));
    }
}

/// `u64::to_string`.
pub fn fmt_u64(n: u64) -> (s: String)
    ensures
        s@ == digits(n as nat),
{
    let mut s = String::new();
    push_digits(&mut s, n);
    s
}

/// `i64::to_string`.
pub fn fmt_i64(n: i64) -> (s: String)
    ensures
        s@ == int_str(n as int),
{
    let mut s = String::new();
    if n < 0 {
        push_char(&mut s, '-');
        let m: u64 = if n == i64::MIN { 9223372036854775808u64 } else { (-n) as u64 };
        push_digits(&mut s, m);
    } else {
        push_digits(&mut s, n as u64);
    }
    s
}

/// Value of a run of ASCII digits.
pub open spec fn digits_value(d: Seq<char>) -> nat
    decreases d.len(),
{
    if d.len() == 0 {
        0
    } else {
        digits_value(d.drop_last()) * 10 + ((d.last() as int) - 48) as nat
    }
}

pub open spec fn all_digits(d: Seq<char>) -> bool {
    forall|i: int| 0 <= i < d.len() ==> is_ascii_digit(#[trigger] d[i])
}

/// The digits that the unsigned `FromStr` impls read: an optional leading `+`
/// is dropped.
pub open spec fn unsigned_body(s: Seq<char>) -> Seq<char> {
    if s.len() > 0 && s[0] == '+' {
        s.drop_first()
    } else {
        s
    }
}

/// The value that an unsigned `FromStr` impl reads from `s`, before its range
/// is checked: at least one digit, all ASCII, after an optional `+`.
pub open spec fn parse_unsigned(s: Seq<char>) -> Option<nat> {
    let d = unsigned_body(s);
    if d.len() > 0 && all_digits(d) {
        Some(digits_value(d))
    } else {
        None
    }
}

/// `u64::from_str`.
pub open spec fn parse_u64_spec(s: Seq<char>) -> Option<u64> {
    match parse_unsigned(s) {
        Some(v) => if v <= u64::MAX {
            Some(v as u64)
        } else {
            None
        },
        None => None,
    }
}

/// `u32::from_str`.
pub open spec fn parse_u32_spec(s: Seq<char>) -> Option<u32> {
    match parse_unsigned(s) {
        Some(v) => if v <= u32::MAX {
            Some(v as u32)
        } else {
            None
        },
        None => None,
    }
}

/// `u16::from_str`.
pub open spec fn parse_u16_spec(s: Seq<char>) -> Option<u16> {
    match parse_unsigned(s) {
        Some(v) => if v <= u16::MAX {
            Some(v as u16)
        } else {
            None
        },
        None => None,
    }
}

proof fn lemma_digits_value_grows(d: Seq<char>, k: int)
    requires
        0 <= k <= d.len(),
        all_digits(d),
    ensures
        digits_value(d.take(k)) <= digits_value(d),
    decreases d.len() - k,
{
    if k < d.len() {
        lemma_digits_value_grows(d, k + 1);
        assert(d.take(k + 1).drop_last() == d.take(k));
        assert(is_ascii_digit(d[k]));
    } else {
        assert(d.take(k) == d);
    }
}

fn digit_value(c: char) -> (r: Option<u64>)
    ensures
        match r {
            Some(v) => is_ascii_digit(c) && v == (c as int) - 48,
            None => !is_ascii_digit(c),
        },
{
    if '0' <= c && c <= '9' {
        Some(((c as u32) - 48) as u64)
    } else {
        None
    }
}

/// `u64::from_str` on the characters of `v`.
pub fn parse_u64_chars(v: &Vec<char>) -> (r: Option<u64>)
    ensures
        r == parse_u64_spec(v@),
{
    let start: usize = if v.len() > 0 && v[0] == '+' { 1 } else { 0 };
    let ghost d = unsigned_body(v@);
    assert(d == v@.skip(start as int));
    if start >= v.len() {
        return None;
    }
    let mut acc: u64 = 0;
    let mut i: usize = start;
    while i < v.len()
        invariant
            start <= i <= v.len(),
            d == v@.skip(start as int),
            d == unsigned_body(v@),
            d.len() > 0,
            all_digits(d.take(i - start)),
            acc as nat == digits_value(d.take(i - start)),
        decreases v.len() - i,
    {
        let ghost k: int = i - start;
        assert(d.take(k + 1).drop_last() == d.take(k));
        assert(d[k] == v@[i as int]);
        match digit_value(v[i]) {
            None => {
                assert(!is_ascii_digit(d[k]));
                assert(!all_digits(d));
                assert(parse_unsigned(v@).is_none());
                return None;
            },
            Some(dig) => {
                if acc > (u64::MAX - dig) / 10 {
                    proof {
                        assert(acc * 10 + dig > u64::MAX) by (nonlinear_arith)
                            requires
                                acc > (u64::MAX - dig) / 10,
                                dig < 10,
                        ;
                        assert(d.take(k + 1).last() == d[k]);
                        assert(digits_value(d.take(k + 1)) == acc * 10 + dig);
                        assert(all_digits(d.take(k + 1)));
                        if all_digits(d) {
                            lemma_digits_value_grows(d, k + 1);
                            assert(digits_value(d) > u64::MAX);
                        }
                    }
                    return None;
                }
                assert(acc * 10 + dig <= u64::MAX) by (nonlinear_arith)
                    requires
                        acc <= (u64::MAX - dig) / 10,
                        dig < 10,
                ;
                acc = acc * 10 + dig;
            },
        }
        i = i + 1;
        assert(all_digits(d.take(i - start)));
    }
    assert(d.take(v.len() - start) == d);
    Some(acc)
}

/// `u64::from_str`.
pub fn parse_u64(s: &str) -> (r: Option<u64>)
    ensures
        r == parse_u64_spec(s@),
{
    let v = to_chars(s);
    parse_u64_chars(&v)
}

/// `u32::from_str`.
pub fn parse_u32(s: &str) -> (r: Option<u32>)
    ensures
        r == parse_u32_spec(s@),
{
    match parse_u64(s) {
        Some(x) => if x <= u32::MAX as u64 {
            Some(x as u32)
        } else {
            None
        },
        None => None,
    }
}

/// `u16::from_str`.
pub fn parse_u16(s: &str) -> (r: Option<u16>)
    ensures
        r == parse_u16_spec(s@),
{
    match parse_u64(s) {
        Some(x) => if x <= u16::MAX as u64 {
            Some(x as u16)
        } else {
            None
        },
        None => None,
    }
}


/// The digits of `n` are ASCII digits, at least one, and read back as `n`.
pub proof fn lemma_digits(n: nat)
    ensures
        digits(n).len() > 0,
        all_digits(digits(n)),
        digits_value(digits(n)) == n,
    decreases n,
{
    lemma_digit_char(n % 10);
    if n < 10 {
        assert(digits(n).drop_last() =~= Seq::<char>::empty());
        assert(digits_value(digits(n)) == digits_value(Seq::<char>::empty()) * 10 + ((digit_char(n) as int) - 48) as nat);
    } else {
        lemma_digits(n / 10);
        let d = digits(n);
        assert(n == (n / 10) * 10 + n % 10);
        assert(d.drop_last() == digits(n / 10));
        assert(d.last() == digit_char(n % 10));
        assert forall|i: int| 0 <= i < d.len() implies is_ascii_digit(#[trigger] d[i]) by {
            if i < d.len() - 1 {
                assert(d[i] == digits(n / 10)[i]);
            }
        }
    }
}

} // verus!
