//! Short human readable ages, such as `3d4h`, for the tables.
use vstd::prelude::*;

use crate::number::{fmt_i64, int_str};
use crate::text::{from_chars, push_char, push_str};

verus! {

/// Division that rounds toward zero, as Rust's `/` on integers does.
pub open spec fn trunc_div(a: int, b: int) -> int
    recommends
        b > 0,
{
    if a >= 0 {
        a / b
    } else {
        -((-a) / b)
    }
}

/// The remainder that goes with `trunc_div`, as Rust's `%` on integers.
pub open spec fn trunc_rem(a: int, b: int) -> int
    recommends
        b > 0,
{
    a - trunc_div(a, b) * b
}

/// The seconds that `chrono::TimeDelta::seconds` accepts.
pub open spec fn in_delta_range(secs: int) -> bool {
    -(i64::MAX / 1000) <= secs <= i64::MAX / 1000
}

/// `chrono::TimeDelta::num_weeks` of `TimeDelta::seconds(secs)`: whole days,
/// then whole weeks of them.
#[verifier::external_body]
fn num_weeks(secs: i64) -> (r: i64)
    requires
        in_delta_range(secs as int),
    ensures
        r == trunc_div(trunc_div(secs as int, 86400), 7),
{
    chrono::TimeDelta::seconds(secs).num_weeks()
}

/// `chrono::TimeDelta::num_days` of `TimeDelta::seconds(secs)`.
#[verifier::external_body]
fn num_days(secs: i64) -> (r: i64)
    requires
        in_delta_range(secs as int),
    ensures
        r == trunc_div(secs as int, 86400),
{
    chrono::TimeDelta::seconds(secs).num_days()
}

/// `chrono::TimeDelta::num_hours` of `TimeDelta::seconds(secs)`.
#[verifier::external_body]
fn num_hours(secs: i64) -> (r: i64)
    requires
        in_delta_range(secs as int),
    ensures
        r == trunc_div(secs as int, 3600),
{
    chrono::TimeDelta::seconds(secs).num_hours()
}

/// `chrono::TimeDelta::num_minutes` of `TimeDelta::seconds(secs)`.
#[verifier::external_body]
fn num_minutes(secs: i64) -> (r: i64)
    requires
        in_delta_range(secs as int),
    ensures
        r == trunc_div(secs as int, 60),
{
    chrono::TimeDelta::seconds(secs).num_minutes()
}

/// `chrono::TimeDelta::num_seconds` of `TimeDelta::seconds(secs)`.
#[verifier::external_body]
fn num_seconds(secs: i64) -> (r: i64)
    requires
        in_delta_range(secs as int),
    ensures
        r == secs,
{
    chrono::TimeDelta::seconds(secs).num_seconds()
}

/// One part of an age: a count and its unit, or nothing for zero.
pub open spec fn unit_part(v: int, unit: char) -> Seq<Seq<char>> {
    if v != 0 {
        seq![int_str(v).push(unit)]
    } else {
        Seq::empty()
    }
}

/// The parts of an age of `secs` seconds: weeks, then days, hours, minutes
/// and seconds within the next larger unit, leaving out those that are zero.
pub open spec fn age_parts(secs: int) -> Seq<Seq<char>> {
    unit_part(trunc_div(trunc_div(secs, 86400), 7), 'w') + unit_part(
        trunc_rem(trunc_div(secs, 86400), 7),
        'd',
    ) + unit_part(trunc_rem(trunc_div(secs, 3600), 24), 'h') + unit_part(
        trunc_rem(trunc_div(secs, 60), 60),
        'm',
    ) + unit_part(trunc_rem(secs, 60), 's')
}

/// The age text: the two largest parts that are not zero, or `0s`.
pub open spec fn age_text(secs: int) -> Seq<char> {
    let p = age_parts(secs);
    if p.len() == 0 {
        seq!['0', 's']
    } else if p.len() == 1 {
        p[0]
    } else {
        p[0] + p[1]
    }
}

fn rem_i64(a: i64, b: i64) -> (r: i64)
    requires
        b > 0,
    ensures
        r == trunc_rem(a as int, b as int),
{
    let r = a.checked_rem(b).unwrap();
    proof {
        let x = a as int;
        let d = b as int;
        if x > 0 {
            assert(x % d == x - (x / d) * d) by (nonlinear_arith)
                requires
                    d > 0,
            ;
            assert(r == x % d);
            assert(r == trunc_rem(x, d));
        } else if x < 0 {
            let y = -x;
            assert(y % d == y - (y / d) * d) by (nonlinear_arith)
                requires
                    d > 0,
            ;
            assert(r == (y % d) * -1);
            assert(trunc_div(x, d) == -(y / d));
            assert(trunc_div(x, d) * d == -((y / d) * d)) by (nonlinear_arith)
                requires
                    trunc_div(x, d) == -(y / d),
            ;
            assert(r == trunc_rem(x, d));
        } else {
            assert(r == 0);
            assert(trunc_div(x, d) == 0);
            assert(trunc_div(x, d) * d == 0) by (nonlinear_arith)
                requires
                    trunc_div(x, d) == 0,
            ;
            assert(trunc_rem(x, d) == 0);
        }
    }
    r
}

fn push_part(out: &mut Vec<String>, v: i64, unit: char)
    ensures
        final(out)@.map_values(|s: String| s@) == old(out)@.map_values(|s: String| s@) + unit_part(
            v as int,
            unit,
        ),
{
    if v != 0 {
        let mut s = fmt_i64(v);
        push_char(&mut s, unit);
        let ghost before = out@;
        out.push(s);
        assert(out@.map_values(|s: String| s@) =~= before.map_values(|s: String| s@) + unit_part(
            v as int,
            unit,
        ));
    } else {
        assert(out@.map_values(|s: String| s@) =~= out@.map_values(|s: String| s@) + unit_part(
            v as int,
            unit,
        ));
    }
}

/// A short age, such as `2w3d` or `4m12s`.
pub trait Age {
    /// The length of time, in whole seconds.
    spec fn age_seconds(&self) -> int;

    /// The two largest units of the time that are not zero, or `0s`.
    fn to_age(&self) -> (s: String)
        requires
            in_delta_range(self.age_seconds()),
        ensures
            s@ == age_text(self.age_seconds()),
    ;
}

impl Age for i64 {
    open spec fn age_seconds(&self) -> int {
        *self as int
    }

    fn to_age(&self) -> (s: String) {
        let secs = *self;
        let mut out: Vec<String> = Vec::new();
        push_part(&mut out, num_weeks(secs), 'w');
        push_part(&mut out, rem_i64(num_days(secs), 7), 'd');
        push_part(&mut out, rem_i64(num_hours(secs), 24), 'h');
        push_part(&mut out, rem_i64(num_minutes(secs), 60), 'm');
        push_part(&mut out, rem_i64(num_seconds(secs), 60), 's');
        assert(out@.map_values(|s: String| s@) =~= age_parts(secs as int));
        if out.len() == 0 {
            return from_chars(&['0', 's']);
        }
        let mut r = out[0].clone();
        if out.len() > 1 {
            push_str(&mut r, out[1].as_str());
        }
        assert(out@[0]@ == age_parts(secs as int)[0]);
        r
    }
}

} // verus!
