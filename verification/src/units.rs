//! Sizes and times, as texts.

use crate::text;
use chrono::{TimeZone, Utc};
use vstd::prelude::*;

verus! {

/* ---------------- sizes ---------------- */

/// `a / b`, rounded to the nearest integer, and to the even one of two that are equally near.
pub open spec fn nearest(a: int, b: int) -> int {
    let q = a / b;
    let r = a % b;
    if 2 * r < b || (2 * r == b && q % 2 == 0) {
        q
    } else {
        q + 1
    }
}

/// The distance of neighbouring 53-bit values around `n`.
pub open spec fn grain(n: int) -> int
    decreases n,
{
    if n < 0x20_0000_0000_0000 {
        1
    } else {
        2 * grain(n / 2)
    }
}

/// A number of bytes with 53 significant bits.
pub open spec fn significant(n: int) -> int {
    nearest(n, grain(n)) * grain(n)
}

/// Which unit a size is shown in: the largest of which there is at least one.
pub open spec fn size_unit(v: int) -> int {
    if v < 0x400 {
        0
    } else if v < 0x10_0000 {
        1
    } else if v < 0x4000_0000 {
        2
    } else if v < 0x100_0000_0000 {
        3
    } else {
        4
    }
}

pub open spec fn unit_bytes(i: int) -> int {
    if i == 0 {
        1
    } else if i == 1 {
        0x400
    } else if i == 2 {
        0x10_0000
    } else if i == 3 {
        0x4000_0000
    } else {
        0x100_0000_0000
    }
}

pub open spec fn unit_name(i: int) -> Seq<char> {
    if i == 0 {
        " B"@
    } else if i == 1 {
        " KiB"@
    } else if i == 2 {
        " MiB"@
    } else if i == 3 {
        " GiB"@
    } else {
        " TiB"@
    }
}

/// Tenths, as a decimal number.
pub open spec fn tenths_text(t: int) -> Seq<char> {
    text::decimal((t / 10) as nat) + "."@ + text::decimal((t % 10) as nat)
}

/// A size with one decimal, in the largest unit of which there is at least one.
pub open spec fn size_text(bytes: i64) -> Seq<char> {
    let v = significant(
        if bytes < 0 {
            0
        } else {
            bytes as int
        },
    );
    let i = size_unit(v);
    if i == 0 {
        text::decimal(v as nat) + unit_name(0)
    } else {
        tenths_text(nearest(v * 10, unit_bytes(i))) + unit_name(i)
    }
}

fn round_div(a: u128, b: u128) -> (r: u128)
    requires
        b > 0,
        a < 0x1000_0000_0000_0000_0000_0000,
        b < 0x1000_0000_0000_0000_0000_0000,
    ensures
        r == nearest(a as int, b as int),
        r <= a + 1,
{
    let q: u128 = a / b;
    let m: u128 = a % b;
    assert(q <= a) by (nonlinear_arith)
        requires
            q == a / b,
            b > 0,
    ;
    if 2 * m < b || (2 * m == b && q % 2 == 0) {
        q
    } else {
        q + 1
    }
}

fn grain_of(n: u64) -> (r: u64)
    requires
        n <= 0x7fff_ffff_ffff_ffff,
    ensures
        r == grain(n as int),
        1 <= r <= 2047,
{
    let mut g: u64 = 1;
    let mut k: u64 = n;
    while k >= 0x20_0000_0000_0000
        invariant
            1 <= g,
            k * g <= 0x7fff_ffff_ffff_ffff,
            g * grain(k as int) == grain(n as int),
            k >= 0x10_0000_0000_0000 || g == 1,
        decreases k,
    {
        let ghost g0 = g as int;
        let ghost k0 = k as int;
        assert(g0 <= 1023) by (nonlinear_arith)
            requires
                k0 * g0 <= 0x7fff_ffff_ffff_ffff,
                k0 >= 0x20_0000_0000_0000,
                g0 >= 1,
        ;
        assert((k0 / 2) * (2 * g0) <= k0 * g0) by (nonlinear_arith)
            requires
                k0 >= 0,
                g0 >= 1,
        ;
        assert((2 * g0) * grain(k0 / 2) == g0 * grain(k0)) by (nonlinear_arith)
            requires
                grain(k0) == 2 * grain(k0 / 2),
        ;
        k = k / 2;
        g = g * 2;
    }
    assert(g <= 2047) by (nonlinear_arith)
        requires
            k * g <= 0x7fff_ffff_ffff_ffff,
            k >= 0x10_0000_0000_0000 || g == 1,
            g >= 1,
    ;
    assert(g * grain(k as int) == g) by {
        assert(grain(k as int) == 1);
    }
    g
}

fn tenths(t: u128) -> (r: String)
    requires
        t < 0x1_0000_0000_0000_0000,
    ensures
        r@ == tenths_text(t as int),
{
    text::cat3(
        text::number((t / 10) as u64).as_str(),
        ".",
        text::number((t % 10) as u64).as_str(),
    )
}

/// A size, as a text.
pub fn human_size(bytes: i64) -> (r: String)
    ensures
        r@ == size_text(bytes),
{
    let n: u64 = if bytes < 0 {
        0
    } else {
        bytes as u64
    };
    let g = grain_of(n);
    let q: u128 = round_div(n as u128, g as u128);
    proof {
        assert(q * g <= 0x1_0000_0000_0000_0000 * 2048) by (nonlinear_arith)
            requires
                0 <= q <= 0x8000_0000_0000_0000,
                0 <= g <= 2047,
        ;
    }
    let v: u128 = q * g as u128;
    proof {
        significant_bound(n as int, g as int);
    }
    assert(v == significant(n as int));
    if v < 0x400 {
        text::cat(text::number(v as u64).as_str(), " B")
    } else if v < 0x10_0000 {
        text::cat(tenths(round_div(v * 10, 0x400)).as_str(), " KiB")
    } else if v < 0x4000_0000 {
        text::cat(tenths(round_div(v * 10, 0x10_0000)).as_str(), " MiB")
    } else if v < 0x100_0000_0000 {
        text::cat(tenths(round_div(v * 10, 0x4000_0000)).as_str(), " GiB")
    } else {
        text::cat(tenths(round_div(v * 10, 0x100_0000_0000)).as_str(), " TiB")
    }
}

proof fn significant_bound(n: int, g: int)
    requires
        0 <= n <= 0x7fff_ffff_ffff_ffff,
        1 <= g <= 2047,
    ensures
        nearest(n, g) * g <= n + g,
        nearest(n, g) * g <= 0x8000_0000_0000_0800,
{
    let q = n / g;
    assert(q * g <= n) by (nonlinear_arith)
        requires
            q == n / g,
            g >= 1,
    ;
    assert((q + 1) * g == q * g + g) by (nonlinear_arith);
}

/// Small sizes are exact: up to 1023 bytes are shown as they are.
pub proof fn small_sizes_are_exact(bytes: i64)
    requires
        0 <= bytes < 1024,
    ensures
        size_text(bytes) == text::decimal(bytes as nat) + " B"@,
{
    assert(grain(bytes as int) == 1);
    assert(nearest(bytes as int, 1) == bytes);
}

/* ---------------- times ---------------- */

/// How long ago something was, in its two largest units.
pub open spec fn age_text(created: i64, now: u64) -> Seq<char> {
    if created <= 0 {
        "-"@
    } else {
        let diff = if now < created {
            0
        } else {
            now - created
        };
        let days = diff / 86400;
        let hours = diff % 86400 / 3600;
        let mins = diff % 3600 / 60;
        if days > 0 {
            text::decimal(days as nat) + "d "@ + text::decimal(hours as nat) + "h"@
        } else if hours > 0 {
            text::decimal(hours as nat) + "h "@ + text::decimal(mins as nat) + "m"@
        } else {
            text::decimal(mins as nat) + "m"@
        }
    }
}

/// How long before `now` something was made. Both are in seconds since 1970.
pub fn format_age(created: i64, now: u64) -> (r: String)
    ensures
        r@ == age_text(created, now),
{
    if created <= 0 {
        return "-".to_owned();
    }
    let diff: u64 = now.saturating_sub(created as u64);
    let days: u64 = diff / 86400;
    let hours: u64 = diff % 86400 / 3600;
    let mins: u64 = diff % 3600 / 60;
    if days > 0 {
        let mut s = text::cat3(text::number(days).as_str(), "d ", text::number(hours).as_str());
        s.append("h");
        s
    } else if hours > 0 {
        let mut s = text::cat3(text::number(hours).as_str(), "h ", text::number(mins).as_str());
        s.append("m");
        s
    } else {
        text::cat(text::number(mins).as_str(), "m")
    }
}

/// The moment `ts`, in seconds since 1970, in UTC and written by a format of chrono's. `None`
/// where chrono does not know the moment.
pub uninterp spec fn utc_text(ts: i64, format: Seq<char>) -> Option<Seq<char>>;

/// `chrono::Utc.timestamp_opt`, and `format` on what it gives. The result depends on the two
/// arguments alone.
#[verifier::external_body]
fn utc_format(ts: i64, format: &str) -> (r: Option<String>)
    requires
        format@ == "%Y-%m-%d"@,
    ensures
        r.deep_view() == utc_text(ts, format@),
{
    Utc.timestamp_opt(ts, 0).single().map(|t| t.format(format).to_string())
}

/// A date with an age behind it, or the age alone.
pub open spec fn dated(date: Option<Seq<char>>, age: Seq<char>) -> Seq<char> {
    match date {
        Some(d) => d + " ("@ + age + ")"@,
        None => age,
    }
}

pub fn with_date(date: &Option<String>, age: &str) -> (r: String)
    ensures
        r@ == dated(date.deep_view(), age@),
{
    match date {
        Some(d) => {
            let mut s = text::cat3(d.as_str(), " (", age);
            s.append(")");
            s
        },
        None => age.to_owned(),
    }
}

/// When something was made: its date and its age.
pub open spec fn created_text(created: i64, now: u64) -> Seq<char> {
    if created <= 0 {
        "-"@
    } else {
        dated(utc_text(created, "%Y-%m-%d"@), age_text(created, now))
    }
}

pub fn format_created_full(created: i64, now: u64) -> (r: String)
    ensures
        r@ == created_text(created, now),
{
    if created <= 0 {
        return "-".to_owned();
    }
    let age = format_age(created, now);
    with_date(&utc_format(created, "%Y-%m-%d"), age.as_str())
}

} // verus!
