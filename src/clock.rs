//! Timestamps as text: the absolute date and time of creation and the
//! humanised time elapsed since an access or a write.

use vstd::prelude::*;
use vstd::string::StringExecFns;
use chrono::{Datelike, Local, Offset, TimeZone, Utc};
use std::time::{SystemTime, UNIX_EPOCH};
use crate::fmt::{digits, pad_left, push_digits, push_num};

verus! {

/// The calendar date (year, month, day) in UTC of a Unix timestamp, when the
/// date library can represent it.
pub uninterp spec fn civil_date_of(secs: int) -> Option<(int, int, int)>;

/// Relies on `Utc.timestamp_opt(secs, 0)` and `Datelike::{year, month, day}`
/// of chrono: the date of a timestamp depends on the timestamp alone; months
/// range over 1..=12 and days over 1..=31.
#[verifier::external_body]
fn civil_date(secs: i64) -> (r: Option<(i32, u32, u32)>)
    ensures
        match r {
            Some((y, m, d)) => civil_date_of(secs as int) == Some((y as int, m as int, d as int))
                && 1 <= m <= 12 && 1 <= d <= 31,
            None => civil_date_of(secs as int) is None,
        },
{
    match Utc.timestamp_opt(secs, 0).single() {
        Some(t) => Some((t.year(), t.month(), t.day())),
        None => None,
    }
}

/// Relies on std's `SystemTime::now().duration_since(UNIX_EPOCH)`: the
/// current Unix time in whole seconds, none when the clock reads before 1970.
/// Nothing is known of its value.
#[verifier::external_body]
fn system_now() -> (r: Option<u64>) {
    match SystemTime::now().duration_since(UNIX_EPOCH) {
        Ok(d) => Some(d.as_secs()),
        Err(_) => None,
    }
}

/// Relies on chrono's `Local.timestamp_opt(secs, 0)` and
/// `FixedOffset::local_minus_utc`: the local offset from UTC in seconds at
/// the Unix time `secs`, which a `FixedOffset` keeps strictly within one day.
/// chrono unwraps the offset it derives from the time-zone rules, so a `TZ`
/// setting whose daylight-saving offset reaches a whole day (no real zone)
/// makes it panic; that depends on the environment, not on `secs`.
#[verifier::external_body]
fn local_minus_utc(secs: i64) -> (r: Option<i32>)
    ensures
        r matches Some(o) ==> -86_400 < o < 86_400,
{
    match Local.timestamp_opt(secs, 0).single() {
        Some(t) => Some(t.offset().fix().local_minus_utc()),
        None => None,
    }
}

/// The date of a timestamp as the date library gives it, or none.
pub open spec fn date_of(secs: u64) -> Option<(int, int, int)> {
    if secs <= i64::MAX {
        civil_date_of(secs as int)
    } else {
        None
    }
}

/// The date of a timestamp as the date library gives it, when it can.
pub fn date_of_secs(secs: u64) -> (r: Option<(i32, u32, u32)>)
    ensures
        match r {
            Some((y, m, d)) => date_of(secs) == Some((y as int, m as int, d as int)) && 1 <= m
                <= 12 && 1 <= d <= 31,
            None => date_of(secs) is None,
        },
{
    if secs <= i64::MAX as u64 {
        civil_date(secs as i64)
    } else {
        None
    }
}

/// A number below 100 as two digits, zero-filled.
pub open spec fn two_digits(n: int) -> Seq<char> {
    pad_left(digits(n as nat), 2, '0')
}

/// A year as at least four digits, zero-filled; a sign is written for
/// years below 0 and above 9999.
pub open spec fn year_text(y: int) -> Seq<char> {
    if 0 <= y < 10000 {
        pad_left(digits(y as nat), 4, '0')
    } else if y >= 10000 {
        seq!['+'] + digits(y as nat)
    } else {
        seq!['-'] + pad_left(digits((-y) as nat), 4, '0')
    }
}

/// The long form `dd.mm.yyyy HH:MM:SS` of a timestamp whose date is `date`.
pub open spec fn long_date_text(date: Option<(int, int, int)>, secs: u64) -> Seq<char> {
    match date {
        Some((y, m, d)) => {
            let t = secs as int % 86400;
            two_digits(d) + "."@ + two_digits(m) + "."@ + year_text(y) + " "@ + two_digits(t / 3600)
                + ":"@ + two_digits(t / 60 % 60) + ":"@ + two_digits(t % 60)
        },
        None => "??.??.???? ??:??:??"@,
    }
}

/// The short form `   dd.mm.yy` of a date.
pub open spec fn short_date_text(date: Option<(int, int, int)>) -> Seq<char> {
    match date {
        Some((y, m, d)) => "   "@ + two_digits(d) + "."@ + two_digits(m) + "."@ + two_digits(y % 100),
        None => "   ??.??.??"@,
    }
}

/// Seconds from `then` to `now`, zero when `then` lies ahead.
pub open spec fn elapsed(then: u64, now: u64) -> nat {
    if now >= then { (now - then) as nat } else { 0 }
}

/// A number right-aligned in two columns.
pub open spec fn num2(n: nat) -> Seq<char> {
    pad_left(digits(n), 2, ' ')
}

/// The humanised time from `then` to `now`; from four weeks on, the date.
pub open spec fn elapsed_text(then: u64, now: u64) -> Seq<char> {
    let e = elapsed(then, now);
    if e < 60 {
        "    "@ + num2(e) + "s ago"@
    } else if e < 3600 {
        num2(e / 60) + "m "@ + num2(e % 60) + "s ago"@
    } else if e < 86400 {
        num2(e / 3600) + "h "@ + num2(e / 60 % 60) + "m ago"@
    } else if e < 604800 {
        num2(e / 86400) + "d "@ + num2(e / 3600 % 24) + "h ago"@
    } else if e < 2419200 {
        num2(e / 604800) + "w "@ + num2(e / 86400 % 7) + "d ago"@
    } else {
        short_date_text(date_of(then))
    }
}

/// A date of the date library as mathematical integers.
pub open spec fn spec_date(date: Option<(i32, u32, u32)>) -> Option<(int, int, int)> {
    match date {
        Some((y, m, d)) => Some((y as int, m as int, d as int)),
        None => None,
    }
}

/// Appends a number below 100 as two zero-filled digits.
fn push_two(out: &mut String, n: u32)
    requires
        n < 100,
    ensures
        final(out)@ == old(out)@ + two_digits(n as int),
{
    push_num(out, n as u64, 2, '0');
}

/// The long form `dd.mm.yyyy HH:MM:SS` of the timestamp `secs`, given its
/// date as the date library computed it.
pub fn fmt_date_time(date: Option<(i32, u32, u32)>, secs: u64) -> (r: String)
    requires
        date matches Some((y, m, d)) ==> 1 <= m <= 12 && 1 <= d <= 31,
    ensures
        r@ == long_date_text(spec_date(date), secs),
{
    let ghost g = spec_date(date);
    let mut out = String::new();
    match date {
        Some((y, m, d)) => {
            let t = secs % 86400;
            push_two(&mut out, d);
            out.append(".");
            push_two(&mut out, m);
            out.append(".");
            if y < 0 {
                out.push('-');
                push_num(&mut out, (-(y as i64)) as u64, 4, '0');
            } else if y >= 10000 {
                out.push('+');
                push_digits(&mut out, y as u64);
            } else {
                push_num(&mut out, y as u64, 4, '0');
            }
            out.append(" ");
            push_two(&mut out, (t / 3600) as u32);
            out.append(":");
            push_two(&mut out, (t / 60 % 60) as u32);
            out.append(":");
            push_two(&mut out, (t % 60) as u32);
            assert(out@ =~= long_date_text(g, secs));
        },
        None => {
            out.append("??.??.???? ??:??:??");
            assert(out@ =~= long_date_text(g, secs));
        },
    }
    out
}

/// The short form `   dd.mm.yy` of a date as the date library computed it.
pub fn fmt_short_date(date: Option<(i32, u32, u32)>) -> (r: String)
    requires
        date matches Some((y, m, d)) ==> 1 <= m <= 12 && 1 <= d <= 31,
    ensures
        r@ == short_date_text(spec_date(date)),
{
    let ghost g = spec_date(date);
    let mut out = String::new();
    match date {
        Some((y, m, d)) => {
            out.append("   ");
            push_two(&mut out, d);
            out.append(".");
            push_two(&mut out, m);
            out.append(".");
            let yy = y % 100;
            let yy2: u32 = if yy < 0 { (yy + 100) as u32 } else { yy as u32 };
            assert(yy2 as int == y as int % 100);
            push_two(&mut out, yy2);
            assert(out@ =~= short_date_text(g));
        },
        None => {
            out.append("   ??.??.??");
            assert(out@ =~= short_date_text(g));
        },
    }
    out
}


/// Appends a number right-aligned in two columns.
fn push_num2(out: &mut String, n: u64)
    ensures
        final(out)@ == old(out)@ + num2(n as nat),
{
    push_num(out, n, 2, ' ');
}

/// The humanised time elapsed from `then` to `now`: seconds, minutes,
/// hours, days or weeks ago, and the date itself from four weeks on.
pub fn fmt_est_time_passed(then: u64, now: u64) -> (r: String)
    ensures
        r@ == elapsed_text(then, now),
{
    let e: u64 = if now >= then { now - then } else { 0 };
    let mut out = String::new();
    if e < 60 {
        out.append("    ");
        push_num2(&mut out, e);
        out.append("s ago");
    } else if e < 3600 {
        push_num2(&mut out, e / 60);
        out.append("m ");
        push_num2(&mut out, e % 60);
        out.append("s ago");
    } else if e < 86400 {
        push_num2(&mut out, e / 3600);
        out.append("h ");
        push_num2(&mut out, e / 60 % 60);
        out.append("m ago");
    } else if e < 604800 {
        push_num2(&mut out, e / 86400);
        out.append("d ");
        push_num2(&mut out, e / 3600 % 24);
        out.append("h ago");
    } else if e < 2419200 {
        push_num2(&mut out, e / 604800);
        out.append("w ");
        push_num2(&mut out, e / 86400 % 7);
        out.append("d ago");
    } else {
        let date = date_of_secs(then);
        out = fmt_short_date(date);
    }
    assert(out@ =~= elapsed_text(then, now));
    out
}

/// The local wall-clock time from a Unix time and the local offset from
/// UTC, both in seconds; none when it falls outside `u64`.
pub open spec fn local_time(utc: int, offset: int) -> Option<nat> {
    if 0 <= utc + offset <= u64::MAX {
        Some((utc + offset) as nat)
    } else {
        None
    }
}

/// Shifts a Unix time by the local offset from UTC.
pub fn to_local_time(utc: u64, offset: i32) -> (r: Option<u64>)
    ensures
        match r {
            Some(t) => local_time(utc as int, offset as int) == Some(t as nat),
            None => local_time(utc as int, offset as int) is None,
        },
{
    let t: i128 = utc as i128 + offset as i128;
    if t < 0 || t > u64::MAX as i128 {
        None
    } else {
        Some(t as u64)
    }
}

/// The local offset from UTC in seconds at the Unix time `utc`, zero when
/// it cannot be told or `utc` lies beyond `i64`.
pub fn local_offset_at(utc: u64) -> (r: i32)
    ensures
        -86_400 < r < 86_400,
        utc > i64::MAX ==> r == 0,
{
    if utc > i64::MAX as u64 {
        return 0;
    }
    match local_minus_utc(utc as i64) {
        Some(o) => o,
        None => 0,
    }
}

/// The local offset from UTC in seconds as it is now; the offset at the Unix
/// epoch when the clock reads before 1970.
pub fn local_offset_now() -> (r: i32)
    ensures
        -86_400 < r < 86_400,
{
    match system_now() {
        Some(t) => local_offset_at(t),
        None => local_offset_at(0),
    }
}

/// The current local wall-clock time in seconds since the Unix epoch; zero
/// when the clock reads before 1970 or the shifted time falls outside `u64`.
pub fn now_local() -> (r: u64)
    ensures
        r == 0 || exists|t: u64, o: int|
            -86_400 < o < 86_400 && local_time(t as int, o) == Some(r as nat),
{
    match system_now() {
        Some(t) => match to_local_time(t, local_offset_at(t)) {
            Some(l) => l,
            None => 0,
        },
        None => 0,
    }
}

} // verus!
