//! Local-time window computation: a calendar datetime modelled as plain
//! fields, minute arithmetic proved against a linear minute index, and the
//! provider's `YYYY-MM-DD HH:MM:SS` rendering.
//!
//! The window is computed in whatever zone the caller's `now` lives in:
//! the zone is an explicit choice of the caller, not read from the device.

use vstd::prelude::*;

verus! {

/// A local calendar datetime, second precision, proleptic Gregorian, no
/// zone attached.
#[derive(Clone, Copy, Debug, PartialEq, Eq, Structural)]
pub struct LocalDateTime {
    pub year: u32,
    pub month: u32,
    pub day: u32,
    pub hour: u32,
    pub minute: u32,
    pub second: u32,
}

/// The query window: both bounds local datetimes, `since` before `until`.
#[derive(Clone, Copy, Debug, PartialEq, Eq, Structural)]
pub struct TimeWindow {
    pub since: LocalDateTime,
    pub until: LocalDateTime,
}

pub open spec fn is_leap(y: int) -> bool {
    y % 4 == 0 && (y % 100 != 0 || y % 400 == 0)
}

pub open spec fn days_in_year(y: int) -> int {
    if is_leap(y) {
        366
    } else {
        365
    }
}

/// Days of all years strictly before `y`, counted from year 1.
pub open spec fn days_before_year(y: int) -> int
    decreases y,
{
    if y <= 1 {
        0
    } else {
        days_before_year(y - 1) + days_in_year(y - 1)
    }
}

/// Days of the months strictly before `m` in a common year.
pub open spec fn month_offset(m: int) -> int {
    if m <= 1 {
        0
    } else if m == 2 {
        31
    } else if m == 3 {
        59
    } else if m == 4 {
        90
    } else if m == 5 {
        120
    } else if m == 6 {
        151
    } else if m == 7 {
        181
    } else if m == 8 {
        212
    } else if m == 9 {
        243
    } else if m == 10 {
        273
    } else if m == 11 {
        304
    } else {
        334
    }
}

/// Days of the months strictly before `m` in year `y`.
pub open spec fn days_before_month(y: int, m: int) -> int {
    month_offset(m) + if m > 2 && is_leap(y) {
        1int
    } else {
        0int
    }
}

pub open spec fn days_in_month(y: int, m: int) -> int {
    if m == 2 {
        if is_leap(y) {
            29
        } else {
            28
        }
    } else if m == 4 || m == 6 || m == 9 || m == 11 {
        30
    } else {
        31
    }
}

/// Days from 0001-01-01 to the datetime's date.
pub open spec fn day_index(dt: LocalDateTime) -> int {
    days_before_year(dt.year as int) + days_before_month(dt.year as int, dt.month as int)
        + dt.day as int - 1
}

/// Minutes from 0001-01-01 00:00 to the datetime's minute: the linear
/// measure every window bound is reasoned in.
pub open spec fn minute_index(dt: LocalDateTime) -> int {
    (day_index(dt) * 24 + dt.hour as int) * 60 + dt.minute as int
}

/// A well-formed calendar datetime within the renderable year range.
pub open spec fn valid_dt(dt: LocalDateTime) -> bool {
    &&& 1 <= dt.year as int <= 9999
    &&& 1 <= dt.month as int <= 12
    &&& 1 <= dt.day as int <= days_in_month(dt.year as int, dt.month as int)
    &&& dt.hour < 24
    &&& dt.minute < 60
    &&& dt.second < 60
}

fn is_leap_exec(y: u32) -> (r: bool)
    ensures
        r == is_leap(y as int),
{
    y % 4 == 0 && (y % 100 != 0 || y % 400 == 0)
}

fn days_in_month_exec(y: u32, m: u32) -> (r: u32)
    ensures
        r as int == days_in_month(y as int, m as int),
{
    if m == 2 {
        if is_leap_exec(y) {
            29
        } else {
            28
        }
    } else if m == 4 || m == 6 || m == 9 || m == 11 {
        30
    } else {
        31
    }
}

/// Runtime form of [`valid_dt`], for callers that receive a datetime from
/// outside and must test it before asking for a window.
pub fn is_valid(dt: &LocalDateTime) -> (r: bool)
    ensures
        r == valid_dt(*dt),
{
    1 <= dt.year && dt.year <= 9999 && 1 <= dt.month && dt.month <= 12 && 1 <= dt.day && dt.day
        <= days_in_month_exec(dt.year, dt.month) && dt.hour < 24 && dt.minute < 60 && dt.second
        < 60
}

/// One minute earlier on the calendar: the minute index drops by exactly
/// one and validity is preserved.
pub fn prev_minute(dt: &LocalDateTime) -> (r: LocalDateTime)
    requires
        valid_dt(*dt),
        minute_index(*dt) >= 1,
    ensures
        valid_dt(r),
        minute_index(r) == minute_index(*dt) - 1,
        r.second == dt.second,
{
    if dt.minute > 0 {
        LocalDateTime {
            year: dt.year,
            month: dt.month,
            day: dt.day,
            hour: dt.hour,
            minute: dt.minute - 1,
            second: dt.second,
        }
    } else if dt.hour > 0 {
        LocalDateTime {
            year: dt.year,
            month: dt.month,
            day: dt.day,
            hour: dt.hour - 1,
            minute: 59,
            second: dt.second,
        }
    } else if dt.day > 1 {
        LocalDateTime {
            year: dt.year,
            month: dt.month,
            day: dt.day - 1,
            hour: 23,
            minute: 59,
            second: dt.second,
        }
    } else if dt.month > 1 {
        let pm: u32 = dt.month - 1;
        let pd = days_in_month_exec(dt.year, pm);
        let r = LocalDateTime {
            year: dt.year,
            month: pm,
            day: pd,
            hour: 23,
            minute: 59,
            second: dt.second,
        };
        proof {
            assert(days_before_month(dt.year as int, dt.month as int) == days_before_month(
                dt.year as int,
                pm as int,
            ) + days_in_month(dt.year as int, pm as int));
            assert(day_index(r) == day_index(*dt) - 1);
        }
        r
    } else {
        proof {
            if dt.year == 1 {
                assert(day_index(*dt) == 0);
                assert(minute_index(*dt) == 0);
            }
        }
        let r = LocalDateTime {
            year: dt.year - 1,
            month: 12,
            day: 31,
            hour: 23,
            minute: 59,
            second: dt.second,
        };
        proof {
            assert(days_before_year(dt.year as int) == days_before_year(dt.year as int - 1)
                + days_in_year(dt.year as int - 1));
            assert(day_index(r) == day_index(*dt) - 1);
        }
        r
    }
}

/// `minutes` minutes earlier on the calendar, stepping the verified
/// single-minute decrement.
pub fn minutes_back(dt: &LocalDateTime, minutes: u32) -> (r: LocalDateTime)
    requires
        valid_dt(*dt),
        minute_index(*dt) >= minutes,
    ensures
        valid_dt(r),
        minute_index(r) == minute_index(*dt) - minutes,
        r.second == dt.second,
{
    let mut cur: LocalDateTime = *dt;
    let mut k: u32 = 0;
    while k < minutes
        invariant
            k <= minutes,
            valid_dt(cur),
            minute_index(*dt) >= minutes,
            minute_index(cur) == minute_index(*dt) - k,
            cur.second == dt.second,
        decreases minutes - k,
    {
        cur = prev_minute(&cur);
        k = k + 1;
    }
    cur
}

proof fn lemma_days_before_year_upper(y: int)
    requires
        y >= 1,
    ensures
        days_before_year(y) <= 366 * (y - 1),
    decreases y,
{
    if y > 1 {
        lemma_days_before_year_upper(y - 1);
    }
}

fn days_before_year_exec(y: u32) -> (r: u64)
    requires
        1 <= y <= 9999,
    ensures
        r as int == days_before_year(y as int),
{
    let mut acc: u64 = 0;
    let mut i: u32 = 1;
    while i < y
        invariant
            1 <= i <= y,
            y <= 9999,
            acc as int == days_before_year(i as int),
        decreases y - i,
    {
        proof {
            lemma_days_before_year_upper(i as int);
        }
        if is_leap_exec(i) {
            acc = acc + 366;
        } else {
            acc = acc + 365;
        }
        i = i + 1;
    }
    acc
}

fn days_before_month_exec(y: u32, m: u32) -> (r: u32)
    requires
        1 <= m <= 12,
    ensures
        r as int == days_before_month(y as int, m as int),
{
    let base: u32 = if m <= 1 {
        0
    } else if m == 2 {
        31
    } else if m == 3 {
        59
    } else if m == 4 {
        90
    } else if m == 5 {
        120
    } else if m == 6 {
        151
    } else if m == 7 {
        181
    } else if m == 8 {
        212
    } else if m == 9 {
        243
    } else if m == 10 {
        273
    } else if m == 11 {
        304
    } else {
        334
    };
    if m > 2 && is_leap_exec(y) {
        base + 1
    } else {
        base
    }
}

/// Runtime form of [`minute_index`], for callers that must test how far a
/// window may look back before asking for one.
pub fn minute_index_exec(dt: &LocalDateTime) -> (r: u64)
    requires
        valid_dt(*dt),
    ensures
        r as int == minute_index(*dt),
{
    proof {
        lemma_days_before_year_upper(dt.year as int);
    }
    let dby: u64 = days_before_year_exec(dt.year);
    let dbm: u32 = days_before_month_exec(dt.year, dt.month);
    let di: u64 = dby + dbm as u64 + dt.day as u64 - 1;
    (di * 24 + dt.hour as u64) * 60 + dt.minute as u64
}

/// The window `[now - lookback, now]`: `since` lies exactly
/// `lookback_minutes` before `until` on the minute index, seconds kept.
/// The lookback may reach back at most to the calendar's origin.
pub fn time_window(now: &LocalDateTime, lookback_minutes: u32) -> (r: TimeWindow)
    requires
        valid_dt(*now),
        lookback_minutes as int <= minute_index(*now),
    ensures
        r.until == *now,
        valid_dt(r.since),
        minute_index(r.since) == minute_index(*now) - lookback_minutes,
        r.since.second == now.second,
        lookback_minutes > 0 ==> minute_index(r.since) < minute_index(r.until),
{
    let since = minutes_back(now, lookback_minutes);
    TimeWindow { since, until: *now }
}

/// Byte of the decimal digit for `n`.
pub open spec fn digit(n: int) -> u8 {
    (0x30 + n) as u8
}

pub open spec fn two_digits(n: int) -> Seq<u8> {
    seq![digit(n / 10), digit(n % 10)]
}

pub open spec fn four_digits(n: int) -> Seq<u8> {
    seq![digit(n / 1000), digit((n / 100) % 10), digit((n / 10) % 10), digit(n % 10)]
}

/// The provider's datetime wire format: `YYYY-MM-DD HH:MM:SS`, local time,
/// no zone suffix.
pub open spec fn render_dt(dt: LocalDateTime) -> Seq<u8> {
    four_digits(dt.year as int) + seq![0x2du8] + two_digits(dt.month as int) + seq![0x2du8]
        + two_digits(dt.day as int) + seq![0x20u8] + two_digits(dt.hour as int) + seq![0x3au8]
        + two_digits(dt.minute as int) + seq![0x3au8] + two_digits(dt.second as int)
}

fn push_two_digits(out: &mut Vec<u8>, n: u32)
    requires
        n < 100,
    ensures
        final(out)@ == old(out)@ + two_digits(n as int),
{
    out.push(0x30 + (n / 10) as u8);
    out.push(0x30 + (n % 10) as u8);
    proof {
        assert(out@ =~= old(out)@ + two_digits(n as int));
    }
}

/// Appends the rendered datetime.
#[verifier::rlimit(50)]
pub fn push_dt(out: &mut Vec<u8>, dt: &LocalDateTime)
    requires
        valid_dt(*dt),
    ensures
        final(out)@ == old(out)@ + render_dt(*dt),
{
    let y: u32 = dt.year;
    out.push(0x30 + (y / 1000) as u8);
    out.push(0x30 + ((y / 100) % 10) as u8);
    out.push(0x30 + ((y / 10) % 10) as u8);
    out.push(0x30 + (y % 10) as u8);
    proof {
        assert(out@ =~= old(out)@ + four_digits(y as int));
    }
    out.push(0x2d);
    push_two_digits(out, dt.month);
    out.push(0x2d);
    push_two_digits(out, dt.day);
    out.push(0x20);
    push_two_digits(out, dt.hour);
    out.push(0x3a);
    push_two_digits(out, dt.minute);
    out.push(0x3a);
    push_two_digits(out, dt.second);
    proof {
        assert(out@ =~= old(out)@ + render_dt(*dt));
    }
}

} // verus!
