//! When a limit is reset, as a span of time or as a date.

use crate::decimal::{push_decimal, push_two_digits};
use vstd::prelude::*;

verus! {

/// A moment on the local calendar and clock.
#[derive(Clone, Copy, Debug, PartialEq, Eq, Structural)]
pub struct LocalTimeParts {
    pub year: i32,
    /// Day of the year, counted from 0.
    pub yday: i32,
    /// Month of the year, counted from 1.
    pub month: u32,
    /// Day of the month, counted from 1.
    pub day: u32,
    pub hour: u32,
    pub minute: u32,
}

/// A time stamp as a signed number: one beyond the signed range counts from the other end.
pub open spec fn signed_stamp(ts: u64) -> int {
    if ts <= i64::MAX {
        ts as int
    } else {
        ts - 0x1_0000_0000_0000_0000
    }
}

/// Whether a time stamp is 0, which stands for none, or the time from `now` to it is a number of
/// seconds that fits a signed 64-bit number.
pub open spec fn span_fits(ts: u64, now: i64) -> bool {
    ts == 0 || i64::MIN <= signed_stamp(ts) - now <= i64::MAX
}

/// The time from `now` to a time stamp: hours and minutes, or minutes alone under an hour.
/// Nothing where the time stamp is 0 or not in the future.
pub open spec fn span_text(ts: u64, now: i64) -> Seq<char> {
    let s = signed_stamp(ts) - now;
    let hours = (s / 3600) as nat;
    let minutes = ((s % 3600) / 60) as nat;
    if ts == 0 || s <= 0 {
        Seq::empty()
    } else if hours > 0 {
        crate::decimal::decimal(hours) + "h"@ + crate::decimal::two_digits(minutes) + "m"@
    } else {
        crate::decimal::decimal(minutes) + "m"@
    }
}

/// A moment as a date: month and day, then the hour, then the minutes unless they are 0.
pub open spec fn date_text(parts: LocalTimeParts) -> Seq<char> {
    let to_the_hour = crate::decimal::decimal(parts.month as nat) + "/"@
        + crate::decimal::decimal(parts.day as nat) + " "@ + crate::decimal::decimal(
        parts.hour as nat,
    );
    if parts.minute == 0 {
        to_the_hour
    } else {
        to_the_hour + ":"@ + crate::decimal::two_digits(parts.minute as nat)
    }
}

/// A moment as a date, or nothing where the local time is not known.
pub open spec fn optional_date_text(parts: Option<LocalTimeParts>) -> Seq<char> {
    match parts {
        Some(parts) => date_text(parts),
        None => Seq::empty(),
    }
}

/// Whether two moments are on one day.
pub open spec fn same_day(a: LocalTimeParts, b: LocalTimeParts) -> bool {
    a.year == b.year && a.yday == b.yday
}

/// Hours and minutes of a span, when it is written: they fall short of it by less than a minute,
/// and the minutes of less than an hour are written.
pub proof fn law_span_is_accurate(ts: u64, now: i64)
    requires
        span_text(ts, now).len() > 0,
    ensures
        ({
            let s = signed_stamp(ts) - now;
            let hours = s / 3600;
            let minutes = (s % 3600) / 60;
            &&& 0 <= minutes < 60
            &&& hours >= 0
            &&& 3600 * hours + 60 * minutes <= s < 3600 * hours + 60 * minutes + 60
        }),
{
}

/// A span is written exactly for a time stamp that is known and in the future.
pub proof fn law_span_is_written_for_the_future(ts: u64, now: i64)
    ensures
        span_text(ts, now).len() > 0 <==> ts != 0 && signed_stamp(ts) > now,
{
    reveal_strlit("m");
    let s = signed_stamp(ts) - now;
    if ts != 0 && s > 0 {
        crate::decimal::law_decimal_denotes((s / 3600) as nat);
        crate::decimal::law_decimal_denotes(((s % 3600) / 60) as nat);
    }
}

/// A time stamp as a signed number is in the signed range, and the same number modulo 2^64.
pub proof fn law_signed_stamp(ts: u64)
    ensures
        i64::MIN <= signed_stamp(ts) <= i64::MAX,
        (ts - signed_stamp(ts)) % 0x1_0000_0000_0000_0000 == 0,
        ts <= i64::MAX ==> signed_stamp(ts) == ts,
{
}

/// What a span is written as: the whole hours, unless there are none, and the whole minutes that
/// remain, which have two digits behind hours.
pub proof fn law_span_reads_as(ts: u64, now: i64, hours: nat, minutes: nat)
    requires
        ts != 0,
        signed_stamp(ts) > now,
        minutes < 60,
        3600 * hours + 60 * minutes <= signed_stamp(ts) - now < 3600 * hours + 60 * minutes + 60,
    ensures
        hours == 0 ==> span_text(ts, now) == crate::decimal::decimal(minutes) + seq!['m'],
        hours > 0 ==> span_text(ts, now) == crate::decimal::decimal(hours) + seq![
            'h',
            ('0' as int + minutes / 10) as char,
            ('0' as int + minutes % 10) as char,
            'm',
        ],
{
    reveal_strlit("h");
    reveal_strlit("m");
    let s = signed_stamp(ts) - now;
    assert(s / 3600 == hours && (s % 3600) / 60 == minutes);
    crate::decimal::law_two_digits(minutes);
    if hours > 0 {
        assert(span_text(ts, now) =~= crate::decimal::decimal(hours) + seq![
            'h',
            ('0' as int + minutes / 10) as char,
            ('0' as int + minutes % 10) as char,
            'm',
        ]);
    } else {
        assert(span_text(ts, now) =~= crate::decimal::decimal(minutes) + seq!['m']);
    }
}

/// A date can be read back: the month up to a slash, the day up to a space, then the hour, and,
/// exactly where the minutes are not 0, a colon and the minutes, of two digits below 100.
pub proof fn law_date_reads_back(parts: LocalTimeParts)
    ensures
        ({
            let text = date_text(parts);
            let m = crate::decimal::decimal(parts.month as nat).len() as int;
            let d = m + 1 + crate::decimal::decimal(parts.day as nat).len();
            let h = d + 1 + crate::decimal::decimal(parts.hour as nat).len();
            &&& h <= text.len()
            &&& crate::decimal::u64_of_text(text.take(m)) == Some(parts.month as u64)
            &&& text[m] == '/'
            &&& crate::decimal::u64_of_text(text.subrange(m + 1, d)) == Some(parts.day as u64)
            &&& text[d] == ' '
            &&& crate::decimal::u64_of_text(text.subrange(d + 1, h)) == Some(parts.hour as u64)
            &&& parts.minute == 0 <==> text.len() == h
            &&& parts.minute != 0 ==> {
                &&& text[h] == ':'
                &&& crate::decimal::u64_of_text(text.skip(h + 1)) == Some(parts.minute as u64)
                &&& parts.minute < 100 ==> text.len() == h + 3
            }
        }),
{
    reveal_strlit("/");
    reveal_strlit(" ");
    reveal_strlit(":");
    let text = date_text(parts);
    let month = crate::decimal::decimal(parts.month as nat);
    let day = crate::decimal::decimal(parts.day as nat);
    let hour = crate::decimal::decimal(parts.hour as nat);
    let m = month.len() as int;
    let d = m + 1 + day.len();
    let h = d + 1 + hour.len();
    crate::decimal::law_number_round_trip(parts.month as u64);
    crate::decimal::law_number_round_trip(parts.day as u64);
    crate::decimal::law_number_round_trip(parts.hour as u64);
    assert(text.take(m) =~= month);
    assert(text.subrange(m + 1, d) =~= day);
    assert(text.subrange(d + 1, h) =~= hour);
    if parts.minute != 0 {
        let minute = crate::decimal::two_digits(parts.minute as nat);
        assert(text.skip(h + 1) =~= minute);
        let zeros: nat = if parts.minute < 10 {
            1
        } else {
            0
        };
        assert(minute =~= crate::decimal::number_text(false, zeros, parts.minute as nat));
        crate::decimal::law_number_texts(minute, parts.minute as u64);
        crate::decimal::law_two_digits(parts.minute as nat);
    }
}

/// Only the year and the day of the year tell days apart, and both do.
pub proof fn law_day_is_year_and_day_of_year(a: LocalTimeParts, b: LocalTimeParts)
    ensures
        a.year != b.year ==> !same_day(a, b),
        a.yday != b.yday ==> !same_day(a, b),
        same_day(a, LocalTimeParts { year: a.year, yday: a.yday, ..b }),
{
}

/// A date is never empty.
pub proof fn law_date_is_not_empty(parts: LocalTimeParts)
    ensures
        date_text(parts).len() > 0,
{
    reveal_strlit("/");
}

/// Being on one day is an equivalence.
pub proof fn law_same_day(a: LocalTimeParts, b: LocalTimeParts, c: LocalTimeParts)
    ensures
        same_day(a, a),
        same_day(a, b) == same_day(b, a),
        same_day(a, b) && same_day(b, c) ==> same_day(a, c),
{
}

/// A moment from the fields of the C library's broken-down time: years are counted there from
/// 1900, months from 0.
pub fn local_time_parts(
    tm_year: i32,
    tm_yday: i32,
    tm_mon: i32,
    tm_mday: i32,
    tm_hour: i32,
    tm_min: i32,
) -> (r: LocalTimeParts)
    requires
        tm_year + 1900 <= i32::MAX,
        tm_mon < i32::MAX,
    ensures
        r == (LocalTimeParts {
            year: (tm_year + 1900) as i32,
            yday: tm_yday,
            month: (tm_mon + 1) as u32,
            day: tm_mday as u32,
            hour: tm_hour as u32,
            minute: tm_min as u32,
        }),
{
    LocalTimeParts {
        year: tm_year + 1900,
        yday: tm_yday,
        month: #[verifier::truncate] ((tm_mon + 1) as u32),
        day: #[verifier::truncate] (tm_mday as u32),
        hour: #[verifier::truncate] (tm_hour as u32),
        minute: #[verifier::truncate] (tm_min as u32),
    }
}

/// A time stamp as a signed number.
fn to_signed(ts: u64) -> (r: i64)
    ensures
        r == signed_stamp(ts),
{
    if ts <= i64::MAX as u64 {
        ts as i64
    } else {
        -((u64::MAX - ts) as i64) - 1
    }
}

/// Whether the time from `now` to a time stamp fits a signed 64-bit number.
pub fn is_span_representable(ts: u64, now: i64) -> (r: bool)
    ensures
        r == span_fits(ts, now),
{
    ts == 0 || to_signed(ts).checked_sub(now).is_some()
}

/// The time from `now` to a time stamp.
pub fn format_reset_at(ts: u64, now: i64) -> (r: String)
    requires
        span_fits(ts, now),
    ensures
        r@ == span_text(ts, now),
{
    let mut text: String = String::new();
    if ts == 0 {
        return text;
    }
    let s: i64 = to_signed(ts) - now;
    if s <= 0 {
        return text;
    }
    let hours: u64 = (s as u64) / 3600;
    let minutes: u64 = ((s as u64) % 3600) / 60;
    if hours > 0 {
        push_decimal(&mut text, hours);
        text.append("h");
        push_two_digits(&mut text, minutes);
        text.append("m");
    } else {
        push_decimal(&mut text, minutes);
        text.append("m");
    }
    text
}

/// Whether two moments are on one day.
pub fn is_same_local_day(a: LocalTimeParts, b: LocalTimeParts) -> (r: bool)
    ensures
        r == same_day(a, b),
{
    a.year == b.year && a.yday == b.yday
}

/// A moment as a date.
pub fn format_month_day_time(parts: LocalTimeParts) -> (r: String)
    ensures
        r@ == date_text(parts),
{
    let mut text: String = String::new();
    push_decimal(&mut text, parts.month as u64);
    text.append("/");
    push_decimal(&mut text, parts.day as u64);
    text.append(" ");
    push_decimal(&mut text, parts.hour as u64);
    if parts.minute != 0 {
        text.append(":");
        push_two_digits(&mut text, parts.minute as u64);
    }
    text
}

/// A moment as a date, or nothing where the local time is not known.
pub fn format_absolute_reset(parts: Option<LocalTimeParts>) -> (r: String)
    ensures
        r@ == optional_date_text(parts),
{
    match parts {
        Some(parts) => format_month_day_time(parts),
        None => String::new(),
    }
}

} // verus!
