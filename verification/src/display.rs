//! The display: a line for the status bar, a coloured line for a terminal, and fields for
//! scripts.

use crate::cache::{cache_age_seconds, is_stale, Cache};
use crate::cli::OutputMode;
use crate::decimal::{parse_u64, push_decimal};
use crate::json::{write_single_member, JsonMember};
use crate::reset::{
    format_absolute_reset, format_month_day_time, format_reset_at, is_same_local_day,
    LocalTimeParts,
};
use vstd::prelude::*;

verus! {

/// Up to how many percent left a reset is given as a date.
pub const WEEKLY_RESET_DISPLAY_THRESHOLD_PERCENT: u64 = 30;

/// Colour of a limit's name.
pub const BLUE: &'static str = "\x1b[38;2;137;180;250m";

/// Colour of what is less important.
pub const SUBTLE: &'static str = "\x1b[38;2;88;91;112m";

/// Bold type.
pub const BOLD: &'static str = "\x1b[1m";

/// Back to plain type.
pub const PLAIN: &'static str = "\x1b[0m";

/// Colour of a limit that is nearly used up.
pub const RED: &'static str = "\x1b[38;2;243;139;168m";

/// Colour of a limit that is half used up.
pub const PEACH: &'static str = "\x1b[38;2;250;179;135m";

/// Colour of a limit that is mostly left.
pub const GREEN: &'static str = "\x1b[38;2;166;227;161m";

/// How much of a limit is left.
///
/// The share itself is a number with a fraction; what is displayed and decided needs only its
/// text without a fraction and the least whole number that is not below it.
pub struct Percent {
    /// The percentage rounded to a whole number, as text.
    pub shown: String,
    /// The percentage rounded up.
    pub ceiling: u64,
}

/// One of the two limits.
pub struct Window {
    pub remaining: Percent,
    /// When the limit is reset, in seconds since the epoch; 0 if unknown.
    pub reset: u64,
    /// That moment on the local calendar and clock, if it is known.
    pub reset_local: Option<LocalTimeParts>,
}

/// All that the display depends on.
pub struct Status {
    pub five_hour: Window,
    pub weekly: Window,
    /// How old the data is, in seconds.
    pub age: u64,
    /// The present, in whole seconds since the epoch.
    pub now: i64,
    /// The present on the local calendar and clock, if it is known.
    pub now_local: Option<LocalTimeParts>,
}

/// The display for scripts.
#[derive(Clone, Debug, PartialEq)]
pub struct JsonStatus<F> {
    pub fetched_at: F,
    pub cache_age_seconds: u64,
    pub stale: bool,
    pub utilization_5h: F,
    pub utilization_1w: F,
    pub remaining_5h_percent: F,
    pub remaining_1w_percent: F,
    pub reset_5h_unix: u64,
    pub reset_5h_in: String,
    pub reset_5h_at: String,
    pub reset_1w_unix: u64,
    pub reset_1w_at: String,
}

/// The data to display, and what is known of it at the moment of display.
///
/// The percentages stand here twice: as numbers, which only the display for scripts passes on, and
/// as the lines need them.
pub struct Reading<F> {
    pub data: Cache<F>,
    pub remaining_5h: F,
    pub remaining_1w: F,
    pub shown_5h: Percent,
    pub shown_1w: Percent,
    /// Whole seconds since the data was fetched, rounded down.
    pub elapsed: i128,
    /// The present, in whole seconds since the epoch.
    pub now: i64,
    /// The present on the local calendar and clock, if it is known.
    pub now_local: Option<LocalTimeParts>,
    /// The reset of the five-hour limit on the local calendar and clock, if it is known.
    pub reset_5h_local: Option<LocalTimeParts>,
    /// The reset of the weekly limit on the local calendar and clock, if it is known.
    pub reset_1w_local: Option<LocalTimeParts>,
}

/// What is displayed: a line of text, or fields for scripts.
pub enum Rendered<F> {
    Line(String),
    Fields(JsonStatus<F>),
}

/// An error message, and where it goes.
pub struct ErrorOutput {
    pub text: String,
    /// Whether it goes to the standard error output rather than to the standard output.
    pub to_stderr: bool,
}

/// The whole number that a percentage is displayed as; 0 where the text is no such number.
pub open spec fn rounded(shown: Seq<char>) -> u64 {
    match crate::decimal::u64_of_text(shown) {
        Some(n) => n,
        None => 0,
    }
}

/// Whether so little is left that a reset may be given as a date.
pub open spec fn is_low(shown: Seq<char>) -> bool {
    rounded(shown) <= WEEKLY_RESET_DISPLAY_THRESHOLD_PERCENT
}

/// When the five-hour limit is reset: the time until then, or the date if dates are shown, little
/// is left and it is on another day. Nothing if it is not in the future.
pub open spec fn five_hour_reset(
    window: Window,
    now: i64,
    now_local: Option<LocalTimeParts>,
    show_dates: bool,
) -> Seq<char> {
    let span = crate::reset::span_text(window.reset, now);
    match (now_local, window.reset_local) {
        (Some(today), Some(moment)) => if show_dates && is_low(window.remaining.shown@)
            && span.len() > 0 && !crate::reset::same_day(today, moment) {
            crate::reset::date_text(moment)
        } else {
            span
        },
        _ => span,
    }
}

/// When the weekly limit is reset, in brackets: the date if dates are shown, little is left and
/// the moment is known.
pub open spec fn weekly_reset(window: Window, show_dates: bool) -> Seq<char> {
    match window.reset_local {
        Some(moment) => if show_dates && window.reset != 0 && is_low(window.remaining.shown@) {
            "("@ + crate::reset::date_text(moment) + ")"@
        } else {
            Seq::empty()
        },
        None => Seq::empty(),
    }
}

/// How old the data is, in minutes, if it is past its time to live.
pub open spec fn stale_mark(age: u64, cache_ttl: u64) -> Seq<char> {
    if crate::cache::stale(age as nat, cache_ttl as nat) {
        " ["@ + crate::decimal::decimal((age / 60) as nat) + "m ago]"@
    } else {
        Seq::empty()
    }
}

/// A text in brackets, or nothing where it is empty.
pub open spec fn bracketed(text: Seq<char>) -> Seq<char> {
    if text.len() > 0 {
        "("@ + text + ")"@
    } else {
        Seq::empty()
    }
}

/// The line for the status bar. The age of stale data leaves no room for the weekly reset.
pub open spec fn tmux_line(d: Status, cache_ttl: u64, show_dates: bool) -> Seq<char> {
    let stale = stale_mark(d.age, cache_ttl);
    let weekly = if stale.len() > 0 {
        Seq::empty()
    } else {
        weekly_reset(d.weekly, show_dates)
    };
    "5h:"@ + d.five_hour.remaining.shown@ + "%"@ + bracketed(
        five_hour_reset(d.five_hour, d.now, d.now_local, show_dates),
    ) + " 1w:"@ + d.weekly.remaining.shown@ + "%"@ + weekly + stale
}

/// The colour of a percentage, given rounded up: up to 20 and up to 50 are marked.
pub open spec fn colour(ceiling: u64) -> Seq<char> {
    if ceiling <= 20 {
        RED@
    } else if ceiling <= 50 {
        PEACH@
    } else {
        GREEN@
    }
}

/// A text in the subtle colour, or nothing where it is empty.
pub open spec fn subtle(text: Seq<char>) -> Seq<char> {
    if text.len() > 0 {
        SUBTLE@ + text + PLAIN@
    } else {
        Seq::empty()
    }
}

/// A limit's name in bold, then its percentage in the colour that it calls for.
pub open spec fn coloured_limit(name: Seq<char>, percent: Percent) -> Seq<char> {
    BLUE@ + BOLD@ + name + PLAIN@ + " "@ + colour(percent.ceiling) + percent.shown@ + "%"@ + PLAIN@
}

/// The coloured line for a terminal.
pub open spec fn ansi_line(d: Status, cache_ttl: u64, show_dates: bool) -> Seq<char> {
    let stale = stale_mark(d.age, cache_ttl);
    coloured_limit("5h"@, d.five_hour.remaining) + subtle(
        bracketed(five_hour_reset(d.five_hour, d.now, d.now_local, show_dates)),
    ) + " "@ + subtle("·"@) + " "@ + coloured_limit("1w"@, d.weekly.remaining) + subtle(
        weekly_reset(d.weekly, show_dates),
    ) + if stale.len() > 0 {
        " "@ + subtle(stale)
    } else {
        Seq::empty()
    }
}

/// Whether fields for scripts are those of some data, `elapsed` whole seconds after it was fetched.
pub open spec fn is_json_status<F>(
    r: JsonStatus<F>,
    d: Cache<F>,
    remaining_5h_percent: F,
    remaining_1w_percent: F,
    elapsed: i128,
    now: i64,
    cache_ttl: u64,
    reset_5h_local: Option<LocalTimeParts>,
    reset_1w_local: Option<LocalTimeParts>,
) -> bool {
    &&& r.fetched_at == d.fetched_at
    &&& r.cache_age_seconds == crate::cache::age(elapsed as int)
    &&& r.stale == crate::cache::stale(crate::cache::age(elapsed as int), cache_ttl as nat)
    &&& r.utilization_5h == d.util_5h
    &&& r.utilization_1w == d.util_1w
    &&& r.remaining_5h_percent == remaining_5h_percent
    &&& r.remaining_1w_percent == remaining_1w_percent
    &&& r.reset_5h_unix == d.reset_5h
    &&& r.reset_5h_in@ == crate::reset::span_text(d.reset_5h, now)
    &&& r.reset_5h_at@ == crate::reset::optional_date_text(reset_5h_local)
    &&& r.reset_1w_unix == d.reset_1w
    &&& r.reset_1w_at@ == crate::reset::optional_date_text(reset_1w_local)
}

impl<F> Reading<F> {
    /// What the lines depend on.
    pub open spec fn status(self) -> Status {
        Status {
            five_hour: Window {
                remaining: self.shown_5h,
                reset: self.data.reset_5h,
                reset_local: self.reset_5h_local,
            },
            weekly: Window {
                remaining: self.shown_1w,
                reset: self.data.reset_1w,
                reset_local: self.reset_1w_local,
            },
            age: crate::cache::age(self.elapsed as int) as u64,
            now: self.now,
            now_local: self.now_local,
        }
    }
}

/// Whether two displays differ in nothing but what they know of the local calendar and clock.
pub open spec fn differ_in_local_time_only(a: Status, b: Status) -> bool {
    &&& a.five_hour.remaining == b.five_hour.remaining
    &&& a.weekly.remaining == b.weekly.remaining
    &&& a.five_hour.reset == b.five_hour.reset
    &&& a.weekly.reset == b.weekly.reset
    &&& a.age == b.age
    &&& a.now == b.now
}

/// With dates hidden, the display does not depend on the local calendar and clock.
pub proof fn law_hidden_dates(a: Status, b: Status, cache_ttl: u64)
    requires
        differ_in_local_time_only(a, b),
    ensures
        tmux_line(a, cache_ttl, false) == tmux_line(b, cache_ttl, false),
        ansi_line(a, cache_ttl, false) == ansi_line(b, cache_ttl, false),
{
}

/// With more left than the threshold of both limits, showing dates makes no difference.
pub proof fn law_dates_need_low_limits(d: Status, cache_ttl: u64)
    requires
        !is_low(d.five_hour.remaining.shown@),
        !is_low(d.weekly.remaining.shown@),
    ensures
        tmux_line(d, cache_ttl, true) == tmux_line(d, cache_ttl, false),
        ansi_line(d, cache_ttl, true) == ansi_line(d, cache_ttl, false),
{
    assert(weekly_reset(d.weekly, true) =~= weekly_reset(d.weekly, false));
}

/// In the status bar the age of stale data takes the place of the weekly reset: what is known of
/// that reset does not matter then, and the line ends with the age.
pub proof fn law_age_displaces_weekly_reset(
    d: Status,
    weekly_reset_at: u64,
    local: Option<LocalTimeParts>,
    cache_ttl: u64,
    show_dates: bool,
)
    requires
        crate::cache::stale(d.age as nat, cache_ttl as nat),
    ensures
        ({
            let other = Status {
                weekly: Window {
                    remaining: d.weekly.remaining,
                    reset: weekly_reset_at,
                    reset_local: local,
                },
                ..d
            };
            tmux_line(d, cache_ttl, show_dates) == tmux_line(other, cache_ttl, show_dates)
        }),
        stale_mark(d.age, cache_ttl).is_suffix_of(tmux_line(d, cache_ttl, show_dates)),
{
    reveal_strlit("m ago]");
    let stale = stale_mark(d.age, cache_ttl);
    let line = tmux_line(d, cache_ttl, show_dates);
    assert(line.skip(line.len() - stale.len()) =~= stale);
}

/// The age is displayed exactly for stale data.
pub proof fn law_age_marks_stale_data(age: u64, cache_ttl: u64)
    ensures
        stale_mark(age, cache_ttl).len() > 0 <==> crate::cache::stale(
            age as nat,
            cache_ttl as nat,
        ),
{
    reveal_strlit("m ago]");
}

/// A reset that is unknown or past leaves no brackets behind the five-hour limit.
pub proof fn law_past_reset_is_not_displayed(d: Status, show_dates: bool)
    requires
        d.five_hour.reset == 0 || crate::reset::signed_stamp(d.five_hour.reset) <= d.now,
    ensures
        bracketed(five_hour_reset(d.five_hour, d.now, d.now_local, show_dates)).len() == 0,
{
    crate::reset::law_span_is_written_for_the_future(d.five_hour.reset, d.now);
}

/// A displayed percentage counts as the number that it reads as, and as 0 if it reads as none.
/// Little is left from 30 on downwards.
pub proof fn law_displayed_percent_counts(shown: Seq<char>, percent: u64)
    ensures
        crate::decimal::u64_of_text(shown) == Some(percent) ==> rounded(shown) == percent && (
        is_low(shown) <==> percent <= 30),
        crate::decimal::u64_of_text(shown) is None ==> rounded(shown) == 0 && is_low(shown),
        rounded(crate::decimal::decimal(percent as nat)) == percent,
{
    crate::decimal::law_number_round_trip(percent);
}

/// When the five-hour reset is a date: only if it is known and in the future, dates are shown, at
/// most 30 percent is left, and it is on another day than now, by year or by day of the year. A
/// future reset is otherwise the time until then, and any other is left out. (A percentage that
/// does not read as a number counts as 0.)
pub proof fn law_five_hour_reset_is_date_or_span(
    window: Window,
    now: i64,
    now_local: Option<LocalTimeParts>,
    show_dates: bool,
    percent: u64,
)
    requires
        percent == match crate::decimal::u64_of_text(window.remaining.shown@) {
            Some(n) => n,
            None => 0,
        },
    ensures
        ({
            let text = five_hour_reset(window, now, now_local, show_dates);
            let future = window.reset != 0 && crate::reset::signed_stamp(window.reset) > now;
            let other_day = now_local matches Some(today) && window.reset_local matches Some(moment)
                && (today.year != moment.year || today.yday != moment.yday);
            &&& !future ==> text.len() == 0
            &&& future && show_dates && percent <= 30 && other_day ==> text
                == crate::reset::date_text(window.reset_local->0)
            &&& future && !(show_dates && percent <= 30 && other_day) ==> text
                == crate::reset::span_text(window.reset, now)
        }),
{
    crate::reset::law_span_is_written_for_the_future(window.reset, now);
}

/// When the weekly reset is given: exactly if it is known, dates are shown and at most 30 percent
/// is left. It is the date in brackets.
pub proof fn law_weekly_reset_is_bracketed_date(
    window: Window,
    show_dates: bool,
    percent: u64,
)
    requires
        percent == match crate::decimal::u64_of_text(window.remaining.shown@) {
            Some(n) => n,
            None => 0,
        },
    ensures
        ({
            let text = weekly_reset(window, show_dates);
            let given = show_dates && percent <= 30 && window.reset != 0 && window.reset_local
                is Some;
            &&& !given ==> text.len() == 0
            &&& given ==> text == seq!['('] + crate::reset::date_text(window.reset_local->0) + seq![
                ')',
            ]
        }),
{
    reveal_strlit("(");
    reveal_strlit(")");
    assert("("@ =~= seq!['(']);
    assert(")"@ =~= seq![')']);
}

/// The mark of stale data holds the whole minutes of its age: a number of minutes that the age has
/// reached, while it has not reached one more. Fresh data has no mark.
pub proof fn law_age_mark_counts_minutes(age: u64, cache_ttl: u64)
    ensures
        age < cache_ttl ==> stale_mark(age, cache_ttl).len() == 0,
        age >= cache_ttl ==> {
            let mark = stale_mark(age, cache_ttl);
            let end = mark.len() - 6;
            &&& end > 2
            &&& mark.take(2) == seq![' ', '[']
            &&& mark.skip(end) == seq!['m', ' ', 'a', 'g', 'o', ']']
            &&& crate::decimal::u64_of_text(mark.subrange(2, end)) matches Some(minutes) && {
                &&& 60 * minutes <= age < 60 * minutes + 60
                &&& mark.subrange(2, end) == crate::decimal::decimal(minutes as nat)
            }
        },
{
    reveal_strlit(" [");
    reveal_strlit("m ago]");
    if age >= cache_ttl {
        let mark = stale_mark(age, cache_ttl);
        let end = mark.len() - 6;
        let minutes = (age / 60) as u64;
        crate::decimal::law_number_round_trip(minutes);
        crate::decimal::law_decimal_denotes(minutes as nat);
        assert(mark.take(2) =~= seq![' ', '[']);
        assert(mark.skip(end) =~= seq!['m', ' ', 'a', 'g', 'o', ']']);
        assert(mark.subrange(2, end) =~= crate::decimal::decimal(minutes as nat));
    }
}

/// Older data never shows fewer minutes.
pub proof fn law_older_data_shows_no_less(age: u64, older: u64, cache_ttl: u64)
    requires
        cache_ttl <= age <= older,
    ensures
        ({
            let mark = stale_mark(age, cache_ttl);
            let later = stale_mark(older, cache_ttl);
            crate::decimal::u64_of_text(mark.subrange(2, mark.len() - 6)) matches Some(m)
                && crate::decimal::u64_of_text(later.subrange(2, later.len() - 6)) matches Some(n)
                && m <= n
        }),
{
    law_age_mark_counts_minutes(age, cache_ttl);
    law_age_mark_counts_minutes(older, cache_ttl);
}

/// A text stands in brackets, and no text leaves none.
pub proof fn law_brackets(text: Seq<char>)
    ensures
        text.len() == 0 ==> bracketed(text).len() == 0,
        text.len() > 0 ==> bracketed(text) == seq!['('] + text + seq![')'],
{
    reveal_strlit("(");
    reveal_strlit(")");
    assert("("@ =~= seq!['(']);
    assert(")"@ =~= seq![')']);
}

/// The line for the status bar: each limit by its name and its percentage, the five-hour one with
/// its reset in brackets if there is one. Behind the weekly one stands its reset while the data is
/// fresh, and the age alone from the moment it is stale.
pub proof fn law_status_bar_line(d: Status, cache_ttl: u64, show_dates: bool)
    ensures
        ({
            let line = tmux_line(d, cache_ttl, show_dates);
            let reset = five_hour_reset(d.five_hour, d.now, d.now_local, show_dates);
            let begin = "5h:"@ + d.five_hour.remaining.shown@ + "%"@ + (if reset.len() > 0 {
                seq!['('] + reset + seq![')']
            } else {
                Seq::empty()
            }) + " 1w:"@ + d.weekly.remaining.shown@ + "%"@;
            &&& begin.is_prefix_of(line)
            &&& d.age < cache_ttl ==> line.skip(begin.len() as int) == weekly_reset(
                d.weekly,
                show_dates,
            )
            &&& d.age >= cache_ttl ==> line.skip(begin.len() as int) == stale_mark(d.age, cache_ttl)
        }),
{
    law_age_mark_counts_minutes(d.age, cache_ttl);
    let line = tmux_line(d, cache_ttl, show_dates);
    let reset = five_hour_reset(d.five_hour, d.now, d.now_local, show_dates);
    law_brackets(reset);
    let begin = "5h:"@ + d.five_hour.remaining.shown@ + "%"@ + (if reset.len() > 0 {
        seq!['('] + reset + seq![')']
    } else {
        Seq::empty()
    }) + " 1w:"@ + d.weekly.remaining.shown@ + "%"@;
    assert(bracketed(reset) =~= if reset.len() > 0 {
        seq!['('] + reset + seq![')']
    } else {
        Seq::empty()
    });
    let rest = if d.age < cache_ttl {
        weekly_reset(d.weekly, show_dates)
    } else {
        stale_mark(d.age, cache_ttl)
    };
    assert(line =~= begin + rest);
    assert(line.take(begin.len() as int) =~= begin);
    assert(line.skip(begin.len() as int) =~= rest);
}

/// The colour of a percentage: red up to 20, peach above that up to 50, and green beyond.
pub proof fn law_colour_ranges(ceiling: u64)
    ensures
        ceiling <= 20 ==> colour(ceiling) == "\x1b[38;2;243;139;168m"@,
        20 < ceiling <= 50 ==> colour(ceiling) == "\x1b[38;2;250;179;135m"@,
        50 < ceiling ==> colour(ceiling) == "\x1b[38;2;166;227;161m"@,
{
}

/// The line for a terminal: each limit by its name, bold and blue, and its percentage in its
/// colour. Subtle behind them stand the five-hour reset in brackets and the weekly reset, if there
/// are any. The weekly reset does not depend on the age, which follows when the data is stale.
pub proof fn law_terminal_line(d: Status, cache_ttl: u64, show_dates: bool)
    ensures
        ({
            let line = ansi_line(d, cache_ttl, show_dates);
            let plain = "\x1b[0m"@;
            let subtle = "\x1b[38;2;88;91;112m"@;
            let bold_blue = "\x1b[38;2;137;180;250m"@ + "\x1b[1m"@;
            let reset = five_hour_reset(d.five_hour, d.now, d.now_local, show_dates);
            let weekly = weekly_reset(d.weekly, show_dates);
            let begin = bold_blue + "5h"@ + plain + " "@ + colour(d.five_hour.remaining.ceiling)
                + d.five_hour.remaining.shown@ + "%"@ + plain + (if reset.len() > 0 {
                subtle + (seq!['('] + reset + seq![')']) + plain
            } else {
                Seq::empty()
            }) + " "@ + (subtle + "·"@ + plain) + " "@ + (bold_blue + "1w"@ + plain + " "@ + colour(
                d.weekly.remaining.ceiling,
            ) + d.weekly.remaining.shown@ + "%"@ + plain) + (if weekly.len() > 0 {
                subtle + weekly + plain
            } else {
                Seq::empty()
            });
            &&& d.age < cache_ttl ==> line == begin
            &&& d.age >= cache_ttl ==> line == begin + (" "@ + (subtle + stale_mark(
                d.age,
                cache_ttl,
            ) + plain))
        }),
{
    reveal_strlit("·");
    law_age_mark_counts_minutes(d.age, cache_ttl);
    let reset = five_hour_reset(d.five_hour, d.now, d.now_local, show_dates);
    law_brackets(reset);
    lemma_terminal_parts(d, reset, weekly_reset(d.weekly, show_dates));
    let line = ansi_line(d, cache_ttl, show_dates);
    if d.age < cache_ttl {
        assert(line =~= terminal_begin(d, reset, weekly_reset(d.weekly, show_dates)));
    }
}

/// A terminal line up to where the age may stand.
spec fn terminal_begin(d: Status, reset: Seq<char>, weekly: Seq<char>) -> Seq<char> {
    coloured_limit("5h"@, d.five_hour.remaining) + subtle(bracketed(reset)) + " "@ + subtle("·"@)
        + " "@ + coloured_limit("1w"@, d.weekly.remaining) + subtle(weekly)
}

/// The parts of a terminal line, spelt out.
proof fn lemma_terminal_parts(d: Status, reset: Seq<char>, weekly: Seq<char>)
    ensures
        ({
            let plain = "\x1b[0m"@;
            let subtle = "\x1b[38;2;88;91;112m"@;
            let bold_blue = "\x1b[38;2;137;180;250m"@ + "\x1b[1m"@;
            terminal_begin(d, reset, weekly) == bold_blue + "5h"@ + plain + " "@ + colour(
                d.five_hour.remaining.ceiling,
            ) + d.five_hour.remaining.shown@ + "%"@ + plain + (if reset.len() > 0 {
                subtle + (seq!['('] + reset + seq![')']) + plain
            } else {
                Seq::empty()
            }) + " "@ + (subtle + "·"@ + plain) + " "@ + (bold_blue + "1w"@ + plain + " "@ + colour(
                d.weekly.remaining.ceiling,
            ) + d.weekly.remaining.shown@ + "%"@ + plain) + (if weekly.len() > 0 {
                subtle + weekly + plain
            } else {
                Seq::empty()
            })
        }),
{
    reveal_strlit("·");
    law_brackets(reset);
    assert(bracketed(reset) =~= if reset.len() > 0 {
        seq!['('] + reset + seq![')']
    } else {
        Seq::empty()
    });
}

/// In a terminal the date of the weekly reset stands behind the weekly percentage exactly when it
/// is known, dates are shown and at most 30 percent is left, for fresh and stale data alike.
pub proof fn law_terminal_shows_weekly_date(
    d: Status,
    cache_ttl: u64,
    show_dates: bool,
    percent: u64,
)
    requires
        percent == match crate::decimal::u64_of_text(d.weekly.remaining.shown@) {
            Some(n) => n,
            None => 0,
        },
    ensures
        ({
            let line = ansi_line(d, cache_ttl, show_dates);
            let plain = "\x1b[0m"@;
            let subtle = "\x1b[38;2;88;91;112m"@;
            let given = show_dates && percent <= 30 && d.weekly.reset != 0 && d.weekly.reset_local
                is Some;
            let dated = d.weekly.remaining.shown@ + "%"@ + plain + (if given {
                subtle + (seq!['('] + crate::reset::date_text(d.weekly.reset_local->0) + seq![')'])
                    + plain
            } else {
                Seq::empty()
            });
            let aged = if d.age < cache_ttl {
                Seq::empty()
            } else {
                " "@ + (subtle + stale_mark(d.age, cache_ttl) + plain)
            };
            (dated + aged).is_suffix_of(line)
        }),
{
    let plain = "\x1b[0m"@;
    let subtle = "\x1b[38;2;88;91;112m"@;
    let reset = five_hour_reset(d.five_hour, d.now, d.now_local, show_dates);
    let weekly = weekly_reset(d.weekly, show_dates);
    let dot = coloured_limit("5h"@, d.five_hour.remaining) + self::subtle(bracketed(reset)) + " "@
        + self::subtle("·"@) + " "@;
    let name = BLUE@ + BOLD@ + "1w"@ + PLAIN@ + " "@ + colour(d.weekly.remaining.ceiling);
    law_weekly_reset_is_bracketed_date(d.weekly, show_dates, percent);
    law_age_mark_counts_minutes(d.age, cache_ttl);
    let w = if weekly.len() > 0 {
        subtle + weekly + plain
    } else {
        Seq::empty()
    };
    let aged = if d.age < cache_ttl {
        Seq::empty()
    } else {
        " "@ + (subtle + stale_mark(d.age, cache_ttl) + plain)
    };
    assert(self::subtle(weekly) == w);
    assert(ansi_line(d, cache_ttl, show_dates) == dot + (name + d.weekly.remaining.shown@ + "%"@
        + PLAIN@) + w + aged);
    lemma_suffix_behind(dot, name, d.weekly.remaining.shown@, "%"@, plain, w, aged);
}

/// What stands last in a chain of texts is its suffix.
proof fn lemma_suffix_behind(
    before: Seq<char>,
    name: Seq<char>,
    shown: Seq<char>,
    sign: Seq<char>,
    plain: Seq<char>,
    w: Seq<char>,
    aged: Seq<char>,
)
    ensures
        (shown + sign + plain + w + aged).is_suffix_of(
            before + (name + shown + sign + plain) + w + aged,
        ),
{
    let tail = shown + sign + plain + w + aged;
    let line = before + (name + shown + sign + plain) + w + aged;
    assert(line =~= (before + name) + tail);
    assert(line.skip(line.len() - tail.len()) =~= tail);
}

/// The status for scripts passes on the data and agrees with itself, with the lines and with the
/// cache: it is stale exactly if its own age has reached the time to live, which is exactly when
/// the lines carry the age, and exactly when the cache would be refused as not fresh.
pub proof fn law_json_status_agrees<F>(
    r: JsonStatus<F>,
    d: Cache<F>,
    remaining_5h: F,
    remaining_1w: F,
    elapsed: i128,
    now: i64,
    cache_ttl: u64,
    reset_5h_local: Option<LocalTimeParts>,
    reset_1w_local: Option<LocalTimeParts>,
)
    requires
        is_json_status(
            r,
            d,
            remaining_5h,
            remaining_1w,
            elapsed,
            now,
            cache_ttl,
            reset_5h_local,
            reset_1w_local,
        ),
    ensures
        r.stale <==> r.cache_age_seconds >= cache_ttl,
        0 <= elapsed <= u64::MAX ==> r.cache_age_seconds == elapsed,
        elapsed < 0 ==> r.cache_age_seconds == 0,
        r.stale <==> stale_mark(r.cache_age_seconds, cache_ttl).len() > 0,
        cache_ttl > 0 ==> (r.stale <==> !crate::cache::usable(
            true,
            elapsed as int,
            cache_ttl as nat,
        )),
        r.fetched_at == d.fetched_at,
        r.utilization_5h == d.util_5h && r.utilization_1w == d.util_1w,
        r.remaining_5h_percent == remaining_5h && r.remaining_1w_percent == remaining_1w,
        r.reset_5h_unix == d.reset_5h && r.reset_1w_unix == d.reset_1w,
        r.reset_5h_in@ == crate::reset::span_text(d.reset_5h, now),
        reset_5h_local is None ==> r.reset_5h_at@.len() == 0,
        reset_5h_local matches Some(moment) ==> r.reset_5h_at@ == crate::reset::date_text(moment),
        reset_1w_local is None ==> r.reset_1w_at@.len() == 0,
        reset_1w_local matches Some(moment) ==> r.reset_1w_at@ == crate::reset::date_text(moment),
{
    law_age_mark_counts_minutes(r.cache_age_seconds, cache_ttl);
}

/// What the lines show of a reading: each limit with its own percentage and reset, and the age in
/// whole seconds.
pub proof fn law_lines_show_the_reading<F>(reading: Reading<F>)
    ensures
        ({
            let d = reading.status();
            &&& d.five_hour.remaining == reading.shown_5h
            &&& d.five_hour.reset == reading.data.reset_5h
            &&& d.five_hour.reset_local == reading.reset_5h_local
            &&& d.weekly.remaining == reading.shown_1w
            &&& d.weekly.reset == reading.data.reset_1w
            &&& d.weekly.reset_local == reading.reset_1w_local
            &&& d.now == reading.now
            &&& d.now_local == reading.now_local
            &&& 0 <= reading.elapsed <= u64::MAX ==> d.age == reading.elapsed
            &&& reading.elapsed < 0 ==> d.age == 0
            &&& reading.elapsed > u64::MAX ==> d.age == u64::MAX
        }),
{
}

/// The whole number that a percentage is displayed as.
pub fn rounded_percent(shown: &str) -> (r: u64)
    ensures
        r == rounded(shown@),
{
    match parse_u64(shown) {
        Ok(n) => n,
        Err(_) => 0,
    }
}

/// Whether the weekly reset is given.
pub fn should_show_weekly_reset(remaining: &Percent, reset_1w: u64, show_reset_dates: bool) -> (r:
    bool)
    ensures
        r == (show_reset_dates && reset_1w != 0 && is_low(remaining.shown@)),
{
    show_reset_dates && reset_1w != 0 && rounded_percent(remaining.shown.as_str())
        <= WEEKLY_RESET_DISPLAY_THRESHOLD_PERCENT
}

/// When the five-hour limit is reset.
pub fn format_5h_reset_display(
    window: &Window,
    now: i64,
    now_local: Option<LocalTimeParts>,
    show_reset_dates: bool,
) -> (r: String)
    requires
        crate::reset::span_fits(window.reset, now),
    ensures
        r@ == five_hour_reset(*window, now, now_local, show_reset_dates),
{
    let relative: String = format_reset_at(window.reset, now);
    if !show_reset_dates || relative.as_str().is_empty() {
        return relative;
    }
    if rounded_percent(window.remaining.shown.as_str()) > WEEKLY_RESET_DISPLAY_THRESHOLD_PERCENT {
        return relative;
    }
    match (now_local, window.reset_local) {
        (Some(today), Some(moment)) => if is_same_local_day(today, moment) {
            relative
        } else {
            format_month_day_time(moment)
        },
        _ => relative,
    }
}

/// When the weekly limit is reset, in brackets.
pub fn format_weekly_reset_suffix(window: &Window, show_reset_dates: bool) -> (r: String)
    ensures
        r@ == weekly_reset(*window, show_reset_dates),
{
    if !should_show_weekly_reset(&window.remaining, window.reset, show_reset_dates) {
        return String::new();
    }
    let absolute: String = format_absolute_reset(window.reset_local);
    proof {
        if let Some(moment) = window.reset_local {
            crate::reset::law_date_is_not_empty(moment);
        }
    }
    in_brackets(absolute.as_str())
}

/// A text in brackets, or nothing where it is empty.
fn in_brackets(text: &str) -> (r: String)
    ensures
        r@ == bracketed(text@),
{
    if text.is_empty() {
        return String::new();
    }
    let mut r: String = "(".to_owned();
    r.append(text);
    r.append(")");
    r
}

/// How old the data is, if it is past its time to live.
fn format_stale_mark(age: u64, cache_ttl: u64) -> (r: String)
    ensures
        r@ == stale_mark(age, cache_ttl),
{
    if !is_stale(age, cache_ttl) {
        return String::new();
    }
    let mut r: String = " [".to_owned();
    push_decimal(&mut r, age / 60);
    r.append("m ago]");
    r
}

/// The line for the status bar.
pub fn format_tmux(d: &Status, cache_ttl: u64, show_reset_dates: bool) -> (r: String)
    requires
        crate::reset::span_fits(d.five_hour.reset, d.now),
    ensures
        r@ == tmux_line(*d, cache_ttl, show_reset_dates),
{
    let reset: String = format_5h_reset_display(&d.five_hour, d.now, d.now_local, show_reset_dates);
    let stale: String = format_stale_mark(d.age, cache_ttl);
    let weekly: String = if stale.as_str().is_empty() {
        format_weekly_reset_suffix(&d.weekly, show_reset_dates)
    } else {
        String::new()
    };
    let mut o: String = "5h:".to_owned();
    o.append(d.five_hour.remaining.shown.as_str());
    o.append("%");
    o.append(in_brackets(reset.as_str()).as_str());
    o.append(" 1w:");
    o.append(d.weekly.remaining.shown.as_str());
    o.append("%");
    o.append(weekly.as_str());
    o.append(stale.as_str());
    o
}

/// The colour of a percentage, given rounded up.
pub fn color(ceiling: u64) -> (r: &'static str)
    ensures
        r@ == colour(ceiling),
{
    if ceiling <= 20 {
        RED
    } else if ceiling <= 50 {
        PEACH
    } else {
        GREEN
    }
}

/// A text in the subtle colour, or nothing where it is empty.
fn in_subtle(text: &str) -> (r: String)
    ensures
        r@ == subtle(text@),
{
    if text.is_empty() {
        return String::new();
    }
    let mut r: String = SUBTLE.to_owned();
    r.append(text);
    r.append(PLAIN);
    r
}

/// A limit's name and its percentage.
fn format_limit(name: &str, percent: &Percent) -> (r: String)
    ensures
        r@ == coloured_limit(name@, *percent),
{
    let mut r: String = BLUE.to_owned();
    r.append(BOLD);
    r.append(name);
    r.append(PLAIN);
    r.append(" ");
    r.append(color(percent.ceiling));
    r.append(percent.shown.as_str());
    r.append("%");
    r.append(PLAIN);
    r
}

/// The coloured line for a terminal.
pub fn format_ansi(d: &Status, cache_ttl: u64, show_reset_dates: bool) -> (r: String)
    requires
        crate::reset::span_fits(d.five_hour.reset, d.now),
    ensures
        r@ == ansi_line(*d, cache_ttl, show_reset_dates),
{
    let reset: String = format_5h_reset_display(&d.five_hour, d.now, d.now_local, show_reset_dates);
    let weekly: String = format_weekly_reset_suffix(&d.weekly, show_reset_dates);
    let stale: String = format_stale_mark(d.age, cache_ttl);
    let mut o: String = format_limit("5h", &d.five_hour.remaining);
    o.append(in_subtle(in_brackets(reset.as_str()).as_str()).as_str());
    o.append(" ");
    o.append(in_subtle("·").as_str());
    o.append(" ");
    o.append(format_limit("1w", &d.weekly.remaining).as_str());
    o.append(in_subtle(weekly.as_str()).as_str());
    let mut tail: String = String::new();
    if !stale.as_str().is_empty() {
        tail.append(" ");
        tail.append(in_subtle(stale.as_str()).as_str());
    }
    o.append(tail.as_str());
    o
}

/// The fields of the display for scripts, `elapsed` whole seconds (rounded down) after the data
/// was fetched.
pub fn format_json<F: Copy>(
    d: &Cache<F>,
    remaining_5h_percent: F,
    remaining_1w_percent: F,
    elapsed: i128,
    now: i64,
    cache_ttl: u64,
    reset_5h_local: Option<LocalTimeParts>,
    reset_1w_local: Option<LocalTimeParts>,
) -> (r: JsonStatus<F>)
    requires
        crate::reset::span_fits(d.reset_5h, now),
    ensures
        is_json_status(
            r,
            *d,
            remaining_5h_percent,
            remaining_1w_percent,
            elapsed,
            now,
            cache_ttl,
            reset_5h_local,
            reset_1w_local,
        ),
        r.stale == (r.cache_age_seconds >= cache_ttl),
        0 <= elapsed <= u64::MAX ==> r.cache_age_seconds == elapsed,
{
    let age: u64 = cache_age_seconds(elapsed);
    JsonStatus {
        fetched_at: d.fetched_at,
        cache_age_seconds: age,
        stale: is_stale(age, cache_ttl),
        utilization_5h: d.util_5h,
        utilization_1w: d.util_1w,
        remaining_5h_percent,
        remaining_1w_percent,
        reset_5h_unix: d.reset_5h,
        reset_5h_in: format_reset_at(d.reset_5h, now),
        reset_5h_at: format_absolute_reset(reset_5h_local),
        reset_1w_unix: d.reset_1w,
        reset_1w_at: format_absolute_reset(reset_1w_local),
    }
}

/// Displays data as the output mode asks.
pub fn render<F: Copy>(
    output_mode: OutputMode,
    reading: Reading<F>,
    cache_ttl: u64,
    show_reset_dates: bool,
) -> (r: Rendered<F>)
    requires
        crate::reset::span_fits(reading.data.reset_5h, reading.now),
    ensures
        match output_mode {
            OutputMode::Tmux => r matches Rendered::Line(line) && line@ == tmux_line(
                reading.status(),
                cache_ttl,
                show_reset_dates,
            ),
            OutputMode::Ansi => r matches Rendered::Line(line) && line@ == ansi_line(
                reading.status(),
                cache_ttl,
                show_reset_dates,
            ),
            OutputMode::Json => r matches Rendered::Fields(fields) && is_json_status(
                fields,
                reading.data,
                reading.remaining_5h,
                reading.remaining_1w,
                reading.elapsed,
                reading.now,
                cache_ttl,
                reading.reset_5h_local,
                reading.reset_1w_local,
            ),
        },
{
    if output_mode == OutputMode::Json {
        return Rendered::Fields(
            format_json(
                &reading.data,
                reading.remaining_5h,
                reading.remaining_1w,
                reading.elapsed,
                reading.now,
                cache_ttl,
                reading.reset_5h_local,
                reading.reset_1w_local,
            ),
        );
    }
    let ghost expected = reading.status();
    let status: Status = Status {
        five_hour: Window {
            remaining: reading.shown_5h,
            reset: reading.data.reset_5h,
            reset_local: reading.reset_5h_local,
        },
        weekly: Window {
            remaining: reading.shown_1w,
            reset: reading.data.reset_1w,
            reset_local: reading.reset_1w_local,
        },
        age: cache_age_seconds(reading.elapsed),
        now: reading.now,
        now_local: reading.now_local,
    };
    assert(status == expected);
    Rendered::Line(
        if output_mode == OutputMode::Tmux {
            format_tmux(&status, cache_ttl, show_reset_dates)
        } else {
            format_ansi(&status, cache_ttl, show_reset_dates)
        },
    )
}

/// What an error is displayed as: a short mark in the status bar, an object for scripts, and a
/// message on the standard error output of a terminal.
pub fn show_error_output(output_mode: OutputMode, message: &str) -> (r: ErrorOutput)
    ensures
        r.to_stderr == (output_mode == OutputMode::Ansi),
        match output_mode {
            OutputMode::Tmux => r.text@ == "[err]"@,
            OutputMode::Json => {
                let value = crate::json::MemberView::Text(message@);
                &&& r.text@ == crate::json::single_member_text("error"@, value)
                &&& crate::json::reads_as(r.text@, "error"@, value)
            },
            OutputMode::Ansi => r.text@ == "[err] "@ + message@,
        },
{
    match output_mode {
        OutputMode::Tmux => ErrorOutput { text: "[err]".to_owned(), to_stderr: false },
        OutputMode::Json => ErrorOutput {
            text: write_single_member("error", JsonMember::Text(message.to_owned())),
            to_stderr: false,
        },
        OutputMode::Ansi => {
            let mut text: String = "[err] ".to_owned();
            text.append(message);
            ErrorOutput { text, to_stderr: true }
        },
    }
}

/// The exit code after an error: the status bar does not fail, scripts and terminals do.
pub fn show_error_exit_code(output_mode: OutputMode) -> (r: i32)
    ensures
        r == match output_mode {
            OutputMode::Tmux => 0i32,
            OutputMode::Json | OutputMode::Ansi => 1i32,
        },
{
    match output_mode {
        OutputMode::Tmux => 0,
        OutputMode::Json | OutputMode::Ansi => 1,
    }
}

} // verus!
