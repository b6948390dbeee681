use rate_limit::cache::{cache_age_seconds, Cache};
use rate_limit::cli::OutputMode;
use rate_limit::display::{
    color, format_5h_reset_display, format_ansi, format_json, format_tmux,
    format_weekly_reset_suffix, render, rounded_percent, should_show_weekly_reset,
    show_error_exit_code, show_error_output, Percent, Reading, Rendered, Status, Window,
};
use rate_limit::reset::{
    format_absolute_reset, format_month_day_time, format_reset_at, is_same_local_day,
    is_span_representable, local_time_parts, LocalTimeParts,
};

const DEFAULT_CACHE_TTL: u64 = 15 * 60;

fn percent(remaining: f64) -> Percent {
    Percent {
        shown: format!("{:.0}", remaining),
        ceiling: remaining.ceil() as u64,
    }
}

fn remaining(util: f64) -> f64 {
    (100.0 - util * 100.0).max(0.0)
}

fn elapsed(fetched_at: f64, now_ts: f64) -> i128 {
    (now_ts - fetched_at).floor() as i128
}

fn moment() -> LocalTimeParts {
    LocalTimeParts {
        year: 2026,
        yday: 88,
        month: 3,
        day: 30,
        hour: 14,
        minute: 0,
    }
}

fn status(d: &Cache<f64>, now_ts: f64) -> Status {
    Status {
        five_hour: Window {
            remaining: percent(remaining(d.util_5h)),
            reset: d.reset_5h,
            reset_local: None,
        },
        weekly: Window {
            remaining: percent(remaining(d.util_1w)),
            reset: d.reset_1w,
            reset_local: Some(moment()),
        },
        age: cache_age_seconds(elapsed(d.fetched_at, now_ts)),
        now: now_ts as i64,
        now_local: None,
    }
}

fn weekly_window(remaining: f64, reset: u64) -> Window {
    Window {
        remaining: percent(remaining),
        reset,
        reset_local: Some(moment()),
    }
}

// === format_reset_at ===

#[test]
fn reset_zero_timestamp() {
    assert_eq!(format_reset_at(0, 1000), "");
}

#[test]
fn reset_past_timestamp() {
    assert_eq!(format_reset_at(900, 1000), "");
}

#[test]
fn reset_30min_future() {
    assert_eq!(format_reset_at(1000 + 1800, 1000), "30m");
}

#[test]
fn reset_2h30m_future() {
    assert_eq!(format_reset_at(1000 + 9000, 1000), "2h30m");
}

#[test]
fn reset_1sec_future() {
    assert_eq!(format_reset_at(1001, 1000), "0m");
}

#[test]
fn reset_59sec_future() {
    assert_eq!(format_reset_at(1059, 1000), "0m");
}

#[test]
fn reset_60sec_future() {
    assert_eq!(format_reset_at(1060, 1000), "1m");
}

#[test]
fn reset_exactly_1h() {
    assert_eq!(format_reset_at(1000 + 3600, 1000), "1h00m");
}

#[test]
fn reset_beyond_the_signed_range_counts_as_past() {
    assert!(is_span_representable(u64::MAX, 1000));
    assert_eq!(format_reset_at(u64::MAX, 1000), "");
}

#[test]
fn span_beyond_the_signed_range_is_not_representable() {
    assert!(!is_span_representable(i64::MAX as u64 + 1, 1));
    assert!(is_span_representable(i64::MAX as u64, 0));
    assert!(!is_span_representable(i64::MAX as u64, -1));
    assert!(is_span_representable(0, i64::MIN));
    assert_eq!(format_reset_at(0, i64::MIN), "");
}

#[test]
fn reset_many_hours_ahead() {
    assert_eq!(format_reset_at(1000 + 360_000 + 540, 1000), "100h09m");
}

// === format_tmux ===

#[test]
fn tmux_normal_output() {
    let d = Cache {
        fetched_at: 1000.0,
        util_5h: 0.23,
        util_1w: 0.6,
        reset_5h: 1000 + 1800,
        reset_1w: 0,
    };
    assert_eq!(
        format_tmux(&status(&d, 1000.0), DEFAULT_CACHE_TTL, false),
        "5h:77%(30m) 1w:40%"
    );
}

#[test]
fn tmux_no_reset() {
    let d = Cache {
        fetched_at: 1000.0,
        util_5h: 0.5,
        util_1w: 0.8,
        reset_5h: 0,
        reset_1w: 0,
    };
    assert_eq!(
        format_tmux(&status(&d, 1000.0), DEFAULT_CACHE_TTL, false),
        "5h:50% 1w:20%"
    );
}

#[test]
fn tmux_stale_cache() {
    let d = Cache {
        fetched_at: 1000.0,
        util_5h: 0.1,
        util_1w: 0.2,
        reset_5h: 0,
        reset_1w: 0,
    };
    assert_eq!(
        format_tmux(&status(&d, 1300.0), 120, false),
        "5h:90% 1w:80% [5m ago]"
    );
}

#[test]
fn tmux_not_stale_within_ttl() {
    let d = Cache {
        fetched_at: 1000.0,
        util_5h: 0.1,
        util_1w: 0.2,
        reset_5h: 0,
        reset_1w: 0,
    };
    assert_eq!(
        format_tmux(&status(&d, 1119.0), 300, false),
        "5h:90% 1w:80%"
    );
}

#[test]
fn tmux_over_limit() {
    let d = Cache {
        fetched_at: 1000.0,
        util_5h: 1.2,
        util_1w: 1.5,
        reset_5h: 1000 + 600,
        reset_1w: 0,
    };
    assert_eq!(
        format_tmux(&status(&d, 1000.0), DEFAULT_CACHE_TTL, false),
        "5h:0%(10m) 1w:0%"
    );
}

#[test]
fn tmux_reset_past() {
    let d = Cache {
        fetched_at: 1000.0,
        util_5h: 0.3,
        util_1w: 0.4,
        reset_5h: 500,
        reset_1w: 0,
    };
    assert_eq!(
        format_tmux(&status(&d, 1000.0), DEFAULT_CACHE_TTL, false),
        "5h:70% 1w:60%"
    );
}

#[test]
fn tmux_hides_weekly_reset_when_stale_suffix_is_present() {
    let cache = Cache {
        fetched_at: 1000.0,
        util_5h: 0.1,
        util_1w: 0.8,
        reset_5h: 0,
        reset_1w: 1774846800,
    };
    assert_eq!(
        format_tmux(&status(&cache, 1300.0), 120, true),
        "5h:90% 1w:20% [5m ago]"
    );
}

#[test]
fn tmux_shows_weekly_reset_while_fresh() {
    let cache = Cache {
        fetched_at: 1000.0,
        util_5h: 0.1,
        util_1w: 0.8,
        reset_5h: 0,
        reset_1w: 1774846800,
    };
    assert_eq!(
        format_tmux(&status(&cache, 1100.0), 120, true),
        "5h:90% 1w:20%(3/30 14)"
    );
    assert_eq!(
        format_tmux(&status(&cache, 1100.0), 120, false),
        "5h:90% 1w:20%"
    );
}

#[test]
fn tmux_line_with_time_until_reset() {
    let d = Cache {
        fetched_at: 1000.0,
        util_5h: 0.76,
        util_1w: 0.6,
        reset_5h: 1000 + 4680,
        reset_1w: 1774846800,
    };
    assert_eq!(
        format_tmux(&status(&d, 1000.0), DEFAULT_CACHE_TTL, true),
        "5h:24%(1h18m) 1w:40%"
    );
}

// === five-hour reset ===

fn five_hour_window(remaining: f64, reset_local: Option<LocalTimeParts>) -> Window {
    Window {
        remaining: percent(remaining),
        reset: 1000 + 1800,
        reset_local,
    }
}

fn day_before() -> LocalTimeParts {
    LocalTimeParts {
        year: 2026,
        yday: 87,
        month: 3,
        day: 29,
        hour: 23,
        minute: 45,
    }
}

#[test]
fn five_hour_reset_on_another_day_is_a_date() {
    let window = five_hour_window(24.0, Some(moment()));
    assert_eq!(
        format_5h_reset_display(&window, 1000, Some(day_before()), true),
        "3/30 14"
    );
}

#[test]
fn five_hour_reset_on_the_same_day_stays_relative() {
    let window = five_hour_window(24.0, Some(moment()));
    assert_eq!(
        format_5h_reset_display(&window, 1000, Some(moment()), true),
        "30m"
    );
}

#[test]
fn five_hour_reset_stays_relative_when_much_is_left() {
    let window = five_hour_window(30.6, Some(moment()));
    assert_eq!(
        format_5h_reset_display(&window, 1000, Some(day_before()), true),
        "30m"
    );
}

#[test]
fn five_hour_reset_stays_relative_when_dates_are_hidden() {
    let window = five_hour_window(24.0, Some(moment()));
    assert_eq!(
        format_5h_reset_display(&window, 1000, Some(day_before()), false),
        "30m"
    );
}

#[test]
fn five_hour_reset_stays_relative_without_local_time() {
    let window = five_hour_window(24.0, None);
    assert_eq!(
        format_5h_reset_display(&window, 1000, Some(day_before()), true),
        "30m"
    );
    let window = five_hour_window(24.0, Some(moment()));
    assert_eq!(format_5h_reset_display(&window, 1000, None, true), "30m");
}

#[test]
fn five_hour_reset_in_the_past_is_empty() {
    let window = five_hour_window(24.0, Some(moment()));
    assert_eq!(
        format_5h_reset_display(&window, 5000, Some(day_before()), true),
        ""
    );
}

// === weekly reset ===

#[test]
fn weekly_reset_suffix_hidden_above_threshold() {
    assert_eq!(
        format_weekly_reset_suffix(&weekly_window(30.6, 1774846800), true),
        ""
    );
}

#[test]
fn weekly_reset_suffix_shown_at_or_below_threshold() {
    let suffix = format_weekly_reset_suffix(&weekly_window(30.0, 1774846800), true);
    assert!(suffix.starts_with('('));
    assert!(suffix.ends_with(')'));
    assert!(suffix.contains('/'));
}

#[test]
fn weekly_reset_suffix_uses_displayed_percent_threshold() {
    let suffix = format_weekly_reset_suffix(&weekly_window(30.4, 1774846800), true);
    assert!(suffix.starts_with('('));
    assert!(suffix.ends_with(')'));
}

#[test]
fn weekly_reset_suffix_needs_a_known_reset() {
    assert_eq!(format_weekly_reset_suffix(&weekly_window(10.0, 0), true), "");
    let mut window = weekly_window(10.0, 1774846800);
    assert!(should_show_weekly_reset(&window.remaining, window.reset, true));
    window.reset_local = None;
    assert_eq!(format_weekly_reset_suffix(&window, true), "");
}

#[test]
fn rounded_percent_reads_the_displayed_number() {
    assert_eq!(rounded_percent("77"), 77);
    assert_eq!(rounded_percent("0"), 0);
    assert_eq!(rounded_percent("inf"), 0);
    assert_eq!(rounded_percent("99999999999999999999"), 0);
}

// === dates ===

#[test]
fn format_month_day_time_omits_minutes_when_zero() {
    let parts = LocalTimeParts {
        year: 2026,
        yday: 88,
        month: 3,
        day: 30,
        hour: 14,
        minute: 0,
    };
    assert_eq!(format_month_day_time(parts), "3/30 14");
}

#[test]
fn format_month_day_time_pads_minutes() {
    let mut parts = moment();
    parts.minute = 5;
    assert_eq!(format_month_day_time(parts), "3/30 14:05");
    parts.minute = 45;
    assert_eq!(format_month_day_time(parts), "3/30 14:45");
}

#[test]
fn absolute_reset_without_local_time_is_empty() {
    assert_eq!(format_absolute_reset(None), "");
    assert_eq!(format_absolute_reset(Some(day_before())), "3/29 23:45");
}

#[test]
fn days_are_told_apart_by_year_and_day_of_year() {
    let mut other = moment();
    other.hour = 0;
    assert!(is_same_local_day(moment(), other));
    other.year = 2027;
    assert!(!is_same_local_day(moment(), other));
    assert!(!is_same_local_day(moment(), day_before()));
}

#[test]
fn broken_down_time_counts_years_from_1900_and_months_from_0() {
    assert_eq!(local_time_parts(126, 88, 2, 30, 14, 0), moment());
}

// === colours ===

#[test]
fn color_thresholds() {
    let red = "\x1b[38;2;243;139;168m";
    let peach = "\x1b[38;2;250;179;135m";
    let green = "\x1b[38;2;166;227;161m";

    assert_eq!(color(percent(0.0).ceiling), red);
    assert_eq!(color(percent(20.0).ceiling), red);
    assert_eq!(color(percent(20.1).ceiling), peach);
    assert_eq!(color(percent(50.0).ceiling), peach);
    assert_eq!(color(percent(50.1).ceiling), green);
    assert_eq!(color(percent(100.0).ceiling), green);
}

#[test]
fn ansi_line_has_every_part() {
    let d = Cache {
        fetched_at: 1000.0,
        util_5h: 0.5,
        util_1w: 0.9,
        reset_5h: 1300 + 1800,
        reset_1w: 1774846800,
    };
    assert_eq!(
        format_ansi(&status(&d, 1300.0), 120, true),
        "\x1b[38;2;137;180;250m\x1b[1m5h\x1b[0m \x1b[38;2;250;179;135m50%\x1b[0m\
         \x1b[38;2;88;91;112m(30m)\x1b[0m \x1b[38;2;88;91;112m·\x1b[0m \
         \x1b[38;2;137;180;250m\x1b[1m1w\x1b[0m \x1b[38;2;243;139;168m10%\x1b[0m\
         \x1b[38;2;88;91;112m(3/30 14)\x1b[0m \x1b[38;2;88;91;112m [5m ago]\x1b[0m"
    );
}

#[test]
fn ansi_line_leaves_out_what_is_empty() {
    let d = Cache {
        fetched_at: 1000.0,
        util_5h: 0.1,
        util_1w: 0.2,
        reset_5h: 0,
        reset_1w: 0,
    };
    assert_eq!(
        format_ansi(&status(&d, 1000.0), 120, true),
        "\x1b[38;2;137;180;250m\x1b[1m5h\x1b[0m \x1b[38;2;166;227;161m90%\x1b[0m \
         \x1b[38;2;88;91;112m·\x1b[0m \
         \x1b[38;2;137;180;250m\x1b[1m1w\x1b[0m \x1b[38;2;166;227;161m80%\x1b[0m"
    );
}

// === display for scripts ===

#[test]
fn format_json_includes_structured_fields() {
    let cache = Cache {
        fetched_at: 1000.0,
        util_5h: 0.23,
        util_1w: 0.6,
        reset_5h: 2800,
        reset_1w: 4000,
    };
    let value = format_json(
        &cache,
        remaining(cache.util_5h),
        remaining(cache.util_1w),
        elapsed(cache.fetched_at, 1300.0),
        1300,
        240,
        Some(day_before()),
        Some(moment()),
    );

    assert_eq!(value.cache_age_seconds, 300);
    assert_eq!(value.stale, true);
    assert_eq!(value.remaining_5h_percent, 77.0);
    assert_eq!(value.remaining_1w_percent, 40.0);
    assert_eq!(value.reset_5h_in, "25m");
    assert_eq!(value.reset_1w_unix, 4000);
    assert_eq!(value.fetched_at, 1000.0);
    assert_eq!(value.utilization_5h, 0.23);
    assert_eq!(value.utilization_1w, 0.6);
    assert_eq!(value.reset_5h_unix, 2800);
    assert_eq!(value.reset_5h_at, "3/29 23:45");
    assert_eq!(value.reset_1w_at, "3/30 14");
}

fn reading() -> Reading<f64> {
    Reading {
        data: Cache {
            fetched_at: 1000.0,
            util_5h: 0.23,
            util_1w: 0.75,
            reset_5h: 2800,
            reset_1w: 1774846800,
        },
        remaining_5h: 77.0,
        remaining_1w: 25.0,
        shown_5h: percent(77.0),
        shown_1w: percent(25.0),
        elapsed: 300,
        now: 1300,
        now_local: Some(day_before()),
        reset_5h_local: Some(day_before()),
        reset_1w_local: Some(moment()),
    }
}

#[test]
fn output_mode_chooses_the_display() {
    match render(OutputMode::Tmux, reading(), 900, true) {
        Rendered::Line(line) => assert_eq!(line, "5h:77%(25m) 1w:25%(3/30 14)"),
        Rendered::Fields(_) => panic!("expected a line"),
    }
    match render(OutputMode::Ansi, reading(), 900, false) {
        Rendered::Line(line) => assert_eq!(
            line,
            "\x1b[38;2;137;180;250m\x1b[1m5h\x1b[0m \x1b[38;2;166;227;161m77%\x1b[0m\
             \x1b[38;2;88;91;112m(25m)\x1b[0m \x1b[38;2;88;91;112m·\x1b[0m \
             \x1b[38;2;137;180;250m\x1b[1m1w\x1b[0m \x1b[38;2;250;179;135m25%\x1b[0m"
        ),
        Rendered::Fields(_) => panic!("expected a line"),
    }
    match render(OutputMode::Json, reading(), 240, false) {
        Rendered::Line(_) => panic!("expected fields"),
        Rendered::Fields(fields) => {
            assert_eq!(fields.remaining_1w_percent, 25.0);
            assert_eq!(fields.cache_age_seconds, 300);
            assert!(fields.stale);
            assert_eq!(fields.reset_5h_in, "25m");
            assert_eq!(fields.reset_1w_at, "3/30 14");
        }
    }
}

// === errors ===

#[test]
fn show_error_exit_code_is_nonzero_for_scriptable_modes() {
    assert_eq!(show_error_exit_code(OutputMode::Tmux), 0);
    assert_eq!(show_error_exit_code(OutputMode::Ansi), 1);
    assert_eq!(show_error_exit_code(OutputMode::Json), 1);
}

#[test]
fn errors_are_written_as_the_mode_asks() {
    let tmux = show_error_output(OutputMode::Tmux, "no data");
    assert_eq!(tmux.text, "[err]");
    assert!(!tmux.to_stderr);
    let ansi = show_error_output(OutputMode::Ansi, "no data");
    assert_eq!(ansi.text, "[err] no data");
    assert!(ansi.to_stderr);
    let json = show_error_output(OutputMode::Json, "say \"no\"\n");
    assert_eq!(json.text, "{\"error\":\"say \\\"no\\\"\\n\"}");
    assert!(!json.to_stderr);
}
