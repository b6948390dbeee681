use rate_limit::args::format_arg_list;
use rate_limit::cli::{
    judge, parse_bounded_u64, parse_cli_from, Cli, CliOptions, CommandMode, OutputMode,
};
use std::time::Duration;

fn parse(args: &[&str]) -> Result<Cli, String> {
    parse_cli_from(args.iter().map(|arg| arg.to_string()).collect())
}

#[test]
fn parse_cli_accepts_json_and_bounded_options() {
    let cli = parse(&[
        "--json",
        "--ttl-minutes",
        "5",
        "--http-timeout-seconds",
        "9",
    ])
    .unwrap();

    assert_eq!(cli.command, CommandMode::Show);
    assert_eq!(cli.output_mode, OutputMode::Json);
    assert!(!cli.show_reset_dates);
    assert_eq!(Duration::from_secs(cli.cache_ttl), Duration::from_secs(5 * 60));
    assert_eq!(Duration::from_secs(cli.http_timeout), Duration::from_secs(9));
}

#[test]
fn parse_cli_accepts_show_reset_dates_flag() {
    let cli = parse(&["--show-reset-dates"]).unwrap();
    assert!(cli.show_reset_dates);
}

#[test]
fn parse_cli_rejects_json_with_tmux() {
    let err = parse(&["tmux", "--json"]).unwrap_err();
    assert!(err.contains("--json cannot be used with tmux"));
}

#[test]
fn parse_cli_rejects_out_of_range_ttl() {
    let err = parse(&["--ttl-minutes", "61"]).unwrap_err();
    assert!(err.contains("--ttl-minutes"));
}

#[test]
fn parse_cli_rejects_runtime_options_for_extract_token() {
    let err = parse(&["extract-token", "--http-timeout-seconds", "3"]).unwrap_err();
    assert!(err.contains("extract-token does not accept"));
}

#[test]
fn no_arguments_give_the_defaults() {
    assert_eq!(
        parse(&[]),
        Ok(Cli {
            command: CommandMode::Show,
            output_mode: OutputMode::Ansi,
            force_refresh: false,
            show_reset_dates: true,
            cache_ttl: 900,
            http_timeout: 10,
        })
    );
}

#[test]
fn tmux_takes_options_before_and_after() {
    for args in [
        ["--ttl-minutes", "5", "tmux", "--refresh"],
        ["tmux", "--refresh", "--ttl-minutes", "5"],
    ] {
        let cli = parse(&args).unwrap();
        assert_eq!(cli.output_mode, OutputMode::Tmux);
        assert_eq!(cli.command, CommandMode::Show);
        assert_eq!(cli.cache_ttl, 300);
        assert!(cli.force_refresh);
        assert!(cli.show_reset_dates);
    }
}

#[test]
fn reset_dates_can_be_hidden() {
    assert!(!parse(&["--hide-reset-dates"]).unwrap().show_reset_dates);
    assert!(!parse(&["tmux", "--hide-reset-dates"]).unwrap().show_reset_dates);
    assert!(
        !parse(&["--show-reset-dates", "--hide-reset-dates"])
            .unwrap()
            .show_reset_dates
    );
}

#[test]
fn extract_token_stands_alone() {
    let cli = parse(&["extract-token"]).unwrap();
    assert_eq!(cli.command, CommandMode::ExtractToken);
    assert_eq!(cli.output_mode, OutputMode::Ansi);
    assert!(!cli.show_reset_dates);
    for option in ["--refresh", "--show-reset-dates", "--hide-reset-dates"] {
        assert_eq!(
            parse(&["extract-token", option]).unwrap_err(),
            "extract-token does not accept display/runtime options"
        );
    }
    assert_eq!(
        parse(&["extract-token", "--ttl-minutes", "15"]).unwrap_err(),
        "extract-token does not accept display/runtime options"
    );
    assert_eq!(
        parse(&["extract-token", "--json"]).unwrap_err(),
        "--json cannot be used with extract-token"
    );
}

#[test]
fn limits_are_inclusive() {
    assert_eq!(parse(&["--ttl-minutes", "1"]).unwrap().cache_ttl, 60);
    assert_eq!(parse(&["--ttl-minutes", "60"]).unwrap().cache_ttl, 3600);
    assert_eq!(
        parse(&["--ttl-minutes", "0"]).unwrap_err(),
        "--ttl-minutes must be in range 1..=60"
    );
    assert_eq!(parse(&["--http-timeout-seconds", "30"]).unwrap().http_timeout, 30);
    assert_eq!(
        parse(&["--http-timeout-seconds", "31"]).unwrap_err(),
        "--http-timeout-seconds must be in range 1..=30"
    );
    assert_eq!(
        parse(&["--ttl-minutes", "0", "--http-timeout-seconds", "31"]).unwrap_err(),
        "--ttl-minutes must be in range 1..=60"
    );
}

#[test]
fn option_values_have_to_be_numbers() {
    assert_eq!(
        parse(&["--ttl-minutes"]).unwrap_err(),
        "the '--ttl-minutes' option doesn't have an associated value"
    );
    assert_eq!(
        parse(&["--ttl-minutes", "five"]).unwrap_err(),
        "failed to parse 'five': invalid digit found in string"
    );
    assert_eq!(
        parse(&["--ttl-minutes", "--refresh"]).unwrap_err(),
        "the '--ttl-minutes' option doesn't have an associated value"
    );
    assert_eq!(
        parse(&["--ttl-minutes=5"]).unwrap_err(),
        "unexpected arguments: --ttl-minutes=5"
    );
}

#[test]
fn other_arguments_are_refused() {
    assert_eq!(parse(&["status"]).unwrap_err(), "unknown command: status");
    assert_eq!(parse(&[""]).unwrap_err(), "unknown command: ");
    assert_eq!(
        parse(&["tmux", "now", "please"]).unwrap_err(),
        "unexpected arguments: now please"
    );
    assert_eq!(
        parse(&["--refresh", "--refresh"]).unwrap_err(),
        "unexpected arguments: --refresh"
    );
    assert_eq!(
        parse(&["--verbose", "tmux"]).unwrap_err(),
        "unexpected arguments: --verbose tmux"
    );
}

#[test]
fn bounded_number_or_default() {
    assert_eq!(parse_bounded_u64("n", None, 3, 1, 5), Ok(3));
    assert_eq!(parse_bounded_u64("n", Some(5), 3, 1, 5), Ok(5));
    assert_eq!(
        parse_bounded_u64("n", Some(6), 3, 1, 5),
        Err("n must be in range 1..=5".to_string())
    );
    assert_eq!(
        parse_bounded_u64("n", None, 0, 1, u64::MAX),
        Err("n must be in range 1..=18446744073709551615".to_string())
    );
}

#[test]
fn options_are_judged_after_they_are_taken() {
    let options = CliOptions {
        force_refresh: true,
        json: true,
        show_reset_dates: false,
        hide_reset_dates: false,
        ttl_minutes: None,
        http_timeout_seconds: Some(1),
        subcommand: None,
        remaining: vec![],
    };
    assert_eq!(
        judge(options),
        Ok(Cli {
            command: CommandMode::Show,
            output_mode: OutputMode::Json,
            force_refresh: true,
            show_reset_dates: false,
            cache_ttl: 900,
            http_timeout: 1,
        })
    );
}

#[test]
fn argument_list_is_joined_by_spaces() {
    assert_eq!(format_arg_list(&vec![]), "");
    assert_eq!(format_arg_list(&vec!["a".to_string()]), "a");
    assert_eq!(
        format_arg_list(&vec!["a".to_string(), "".to_string(), "b c".to_string()]),
        "a  b c"
    );
}
