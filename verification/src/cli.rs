//! The command line: which command runs, how it prints, and within which limits.

use crate::args::{
    arguments_from, contains_flag, format_arg_list, option_value, remaining_arguments, subcommand,
};
use crate::decimal::push_decimal;
use vstd::prelude::*;

verus! {

pub const DEFAULT_CACHE_TTL_MINUTES: u64 = 15;

pub const MIN_CACHE_TTL_MINUTES: u64 = 1;

pub const MAX_CACHE_TTL_MINUTES: u64 = 60;

pub const DEFAULT_HTTP_TIMEOUT_SECONDS: u64 = 10;

pub const MIN_HTTP_TIMEOUT_SECONDS: u64 = 1;

pub const MAX_HTTP_TIMEOUT_SECONDS: u64 = 30;

/// What the tool is asked to do.
#[derive(Clone, Copy, Debug, PartialEq, Eq, Structural)]
pub enum CommandMode {
    /// Display what is left of the rate limit.
    Show,
    /// Extract the token from the desktop application's storage.
    ExtractToken,
}

/// How the display is written.
#[derive(Clone, Copy, Debug, PartialEq, Eq, Structural)]
pub enum OutputMode {
    /// For a terminal, with colours.
    Ansi,
    /// For the status bar of `tmux`, without colours.
    Tmux,
    /// For scripts.
    Json,
}

/// A command line that was understood.
#[derive(Clone, Copy, Debug, PartialEq, Eq, Structural)]
pub struct Cli {
    pub command: CommandMode,
    pub output_mode: OutputMode,
    /// Whether the cache is to be ignored.
    pub force_refresh: bool,
    /// Whether the display may give a reset as a date.
    pub show_reset_dates: bool,
    /// How long a cache is fresh, in seconds.
    pub cache_ttl: u64,
    /// How long a request may take, in seconds.
    pub http_timeout: u64,
}

/// What was taken from the command line, before it is judged.
pub struct CliOptions {
    pub force_refresh: bool,
    pub json: bool,
    pub show_reset_dates: bool,
    pub hide_reset_dates: bool,
    pub ttl_minutes: Option<u64>,
    pub http_timeout_seconds: Option<u64>,
    pub subcommand: Option<String>,
    pub remaining: Vec<String>,
}

/// A number that has to lie between two bounds, or the default where it is not given.
pub open spec fn bounded(
    name: Seq<char>,
    value: Option<u64>,
    default: u64,
    min: u64,
    max: u64,
) -> Result<u64, Seq<char>> {
    let n = match value {
        Some(n) => n,
        None => default,
    };
    if min <= n <= max {
        Ok(n)
    } else {
        Err(
            name + " must be in range "@ + crate::decimal::decimal(min as nat) + "..="@
                + crate::decimal::decimal(max as nat),
        )
    }
}

/// What the options amount to, or why they are refused.
///
/// In the display modes that print them, reset dates are on unless hidden; a JSON display holds
/// its dates in fields of their own.
pub open spec fn judged(
    force_refresh: bool,
    json: bool,
    show_dates: bool,
    hide_dates: bool,
    ttl_minutes: Option<u64>,
    http_timeout_seconds: Option<u64>,
    command: Option<Seq<char>>,
    remaining: Seq<Seq<char>>,
) -> Result<Cli, Seq<char>> {
    if remaining.len() > 0 {
        Err("unexpected arguments: "@ + crate::args::spaced(remaining))
    } else {
        match (
            bounded(
                "--ttl-minutes"@,
                ttl_minutes,
                DEFAULT_CACHE_TTL_MINUTES,
                MIN_CACHE_TTL_MINUTES,
                MAX_CACHE_TTL_MINUTES,
            ),
            bounded(
                "--http-timeout-seconds"@,
                http_timeout_seconds,
                DEFAULT_HTTP_TIMEOUT_SECONDS,
                MIN_HTTP_TIMEOUT_SECONDS,
                MAX_HTTP_TIMEOUT_SECONDS,
            ),
        ) {
            (Err(e), _) => Err(e),
            (_, Err(e)) => Err(e),
            (Ok(ttl), Ok(timeout)) => if command is Some && command->0 != "extract-token"@
                && command->0 != "tmux"@ {
                Err("unknown command: "@ + command->0)
            } else if command == Some("extract-token"@) {
                if json {
                    Err("--json cannot be used with extract-token"@)
                } else if force_refresh || show_dates || hide_dates || ttl_minutes is Some
                    || http_timeout_seconds is Some {
                    Err("extract-token does not accept display/runtime options"@)
                } else {
                    Ok(
                        Cli {
                            command: CommandMode::ExtractToken,
                            output_mode: OutputMode::Ansi,
                            force_refresh: false,
                            show_reset_dates: false,
                            cache_ttl: (ttl * 60) as u64,
                            http_timeout: timeout,
                        },
                    )
                }
            } else if command is Some && json {
                Err("--json cannot be used with tmux"@)
            } else {
                Ok(
                    Cli {
                        command: CommandMode::Show,
                        output_mode: if command is Some {
                            OutputMode::Tmux
                        } else if json {
                            OutputMode::Json
                        } else {
                            OutputMode::Ansi
                        },
                        force_refresh,
                        show_reset_dates: !hide_dates && (show_dates || !json),
                        cache_ttl: (ttl * 60) as u64,
                        http_timeout: timeout,
                    },
                )
            },
        }
    }
}

/// What a command line amounts to, or why it is refused.
pub open spec fn understood(args: Seq<Seq<char>>) -> Result<Cli, Seq<char>> {
    let (refresh, a1) = crate::args::take_flag(args, "--refresh"@);
    let (json, a2) = crate::args::take_flag(a1, "--json"@);
    let (show_dates, a3) = crate::args::take_flag(a2, "--show-reset-dates"@);
    let (hide_dates, a4) = crate::args::take_flag(a3, "--hide-reset-dates"@);
    match crate::args::take_option(a4, "--ttl-minutes"@) {
        (Err(e), _) => Err(e),
        (Ok(ttl), a5) => match crate::args::take_option(a5, "--http-timeout-seconds"@) {
            (Err(e), _) => Err(e),
            (Ok(timeout), a6) => {
                let (command, rest) = crate::args::take_subcommand(a6);
                judged(refresh, json, show_dates, hide_dates, ttl, timeout, command, rest)
            },
        },
    }
}

/// Whether a result is the expected one, its error taken by its text.
pub open spec fn is_outcome(r: Result<Cli, String>, expected: Result<Cli, Seq<char>>) -> bool {
    match expected {
        Ok(cli) => r == Ok::<Cli, String>(cli),
        Err(text) => r matches Err(e) && e@ == text,
    }
}

/// An accepted command line keeps every limit: a time to live of whole minutes from 1 to 60, a
/// timeout of 1 to 30 seconds, and no display option with `extract-token`.
pub proof fn law_accepted_limits(args: Seq<Seq<char>>, cli: Cli)
    requires
        understood(args) == Ok::<Cli, Seq<char>>(cli),
    ensures
        60 <= cli.cache_ttl <= 3600,
        cli.cache_ttl % 60 == 0,
        1 <= cli.http_timeout <= 30,
        cli.command == CommandMode::ExtractToken ==> {
            &&& cli.output_mode == OutputMode::Ansi
            &&& !cli.force_refresh
            &&& !cli.show_reset_dates
            &&& cli.cache_ttl == DEFAULT_CACHE_TTL_MINUTES * 60
            &&& cli.http_timeout == DEFAULT_HTTP_TIMEOUT_SECONDS
        },
{
}

/// Without arguments: a coloured display from a cache of at most fifteen minutes.
pub proof fn law_defaults(args: Seq<Seq<char>>)
    requires
        args.len() == 0,
    ensures
        understood(args) == Ok::<Cli, Seq<char>>(
            Cli {
                command: CommandMode::Show,
                output_mode: OutputMode::Ansi,
                force_refresh: false,
                show_reset_dates: true,
                cache_ttl: 900,
                http_timeout: 10,
            },
        ),
{
}

/// Which options are accepted, and what they amount to: minutes from 1 to 60 become the time to
/// live in seconds, seconds from 1 to 30 the timeout, and 15 minutes and 10 seconds stand for what
/// is not given. `tmux` and `extract-token` are the only commands, neither goes with JSON, and
/// `extract-token` goes with no option.
pub proof fn law_options_amount_to(
    force_refresh: bool,
    json: bool,
    show_dates: bool,
    hide_dates: bool,
    ttl_minutes: Option<u64>,
    http_timeout_seconds: Option<u64>,
    command: Option<Seq<char>>,
    remaining: Seq<Seq<char>>,
)
    ensures
        ({
            let r = judged(
                force_refresh,
                json,
                show_dates,
                hide_dates,
                ttl_minutes,
                http_timeout_seconds,
                command,
                remaining,
            );
            let extract = command == Some("extract-token"@);
            let tmux = command == Some("tmux"@);
            &&& r is Ok <==> {
                &&& remaining.len() == 0
                &&& ttl_minutes matches Some(n) ==> 1 <= n <= 60
                &&& http_timeout_seconds matches Some(n) ==> 1 <= n <= 30
                &&& command is None || extract || tmux
                &&& json ==> command is None
                &&& extract ==> {
                    &&& !force_refresh && !show_dates && !hide_dates
                    &&& ttl_minutes is None && http_timeout_seconds is None
                }
            }
            &&& r matches Ok(cli) ==> {
                &&& (cli.command == CommandMode::ExtractToken) == extract
                &&& (cli.output_mode == OutputMode::Tmux) == tmux
                &&& (cli.output_mode == OutputMode::Json) == json
                &&& cli.force_refresh == force_refresh
                &&& cli.show_reset_dates == (!extract && !hide_dates && (show_dates || !json))
                &&& ttl_minutes matches Some(n) ==> cli.cache_ttl == 60 * n
                &&& ttl_minutes is None ==> cli.cache_ttl == 900
                &&& http_timeout_seconds matches Some(n) ==> cli.http_timeout == n
                &&& http_timeout_seconds is None ==> cli.http_timeout == 10
            }
        }),
{
    reveal_strlit("tmux");
    reveal_strlit("extract-token");
    assert("tmux"@.len() != "extract-token"@.len());
}

/// Why options are refused. What is left over comes first, then the two ranges, then the command,
/// then what the command does not go with.
pub proof fn law_refusals(
    force_refresh: bool,
    json: bool,
    show_dates: bool,
    hide_dates: bool,
    ttl_minutes: Option<u64>,
    http_timeout_seconds: Option<u64>,
    command: Option<Seq<char>>,
    remaining: Seq<Seq<char>>,
)
    requires
        judged(
            force_refresh,
            json,
            show_dates,
            hide_dates,
            ttl_minutes,
            http_timeout_seconds,
            command,
            remaining,
        ) is Err,
    ensures
        ({
            let e = judged(
                force_refresh,
                json,
                show_dates,
                hide_dates,
                ttl_minutes,
                http_timeout_seconds,
                command,
                remaining,
            )->Err_0;
            let bad_ttl = ttl_minutes matches Some(n) && (n < 1 || n > 60);
            let bad_timeout = http_timeout_seconds matches Some(n) && (n < 1 || n > 30);
            let extract = command == Some("extract-token"@);
            let tmux = command == Some("tmux"@);
            &&& remaining.len() > 0 ==> e == "unexpected arguments: "@ + crate::args::spaced(
                remaining,
            )
            &&& remaining.len() == 0 && bad_ttl ==> e == "--ttl-minutes must be in range 1..=60"@
            &&& remaining.len() == 0 && !bad_ttl && bad_timeout ==> e
                == "--http-timeout-seconds must be in range 1..=30"@
            &&& remaining.len() == 0 && !bad_ttl && !bad_timeout ==> {
                &&& command is Some
                &&& !extract && !tmux ==> e == "unknown command: "@ + command->0
                &&& tmux ==> e == "--json cannot be used with tmux"@
                &&& extract && json ==> e == "--json cannot be used with extract-token"@
                &&& extract && !json ==> e
                    == "extract-token does not accept display/runtime options"@
            }
        }),
{
    reveal_strlit("tmux");
    reveal_strlit("extract-token");
    assert("tmux"@.len() != "extract-token"@.len());
    lemma_range_texts();
}

/// The texts of the two ranges, spelt out.
proof fn lemma_range_texts()
    ensures
        "--ttl-minutes"@ + " must be in range "@ + crate::decimal::decimal(1) + "..="@
            + crate::decimal::decimal(60) == "--ttl-minutes must be in range 1..=60"@,
        "--http-timeout-seconds"@ + " must be in range "@ + crate::decimal::decimal(1) + "..="@
            + crate::decimal::decimal(30) == "--http-timeout-seconds must be in range 1..=30"@,
{
    reveal_with_fuel(crate::decimal::decimal, 2);
    reveal_strlit("--ttl-minutes");
    reveal_strlit("--http-timeout-seconds");
    reveal_strlit(" must be in range ");
    reveal_strlit("..=");
    reveal_strlit("--ttl-minutes must be in range 1..=60");
    reveal_strlit("--http-timeout-seconds must be in range 1..=30");
    assert("--ttl-minutes"@ + " must be in range "@ + crate::decimal::decimal(1) + "..="@
        + crate::decimal::decimal(60) =~= "--ttl-minutes must be in range 1..=60"@);
    assert("--http-timeout-seconds"@ + " must be in range "@ + crate::decimal::decimal(1) + "..="@
        + crate::decimal::decimal(30) =~= "--http-timeout-seconds must be in range 1..=30"@);
}

/// A number within its bounds is itself, one that is not given is the default, and nothing else
/// is accepted.
pub proof fn law_bounded_number(
    name: Seq<char>,
    value: Option<u64>,
    default: u64,
    min: u64,
    max: u64,
)
    ensures
        value is Some && min <= value->0 <= max ==> bounded(name, value, default, min, max) == Ok::<
            u64,
            Seq<char>,
        >(value->0),
        value is None && min <= default <= max ==> bounded(name, value, default, min, max) == Ok::<
            u64,
            Seq<char>,
        >(default),
        bounded(name, value, default, min, max) matches Ok(n) ==> min <= n <= max && (value is None
            || value == Some(n)),
{
}

/// No argument of an accepted command line is ignored: each is one of the four flags, a command,
/// an option or its number, and each counts once.
pub proof fn law_every_argument_counts(args: Seq<Seq<char>>, cli: Cli)
    requires
        understood(args) == Ok::<Cli, Seq<char>>(cli),
    ensures
        ({
            let count = |key: Seq<char>| if args.contains(key) { 1int } else { 0int };
            let commands = if cli.command == CommandMode::ExtractToken || cli.output_mode
                == OutputMode::Tmux {
                1int
            } else {
                0int
            };
            &&& args.len() >= count("--refresh"@) + count("--json"@) + count("--show-reset-dates"@)
                + count("--hide-reset-dates"@) + commands
            &&& !args.contains("--ttl-minutes"@) && !args.contains("--http-timeout-seconds"@)
                ==> args.len() == count("--refresh"@) + count("--json"@) + count(
                "--show-reset-dates"@,
            ) + count("--hide-reset-dates"@) + commands
        }),
{
    lemma_flags_differ();
    lemma_options_differ();
    reveal_strlit("tmux");
    reveal_strlit("extract-token");
    assert("tmux"@.len() != "extract-token"@.len());
    let a1 = crate::args::take_flag(args, "--refresh"@).1;
    let a2 = crate::args::take_flag(a1, "--json"@).1;
    let a3 = crate::args::take_flag(a2, "--show-reset-dates"@).1;
    let a4 = crate::args::take_flag(a3, "--hide-reset-dates"@).1;
    lemma_flags_taken(args);
    crate::args::lemma_position(a4, "--ttl-minutes"@);
    let a5 = crate::args::take_option(a4, "--ttl-minutes"@).1;
    crate::args::lemma_position(a5, "--http-timeout-seconds"@);
}

/// What taking the four flags leaves.
proof fn lemma_flags_taken(args: Seq<Seq<char>>)
    ensures
        ({
            let a1 = crate::args::take_flag(args, "--refresh"@).1;
            let a2 = crate::args::take_flag(a1, "--json"@).1;
            let a3 = crate::args::take_flag(a2, "--show-reset-dates"@).1;
            let a4 = crate::args::take_flag(a3, "--hide-reset-dates"@).1;
            let count = |key: Seq<char>| if args.contains(key) { 1int } else { 0int };
            &&& args.len() == a4.len() + count("--refresh"@) + count("--json"@) + count(
                "--show-reset-dates"@,
            ) + count("--hide-reset-dates"@)
            &&& a4.contains("--ttl-minutes"@) == args.contains("--ttl-minutes"@)
            &&& a4.contains("--http-timeout-seconds"@) == args.contains("--http-timeout-seconds"@)
            &&& !args.contains("--refresh"@) && !args.contains("--json"@) && !args.contains(
                "--show-reset-dates"@,
            ) && !args.contains("--hide-reset-dates"@) ==> a4 == args
        }),
{
    lemma_flags_differ();
    lemma_options_differ();
    let a1 = crate::args::take_flag(args, "--refresh"@).1;
    let a2 = crate::args::take_flag(a1, "--json"@).1;
    let a3 = crate::args::take_flag(a2, "--show-reset-dates"@).1;
    crate::args::lemma_position(args, "--refresh"@);
    crate::args::lemma_position(a1, "--json"@);
    crate::args::lemma_position(a2, "--show-reset-dates"@);
    crate::args::lemma_position(a3, "--hide-reset-dates"@);
    crate::args::lemma_other_flag(args, "--refresh"@, "--json"@);
    crate::args::lemma_other_flag(args, "--refresh"@, "--show-reset-dates"@);
    crate::args::lemma_other_flag(a1, "--json"@, "--show-reset-dates"@);
    crate::args::lemma_other_flag(args, "--refresh"@, "--hide-reset-dates"@);
    crate::args::lemma_other_flag(a1, "--json"@, "--hide-reset-dates"@);
    crate::args::lemma_other_flag(a2, "--show-reset-dates"@, "--hide-reset-dates"@);
    crate::args::lemma_other_flag(args, "--refresh"@, "--ttl-minutes"@);
    crate::args::lemma_other_flag(a1, "--json"@, "--ttl-minutes"@);
    crate::args::lemma_other_flag(a2, "--show-reset-dates"@, "--ttl-minutes"@);
    crate::args::lemma_other_flag(a3, "--hide-reset-dates"@, "--ttl-minutes"@);
    crate::args::lemma_other_flag(args, "--refresh"@, "--http-timeout-seconds"@);
    crate::args::lemma_other_flag(a1, "--json"@, "--http-timeout-seconds"@);
    crate::args::lemma_other_flag(a2, "--show-reset-dates"@, "--http-timeout-seconds"@);
    crate::args::lemma_other_flag(a3, "--hide-reset-dates"@, "--http-timeout-seconds"@);
}

/// The options differ from the flags and from each other.
proof fn lemma_options_differ()
    ensures
        "--ttl-minutes"@ != "--http-timeout-seconds"@,
        "--ttl-minutes"@ != "--refresh"@,
        "--ttl-minutes"@ != "--json"@,
        "--ttl-minutes"@ != "--show-reset-dates"@,
        "--ttl-minutes"@ != "--hide-reset-dates"@,
        "--http-timeout-seconds"@ != "--refresh"@,
        "--http-timeout-seconds"@ != "--json"@,
        "--http-timeout-seconds"@ != "--show-reset-dates"@,
        "--http-timeout-seconds"@ != "--hide-reset-dates"@,
{
    reveal_strlit("--refresh");
    reveal_strlit("--json");
    reveal_strlit("--show-reset-dates");
    reveal_strlit("--hide-reset-dates");
    reveal_strlit("--ttl-minutes");
    reveal_strlit("--http-timeout-seconds");
    assert("--ttl-minutes"@.len() == 13 && "--http-timeout-seconds"@.len() == 22);
    assert("--refresh"@.len() == 9 && "--json"@.len() == 6);
    assert("--show-reset-dates"@.len() == 18 && "--hide-reset-dates"@.len() == 18);
}

/// The numbers of an accepted command line. `--ttl-minutes` gives the time to live by the number
/// behind it, in minutes, and so does `--http-timeout-seconds` for the timeout, in seconds; without
/// them the defaults count. (A flag between an option and its number is taken before the number is
/// looked for, so the law speaks of a line without flags, and of the timeout where it is the only
/// option.)
pub proof fn law_numbers_follow_their_options(args: Seq<Seq<char>>, cli: Cli)
    requires
        understood(args) == Ok::<Cli, Seq<char>>(cli),
    ensures
        !args.contains("--ttl-minutes"@) ==> cli.cache_ttl == 900,
        !args.contains("--http-timeout-seconds"@) ==> cli.http_timeout == 10,
        !args.contains("--refresh"@) && !args.contains("--json"@) && !args.contains(
            "--show-reset-dates"@,
        ) && !args.contains("--hide-reset-dates"@) ==> {
            &&& args.contains("--ttl-minutes"@) ==> exists|i: int|
                0 <= i && i + 1 < args.len() && #[trigger] args[i] == "--ttl-minutes"@
                    && crate::decimal::u64_of_text(args[i + 1]) is Some && cli.cache_ttl == 60
                    * crate::decimal::u64_of_text(args[i + 1])->0
            &&& args.contains("--http-timeout-seconds"@) && !args.contains("--ttl-minutes"@)
                ==> exists|i: int|
                0 <= i && i + 1 < args.len() && #[trigger] args[i] == "--http-timeout-seconds"@
                    && crate::decimal::u64_of_text(args[i + 1]) == Some(cli.http_timeout)
        },
{
    lemma_flags_taken(args);
    let a1 = crate::args::take_flag(args, "--refresh"@).1;
    let a2 = crate::args::take_flag(a1, "--json"@).1;
    let a3 = crate::args::take_flag(a2, "--show-reset-dates"@).1;
    let a4 = crate::args::take_flag(a3, "--hide-reset-dates"@).1;
    crate::args::lemma_position(a4, "--ttl-minutes"@);
    crate::args::lemma_position(a4, "--http-timeout-seconds"@);
    let i = crate::args::position(a4, "--ttl-minutes"@) as int;
    let j = crate::args::position(a4, "--http-timeout-seconds"@) as int;
    if a4.contains("--ttl-minutes"@) {
        assert(a4[i] == "--ttl-minutes"@);
    }
    if a4.contains("--http-timeout-seconds"@) {
        assert(a4[j] == "--http-timeout-seconds"@);
    } else {
        let a5 = crate::args::take_option(a4, "--ttl-minutes"@).1;
        assert forall|k: int| 0 <= k < a5.len() implies #[trigger] a5[k]
            != "--http-timeout-seconds"@ by {
            if a5.len() < a4.len() && k >= i {
                assert(a5[k] == a4[k + 2]);
            } else {
                assert(a5[k] == a4[k]);
            }
        }
        crate::args::lemma_position(a5, "--http-timeout-seconds"@);
    }
}

/// `--ttl-minutes` with its number may stand anywhere between other arguments, and changes nothing
/// but the time to live of a display: into a line that has neither it nor a flag, it brings sixty
/// seconds for each minute from 1 to 60.
pub proof fn law_ttl_option_stands_anywhere(
    before: Seq<Seq<char>>,
    after: Seq<Seq<char>>,
    text: Seq<char>,
    minutes: u64,
    cli: Cli,
)
    requires
        understood(before + after) == Ok::<Cli, Seq<char>>(cli),
        cli.command == CommandMode::Show,
        crate::decimal::u64_of_text(text) == Some(minutes),
        1 <= minutes <= 60,
        !(before + after).contains("--ttl-minutes"@),
        forall|line: Seq<Seq<char>>|
            line == before + after || line == before + seq!["--ttl-minutes"@, text] + after ==> {
                &&& !(#[trigger] line.contains("--refresh"@))
                &&& !line.contains("--json"@)
                &&& !line.contains("--show-reset-dates"@)
                &&& !line.contains("--hide-reset-dates"@)
            },
    ensures
        understood(before + seq!["--ttl-minutes"@, text] + after) == Ok::<Cli, Seq<char>>(
            Cli { cache_ttl: (60 * minutes) as u64, ..cli },
        ),
{
    let short = before + after;
    let long = before + seq!["--ttl-minutes"@, text] + after;
    assert(!short.contains("--refresh"@) && !long.contains("--refresh"@));
    lemma_flags_taken(short);
    lemma_flags_taken(long);
    lemma_no_flags(short);
    lemma_no_flags(long);
    crate::args::lemma_position(short, "--ttl-minutes"@);
    crate::args::lemma_position(long, "--ttl-minutes"@);
    let i = before.len() as int;
    let p = crate::args::position(long, "--ttl-minutes"@) as int;
    assert(long[i] == "--ttl-minutes"@);
    assert(p <= i);
    if p < i {
        assert(short[p] == long[p]);
    }
    assert(long[i + 1] == text);
    assert(long.remove(i).remove(i) =~= short);
}

/// A line without flags has none taken.
proof fn lemma_no_flags(line: Seq<Seq<char>>)
    requires
        !line.contains("--refresh"@),
        !line.contains("--json"@),
        !line.contains("--show-reset-dates"@),
        !line.contains("--hide-reset-dates"@),
    ensures
        crate::args::take_flag(line, "--refresh"@) == (false, line),
        crate::args::take_flag(line, "--json"@) == (false, line),
        crate::args::take_flag(line, "--show-reset-dates"@) == (false, line),
        crate::args::take_flag(line, "--hide-reset-dates"@) == (false, line),
{
    crate::args::lemma_position(line, "--refresh"@);
    crate::args::lemma_position(line, "--json"@);
    crate::args::lemma_position(line, "--show-reset-dates"@);
    crate::args::lemma_position(line, "--hide-reset-dates"@);
}

/// Reset dates are shown by default where a line is displayed, and otherwise only when asked for;
/// hiding them always wins.
pub proof fn law_dates_are_shown_by_default(args: Seq<Seq<char>>, cli: Cli)
    requires
        understood(args) == Ok::<Cli, Seq<char>>(cli),
    ensures
        cli.show_reset_dates <==> !args.contains("--hide-reset-dates"@) && (args.contains(
            "--show-reset-dates"@,
        ) || (cli.command == CommandMode::Show && cli.output_mode != OutputMode::Json)),
{
    law_flags_count_anywhere(args, cli);
    reveal_strlit("tmux");
    reveal_strlit("extract-token");
    assert("tmux"@.len() != "extract-token"@.len());
    lemma_flags_differ();
    let a1 = crate::args::take_flag(args, "--refresh"@).1;
    let a2 = crate::args::take_flag(a1, "--json"@).1;
    let a3 = crate::args::take_flag(a2, "--show-reset-dates"@).1;
    crate::args::lemma_position(args, "--refresh"@);
    crate::args::lemma_position(a1, "--json"@);
    crate::args::lemma_position(a2, "--show-reset-dates"@);
    crate::args::lemma_position(a3, "--hide-reset-dates"@);
    crate::args::lemma_other_flag(args, "--refresh"@, "--show-reset-dates"@);
    crate::args::lemma_other_flag(a1, "--json"@, "--show-reset-dates"@);
    crate::args::lemma_other_flag(args, "--refresh"@, "--hide-reset-dates"@);
    crate::args::lemma_other_flag(a1, "--json"@, "--hide-reset-dates"@);
    crate::args::lemma_other_flag(a2, "--show-reset-dates"@, "--hide-reset-dates"@);
}

/// An option that has no number is an error of the whole command line, worded as that of the option:
/// `--ttl-minutes` before `--http-timeout-seconds`, and both before anything else that may be
/// wrong. (For a line without flags, which are taken first.)
pub proof fn law_option_errors_come_first(args: Seq<Seq<char>>)
    requires
        !args.contains("--refresh"@),
        !args.contains("--json"@),
        !args.contains("--show-reset-dates"@),
        !args.contains("--hide-reset-dates"@),
    ensures
        crate::args::take_option(args, "--ttl-minutes"@).0 matches Err(e) ==> understood(args)
            == Err::<Cli, Seq<char>>(e),
        !args.contains("--ttl-minutes"@) ==> (crate::args::take_option(
            args,
            "--http-timeout-seconds"@,
        ).0 matches Err(e) ==> understood(args) == Err::<Cli, Seq<char>>(e)),
{
    lemma_no_flags(args);
    crate::args::lemma_position(args, "--ttl-minutes"@);
}

/// A result is the expected one exactly if both are the same success or both are failures with the
/// same text.
pub proof fn law_outcome(r: Result<Cli, String>, expected: Result<Cli, Seq<char>>)
    ensures
        is_outcome(r, expected) <==> {
            ||| (r matches Ok(cli) && expected == Ok::<Cli, Seq<char>>(cli))
            ||| (r matches Err(e) && expected == Err::<Cli, Seq<char>>(e@))
        },
{
}

/// The four flags are four different texts.
proof fn lemma_flags_differ()
    ensures
        "--refresh"@ != "--json"@,
        "--refresh"@ != "--show-reset-dates"@,
        "--refresh"@ != "--hide-reset-dates"@,
        "--json"@ != "--show-reset-dates"@,
        "--json"@ != "--hide-reset-dates"@,
        "--show-reset-dates"@ != "--hide-reset-dates"@,
{
    reveal_strlit("--refresh");
    reveal_strlit("--json");
    reveal_strlit("--show-reset-dates");
    reveal_strlit("--hide-reset-dates");
    assert("--refresh"@.len() != "--json"@.len());
    assert("--show-reset-dates"@[2] != "--hide-reset-dates"@[2]);
}

/// A flag counts wherever it stands: `--refresh` forces a refresh, `--json` gives JSON (and so
/// goes neither with `tmux` nor with `extract-token`), `--hide-reset-dates` hides dates, and
/// `--show-reset-dates` shows them unless they are hidden.
pub proof fn law_flags_count_anywhere(args: Seq<Seq<char>>, cli: Cli)
    requires
        understood(args) == Ok::<Cli, Seq<char>>(cli),
    ensures
        cli.force_refresh == args.contains("--refresh"@),
        (cli.output_mode == OutputMode::Json) == args.contains("--json"@),
        args.contains("--hide-reset-dates"@) ==> !cli.show_reset_dates,
        args.contains("--show-reset-dates"@) && !args.contains("--hide-reset-dates"@)
            ==> cli.show_reset_dates,
{
    lemma_flags_differ();
    let a1 = crate::args::take_flag(args, "--refresh"@).1;
    let a2 = crate::args::take_flag(a1, "--json"@).1;
    let a3 = crate::args::take_flag(a2, "--show-reset-dates"@).1;
    crate::args::lemma_position(args, "--refresh"@);
    crate::args::lemma_position(a1, "--json"@);
    crate::args::lemma_position(a2, "--show-reset-dates"@);
    crate::args::lemma_position(a3, "--hide-reset-dates"@);
    crate::args::lemma_other_flag(args, "--refresh"@, "--json"@);
    crate::args::lemma_other_flag(args, "--refresh"@, "--show-reset-dates"@);
    crate::args::lemma_other_flag(a1, "--json"@, "--show-reset-dates"@);
    crate::args::lemma_other_flag(args, "--refresh"@, "--hide-reset-dates"@);
    crate::args::lemma_other_flag(a1, "--json"@, "--hide-reset-dates"@);
    crate::args::lemma_other_flag(a2, "--show-reset-dates"@, "--hide-reset-dates"@);
}

/// Checks a number against its bounds, or gives the default where it is not given.
pub fn parse_bounded_u64(
    name: &str,
    value: Option<u64>,
    default: u64,
    min: u64,
    max: u64,
) -> (r: Result<u64, String>)
    ensures
        match bounded(name@, value, default, min, max) {
            Ok(n) => r == Ok::<u64, String>(n),
            Err(text) => r matches Err(e) && e@ == text,
        },
{
    let parsed: u64 = match value {
        Some(n) => n,
        None => default,
    };
    if parsed < min || parsed > max {
        let mut e: String = name.to_owned();
        e.append(" must be in range ");
        push_decimal(&mut e, min);
        e.append("..=");
        push_decimal(&mut e, max);
        return Err(e);
    }
    Ok(parsed)
}

/// Judges what was taken from the command line.
pub fn judge(options: CliOptions) -> (r: Result<Cli, String>)
    ensures
        is_outcome(
            r,
            judged(
                options.force_refresh,
                options.json,
                options.show_reset_dates,
                options.hide_reset_dates,
                options.ttl_minutes,
                options.http_timeout_seconds,
                crate::json::optional_text(options.subcommand),
                crate::args::texts(options.remaining@),
            ),
        ),
{
    if options.remaining.len() > 0 {
        let mut e: String = "unexpected arguments: ".to_owned();
        e.append(format_arg_list(&options.remaining).as_str());
        return Err(e);
    }
    let cache_ttl_minutes: u64 = match parse_bounded_u64(
        "--ttl-minutes",
        options.ttl_minutes,
        DEFAULT_CACHE_TTL_MINUTES,
        MIN_CACHE_TTL_MINUTES,
        MAX_CACHE_TTL_MINUTES,
    ) {
        Ok(n) => n,
        Err(e) => {
            return Err(e);
        },
    };
    let http_timeout_seconds: u64 = match parse_bounded_u64(
        "--http-timeout-seconds",
        options.http_timeout_seconds,
        DEFAULT_HTTP_TIMEOUT_SECONDS,
        MIN_HTTP_TIMEOUT_SECONDS,
        MAX_HTTP_TIMEOUT_SECONDS,
    ) {
        Ok(n) => n,
        Err(e) => {
            return Err(e);
        },
    };
    let (command, output_mode): (CommandMode, OutputMode) = match options.subcommand {
        Some(name) => if name == "extract-token".to_owned() {
            if options.json {
                return Err("--json cannot be used with extract-token".to_owned());
            }
            (CommandMode::ExtractToken, OutputMode::Ansi)
        } else if name == "tmux".to_owned() {
            if options.json {
                return Err("--json cannot be used with tmux".to_owned());
            }
            proof {
                reveal_strlit("tmux");
                reveal_strlit("extract-token");
            }
            (CommandMode::Show, OutputMode::Tmux)
        } else {
            let mut e: String = "unknown command: ".to_owned();
            e.append(name.as_str());
            return Err(e);
        },
        None => if options.json {
            (CommandMode::Show, OutputMode::Json)
        } else {
            (CommandMode::Show, OutputMode::Ansi)
        },
    };
    if command == CommandMode::ExtractToken && (options.force_refresh || options.show_reset_dates
        || options.hide_reset_dates || options.ttl_minutes.is_some()
        || options.http_timeout_seconds.is_some()) {
        return Err("extract-token does not accept display/runtime options".to_owned());
    }
    let prints_dates: bool = command == CommandMode::Show && output_mode != OutputMode::Json;
    Ok(
        Cli {
            command,
            output_mode,
            force_refresh: options.force_refresh,
            show_reset_dates: !options.hide_reset_dates && (options.show_reset_dates
                || prints_dates),
            cache_ttl: cache_ttl_minutes * 60,
            http_timeout: http_timeout_seconds,
        },
    )
}

/// Understands a command line, given without the name of the program.
pub fn parse_cli_from(args: Vec<String>) -> (r: Result<Cli, String>)
    ensures
        is_outcome(r, understood(crate::args::texts(args@))),
{
    proof {
        reveal_strlit("--refresh");
        reveal_strlit("--json");
        reveal_strlit("--show-reset-dates");
        reveal_strlit("--hide-reset-dates");
        reveal_strlit("--ttl-minutes");
        reveal_strlit("--http-timeout-seconds");
    }
    let mut list = arguments_from(args);
    let force_refresh: bool = contains_flag(&mut list, "--refresh");
    let json: bool = contains_flag(&mut list, "--json");
    let show_reset_dates: bool = contains_flag(&mut list, "--show-reset-dates");
    let hide_reset_dates: bool = contains_flag(&mut list, "--hide-reset-dates");
    let ttl_minutes: Option<u64> = match option_value(&mut list, "--ttl-minutes") {
        Ok(n) => n,
        Err(e) => {
            return Err(e);
        },
    };
    let http_timeout_seconds: Option<u64> = match option_value(
        &mut list,
        "--http-timeout-seconds",
    ) {
        Ok(n) => n,
        Err(e) => {
            return Err(e);
        },
    };
    let command: Option<String> = match subcommand(&mut list) {
        Ok(command) => command,
        Err(e) => {
            return Err(e);
        },
    };
    let remaining: Vec<String> = remaining_arguments(list);
    judge(
        CliOptions {
            force_refresh,
            json,
            show_reset_dates,
            hide_reset_dates,
            ttl_minutes,
            http_timeout_seconds,
            subcommand: command,
            remaining,
        },
    )
}

} // verus!
