//! What the service said of the rate limit, how it is read from the reply's headers, and how long
//! it counts as fresh.
//!
//! Times and shares are numbers with a fraction; the type parameter stands for their type, and
//! what depends on their value comes in as whole numbers.

use crate::decimal::parse_u64;
use vstd::prelude::*;

verus! {

/// Share of the five-hour limit that is used up.
pub const UTILIZATION_5H_HEADER: &'static str = "anthropic-ratelimit-unified-5h-utilization";

/// Share of the weekly limit that is used up.
pub const UTILIZATION_1W_HEADER: &'static str = "anthropic-ratelimit-unified-7d-utilization";

/// When the five-hour limit is reset.
pub const RESET_5H_HEADER: &'static str = "anthropic-ratelimit-unified-5h-reset";

/// When the weekly limit is reset.
pub const RESET_1W_HEADER: &'static str = "anthropic-ratelimit-unified-7d-reset";

/// A reply of the service, as it is cached.
#[derive(Clone, Debug, PartialEq)]
pub struct Cache<F> {
    /// When the reply came, in seconds since the epoch.
    pub fetched_at: F,
    /// Share of the five-hour limit that is used up.
    pub util_5h: F,
    /// Share of the weekly limit that is used up.
    pub util_1w: F,
    /// When the five-hour limit is reset, in seconds since the epoch; 0 if unknown.
    pub reset_5h: u64,
    /// When the weekly limit is reset, in seconds since the epoch; 0 if unknown.
    pub reset_1w: u64,
}

/// A header that has to be there, with what reading its value as a number gave.
pub open spec fn required<F>(name: Seq<char>, value: Option<Result<F, String>>) -> Result<
    F,
    Seq<char>,
> {
    match value {
        None => Err("missing rate-limit header: "@ + name),
        Some(Ok(n)) => Ok(n),
        Some(Err(why)) => Err("invalid rate-limit header "@ + name + ": "@ + why@),
    }
}

/// A header that counts as 0 where it is missing.
pub open spec fn optional(name: Seq<char>, value: Option<&str>) -> Result<u64, Seq<char>> {
    match value {
        None => Ok(0),
        Some(raw) => match crate::decimal::u64_of_text(raw@) {
            Some(n) => Ok(n),
            None => Err(
                "invalid rate-limit header "@ + name + ": "@ + crate::decimal::u64_error_text(raw@),
            ),
        },
    }
}

/// What the headers of a reply amount to: the first header that is wrong decides.
pub open spec fn reply<F>(
    util_5h: Option<Result<F, String>>,
    util_1w: Option<Result<F, String>>,
    reset_5h: Option<&str>,
    reset_1w: Option<&str>,
    fetched_at: F,
) -> Result<Cache<F>, Seq<char>> {
    match (
        required(UTILIZATION_5H_HEADER@, util_5h),
        required(UTILIZATION_1W_HEADER@, util_1w),
        optional(RESET_5H_HEADER@, reset_5h),
        optional(RESET_1W_HEADER@, reset_1w),
    ) {
        (Err(e), _, _, _) => Err(e),
        (_, Err(e), _, _) => Err(e),
        (_, _, Err(e), _) => Err(e),
        (_, _, _, Err(e)) => Err(e),
        (Ok(util_5h), Ok(util_1w), Ok(reset_5h), Ok(reset_1w)) => Ok(
            Cache { fetched_at, util_5h, util_1w, reset_5h, reset_1w },
        ),
    }
}

/// Whether a result is the expected one, its error taken by its text.
pub open spec fn is_outcome<T>(r: Result<T, String>, expected: Result<T, Seq<char>>) -> bool {
    match expected {
        Ok(value) => r matches Ok(v) && v == value,
        Err(text) => r matches Err(e) && e@ == text,
    }
}

/// How old a cache is for the display: whole seconds, and 0 where its time is not yet past.
pub open spec fn age(elapsed: int) -> nat {
    if elapsed <= 0 {
        0
    } else if elapsed > u64::MAX {
        u64::MAX as nat
    } else {
        elapsed as nat
    }
}

/// Whether a cache of some age is past its time to live.
pub open spec fn stale(age: nat, cache_ttl: nat) -> bool {
    age >= cache_ttl
}

/// Whether a cache may be used, `elapsed` whole seconds after it was fetched.
pub open spec fn usable(respect_ttl: bool, elapsed: int, cache_ttl: nat) -> bool {
    !respect_ttl || elapsed < cache_ttl
}

/// A cache that is loaded as fresh is not displayed as stale, and one that is refused is.
pub proof fn law_fresh_is_not_stale(elapsed: int, cache_ttl: u64)
    requires
        cache_ttl > 0,
    ensures
        usable(true, elapsed, cache_ttl as nat) == !stale(age(elapsed), cache_ttl as nat),
{
}

/// A cache that is past its time to live stays so, and a longer time to live refuses no cache
/// that a shorter one accepts.
pub proof fn law_time_to_live(elapsed: int, later: int, cache_ttl: nat, longer: nat)
    requires
        elapsed <= later,
        cache_ttl <= longer,
    ensures
        !usable(true, elapsed, cache_ttl) ==> !usable(true, later, cache_ttl),
        usable(true, elapsed, cache_ttl) ==> usable(true, elapsed, longer),
        stale(age(elapsed), cache_ttl) ==> stale(age(later), cache_ttl),
{
}

/// The time to live is the moment from which a cache is refused and counts as stale, whatever it
/// is: one second before, the cache is used and fresh; then and later it is neither.
pub proof fn law_time_to_live_is_exact(elapsed: int, cache_ttl: nat)
    ensures
        usable(true, cache_ttl - 1, cache_ttl),
        !usable(true, cache_ttl as int, cache_ttl),
        elapsed >= 0 ==> usable(true, elapsed, (elapsed + 1) as nat),
        elapsed < cache_ttl ==> usable(true, elapsed, cache_ttl),
        elapsed >= cache_ttl ==> !usable(true, elapsed, cache_ttl),
        cache_ttl > 0 ==> !stale((cache_ttl - 1) as nat, cache_ttl),
        stale(cache_ttl, cache_ttl),
        elapsed >= 0 ==> (stale(elapsed as nat, cache_ttl) <==> cache_ttl - elapsed <= 0),
{
}

/// The age counts whole seconds one by one from the moment of the reply; before it the age is 0,
/// and it does not pass the largest 64-bit number.
pub proof fn law_age_counts_seconds(elapsed: int)
    ensures
        elapsed <= 0 ==> age(elapsed) == 0,
        0 <= elapsed < u64::MAX ==> age(elapsed + 1) == age(elapsed) + 1,
        0 <= elapsed <= u64::MAX ==> age(elapsed) == elapsed,
        elapsed >= u64::MAX ==> age(elapsed) == u64::MAX,
{
}

/// A reply is accepted exactly if both shares are there and are numbers, and each reset is missing
/// or a number. What is cached is what the headers say, and 0 for a missing reset.
pub proof fn law_reply_holds_the_headers<F>(
    util_5h: Option<Result<F, String>>,
    util_1w: Option<Result<F, String>>,
    reset_5h: Option<&str>,
    reset_1w: Option<&str>,
    fetched_at: F,
)
    ensures
        reply(util_5h, util_1w, reset_5h, reset_1w, fetched_at) is Ok <==> {
            &&& util_5h matches Some(Ok(_))
            &&& util_1w matches Some(Ok(_))
            &&& reset_5h matches Some(text) ==> crate::decimal::u64_of_text(text@) is Some
            &&& reset_1w matches Some(text) ==> crate::decimal::u64_of_text(text@) is Some
        },
        reply(util_5h, util_1w, reset_5h, reset_1w, fetched_at) matches Ok(cache) ==> {
            &&& cache.fetched_at == fetched_at
            &&& util_5h == Some(Ok::<F, String>(cache.util_5h))
            &&& util_1w == Some(Ok::<F, String>(cache.util_1w))
            &&& match reset_5h {
                Some(text) => crate::decimal::u64_of_text(text@) == Some(cache.reset_5h),
                None => cache.reset_5h == 0,
            }
            &&& match reset_1w {
                Some(text) => crate::decimal::u64_of_text(text@) == Some(cache.reset_1w),
                None => cache.reset_1w == 0,
            }
        },
{
}

/// A single header: one that has to be there gives its number or names itself and what is wrong; one
/// that may be missing then counts as 0.
pub proof fn law_single_header<F>(
    name: Seq<char>,
    value: Option<Result<F, String>>,
    text: Option<&str>,
)
    ensures
        value is None ==> required(name, value) == Err::<F, Seq<char>>(
            "missing rate-limit header: "@ + name,
        ),
        value matches Some(Ok(n)) ==> required(name, value) == Ok::<F, Seq<char>>(n),
        value matches Some(Err(why)) ==> required(name, value) == Err::<F, Seq<char>>(
            "invalid rate-limit header "@ + name + ": "@ + why@,
        ),
        text is None ==> optional(name, text) == Ok::<u64, Seq<char>>(0),
        text matches Some(raw) ==> match crate::decimal::u64_of_text(raw@) {
            Some(n) => optional(name, text) == Ok::<u64, Seq<char>>(n),
            None => optional(name, text) == Err::<u64, Seq<char>>(
                "invalid rate-limit header "@ + name + ": "@ + crate::decimal::u64_error_text(raw@),
            ),
        },
{
}

/// A result is the expected one exactly if both are successes with the same value or both are
/// failures with the same text.
pub proof fn law_outcome<T>(r: Result<T, String>, expected: Result<T, Seq<char>>)
    ensures
        is_outcome(r, expected) <==> {
            ||| (r matches Ok(v) && expected == Ok::<T, Seq<char>>(v))
            ||| (r matches Err(e) && expected == Err::<T, Seq<char>>(e@))
        },
{
}

/// The first header that is wrong is named, whatever is wrong with those after it.
pub proof fn law_first_wrong_header_is_named<F>(
    util_5h: Option<Result<F, String>>,
    util_1w: Option<Result<F, String>>,
    reset_5h: Option<&str>,
    reset_1w: Option<&str>,
    fetched_at: F,
)
    requires
        reply(util_5h, util_1w, reset_5h, reset_1w, fetched_at) is Err,
    ensures
        ({
            let e = reply(util_5h, util_1w, reset_5h, reset_1w, fetched_at)->Err_0;
            let missing = "missing rate-limit header: "@;
            let invalid = "invalid rate-limit header "@;
            let first = "anthropic-ratelimit-unified-5h-utilization"@;
            let second = "anthropic-ratelimit-unified-7d-utilization"@;
            let third = "anthropic-ratelimit-unified-5h-reset"@;
            let fourth = "anthropic-ratelimit-unified-7d-reset"@;
            &&& util_5h is None ==> e == missing + first
            &&& util_5h matches Some(Err(why)) ==> e == invalid + first + ": "@ + why@
            &&& util_5h matches Some(Ok(_)) ==> {
                &&& util_1w is None ==> e == missing + second
                &&& util_1w matches Some(Err(why)) ==> e == invalid + second + ": "@ + why@
                &&& util_1w matches Some(Ok(_)) ==> {
                    ||| reset_5h matches Some(text) && crate::decimal::u64_of_text(text@) is None
                        && e == invalid + third + ": "@ + crate::decimal::u64_error_text(text@)
                    ||| (reset_5h matches Some(text) ==> crate::decimal::u64_of_text(
                        text@,
                    ) is Some) && (reset_1w matches Some(text) && e == invalid + fourth + ": "@
                        + crate::decimal::u64_error_text(text@))
                }
            }
        }),
{
}

/// Without a time to live to respect, every cache is used, however old.
pub proof fn law_last_resort_ignores_age(elapsed: int, cache_ttl: nat)
    ensures
        usable(false, elapsed, cache_ttl),
{
}

/// Takes a header that has to be there, with what reading its value as a number gave.
pub fn parse_required_f64_header<F>(name: &str, value: Option<Result<F, String>>) -> (r: Result<
    F,
    String,
>)
    ensures
        is_outcome(r, required(name@, value)),
{
    match value {
        None => {
            let mut e: String = "missing rate-limit header: ".to_owned();
            e.append(name);
            Err(e)
        },
        Some(Ok(n)) => Ok(n),
        Some(Err(why)) => {
            let mut e: String = "invalid rate-limit header ".to_owned();
            e.append(name);
            e.append(": ");
            e.append(why.as_str());
            Err(e)
        },
    }
}

/// Reads a header that counts as 0 where it is missing.
pub fn parse_optional_u64_header(name: &str, value: Option<&str>) -> (r: Result<u64, String>)
    ensures
        is_outcome(r, optional(name@, value)),
{
    match value {
        None => Ok(0),
        Some(raw) => match parse_u64(raw) {
            Ok(n) => Ok(n),
            Err(why) => {
                let mut e: String = "invalid rate-limit header ".to_owned();
                e.append(name);
                e.append(": ");
                e.append(why.as_str());
                Err(e)
            },
        },
    }
}

/// Reads the headers of a reply.
pub fn cache_from_rate_limit_headers<F>(
    util_5h: Option<Result<F, String>>,
    util_1w: Option<Result<F, String>>,
    reset_5h: Option<&str>,
    reset_1w: Option<&str>,
    fetched_at: F,
) -> (r: Result<Cache<F>, String>)
    ensures
        is_outcome(r, reply(util_5h, util_1w, reset_5h, reset_1w, fetched_at)),
{
    let util_5h: F = match parse_required_f64_header(UTILIZATION_5H_HEADER, util_5h) {
        Ok(n) => n,
        Err(e) => {
            return Err(e);
        },
    };
    let util_1w: F = match parse_required_f64_header(UTILIZATION_1W_HEADER, util_1w) {
        Ok(n) => n,
        Err(e) => {
            return Err(e);
        },
    };
    let reset_5h: u64 = match parse_optional_u64_header(RESET_5H_HEADER, reset_5h) {
        Ok(n) => n,
        Err(e) => {
            return Err(e);
        },
    };
    let reset_1w: u64 = match parse_optional_u64_header(RESET_1W_HEADER, reset_1w) {
        Ok(n) => n,
        Err(e) => {
            return Err(e);
        },
    };
    Ok(Cache { fetched_at, util_5h, util_1w, reset_5h, reset_1w })
}

/// Decides whether a cache that was read may be used, `elapsed` whole seconds (rounded down)
/// after it was fetched.
pub fn load_cache_from<F>(
    read: Option<Cache<F>>,
    respect_ttl: bool,
    elapsed: i128,
    cache_ttl: u64,
) -> (r: Option<Cache<F>>)
    ensures
        r == if usable(respect_ttl, elapsed as int, cache_ttl as nat) {
            read
        } else {
            None
        },
        r == if respect_ttl && elapsed >= cache_ttl {
            None
        } else {
            read
        },
{
    if respect_ttl && elapsed >= cache_ttl as i128 {
        return None;
    }
    read
}

/// How old a cache is for the display, `elapsed` whole seconds (rounded down) after it was
/// fetched.
pub fn cache_age_seconds(elapsed: i128) -> (r: u64)
    ensures
        r == age(elapsed as int),
        0 <= elapsed <= u64::MAX ==> r == elapsed,
{
    if elapsed <= 0 {
        0
    } else if elapsed > u64::MAX as i128 {
        u64::MAX
    } else {
        elapsed as u64
    }
}

/// Whether a cache of some age is past its time to live.
pub fn is_stale(age_seconds: u64, cache_ttl: u64) -> (r: bool)
    ensures
        r == stale(age_seconds as nat, cache_ttl as nat),
        r == (age_seconds >= cache_ttl),
{
    age_seconds >= cache_ttl
}

} // verus!
