use rate_limit::cache::{
    cache_age_seconds, cache_from_rate_limit_headers, is_stale, load_cache_from,
    parse_optional_u64_header, parse_required_f64_header, Cache,
};
use rate_limit::product::Product;
use rate_limit::json::JsonField;
use rate_limit::request::{fetch_failure, fetch_request, request_members};

fn number(value: Option<&str>) -> Option<Result<f64, String>> {
    value.map(|raw| raw.parse::<f64>().map_err(|e| e.to_string()))
}

fn product() -> Product {
    Product {
        name: "acme".to_string(),
        title: "Acme".to_string(),
    }
}

fn sample() -> Cache<f64> {
    Cache {
        fetched_at: 1000.0,
        util_5h: 0.1,
        util_1w: 0.2,
        reset_5h: 0,
        reset_1w: 0,
    }
}

fn elapsed(now_ts: f64) -> i128 {
    (now_ts - sample().fetched_at).floor() as i128
}

#[test]
fn parse_rate_limit_headers_requires_utilization_headers() {
    let err = cache_from_rate_limit_headers(
        number(None),
        number(Some("0.4")),
        Some("1234"),
        Some("4567"),
        1000.0,
    )
    .unwrap_err();
    assert!(err.contains("anthropic-ratelimit-unified-5h-utilization"));
}

#[test]
fn parse_rate_limit_headers_rejects_invalid_utilization() {
    let err = cache_from_rate_limit_headers(
        number(Some("abc")),
        number(Some("0.4")),
        Some("1234"),
        Some("4567"),
        1000.0,
    )
    .unwrap_err();
    assert!(err.contains("anthropic-ratelimit-unified-5h-utilization"));
}

#[test]
fn parse_rate_limit_headers_allows_missing_reset() {
    let cache = cache_from_rate_limit_headers(
        number(Some("0.23")),
        number(Some("0.6")),
        None,
        None,
        1000.0,
    )
    .unwrap();
    assert_eq!(
        cache,
        Cache {
            fetched_at: 1000.0,
            util_5h: 0.23,
            util_1w: 0.6,
            reset_5h: 0,
            reset_1w: 0,
        }
    );
}

#[test]
fn headers_are_read_in_full() {
    let cache = cache_from_rate_limit_headers(
        number(Some("0.23")),
        number(Some("0.6")),
        Some("1234"),
        Some("+4567"),
        1000.0,
    )
    .unwrap();
    assert_eq!(cache.reset_5h, 1234);
    assert_eq!(cache.reset_1w, 4567);
}

#[test]
fn first_wrong_header_decides() {
    let err = cache_from_rate_limit_headers(
        number(Some("0.23")),
        number(None),
        Some("x"),
        Some("y"),
        1000.0,
    )
    .unwrap_err();
    assert_eq!(
        err,
        "missing rate-limit header: anthropic-ratelimit-unified-7d-utilization"
    );
    let err = cache_from_rate_limit_headers(
        number(Some("0.23")),
        number(Some("0.6")),
        Some("x"),
        Some("y"),
        1000.0,
    )
    .unwrap_err();
    assert!(err.starts_with("invalid rate-limit header anthropic-ratelimit-unified-5h-reset: "));
    let err = cache_from_rate_limit_headers(
        number(Some("0.23")),
        number(Some("0.6")),
        None,
        Some("y"),
        1000.0,
    )
    .unwrap_err();
    assert!(err.starts_with("invalid rate-limit header anthropic-ratelimit-unified-7d-reset: "));
}

#[test]
fn required_header_messages() {
    assert_eq!(
        parse_required_f64_header::<f64>("h", None).unwrap_err(),
        "missing rate-limit header: h"
    );
    assert_eq!(
        parse_required_f64_header::<f64>("h", number(Some("abc"))).unwrap_err(),
        "invalid rate-limit header h: invalid float literal"
    );
    assert_eq!(parse_required_f64_header("h", number(Some("0.5"))), Ok(0.5));
}

#[test]
fn optional_header_values() {
    assert_eq!(parse_optional_u64_header("h", None), Ok(0));
    assert_eq!(parse_optional_u64_header("h", Some("1774846800")), Ok(1774846800));
    assert_eq!(
        parse_optional_u64_header("h", Some("18446744073709551615")),
        Ok(u64::MAX)
    );
    assert_eq!(
        parse_optional_u64_header("h", Some("18446744073709551616")).unwrap_err(),
        "invalid rate-limit header h: number too large to fit in target type"
    );
    assert_eq!(
        parse_optional_u64_header("h", Some("")).unwrap_err(),
        "invalid rate-limit header h: cannot parse integer from empty string"
    );
    for wrong in ["-1", " 1", "1_000", "1.5", "+"] {
        assert_eq!(
            parse_optional_u64_header("h", Some(wrong)).unwrap_err(),
            "invalid rate-limit header h: invalid digit found in string"
        );
    }
}

#[test]
fn cache_ttl_fresh() {
    assert_eq!(
        load_cache_from(Some(sample()), true, elapsed(1899.0), 900),
        Some(sample())
    );
    assert_eq!(
        load_cache_from(Some(sample()), true, elapsed(1899.9), 900),
        Some(sample())
    );
}

#[test]
fn cache_ttl_expired() {
    assert_eq!(load_cache_from(Some(sample()), true, elapsed(1900.0), 900), None);
}

#[test]
fn cache_ttl_ignored_when_false() {
    assert_eq!(
        load_cache_from(Some(sample()), false, elapsed(99999.0), 900),
        Some(sample())
    );
}

#[test]
fn cache_from_the_future_is_fresh() {
    assert_eq!(
        load_cache_from(Some(sample()), true, elapsed(10.0), 900),
        Some(sample())
    );
    assert_eq!(cache_age_seconds(elapsed(10.0)), 0);
}

#[test]
fn cache_missing_file() {
    assert_eq!(load_cache_from::<f64>(None, false, 0, 900), None);
}

#[test]
fn stale_exactly_when_not_fresh() {
    for seconds in [-5i128, 0, 1, 119, 120, 121, 4000] {
        let fresh = load_cache_from(Some(sample()), true, seconds, 120).is_some();
        assert_eq!(fresh, !is_stale(cache_age_seconds(seconds), 120));
    }
}

#[test]
fn age_is_capped() {
    assert_eq!(cache_age_seconds(i128::MAX), u64::MAX);
    assert_eq!(cache_age_seconds(i128::MIN), 0);
    assert_eq!(cache_age_seconds(300), 300);
}

#[test]
fn request_asks_for_the_least() {
    let request = fetch_request(&product(), "abc");
    assert_eq!(request.url, "https://api.anthropic.com/v1/messages");
    assert_eq!(
        request.headers,
        vec![
            ("Authorization".to_string(), "Bearer abc".to_string()),
            ("anthropic-version".to_string(), "2023-06-01".to_string()),
            ("anthropic-beta".to_string(), "oauth-2025-04-20".to_string()),
            ("Content-Type".to_string(), "application/json".to_string()),
        ]
    );
    assert_eq!(
        String::from_utf8(request.body).unwrap(),
        "{\"max_tokens\":1,\"messages\":[{\"content\":\".\",\"role\":\"user\"}],\
         \"model\":\"acme-haiku-4-5-20251001\"}"
    );
}

#[test]
fn body_has_three_members() {
    let members = request_members(&product());
    assert_eq!(members.len(), 3);
    assert_eq!(members[0].0, "model");
    assert!(matches!(&members[0].1, JsonField::Text(s) if s == "acme-haiku-4-5-20251001"));
    assert_eq!(members[1].0, "max_tokens");
    assert!(matches!(members[1].1, JsonField::Number(1)));
    assert_eq!(members[2].0, "messages");
    match &members[2].1 {
        JsonField::Objects(messages) => assert_eq!(
            messages,
            &vec![vec![
                ("role".to_string(), "user".to_string()),
                ("content".to_string(), ".".to_string()),
            ]]
        ),
        _ => panic!("expected messages"),
    }
}

#[test]
fn refused_token_has_its_own_message() {
    assert_eq!(
        fetch_failure(&product(), Some(401), "http status: 401".to_string()),
        "token expired — run: acme-rate-limit extract-token"
    );
    assert_eq!(
        fetch_failure(&product(), Some(429), "http status: 429".to_string()),
        "http status: 429"
    );
    assert_eq!(fetch_failure(&product(), None, "timeout".to_string()), "timeout");
}
