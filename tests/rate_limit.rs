use league_of_legends_client::rate_limit::parse_rate;
use league_of_legends_client::rate_limit::parse_rate_limit;
use league_of_legends_client::rate_limit::Rate;
use league_of_legends_client::rate_limit::RateLimit;
use reqwest::header::HeaderMap;
use reqwest::header::HeaderValue;

fn rate(requests: Option<u16>, seconds: Option<u16>) -> Rate {
    Rate { requests, seconds }
}

#[test]
fn two_buckets_are_read_in_order() {
    let rates = parse_rate_limit("20:1,100:120");
    assert_eq!(rates, vec![rate(Some(20), Some(1)), rate(Some(100), Some(120))]);
}

#[test]
fn non_numeric_field_leaves_only_that_part_empty() {
    assert_eq!(parse_rate_limit("x:1"), vec![rate(None, Some(1))]);
    assert_eq!(parse_rate_limit("5:y"), vec![rate(Some(5), None)]);
}

#[test]
fn empty_header_is_one_empty_bucket() {
    assert_eq!(parse_rate_limit(""), vec![rate(None, None)]);
}

#[test]
fn entry_without_seconds() {
    assert_eq!(parse_rate_limit("7"), vec![rate(Some(7), None)]);
}

#[test]
fn fields_after_the_second_are_ignored() {
    assert_eq!(parse_rate("1:2:3"), rate(Some(1), Some(2)));
}

#[test]
fn numbers_follow_unsigned_parsing() {
    assert_eq!(parse_rate("+5:07"), rate(Some(5), Some(7)));
    assert_eq!(parse_rate("-1:65535"), rate(None, Some(65535)));
    assert_eq!(parse_rate("65536: 1"), rate(None, None));
    assert_eq!(parse_rate("+:"), rate(None, None));
}

#[test]
fn trailing_comma_gives_an_empty_bucket() {
    assert_eq!(
        parse_rate_limit("20:1,"),
        vec![rate(Some(20), Some(1)), rate(None, None)]
    );
}

#[test]
fn retry_after_alone_sets_the_delay() {
    let mut headers = HeaderMap::new();
    headers.insert("Retry-After", HeaderValue::from_static("5"));
    let limit = RateLimit::from_headers(&headers);
    assert_eq!(limit.timeout_secs, 5);
    assert!(limit.app_rate_limit.is_none());
    assert!(limit.app_rate_limit_count.is_none());
    assert!(limit.method_rate_limit.is_none());
    assert!(limit.method_rate_limit_count.is_none());
}

#[test]
fn no_retry_after_means_no_delay() {
    let limit = RateLimit::from_headers(&HeaderMap::new());
    assert_eq!(limit.timeout_secs, 0);
}

#[test]
fn unreadable_retry_after_means_no_delay() {
    let mut headers = HeaderMap::new();
    headers.insert("retry-after", HeaderValue::from_static("soon"));
    assert_eq!(RateLimit::from_headers(&headers).timeout_secs, 0);
}

#[test]
fn all_quota_headers_are_read() {
    let mut headers = HeaderMap::new();
    headers.insert("X-App-Rate-Limit", HeaderValue::from_static("20:1,100:120"));
    headers.insert("X-App-Rate-Limit-Count", HeaderValue::from_static("3:1,50:120"));
    headers.insert("X-Method-Rate-Limit", HeaderValue::from_static("2000:10"));
    headers.insert("X-Method-Rate-Limit-Count", HeaderValue::from_static("1:10"));
    headers.insert("Retry-After", HeaderValue::from_static("12"));
    let limit = RateLimit::from_headers(&headers);
    assert_eq!(
        limit.app_rate_limit,
        Some(vec![rate(Some(20), Some(1)), rate(Some(100), Some(120))])
    );
    assert_eq!(
        limit.app_rate_limit_count,
        Some(vec![rate(Some(3), Some(1)), rate(Some(50), Some(120))])
    );
    assert_eq!(limit.method_rate_limit, Some(vec![rate(Some(2000), Some(10))]));
    assert_eq!(limit.method_rate_limit_count, Some(vec![rate(Some(1), Some(10))]));
    assert_eq!(limit.timeout_secs, 12);
}

#[test]
fn header_that_is_not_visible_ascii_is_absent() {
    let mut headers = HeaderMap::new();
    headers.insert(
        "x-app-rate-limit",
        HeaderValue::from_bytes(b"20:1\xff").unwrap(),
    );
    assert!(RateLimit::from_headers(&headers).app_rate_limit.is_none());
}

#[test]
fn first_value_of_a_repeated_header_counts() {
    let mut headers = HeaderMap::new();
    headers.append("retry-after", HeaderValue::from_static("4"));
    headers.append("retry-after", HeaderValue::from_static("9"));
    assert_eq!(RateLimit::from_headers(&headers).timeout_secs, 4);
}

#[test]
fn summary_pairs_limits_with_counts() {
    let limit = RateLimit {
        app_rate_limit: Some(vec![rate(Some(20), Some(1)), rate(Some(100), Some(120))]),
        app_rate_limit_count: Some(vec![rate(Some(3), Some(1)), rate(Some(50), Some(120))]),
        method_rate_limit: Some(vec![rate(Some(2000), Some(10))]),
        method_rate_limit_count: Some(vec![rate(Some(1), Some(10))]),
        timeout_secs: 0,
    };
    assert_eq!(
        limit.summary(),
        "(App rate limit): You've used 3/20 requests per 1 second(s). | You've used 50/100 requests per 120 second(s). |(Method rate limit): You've used 1/2000 requests per 10 second(s). |"
    );
}

#[test]
fn summary_zips_to_the_shorter_list_and_skips_partial_buckets() {
    let limit = RateLimit {
        app_rate_limit: Some(vec![rate(Some(20), Some(1)), rate(Some(100), Some(120))]),
        app_rate_limit_count: Some(vec![rate(Some(3), Some(1))]),
        method_rate_limit: Some(vec![rate(Some(2000), None)]),
        method_rate_limit_count: Some(vec![rate(Some(1), Some(10))]),
        timeout_secs: 0,
    };
    assert_eq!(
        limit.summary(),
        "(App rate limit): You've used 3/20 requests per 1 second(s). |(Method rate limit):"
    );
}

#[test]
fn summary_of_missing_counts_is_empty() {
    let limit = RateLimit {
        app_rate_limit: Some(vec![rate(Some(20), Some(1))]),
        app_rate_limit_count: None,
        method_rate_limit: None,
        method_rate_limit_count: None,
        timeout_secs: 3,
    };
    assert_eq!(limit.summary(), "");
}
