use league_of_legends_client::dispatch::Dispatch;
use league_of_legends_client::dispatch::Phase;
use league_of_legends_client::dispatch::Step;
use league_of_legends_client::error::Error;
use league_of_legends_client::error::ParseCause;
use league_of_legends_client::options::ClientOptions;
use league_of_legends_client::rate_limit::RateLimit;
use league_of_legends_client::types::Mastery;
use reqwest::header::HeaderMap;
use reqwest::header::HeaderValue;

fn telemetry_with_retry_after(value: &'static str) -> RateLimit {
    let mut headers = HeaderMap::new();
    headers.insert("Retry-After", HeaderValue::from_static(value));
    RateLimit::from_headers(&headers)
}

fn decode_mastery(body: &str) -> Result<Mastery, serde_json::Error> {
    let v: serde_json::Value = serde_json::from_str(body)?;
    let rank = v["rank"]
        .as_i64()
        .ok_or_else(|| serde_json::from_str::<i32>("\"rank\"").unwrap_err())?;
    let mastery_id = v["masteryId"]
        .as_i64()
        .ok_or_else(|| serde_json::from_str::<i32>("\"masteryId\"").unwrap_err())?;
    Ok(Mastery { rank: rank as i32, mastery_id: mastery_id as i32 })
}

#[test]
fn retry_enabled_waits_then_succeeds() {
    let mut d = Dispatch::new(&ClientOptions::new("EXAMPLE_API_KEY", true));
    assert_eq!(d.phase, Phase::Sending);
    match d.on_response(429, &telemetry_with_retry_after("1")) {
        Step::Retry(secs) => assert_eq!(secs, 1),
        other => panic!("expected a retry, got {:?}", other),
    }
    assert_eq!(d.phase, Phase::Waiting);
    d.on_wake();
    assert_eq!(d.phase, Phase::Sending);
    assert!(d.retried);
    assert!(matches!(d.on_response(200, &RateLimit::from_headers(&HeaderMap::new())), Step::Decode));
    let outcome = d.on_body(decode_mastery("{\"rank\": 3, \"masteryId\": 6111}"));
    match outcome {
        Ok(m) => {
            assert_eq!(m.rank, 3);
            assert_eq!(m.mastery_id, 6111);
        }
        Err(e) => panic!("expected a value, got {:?}", e),
    }
    assert_eq!(d.phase, Phase::Done);
}

#[test]
fn retry_disabled_returns_the_rejection_at_once() {
    let mut d = Dispatch::new(&ClientOptions::new("EXAMPLE_API_KEY", false));
    match d.on_response(429, &telemetry_with_retry_after("3")) {
        Step::Fail(Error::TooManyRequests(secs)) => assert_eq!(secs, 3),
        other => panic!("expected the rejection, got {:?}", other),
    }
    assert_eq!(d.phase, Phase::Done);
    assert!(!d.retried);
}

#[test]
fn second_rejection_is_final() {
    let mut d = Dispatch::new(&ClientOptions::new("EXAMPLE_API_KEY", true));
    assert!(matches!(
        d.on_response(429, &telemetry_with_retry_after("2")),
        Step::Retry(2)
    ));
    d.on_wake();
    match d.on_response(429, &telemetry_with_retry_after("8")) {
        Step::Fail(Error::TooManyRequests(secs)) => assert_eq!(secs, 8),
        other => panic!("expected the second rejection, got {:?}", other),
    }
    assert_eq!(d.phase, Phase::Done);
}

#[test]
fn transport_failure_is_a_request_error_and_not_retried() {
    let mut d = Dispatch::new(&ClientOptions::new("EXAMPLE_API_KEY", true));
    let cause = reqwest::Client::new().get("http://[::1").build().unwrap_err();
    let e = d.on_transport_error(cause);
    assert!(matches!(e, Error::RequestError(_)));
    assert_eq!(d.phase, Phase::Done);
    assert!(!d.retried);
}

#[test]
fn malformed_body_is_a_parse_error() {
    let mut d = Dispatch::new(&ClientOptions::new("EXAMPLE_API_KEY", false));
    assert!(matches!(
        d.on_response(200, &RateLimit::from_headers(&HeaderMap::new())),
        Step::Decode
    ));
    let outcome = d.on_body(decode_mastery("{\"unexpected\": true"));
    assert!(matches!(outcome, Err(Error::ParseError(ParseCause::Body(_)))));
    assert_eq!(d.phase, Phase::Done);
}

#[test]
fn other_success_statuses_ask_for_the_body() {
    for status in [200u16, 201, 204, 299] {
        let mut d = Dispatch::new(&ClientOptions::new("k", true));
        assert!(matches!(
            d.on_response(status, &RateLimit::from_headers(&HeaderMap::new())),
            Step::Decode
        ));
        assert_eq!(d.phase, Phase::Decoding);
    }
}

#[test]
fn other_errors_are_not_retried() {
    let mut d = Dispatch::new(&ClientOptions::new("k", true));
    assert!(matches!(
        d.on_response(503, &telemetry_with_retry_after("5")),
        Step::Fail(Error::ServiceUnavailable)
    ));
    assert_eq!(d.phase, Phase::Done);
}
