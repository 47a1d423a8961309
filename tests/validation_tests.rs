use cache_sniper::error::ScanError;
use cache_sniper::headers::{HeaderSet, Response};
use cache_sniper::validate_cache::{same_bytes, CacheValidationResult, ValidationRequest, ValidationState};

fn response(pairs: &[(&str, &str)], body: &[u8]) -> Response {
    let mut headers = HeaderSet::new();
    for (n, v) in pairs {
        headers.insert(n, v);
    }
    Response { headers, body: body.to_vec() }
}

/// Runs the validator against canned answers, counting the requests it makes.
fn run(answers: Vec<Result<Response, String>>) -> (usize, Result<CacheValidationResult, ScanError>) {
    let mut state = ValidationState::start("https://example.com");
    let mut answers = answers.into_iter();
    let mut sent = 0;
    while let Some(_) = state.next_request() {
        sent += 1;
        state = state.advance(answers.next().expect("no answer left"));
    }
    (sent, state.into_outcome().expect("finished"))
}

const TAGGED: &[(&str, &str)] = &[("etag", "\"v1\""), ("last-modified", "Mon, 01 Jan 2024 00:00:00 GMT"), ("age", "30")];

#[test]
fn no_cache_signal_stops_after_one_request() {
    let (sent, outcome) = run(vec![Ok(response(&[("server", "nginx")], b"hello"))]);
    assert_eq!(sent, 1);
    assert!(matches!(outcome, Err(ScanError::NoCachingDetected)));
}

#[test]
fn empty_cache_headers_count_as_no_signal() {
    let (sent, outcome) = run(vec![Ok(response(&[("cache-control", ""), ("etag", "")], b"x"))]);
    assert_eq!(sent, 1);
    assert!(matches!(outcome, Err(ScanError::NoCachingDetected)));
}

#[test]
fn plain_request_comes_first_then_revalidation() {
    let state = ValidationState::start("https://example.com");
    assert!(matches!(state.next_request(), Some(ValidationRequest::Plain)));
    let state = state.advance(Ok(response(&[("cache-control", "max-age=60")], b"")));
    assert!(matches!(state.next_request(), Some(ValidationRequest::Revalidate)));
}

#[test]
fn identical_responses_are_consistent() {
    let (sent, outcome) = run(vec![Ok(response(TAGGED, b"body")), Ok(response(TAGGED, b"body"))]);
    assert_eq!(sent, 2);
    let v = outcome.ok().expect("validated");
    assert!(v.is_consistent);
    assert_eq!(v.url, "https://example.com");
    assert_eq!(v.etag_before, "\"v1\"");
    assert_eq!(v.etag_after, "\"v1\"");
    assert_eq!(v.last_modified_before, "Mon, 01 Jan 2024 00:00:00 GMT");
    assert_eq!(v.last_modified_after, "Mon, 01 Jan 2024 00:00:00 GMT");
    assert_eq!(v.age, "30");
}

#[test]
fn any_single_difference_is_inconsistent() {
    let changed_etag: &[(&str, &str)] = &[("etag", "\"v2\""), ("last-modified", "Mon, 01 Jan 2024 00:00:00 GMT")];
    let changed_date: &[(&str, &str)] = &[("etag", "\"v1\""), ("last-modified", "Tue, 02 Jan 2024 00:00:00 GMT")];
    for (second, body) in [(changed_etag, &b"body"[..]), (changed_date, &b"body"[..]), (TAGGED, &b"bodY"[..])] {
        let (_, outcome) = run(vec![Ok(response(TAGGED, b"body")), Ok(response(second, body))]);
        assert!(!outcome.ok().expect("validated").is_consistent);
    }
    let (_, outcome) = run(vec![Ok(response(TAGGED, b"body")), Ok(response(TAGGED, b"body!"))]);
    assert!(!outcome.ok().unwrap().is_consistent);
}

#[test]
fn header_comparison_is_exact() {
    let lower: &[(&str, &str)] = &[("etag", "\"abc\"")];
    let upper: &[(&str, &str)] = &[("etag", "\"ABC\"")];
    let (_, outcome) = run(vec![Ok(response(lower, b"")), Ok(response(upper, b""))]);
    assert!(!outcome.ok().unwrap().is_consistent);
}

#[test]
fn failed_request_ends_validation() {
    let (sent, outcome) = run(vec![Err("connect refused".to_string())]);
    assert_eq!(sent, 1);
    match outcome {
        Err(e @ ScanError::Request(_)) => assert_eq!(e.message(), "connect refused"),
        _ => panic!("expected a request error"),
    }
    let (sent, outcome) = run(vec![Ok(response(TAGGED, b"")), Err("timeout".to_string())]);
    assert_eq!(sent, 2);
    assert!(matches!(outcome, Err(ScanError::Request(r)) if r == "timeout"));
}

#[test]
fn finished_state_ignores_further_answers() {
    let state = ValidationState::start("u").advance(Err("dns".to_string()));
    let state = state.advance(Ok(response(TAGGED, b"")));
    assert!(matches!(state.into_outcome(), Some(Err(ScanError::Request(r))) if r == "dns"));
}

#[test]
fn byte_comparison() {
    assert!(same_bytes(&vec![], &vec![]));
    assert!(same_bytes(&vec![1, 2, 3], &vec![1, 2, 3]));
    assert!(!same_bytes(&vec![1, 2, 3], &vec![1, 2]));
    assert!(!same_bytes(&vec![1, 2, 3], &vec![1, 2, 4]));
}

#[test]
fn error_messages() {
    assert_eq!(ScanError::NoCachingDetected.message(), "No caching detected");
    assert_eq!(ScanError::Request("tls".to_string()).message(), "tls");
}
