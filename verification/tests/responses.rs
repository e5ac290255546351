use onedrive_api::api::{oauth2_outcome, parse_retry_after_sec, storage_outcome, Expect, Outcome, RawResponse};
use onedrive_api::error::Error;
use onedrive_api::resource::{ErrorResponse, OAuth2ErrorResponse};

fn resp(status: u16, headers: &[(&str, Option<&str>)]) -> RawResponse {
    RawResponse {
        status,
        headers: headers.iter().map(|(k, v)| (k.to_string(), v.map(str::to_owned))).collect(),
        body: vec![],
    }
}

#[test]
fn storage_outcomes() {
    assert_eq!(storage_outcome(&resp(304, &[]), Expect::OptionalValue), Outcome::Absent);
    assert_eq!(storage_outcome(&resp(202, &[]), Expect::OptionalValue), Outcome::Absent);
    assert_eq!(storage_outcome(&resp(200, &[]), Expect::OptionalValue), Outcome::Value);
    assert_eq!(storage_outcome(&resp(201, &[]), Expect::Value), Outcome::Value);
    assert_eq!(storage_outcome(&resp(304, &[]), Expect::Value), Outcome::Value);
    assert_eq!(storage_outcome(&resp(204, &[]), Expect::NoContent), Outcome::Done);
    assert_eq!(
        storage_outcome(&resp(429, &[("retry-after", Some("120"))]), Expect::Value),
        Outcome::Failure { status: 429, retry_after: Some(120) },
    );
    assert_eq!(
        storage_outcome(&resp(503, &[("retry-after", None), ("retry-after", Some("5"))]), Expect::NoContent),
        Outcome::Failure { status: 503, retry_after: None },
    );
}

#[test]
fn oauth2_outcomes() {
    assert_eq!(oauth2_outcome(&resp(200, &[])), Outcome::Value);
    assert_eq!(oauth2_outcome(&resp(302, &[])), Outcome::Failure { status: 302, retry_after: None });
}

#[test]
fn retry_after_parsing() {
    assert_eq!(parse_retry_after_sec(&resp(429, &[("x", Some("1")), ("retry-after", Some("+7"))])), Some(7));
    assert_eq!(parse_retry_after_sec(&resp(429, &[("retry-after", Some("4294967296"))])), None);
    assert_eq!(parse_retry_after_sec(&resp(429, &[("retry-after", Some("Wed, 21 Oct 2015"))])), None);
    assert_eq!(parse_retry_after_sec(&resp(429, &[])), None);
}

#[test]
fn error_accessors() {
    let e = Error::from_error_response(
        404,
        ErrorResponse::new("itemNotFound".to_owned(), "not here".to_owned(), None),
        Some(3),
    );
    assert_eq!(e.status_code(), Some(404));
    assert_eq!(e.error_response().unwrap().code, "itemNotFound");
    assert!(e.oauth2_error_response().is_none());
    assert_eq!(e.retry_after().unwrap().as_secs(), 3);

    let e = Error::from_oauth2_error_response(
        400,
        OAuth2ErrorResponse::new("invalid_grant".to_owned(), "bad".to_owned(), Some(vec![70000]), None, None, None),
        None,
    );
    assert_eq!(e.status_code(), Some(400));
    assert_eq!(e.oauth2_error_response().unwrap().error, "invalid_grant");
    assert!(e.retry_after().is_none());

    let e = Error::unexpected_response("weird");
    assert_eq!(e.status_code(), None);
    assert!(e.error_response().is_none());
}
