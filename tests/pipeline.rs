use fetch_store::{
    decode_content, execute_fetch, DecodedResponse, MacVerify, MediaType, NoMac, RawResponse,
    Request, StatusCode, TransportOutcome,
};

struct RejectAll;

impl MacVerify for RejectAll {
    fn verify(_message: &[u8], _signature: Option<&str>) -> Result<bool, String> {
        Ok(false)
    }
}

struct CannotCheck;

impl MacVerify for CannotCheck {
    fn verify(_message: &[u8], _signature: Option<&str>) -> Result<bool, String> {
        Err("no key".to_string())
    }
}

struct MustNotBeCalled;

impl MacVerify for MustNotBeCalled {
    fn verify(_message: &[u8], _signature: Option<&str>) -> Result<bool, String> {
        panic!("the signature check was reached")
    }
}

struct ExpectsSignature;

impl MacVerify for ExpectsSignature {
    fn verify(message: &[u8], signature: Option<&str>) -> Result<bool, String> {
        Ok(signature == Some("good") && message == b"{}")
    }
}

fn raw(status: u16, content_type: Option<&str>, body: &[u8]) -> RawResponse {
    RawResponse {
        status,
        ok: (200..300).contains(&status),
        error_type: false,
        content_type: Ok(content_type.map(|c| c.to_string())),
        signature: Ok(None),
        body: Some(body.to_vec()),
    }
}

fn completed(raw: RawResponse) -> DecodedResponse<RawResponse> {
    let pending = Request::new("http://host/item").start();
    pending.wait_completion(TransportOutcome::Responded(raw)).response
}

#[test]
fn unknown_content_type_is_unsupported_without_a_decode() {
    let fetched = completed(raw(200, Some("text/html"), b"{\"a\":1}"));
    let result = execute_fetch::<MustNotBeCalled>(fetched);
    assert_eq!(result.status, StatusCode::UnsupportedMediaType);
    assert!(result.response.is_none());
    let missing = completed(raw(200, None, b"{}"));
    let result = execute_fetch::<MustNotBeCalled>(missing);
    assert_eq!(result.status, StatusCode::UnsupportedMediaType);
}

#[test]
fn empty_body_on_success_is_no_value() {
    let fetched = completed(raw(200, Some("application/json"), b""));
    let result = execute_fetch::<MustNotBeCalled>(fetched);
    assert_eq!(result.status, StatusCode::Okay);
    assert!(result.response.is_none());
    assert!(result.hint.is_none());
}

#[test]
fn json_body_is_handed_on_for_deserialization() {
    let fetched = completed(raw(201, Some("application/json"), b"{\"x\":2}"));
    let result = execute_fetch::<NoMac>(fetched);
    assert_eq!(result.status, StatusCode::Created);
    assert_eq!(result.response.as_deref(), Some(&b"{\"x\":2}"[..]));
}

#[test]
fn statuses_outside_the_decodable_set_keep_their_code() {
    let fetched = completed(raw(501, Some("application/json"), b"{}"));
    let result = execute_fetch::<MustNotBeCalled>(fetched);
    assert_eq!(result.status, StatusCode::NotImplemented);
    assert!(result.response.is_none());
    let redirect = completed(raw(302, Some("application/json"), b"{}"));
    assert_eq!(execute_fetch::<MustNotBeCalled>(redirect).status, StatusCode::Undefined);
}

#[test]
fn failed_signature_check_is_a_decode_failure() {
    let fetched = completed(raw(200, Some("application/json"), b"{}"));
    let result = execute_fetch::<RejectAll>(fetched);
    assert_eq!(result.status, StatusCode::DecodeFailed);
    assert_eq!(result.hint.as_deref(), Some("Response signature is invalid."));
    let fetched = completed(raw(400, Some("application/json"), b"{}"));
    let result = execute_fetch::<CannotCheck>(fetched);
    assert_eq!(result.status, StatusCode::DecodeFailed);
    assert_eq!(
        result.hint.as_deref(),
        Some("Response signature verification failed: no key.")
    );
}

#[test]
fn signature_header_reaches_the_check() {
    let mut response = raw(200, Some("application/json"), b"{}");
    response.signature = Ok(Some("good".to_string()));
    let result = execute_fetch::<ExpectsSignature>(completed(response));
    assert_eq!(result.status, StatusCode::Okay);
    let mut response = raw(200, Some("application/json"), b"{}");
    response.signature = Ok(Some("bad".to_string()));
    let result = execute_fetch::<ExpectsSignature>(completed(response));
    assert_eq!(result.status, StatusCode::DecodeFailed);
}

#[test]
fn unreadable_headers_and_body() {
    let mut response = raw(200, Some("application/json"), b"{}");
    response.content_type = Err("closed".to_string());
    let result = execute_fetch::<NoMac>(completed(response));
    assert_eq!(result.status, StatusCode::FetchFailed);
    assert_eq!(result.hint.as_deref(), Some("Cannot decode Content-Type header: closed."));
    let mut response = raw(200, Some("application/json"), b"{}");
    response.body = None;
    let result = execute_fetch::<NoMac>(completed(response));
    assert_eq!(result.status, StatusCode::DecodeFailed);
}

#[test]
fn transport_outcomes_are_classified() {
    let pending = Request::new("http://host/a").start();
    assert_eq!(pending.wait_limit_ms(), 5000);
    let done = pending.wait_completion(TransportOutcome::TimedOut);
    assert!(done.abort);
    assert_eq!(done.response.status, StatusCode::FetchTimeout);
    assert_eq!(done.response.hint.as_deref(), Some("http://host/a"));

    let pending = Request::new("http://host/a").start();
    let done = pending.wait_completion(TransportOutcome::Failed("dns".to_string()));
    assert!(!done.abort);
    assert_eq!(done.response.status, StatusCode::FetchFailed);
    assert_eq!(done.response.hint.as_deref(), Some("Fetch start failed (dns)"));

    let mut network_error = raw(0, None, b"");
    network_error.ok = false;
    network_error.error_type = true;
    let pending = Request::new("http://host/a").start();
    let done = pending.wait_completion(TransportOutcome::Responded(network_error));
    assert_eq!(done.response.status, StatusCode::FetchFailed);
    assert_eq!(done.response.hint.as_deref(), Some("Fetch network error"));
    assert!(done.response.response.is_none());
    let failed = execute_fetch::<MustNotBeCalled>(done.response);
    assert_eq!(failed.status, StatusCode::FetchFailed);
    assert_eq!(failed.hint.as_deref(), Some("Fetch network error"));

    let pending = Request::new("http://host/a").with_timeout(None).start();
    assert_eq!(pending.wait_limit_ms(), 900_000);
}

#[test]
fn base64_bodies_are_decoded_before_the_check() {
    let decoded = decode_content::<NoMac>(MediaType::Json, true, b"aGVsbG8", None);
    assert_eq!(decoded, Ok(Some(b"hello".to_vec())));
    let malformed = decode_content::<NoMac>(MediaType::Json, true, b"@@@", None);
    assert_eq!(malformed.map_err(|e| e.0), Err(StatusCode::DecodeFailed));
    let plain = decode_content::<NoMac>(MediaType::Json, false, b"aGVsbG8", None);
    assert_eq!(plain, Ok(Some(b"aGVsbG8".to_vec())));
    let unsupported = decode_content::<MustNotBeCalled>(MediaType::Pdf, true, b"aGVsbG8", None);
    assert_eq!(unsupported, Err((StatusCode::UnsupportedMediaType, String::new())));
    let empty = decode_content::<MustNotBeCalled>(MediaType::Json, true, b"", None);
    assert_eq!(empty, Ok(None));
}

#[test]
fn deserializer_errors_become_decode_failures() {
    let step: DecodedResponse<Vec<u8>> = DecodedResponse {
        status: StatusCode::Okay,
        hint: None,
        response: Some(b"{".to_vec()),
    };
    let parsed = step.into_parsed::<u32>(Err("eof".to_string()));
    assert_eq!(parsed.status, StatusCode::DecodeFailed);
    assert_eq!(parsed.hint.as_deref(), Some("Deserialization failed: eof"));
    assert!(parsed.response.is_none());
}
