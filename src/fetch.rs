use vstd::prelude::*;
use vstd::string::*;

use crate::mac::MacVerify;
use crate::mediatype::{MediaType, media_type_of};
use crate::request::{HeaderView, Method, headers_view};
use crate::statuscode::{StatusCode, status_of_code};

verus! {

/// How long a fetch without a timeout of its own may take, in milliseconds.
pub const TRANSPORT_LIMIT_MS: u64 = 900_000;

/// A started request: what the transport sends and how long it may take.
pub struct PendingFetch {
    method: Method,
    is_load: bool,
    url: String,
    headers: Vec<(String, String)>,
    body: Option<Vec<u8>>,
    timeout_ms: Option<u64>,
}

/// A started request as a value.
pub struct PendingFetchView {
    pub method: Method,
    pub is_load: bool,
    pub url: Seq<char>,
    pub headers: Seq<HeaderView>,
    pub body: Option<Seq<u8>>,
    pub timeout_ms: Option<u64>,
}

impl View for PendingFetch {
    type V = PendingFetchView;

    closed spec fn view(&self) -> PendingFetchView {
        PendingFetchView {
            method: self.method,
            is_load: self.is_load,
            url: self.url@,
            headers: headers_view(self.headers@),
            body: match self.body {
                Some(b) => Some(b@),
                None => None,
            },
            timeout_ms: self.timeout_ms,
        }
    }
}

/// What the response of a completed transport call holds, as read by the
/// transport: the numeric status, whether the response reports success and
/// whether it is a network-error response, the two headers the decoder
/// reads (or the transport's error reading them), and the body bytes (or
/// `None` where the body could not be read).
pub struct RawResponse {
    pub status: u16,
    pub ok: bool,
    pub error_type: bool,
    pub content_type: Result<Option<String>, String>,
    pub signature: Result<Option<String>, String>,
    pub body: Option<Vec<u8>>,
}

/// How the race between the transport and the timeout ended.
pub enum TransportOutcome {
    Responded(RawResponse),
    Failed(String),
    TimedOut,
}

/// Types that can be read from the bytes of a decoded response.
pub trait FetchDeserializable: Sized {
    fn try_from_json(json: &[u8]) -> Result<Self, String>;
}

/// A status with an optional diagnostic hint and, where one was obtained,
/// the response itself.
pub struct DecodedResponse<R> {
    pub status: StatusCode,
    pub hint: Option<String>,
    pub response: Option<R>,
}

/// The result of waiting for a transport call: the classified response and
/// whether the transport call must now be aborted.
pub struct Completion {
    pub response: DecodedResponse<RawResponse>,
    pub abort: bool,
}

pub open spec fn hint_view(h: Option<String>) -> Option<Seq<char>> {
    match h {
        Some(s) => Some(s@),
        None => None,
    }
}

pub open spec fn bytes_view(b: Option<Vec<u8>>) -> Option<Seq<u8>> {
    match b {
        Some(v) => Some(v@),
        None => None,
    }
}

/// A decoded outcome as a value: the status, the hint and the payload.
pub type OutcomeView = (StatusCode, Option<Seq<char>>, Option<Seq<u8>>);

pub open spec fn outcome_view(r: DecodedResponse<Vec<u8>>) -> OutcomeView {
    (r.status, hint_view(r.hint), bytes_view(r.response))
}

/// What decoding a body gives: `Ok(None)` for no body, `Ok(Some(bytes))`
/// for bytes ready to deserialize, or a status with a hint.
pub type DecodeView = Result<Option<Seq<u8>>, (StatusCode, Seq<char>)>;

pub open spec fn decode_view(r: Result<Option<Vec<u8>>, (StatusCode, String)>) -> DecodeView {
    match r {
        Ok(b) => Ok(bytes_view(b)),
        Err((s, h)) => Err((s, h@)),
    }
}

pub open spec fn verify_view(v: Result<bool, String>) -> Result<bool, Seq<char>> {
    match v {
        Ok(b) => Ok(b),
        Err(e) => Err(e@),
    }
}

/// The statuses whose bodies are decoded.
pub open spec fn decodable(s: StatusCode) -> bool {
    matches!(
        s,
        StatusCode::Okay | StatusCode::Created | StatusCode::NoContent | StatusCode::BadRequest
            | StatusCode::Forbidden | StatusCode::InternalServerError | StatusCode::NotFound
            | StatusCode::PayloadTooBig | StatusCode::RateLimited | StatusCode::Unauthorized
    )
}

/// The media types that a codec of this library deserializes.
pub open spec fn structured(m: MediaType) -> bool {
    m == MediaType::Json
}

/// The decoded bytes of base64 text without padding, or `None` where the
/// text is not such base64.
pub uninterp spec fn base64_no_pad_decoded(text: Seq<u8>) -> Option<Seq<u8>>;

/// What a signature check's outcome makes of the data.
pub open spec fn signature_outcome(data: Seq<u8>, v: Result<bool, Seq<char>>) -> DecodeView {
    match v {
        Ok(true) => Ok(Some(data)),
        Ok(false) => Err((StatusCode::DecodeFailed, "Response signature is invalid."@)),
        Err(e) => Err((StatusCode::DecodeFailed, "Response signature verification failed: "@ + e + "."@)),
    }
}

/// Decoding a body of the given media type: unsupported types are refused
/// before anything else, an empty body is no body, base64 is undone where
/// asked (`e` stands for the decoder's error text), and the data must pass
/// the signature check whose outcome is `v`.
pub open spec fn spec_decode_content(
    media_type: MediaType,
    decode_base64: bool,
    content: Seq<u8>,
    v: Result<bool, Seq<char>>,
    e: Seq<char>,
) -> DecodeView {
    if !structured(media_type) {
        Err((StatusCode::UnsupportedMediaType, Seq::empty()))
    } else if content.len() == 0 {
        Ok(None)
    } else if decode_base64 {
        match base64_no_pad_decoded(content) {
            Some(data) => signature_outcome(data, v),
            None => Err((StatusCode::DecodeFailed, e)),
        }
    } else {
        signature_outcome(content, v)
    }
}

/// The media type named by a response's Content-Type; a missing header reads as plain text.
pub open spec fn response_media(content_type: Option<String>) -> MediaType {
    match content_type {
        Some(c) => media_type_of(c@),
        None => MediaType::Plain,
    }
}

/// The decoding step of a completed fetch, for signature outcome `v`.
pub open spec fn spec_execute(fetched: DecodedResponse<RawResponse>, v: Result<bool, Seq<char>>) -> OutcomeView {
    match fetched.response {
        None => (fetched.status, hint_view(fetched.hint), None),
        Some(raw) => if !decodable(fetched.status) {
            (fetched.status, hint_view(fetched.hint), None)
        } else {
            match raw.content_type {
                Err(x) => (StatusCode::FetchFailed, Some("Cannot decode Content-Type header: "@ + x@ + "."@), None),
                Ok(ct) => match raw.signature {
                    Err(x) => (
                        StatusCode::FetchFailed,
                        Some("Cannot decode Content-Signature header: "@ + x@ + "."@),
                        None,
                    ),
                    Ok(sig) => match raw.body {
                        None => (StatusCode::DecodeFailed, Some("Response body could not be read."@), None),
                        Some(b) => match spec_decode_content(response_media(ct), false, b@, v, Seq::empty()) {
                            Ok(None) => (fetched.status, None, None),
                            Ok(Some(d)) => (fetched.status, None, Some(d)),
                            Err((s, h)) => (s, Some(h), None),
                        },
                    },
                },
            }
        },
    }
}

/// Relies on base64's `Engine::decode` with the `STANDARD_NO_PAD` engine:
/// the outcome depends on the input bytes alone.
#[verifier::external_body]
fn decode_base64_no_pad(data: &[u8]) -> (r: Result<Vec<u8>, String>)
    ensures
        match r {
            Ok(v) => base64_no_pad_decoded(data@) == Some(v@),
            Err(_) => base64_no_pad_decoded(data@) is None,
        },
{
    base64::Engine::decode(&base64::engine::general_purpose::STANDARD_NO_PAD, data).map_err(
        |error| error.to_string(),
    )
}

fn concat3(a: &str, b: &str, c: &str) -> (r: String)
    ensures
        r@ == a@ + b@ + c@,
{
    let mut s = String::from_str(a);
    s.append(b);
    s.append(c);
    s
}

impl<R> DecodedResponse<R> {
    /// A status alone.
    pub fn new(status: StatusCode) -> (r: DecodedResponse<R>)
        ensures
            r.status == status,
            r.hint is None,
            r.response is None,
    {
        DecodedResponse { status, hint: None, response: None }
    }

    /// The same status and hint, without the response.
    pub fn cast_failure<U>(self) -> (r: DecodedResponse<U>)
        ensures
            r.status == self.status,
            r.hint == self.hint,
            r.response is None,
    {
        DecodedResponse { status: self.status, hint: self.hint, response: None }
    }
}

impl DecodedResponse<Vec<u8>> {
    /// Completes a decoding step whose bytes were handed to a deserializer:
    /// a parsed value keeps the status; a deserializer error becomes
    /// DecodeFailed with the error's text in the hint.
    pub fn into_parsed<R>(self, parsed: Result<R, String>) -> (r: DecodedResponse<R>)
        ensures
            match parsed {
                Ok(v) => r.status == self.status && r.hint == self.hint && r.response == Some(v),
                Err(e) => r.status == StatusCode::DecodeFailed && hint_view(r.hint) == Some(
                    "Deserialization failed: "@ + e@,
                ) && r.response is None,
            },
    {
        match parsed {
            Ok(v) => DecodedResponse { status: self.status, hint: self.hint, response: Some(v) },
            Err(e) => {
                let mut h = String::from_str("Deserialization failed: ");
                h.append(e.as_str());
                DecodedResponse { status: StatusCode::DecodeFailed, hint: Some(h), response: None }
            },
        }
    }

    /// Deserializes the payload, if there is one, with `R`: as
    /// `into_parsed` for whatever `R` returns; without a payload the status
    /// and hint stay and nothing is deserialized.
    pub fn deserialize<R: FetchDeserializable>(self) -> (r: DecodedResponse<R>)
        ensures
            self.response is None ==> r.status == self.status && r.hint == self.hint && r.response is None,
            self.response is Some ==> (r.status == self.status && r.hint == self.hint && r.response is Some) || (
            r.status == StatusCode::DecodeFailed && r.response is None && exists|e: Seq<char>|
                hint_view(r.hint) == Some(#[trigger] ("Deserialization failed: "@ + e))),
    {
        match &self.response {
            Some(bytes) => {
                let parsed = R::try_from_json(bytes.as_slice());
                let ghost e = if parsed is Err {
                    parsed->Err_0@
                } else {
                    Seq::<char>::empty()
                };
                let r = self.into_parsed(parsed);
                assert(r.status == StatusCode::DecodeFailed ==> hint_view(r.hint) == Some("Deserialization failed: "@ + e)
                    || r.response is Some);
                r
            },
            None => self.cast_failure(),
        }
    }
}

impl PendingFetch {
    pub fn new(
        method: Method,
        is_load: bool,
        url: String,
        headers: Vec<(String, String)>,
        body: Option<Vec<u8>>,
        timeout_ms: Option<u64>,
    ) -> (r: PendingFetch)
        ensures
            r@ == (PendingFetchView {
                method,
                is_load,
                url: url@,
                headers: headers_view(headers@),
                body: bytes_view(body),
                timeout_ms,
            }),
    {
        PendingFetch { method, is_load, url, headers, body, timeout_ms }
    }

    pub fn method(&self) -> (r: Method)
        ensures
            r == self@.method,
    {
        self.method
    }

    pub fn is_load(&self) -> (r: bool)
        ensures
            r == self@.is_load,
    {
        self.is_load
    }

    pub fn url(&self) -> (r: &str)
        ensures
            r@ == self@.url,
    {
        self.url.as_str()
    }

    pub fn headers(&self) -> (r: &[(String, String)])
        ensures
            headers_view(r@) == self@.headers,
    {
        self.headers.as_slice()
    }

    pub fn body(&self) -> (r: Option<&[u8]>)
        ensures
            match r {
                Some(b) => self@.body == Some(b@),
                None => self@.body is None,
            },
    {
        match &self.body {
            Some(b) => Some(b.as_slice()),
            None => None,
        }
    }

    /// How long the transport may take before the fetch times out.
    pub fn wait_limit_ms(&self) -> (r: u64)
        ensures
            r == match self@.timeout_ms {
                Some(t) => t,
                None => TRANSPORT_LIMIT_MS,
            },
    {
        match self.timeout_ms {
            Some(t) => t,
            None => TRANSPORT_LIMIT_MS,
        }
    }

    /// Classifies how the race between the transport and the timeout ended.
    /// A network-error response and a transport error give FetchFailed, a
    /// timeout gives FetchTimeout with the URL as hint and asks for the
    /// transport call to be aborted; any other response keeps its status.
    pub fn wait_completion(self, outcome: TransportOutcome) -> (r: Completion)
        ensures
            r.abort == (outcome is TimedOut),
            match outcome {
                TransportOutcome::Responded(raw) => if !raw.ok && raw.error_type {
                    r.response.status == StatusCode::FetchFailed && hint_view(r.response.hint)
                        == Some("Fetch network error"@) && r.response.response is None
                } else {
                    r.response.status == status_of_code(raw.status) && r.response.hint is None
                        && r.response.response == Some(raw)
                },
                TransportOutcome::Failed(e) => r.response.status == StatusCode::FetchFailed
                    && hint_view(r.response.hint) == Some("Fetch start failed ("@ + e@ + ")"@)
                    && r.response.response is None,
                TransportOutcome::TimedOut => r.response.status == StatusCode::FetchTimeout
                    && hint_view(r.response.hint) == Some(self@.url) && r.response.response is None,
            },
    {
        match outcome {
            TransportOutcome::Responded(raw) => {
                if !raw.ok && raw.error_type {
                    Completion {
                        response: DecodedResponse {
                            status: StatusCode::FetchFailed,
                            hint: Some(String::from_str("Fetch network error")),
                            response: None,
                        },
                        abort: false,
                    }
                } else {
                    Completion {
                        response: DecodedResponse {
                            status: StatusCode::from_code(raw.status),
                            hint: None,
                            response: Some(raw),
                        },
                        abort: false,
                    }
                }
            },
            TransportOutcome::Failed(e) => Completion {
                response: DecodedResponse {
                    status: StatusCode::FetchFailed,
                    hint: Some(concat3("Fetch start failed (", e.as_str(), ")")),
                    response: None,
                },
                abort: false,
            },
            TransportOutcome::TimedOut => Completion {
                response: DecodedResponse { status: StatusCode::FetchTimeout, hint: Some(self.url), response: None },
                abort: true,
            },
        }
    }
}

/// A result callback that ignores the status.
pub fn none(status: StatusCode) {
}

/// Whether bodies are decoded for this status.
pub fn is_decodable(status: StatusCode) -> (r: bool)
    ensures
        r == decodable(status),
{
    matches!(
        status,
        StatusCode::Okay | StatusCode::Created | StatusCode::NoContent | StatusCode::BadRequest
            | StatusCode::Forbidden | StatusCode::InternalServerError | StatusCode::NotFound
            | StatusCode::PayloadTooBig | StatusCode::RateLimited | StatusCode::Unauthorized
    )
}

/// What the outcome of a signature check makes of the data: accepted data
/// is kept, a rejection or a failed check gives DecodeFailed.
pub fn check_signature(data: Vec<u8>, outcome: Result<bool, String>) -> (r: Result<
    Option<Vec<u8>>,
    (StatusCode, String),
>)
    ensures
        decode_view(r) == signature_outcome(data@, verify_view(outcome)),
{
    match outcome {
        Ok(true) => Ok(Some(data)),
        Ok(false) => Err((StatusCode::DecodeFailed, String::from_str("Response signature is invalid."))),
        Err(e) => Err(
            (
                StatusCode::DecodeFailed,
                concat3("Response signature verification failed: ", e.as_str(), "."),
            ),
        ),
    }
}

/// Turns a response body into bytes ready to deserialize, checking its
/// media type, undoing base64 where asked and checking its signature with
/// `MV`. The result is `spec_decode_content` for the outcome that `MV`
/// gave; an unsupported media type and an empty body never reach `MV`.
pub fn decode_content<MV: MacVerify>(
    media_type: MediaType,
    decode_base64: bool,
    content: &[u8],
    signature: Option<&str>,
) -> (r: Result<Option<Vec<u8>>, (StatusCode, String)>)
    ensures
        exists|v: Result<bool, Seq<char>>, e: Seq<char>|
            decode_view(r) == spec_decode_content(media_type, decode_base64, content@, v, e),
        !structured(media_type) ==> decode_view(r) == Err::<Option<Seq<u8>>, (StatusCode, Seq<char>)>(
            (StatusCode::UnsupportedMediaType, Seq::empty()),
        ),
        structured(media_type) && content@.len() == 0 ==> r == Ok::<Option<Vec<u8>>, (StatusCode, String)>(None),
{
    if media_type != MediaType::Json {
        let r = Err((StatusCode::UnsupportedMediaType, String::new()));
        assert(decode_view(r) == spec_decode_content(media_type, decode_base64, content@, Ok(true), Seq::empty()));
        return r;
    }
    if content.len() == 0 {
        let r = Ok(None);
        assert(decode_view(r) == spec_decode_content(media_type, decode_base64, content@, Ok(true), Seq::empty()));
        return r;
    }
    let data = if decode_base64 {
        match decode_base64_no_pad(content) {
            Ok(d) => d,
            Err(e) => {
                let r = Err((StatusCode::DecodeFailed, e));
                assert(decode_view(r) == spec_decode_content(media_type, decode_base64, content@, Ok(true), e@));
                return r;
            },
        }
    } else {
        vstd::slice::slice_to_vec(content)
    };
    let outcome = MV::verify(data.as_slice(), signature);
    let ghost v = verify_view(outcome);
    let r = check_signature(data, outcome);
    assert(decode_view(r) == spec_decode_content(media_type, decode_base64, content@, v, Seq::empty()));
    r
}

/// Decodes a completed fetch: a failure without a response passes through,
/// statuses outside the decodable set keep their status without a decode,
/// and for the others the Content-Type picks the codec, the signature
/// header is checked with `MV`, and the body becomes bytes ready to
/// deserialize. The result is `spec_execute` for the outcome that `MV` gave.
pub fn execute_fetch<MV: MacVerify>(fetched: DecodedResponse<RawResponse>) -> (r: DecodedResponse<Vec<u8>>)
    ensures
        exists|v: Result<bool, Seq<char>>| outcome_view(r) == spec_execute(fetched, v),
{
    let ghost f = fetched;
    let status = fetched.status;
    let hint = fetched.hint;
    let raw = match fetched.response {
        Some(raw) => raw,
        None => {
            let r = DecodedResponse { status, hint, response: None };
            assert(outcome_view(r) == spec_execute(f, Ok(true)));
            return r;
        },
    };
    if !is_decodable(status) {
        let r = DecodedResponse { status, hint, response: None };
        assert(outcome_view(r) == spec_execute(f, Ok(true)));
        return r;
    }
    let content_type = match raw.content_type {
        Ok(ct) => ct,
        Err(x) => {
            let r = DecodedResponse {
                status: StatusCode::FetchFailed,
                hint: Some(concat3("Cannot decode Content-Type header: ", x.as_str(), ".")),
                response: None,
            };
            assert(outcome_view(r) == spec_execute(f, Ok(true)));
            return r;
        },
    };
    let signature = match raw.signature {
        Ok(sig) => sig,
        Err(x) => {
            let r = DecodedResponse {
                status: StatusCode::FetchFailed,
                hint: Some(concat3("Cannot decode Content-Signature header: ", x.as_str(), ".")),
                response: None,
            };
            assert(outcome_view(r) == spec_execute(f, Ok(true)));
            return r;
        },
    };
    let body = match raw.body {
        Some(b) => b,
        None => {
            let r = DecodedResponse {
                status: StatusCode::DecodeFailed,
                hint: Some(String::from_str("Response body could not be read.")),
                response: None,
            };
            assert(outcome_view(r) == spec_execute(f, Ok(true)));
            return r;
        },
    };
    let media_type = match &content_type {
        Some(ct) => MediaType::from_mime(ct.as_str()),
        None => MediaType::Plain,
    };
    let decoded = match &signature {
        Some(sig) => decode_content::<MV>(media_type, false, body.as_slice(), Some(sig.as_str())),
        None => decode_content::<MV>(media_type, false, body.as_slice(), None),
    };
    let ghost (v, e) = choose|v: Result<bool, Seq<char>>, e: Seq<char>|
        decode_view(decoded) == spec_decode_content(media_type, false, body@, v, e);
    assert(spec_decode_content(media_type, false, body@, v, e) == spec_decode_content(
        media_type,
        false,
        body@,
        v,
        Seq::empty(),
    ));
    let r = match decoded {
        Ok(None) => DecodedResponse { status, hint: None, response: None },
        Ok(Some(d)) => DecodedResponse { status, hint: None, response: Some(d) },
        Err((s, h)) => DecodedResponse { status: s, hint: Some(h), response: None },
    };
    assert(outcome_view(r) == spec_execute(f, v));
    r
}

/// An unrecognized media type on a decodable response gives
/// UnsupportedMediaType whatever the signature check would say, and an
/// empty body on a decodable response gives its status with no payload.
pub proof fn lemma_decode_outcomes(fetched: DecodedResponse<RawResponse>, v: Result<bool, Seq<char>>)
    requires
        fetched.response is Some,
        decodable(fetched.status),
        fetched.response->Some_0.content_type is Ok,
        fetched.response->Some_0.signature is Ok,
        fetched.response->Some_0.body is Some,
    ensures
        !structured(response_media(fetched.response->Some_0.content_type->Ok_0)) ==> spec_execute(
            fetched,
            v,
        ) == (StatusCode::UnsupportedMediaType, Some(Seq::<char>::empty()), None::<Seq<u8>>),
        structured(response_media(fetched.response->Some_0.content_type->Ok_0))
            && fetched.response->Some_0.body->Some_0@.len() == 0 ==> spec_execute(fetched, v) == (
            fetched.status,
            None::<Seq<char>>,
            None::<Seq<u8>>,
        ),
{
}

} // verus!
