use vstd::prelude::*;
use vstd::string::*;

use crate::fetch::{PendingFetch, PendingFetchView};
use crate::mediatype::{MediaType, mime_of};

verus! {

/// Header carrying a signature over the body.
pub const HEADER_SIGNATURE: &'static str = "Content-Signature";

/// Header asking the server for a structured response.
pub const HEADER_WANTS_RESPONSE: &'static str = "Wants-Response";

pub const HEADER_ACCEPT: &'static str = "Accept";

pub const HEADER_CONTENT_TYPE: &'static str = "Content-Type";

/// Timeout of a new request, in milliseconds.
pub const DEFAULT_TIMEOUT_MS: u64 = 5000;

/// HTTP verbs; Head, Get and Options load, the others store.
#[derive(Debug, Clone, Copy, PartialEq, Eq, Structural)]
pub enum Method {
    Head,
    Get,
    Post,
    Put,
    Delete,
    Options,
}

impl Method {
    pub open spec fn spec_is_load(self) -> bool {
        matches!(self, Method::Head | Method::Get | Method::Options)
    }

    pub open spec fn spec_http_name(self) -> Seq<char> {
        match self {
            Method::Head => "HEAD"@,
            Method::Get => "GET"@,
            Method::Post => "POST"@,
            Method::Put => "PUT"@,
            Method::Delete => "DELETE"@,
            Method::Options => "OPTIONS"@,
        }
    }

    /// The verb's name as written in logs.
    pub fn as_str(&self) -> (r: &'static str)
        ensures
            r@ == (match *self {
                Method::Head => "Head"@,
                Method::Get => "Get"@,
                Method::Post => "Post"@,
                Method::Put => "Put"@,
                Method::Delete => "Delete"@,
                Method::Options => "Options"@,
            }),
    {
        match self {
            Method::Head => "Head",
            Method::Get => "Get",
            Method::Post => "Post",
            Method::Put => "Put",
            Method::Delete => "Delete",
            Method::Options => "Options",
        }
    }

    /// The verb as sent on the wire.
    pub fn http_name(&self) -> (r: &'static str)
        ensures
            r@ == self.spec_http_name(),
    {
        match self {
            Method::Head => "HEAD",
            Method::Get => "GET",
            Method::Post => "POST",
            Method::Put => "PUT",
            Method::Delete => "DELETE",
            Method::Options => "OPTIONS",
        }
    }

    /// Head, Get and Options are load verbs.
    pub fn is_load(&self) -> (r: bool)
        ensures
            r == self.spec_is_load(),
    {
        matches!(self, Method::Head | Method::Get | Method::Options)
    }
}

pub type HeaderView = (Seq<char>, Seq<char>);

pub open spec fn headers_view(v: Seq<(String, String)>) -> Seq<HeaderView> {
    v.map_values(|h: (String, String)| (h.0@, h.1@))
}

/// A request as a value.
pub struct RequestView {
    pub logging: bool,
    pub method: Method,
    pub is_load: bool,
    pub url: Seq<char>,
    pub headers: Option<Seq<HeaderView>>,
    pub media_type: Option<MediaType>,
    pub body: Option<Seq<u8>>,
    pub wants_response: bool,
    pub timeout_ms: Option<u64>,
}

/// Description of one outbound call, consumed by `start`.
pub struct Request {
    logging: bool,
    method: Method,
    is_load: bool,
    url: String,
    headers: Option<Vec<(String, String)>>,
    media_type: Option<MediaType>,
    body: Option<Vec<u8>>,
    wants_response: bool,
    timeout_ms: Option<u64>,
}

impl View for Request {
    type V = RequestView;

    closed spec fn view(&self) -> RequestView {
        RequestView {
            logging: self.logging,
            method: self.method,
            is_load: self.is_load,
            url: self.url@,
            headers: match self.headers {
                Some(h) => Some(headers_view(h@)),
                None => None,
            },
            media_type: self.media_type,
            body: match self.body {
                Some(b) => Some(b@),
                None => None,
            },
            wants_response: self.wants_response,
            timeout_ms: self.timeout_ms,
        }
    }
}

/// The header list after one more header.
pub open spec fn pushed_header(h: Option<Seq<HeaderView>>, name: Seq<char>, value: Seq<char>) -> Option<
    Seq<HeaderView>,
> {
    match h {
        Some(s) => Some(s.push((name, value))),
        None => Some(seq![(name, value)]),
    }
}

/// The structured type that a requested encoding falls back to: JSON is the
/// codec this library speaks, any other type degrades to it.
pub open spec fn supported_encoding(m: MediaType) -> MediaType {
    MediaType::Json
}

impl Request {
    /// A logged GET load of `url` with the default timeout.
    pub fn new(url: &str) -> (r: Request)
        ensures
            r@ == (RequestView {
                logging: true,
                method: Method::Get,
                is_load: true,
                url: url@,
                headers: None,
                media_type: None,
                body: None,
                wants_response: false,
                timeout_ms: Some(DEFAULT_TIMEOUT_MS),
            }),
    {
        Request {
            logging: true,
            method: Method::Get,
            is_load: true,
            url: String::from_str(url),
            headers: None,
            media_type: None,
            body: None,
            wants_response: false,
            timeout_ms: Some(DEFAULT_TIMEOUT_MS),
        }
    }

    pub fn with_logging(self, logging: bool) -> (r: Request)
        ensures
            r@ == (RequestView { logging, ..self@ }),
    {
        Request { logging, ..self }
    }

    pub fn with_method(self, method: Method) -> (r: Request)
        ensures
            r@ == (RequestView { method, ..self@ }),
    {
        Request { method, ..self }
    }

    /// Appends one header.
    pub fn with_header(self, name: &str, value: &str) -> (r: Request)
        ensures
            r@ == (RequestView { headers: pushed_header(self@.headers, name@, value@), ..self@ }),
    {
        let mut headers = match self.headers {
            Some(h) => h,
            None => Vec::new(),
        };
        let ghost before = headers@;
        headers.push((String::from_str(name), String::from_str(value)));
        proof {
            assert(headers_view(headers@) =~= headers_view(before).push((name@, value@)));
            if self.headers is None {
                assert(headers_view(before) =~= Seq::<HeaderView>::empty());
                assert(headers_view(headers@) =~= seq![(name@, value@)]);
            }
        }
        Request { headers: Some(headers), ..self }
    }

    /// Replaces the whole header list.
    pub fn with_headers(self, headers: Option<Vec<(String, String)>>) -> (r: Request)
        ensures
            r@ == (RequestView {
                headers: match headers {
                    Some(h) => Some(headers_view(h@)),
                    None => None,
                },
                ..self@
            }),
    {
        Request { headers, ..self }
    }

    /// Declares the media type of the body and sends it as Content-Type.
    pub fn with_media_type(self, media_type: MediaType) -> (r: Request)
        ensures
            r@ == (RequestView {
                media_type: Some(media_type),
                headers: pushed_header(self@.headers, "Content-Type"@, mime_of(media_type)),
                ..self@
            }),
    {
        let r = Request { media_type: Some(media_type), ..self };
        r.with_header(HEADER_CONTENT_TYPE, media_type.as_str())
    }

    pub fn with_body(self, body: Vec<u8>) -> (r: Request)
        ensures
            r@ == (RequestView { body: Some(body@), ..self@ }),
    {
        Request { body: Some(body), ..self }
    }

    /// Sets the load or store bookkeeping independently of the verb.
    pub fn with_is_load(self, is_load: bool) -> (r: Request)
        ensures
            r@ == (RequestView { is_load, ..self@ }),
    {
        Request { is_load, ..self }
    }

    /// Sets the timeout in milliseconds; `None` waits for the transport's own limit.
    pub fn with_timeout(self, timeout_ms: Option<u64>) -> (r: Request)
        ensures
            r@ == (RequestView { timeout_ms, ..self@ }),
    {
        Request { timeout_ms, ..self }
    }

    /// Sends and accepts the given structured encoding, without asking for a
    /// response body; an unsupported type degrades to JSON.
    pub fn encoding(self, media_type: MediaType) -> (r: Request)
        ensures
            r@ == (RequestView {
                media_type: Some(supported_encoding(media_type)),
                wants_response: false,
                headers: pushed_header(
                    pushed_header(
                        self@.headers,
                        "Content-Type"@,
                        mime_of(supported_encoding(media_type)),
                    ),
                    "Accept"@,
                    mime_of(supported_encoding(media_type)),
                ),
                ..self@
            }),
    {
        let media_type = MediaType::Json;
        let r = Request { wants_response: false, ..self };
        r.with_media_type(media_type).with_header(HEADER_ACCEPT, media_type.as_str())
    }

    /// As `encoding`, and asks the server for a structured response.
    pub fn encoding_with_response(self, media_type: MediaType) -> (r: Request)
        ensures
            r@ == (RequestView {
                media_type: Some(supported_encoding(media_type)),
                wants_response: true,
                headers: pushed_header(
                    pushed_header(
                        pushed_header(
                            self@.headers,
                            "Content-Type"@,
                            mime_of(supported_encoding(media_type)),
                        ),
                        "Accept"@,
                        mime_of(supported_encoding(media_type)),
                    ),
                    "Wants-Response"@,
                    "1"@,
                ),
                ..self@
            }),
    {
        let media_type = MediaType::Json;
        let r = Request { wants_response: true, ..self };
        r.with_media_type(media_type).with_header(HEADER_ACCEPT, media_type.as_str()).with_header(
            HEADER_WANTS_RESPONSE,
            "1",
        )
    }

    pub fn json(self) -> (r: Request)
        ensures
            r@ == (RequestView {
                media_type: Some(MediaType::Json),
                wants_response: false,
                headers: pushed_header(
                    pushed_header(self@.headers, "Content-Type"@, "application/json"@),
                    "Accept"@,
                    "application/json"@,
                ),
                ..self@
            }),
    {
        self.encoding(MediaType::Json)
    }

    pub fn json_with_response(self) -> (r: Request)
        ensures
            r@ == (RequestView {
                media_type: Some(MediaType::Json),
                wants_response: true,
                headers: pushed_header(
                    pushed_header(
                        pushed_header(self@.headers, "Content-Type"@, "application/json"@),
                        "Accept"@,
                        "application/json"@,
                    ),
                    "Wants-Response"@,
                    "1"@,
                ),
                ..self@
            }),
    {
        self.encoding_with_response(MediaType::Json)
    }

    pub fn create(self) -> (r: Request)
        ensures
            r@ == (RequestView { method: Method::Post, ..self@ }),
    {
        self.with_method(Method::Post)
    }

    pub fn retrieve(self) -> (r: Request)
        ensures
            r@ == (RequestView { method: Method::Get, ..self@ }),
    {
        self.with_method(Method::Get)
    }

    pub fn update(self) -> (r: Request)
        ensures
            r@ == (RequestView { method: Method::Put, ..self@ }),
    {
        self.with_method(Method::Put)
    }

    pub fn delete(self) -> (r: Request)
        ensures
            r@ == (RequestView { method: Method::Delete, ..self@ }),
    {
        self.with_method(Method::Delete)
    }

    pub fn execute(self) -> (r: Request)
        ensures
            r@ == (RequestView { method: Method::Post, ..self@ }),
    {
        self.with_method(Method::Post)
    }

    pub fn logging(&self) -> (r: bool)
        ensures
            r == self@.logging,
    {
        self.logging
    }

    pub fn method(&self) -> (r: Method)
        ensures
            r == self@.method,
    {
        self.method
    }

    pub fn is_load(&self) -> (r: bool)
        ensures
            r == self@.is_load,
    {
        self.is_load
    }

    pub fn url(&self) -> (r: &str)
        ensures
            r@ == self@.url,
    {
        self.url.as_str()
    }

    pub fn media_type(&self) -> (r: Option<MediaType>)
        ensures
            r == self@.media_type,
    {
        self.media_type
    }

    pub fn wants_response(&self) -> (r: bool)
        ensures
            r == self@.wants_response,
    {
        self.wants_response
    }

    pub fn timeout(&self) -> (r: Option<u64>)
        ensures
            r == self@.timeout_ms,
    {
        self.timeout_ms
    }

    /// Consumes the request: the verb, intent, URL, header list (empty where
    /// none was set), body and timeout go to the transport.
    pub fn start(self) -> (r: PendingFetch)
        ensures
            r@ == (PendingFetchView {
                method: self@.method,
                is_load: self@.is_load,
                url: self@.url,
                headers: match self@.headers {
                    Some(h) => h,
                    None => Seq::<HeaderView>::empty(),
                },
                body: self@.body,
                timeout_ms: self@.timeout_ms,
            }),
    {
        let headers = match self.headers {
            Some(h) => h,
            None => Vec::new(),
        };
        assert(self.headers is None ==> headers_view(headers@) =~= Seq::<HeaderView>::empty());
        PendingFetch::new(self.method, self.is_load, self.url, headers, self.body, self.timeout_ms)
    }
}

} // verus!
