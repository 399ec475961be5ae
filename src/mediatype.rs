use vstd::prelude::*;
use vstd::string::*;

verus! {

/// The media types this client can name in a Content-Type or Accept header.
#[derive(Debug, Clone, Copy, PartialEq, Eq, Hash, Structural)]
pub enum MediaType {
    ByteStream,
    Cbor,
    Css,
    Form,
    FormMultipart,
    Html,
    Ico,
    Javascript,
    Jpeg,
    Json,
    Pdf,
    Plain,
    Png,
    Postcard,
    Pwg,
    Sse,
    Svg,
    Urf,
    Wasm,
    Xml,
    Xlsx,
    Zip,
    Zip7,
}

/// The MIME name written for a media type.
pub open spec fn mime_of(m: MediaType) -> Seq<char> {
    match m {
        MediaType::ByteStream => "application/octet-stream"@,
        MediaType::Cbor => "application/cbor"@,
        MediaType::Css => "text/css"@,
        MediaType::Form => "application/x-www-form-urlencoded"@,
        MediaType::FormMultipart => "multipart/form-data"@,
        MediaType::Html => "text/html"@,
        MediaType::Ico => "image/x-icon"@,
        MediaType::Javascript => "application/javascript"@,
        MediaType::Jpeg => "image/jpeg"@,
        MediaType::Json => "application/json"@,
        MediaType::Pdf => "application/pdf"@,
        MediaType::Plain => "text/plain"@,
        MediaType::Png => "image/png"@,
        MediaType::Postcard => "application/x-postcard"@,
        MediaType::Pwg => "image/pwg-raster"@,
        MediaType::Sse => "text/event-stream"@,
        MediaType::Svg => "image/svg+xml"@,
        MediaType::Urf => "image/urf"@,
        MediaType::Wasm => "application/wasm"@,
        MediaType::Xml => "application/xml"@,
        MediaType::Xlsx => "application/vnd.openxmlformats-officedocument.spreadsheetml.sheet"@,
        MediaType::Zip => "application/zip"@,
        MediaType::Zip7 => "application/x-7z-compressed"@,
    }
}

/// The media type a MIME name stands for; names without a type of their own,
/// `text/plain` among them, give the default `ByteStream`.
pub open spec fn media_type_of(mime: Seq<char>) -> MediaType {
    if mime == "application/octet-stream"@ {
        MediaType::ByteStream
    } else if mime == "application/cbor"@ {
        MediaType::Cbor
    } else if mime == "text/css"@ {
        MediaType::Css
    } else if mime == "application/x-www-form-urlencoded"@ {
        MediaType::Form
    } else if mime == "multipart/form-data"@ {
        MediaType::FormMultipart
    } else if mime == "text/html"@ {
        MediaType::Html
    } else if mime == "image/x-icon"@ {
        MediaType::Ico
    } else if mime == "application/javascript"@ {
        MediaType::Javascript
    } else if mime == "image/jpeg"@ {
        MediaType::Jpeg
    } else if mime == "application/json"@ {
        MediaType::Json
    } else if mime == "application/pdf"@ {
        MediaType::Pdf
    } else if mime == "image/png"@ {
        MediaType::Png
    } else if mime == "application/x-postcard"@ {
        MediaType::Postcard
    } else if mime == "image/pwg-raster"@ {
        MediaType::Pwg
    } else if mime == "text/event-stream"@ {
        MediaType::Sse
    } else if mime == "image/svg+xml"@ {
        MediaType::Svg
    } else if mime == "image/urf"@ {
        MediaType::Urf
    } else if mime == "application/wasm"@ {
        MediaType::Wasm
    } else if mime == "application/xml"@ {
        MediaType::Xml
    } else if mime == "application/vnd.openxmlformats-officedocument.spreadsheetml.sheet"@ {
        MediaType::Xlsx
    } else if mime == "application/zip"@ {
        MediaType::Zip
    } else if mime == "application/x-zip-compressed"@ {
        MediaType::Zip
    } else if mime == "application/x-7z-compressed"@ {
        MediaType::Zip7
    } else {
        MediaType::ByteStream
    }
}

/// Whether two strings hold the same characters.
pub fn str_equal(a: &str, b: &str) -> (r: bool)
    ensures
        r == (a@ == b@),
{
    let n = a.unicode_len();
    if n != b.unicode_len() {
        return false;
    }
    let mut i: usize = 0;
    while i < n
        invariant
            n == a@.len(),
            n == b@.len(),
            i <= n,
            a@.subrange(0, i as int) == b@.subrange(0, i as int),
        decreases n - i,
    {
        if a.get_char(i) != b.get_char(i) {
            return false;
        }
        assert(a@.subrange(0, i + 1) == a@.subrange(0, i as int).push(a@[i as int]));
        assert(b@.subrange(0, i + 1) == b@.subrange(0, i as int).push(b@[i as int]));
        i = i + 1;
    }
    assert(a@ == a@.subrange(0, n as int));
    assert(b@ == b@.subrange(0, n as int));
    true
}

impl MediaType {
    /// The MIME name of this media type.
    pub fn as_str(&self) -> (r: &'static str)
        ensures
            r@ == mime_of(*self),
    {
        match self {
            MediaType::ByteStream => "application/octet-stream",
            MediaType::Cbor => "application/cbor",
            MediaType::Css => "text/css",
            MediaType::Form => "application/x-www-form-urlencoded",
            MediaType::FormMultipart => "multipart/form-data",
            MediaType::Html => "text/html",
            MediaType::Ico => "image/x-icon",
            MediaType::Javascript => "application/javascript",
            MediaType::Jpeg => "image/jpeg",
            MediaType::Json => "application/json",
            MediaType::Pdf => "application/pdf",
            MediaType::Plain => "text/plain",
            MediaType::Png => "image/png",
            MediaType::Postcard => "application/x-postcard",
            MediaType::Pwg => "image/pwg-raster",
            MediaType::Sse => "text/event-stream",
            MediaType::Svg => "image/svg+xml",
            MediaType::Urf => "image/urf",
            MediaType::Wasm => "application/wasm",
            MediaType::Xml => "application/xml",
            MediaType::Xlsx => "application/vnd.openxmlformats-officedocument.spreadsheetml.sheet",
            MediaType::Zip => "application/zip",
            MediaType::Zip7 => "application/x-7z-compressed",
        }
    }

    /// Reads a MIME name; unknown names give the default `ByteStream`.
    pub fn from_mime(mime: &str) -> (r: MediaType)
        ensures
            r == media_type_of(mime@),
    {
        if str_equal(mime, "application/octet-stream") {
            MediaType::ByteStream
        } else if str_equal(mime, "application/cbor") {
            MediaType::Cbor
        } else if str_equal(mime, "text/css") {
            MediaType::Css
        } else if str_equal(mime, "application/x-www-form-urlencoded") {
            MediaType::Form
        } else if str_equal(mime, "multipart/form-data") {
            MediaType::FormMultipart
        } else if str_equal(mime, "text/html") {
            MediaType::Html
        } else if str_equal(mime, "image/x-icon") {
            MediaType::Ico
        } else if str_equal(mime, "application/javascript") {
            MediaType::Javascript
        } else if str_equal(mime, "image/jpeg") {
            MediaType::Jpeg
        } else if str_equal(mime, "application/json") {
            MediaType::Json
        } else if str_equal(mime, "application/pdf") {
            MediaType::Pdf
        } else if str_equal(mime, "image/png") {
            MediaType::Png
        } else if str_equal(mime, "application/x-postcard") {
            MediaType::Postcard
        } else if str_equal(mime, "image/pwg-raster") {
            MediaType::Pwg
        } else if str_equal(mime, "text/event-stream") {
            MediaType::Sse
        } else if str_equal(mime, "image/svg+xml") {
            MediaType::Svg
        } else if str_equal(mime, "image/urf") {
            MediaType::Urf
        } else if str_equal(mime, "application/wasm") {
            MediaType::Wasm
        } else if str_equal(mime, "application/xml") {
            MediaType::Xml
        } else if str_equal(mime, "application/vnd.openxmlformats-officedocument.spreadsheetml.sheet") {
            MediaType::Xlsx
        } else if str_equal(mime, "application/zip") {
            MediaType::Zip
        } else if str_equal(mime, "application/x-zip-compressed") {
            MediaType::Zip
        } else if str_equal(mime, "application/x-7z-compressed") {
            MediaType::Zip7
        } else {
            MediaType::ByteStream
        }
    }
}

} // verus!
