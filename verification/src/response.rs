//! The response side of the engine: the status registry mapping every
//! status variant to its numeric code and canonical reason phrase, the
//! structured response, and a byte-exact serializer.

use crate::headers::HeaderMap;
use crate::headers::HeaderPair;
use crate::request::Version;
use crate::request::spec_version_literal;
use crate::text::spec_dec_digits;
use vstd::prelude::*;
use vstd::string::StringExecFns;
use vstd::utf8::encode_utf8;

verus! {

/// The closed set of status codes a handler can choose from.  Every
/// variant resolves through the registry; there is no "unknown" code.
#[allow(non_camel_case_types)]
#[derive(Debug, PartialEq, Eq, Structural, Clone, Copy)]
pub enum HttpStatus {
    CONTINUE,
    SWITCHING_PROTOCOLS,
    PROCESSING,
    EARLYHINTS,
    OK,
    CREATED,
    ACCEPTED,
    NON_AUTHORITATIVE_INFORMATION,
    NO_CONTENT,
    RESET_CONTENT,
    PARTIAL_CONTENT,
    AMBIGUOUS,
    MOVED_PERMANENTLY,
    FOUND,
    SEE_OTHER,
    NOT_MODIFIED,
    TEMPORARY_REDIRECT,
    PERMANENT_REDIRECT,
    BAD_REQUEST,
    UNAUTHORIZED,
    PAYMENT_REQUIRED,
    FORBIDDEN,
    NOT_FOUND,
    METHOD_NOT_ALLOWED,
    NOT_ACCEPTABLE,
    PROXY_AUTHENTICATION_REQUIRED,
    REQUEST_TIMEOUT,
    CONFLICT,
    GONE,
    LENGTH_REQUIRED,
    PRECONDITION_FAILED,
    PAYLOAD_TOO_LARGE,
    URI_TOO_LONG,
    UNSUPPORTED_MEDIA_TYPE,
    REQUESTED_RANGE_NOT_SATISFIABLE,
    EXPECTATION_FAILED,
    I_AM_A_TEAPOT,
    MISDIRECTED,
    UNPROCESSABLE_ENTITY,
    FAILED_DEPENDENCY,
    PRECONDITION_REQUIRED,
    TOO_MANY_REQUESTS,
    INTERNAL_SERVER_ERROR,
    NOT_IMPLEMENTED,
    BAD_GATEWAY,
    SERVICE_UNAVAILABLE,
    GATEWAY_TIMEOUT,
    HTTP_VERSION_NOT_SUPPORTED,
}

/// The numeric code of each status, matching the public HTTP status
/// registry.
pub open spec fn spec_status_code(s: HttpStatus) -> u16 {
    match s {
        HttpStatus::CONTINUE => 100,
        HttpStatus::SWITCHING_PROTOCOLS => 101,
        HttpStatus::PROCESSING => 102,
        HttpStatus::EARLYHINTS => 103,
        HttpStatus::OK => 200,
        HttpStatus::CREATED => 201,
        HttpStatus::ACCEPTED => 202,
        HttpStatus::NON_AUTHORITATIVE_INFORMATION => 203,
        HttpStatus::NO_CONTENT => 204,
        HttpStatus::RESET_CONTENT => 205,
        HttpStatus::PARTIAL_CONTENT => 206,
        HttpStatus::AMBIGUOUS => 300,
        HttpStatus::MOVED_PERMANENTLY => 301,
        HttpStatus::FOUND => 302,
        HttpStatus::SEE_OTHER => 303,
        HttpStatus::NOT_MODIFIED => 304,
        HttpStatus::TEMPORARY_REDIRECT => 307,
        HttpStatus::PERMANENT_REDIRECT => 308,
        HttpStatus::BAD_REQUEST => 400,
        HttpStatus::UNAUTHORIZED => 401,
        HttpStatus::PAYMENT_REQUIRED => 402,
        HttpStatus::FORBIDDEN => 403,
        HttpStatus::NOT_FOUND => 404,
        HttpStatus::METHOD_NOT_ALLOWED => 405,
        HttpStatus::NOT_ACCEPTABLE => 406,
        HttpStatus::PROXY_AUTHENTICATION_REQUIRED => 407,
        HttpStatus::REQUEST_TIMEOUT => 408,
        HttpStatus::CONFLICT => 409,
        HttpStatus::GONE => 410,
        HttpStatus::LENGTH_REQUIRED => 411,
        HttpStatus::PRECONDITION_FAILED => 412,
        HttpStatus::PAYLOAD_TOO_LARGE => 413,
        HttpStatus::URI_TOO_LONG => 414,
        HttpStatus::UNSUPPORTED_MEDIA_TYPE => 415,
        HttpStatus::REQUESTED_RANGE_NOT_SATISFIABLE => 416,
        HttpStatus::EXPECTATION_FAILED => 417,
        HttpStatus::I_AM_A_TEAPOT => 418,
        HttpStatus::MISDIRECTED => 421,
        HttpStatus::UNPROCESSABLE_ENTITY => 422,
        HttpStatus::FAILED_DEPENDENCY => 424,
        HttpStatus::PRECONDITION_REQUIRED => 428,
        HttpStatus::TOO_MANY_REQUESTS => 429,
        HttpStatus::INTERNAL_SERVER_ERROR => 500,
        HttpStatus::NOT_IMPLEMENTED => 501,
        HttpStatus::BAD_GATEWAY => 502,
        HttpStatus::SERVICE_UNAVAILABLE => 503,
        HttpStatus::GATEWAY_TIMEOUT => 504,
        HttpStatus::HTTP_VERSION_NOT_SUPPORTED => 505,
    }
}

/// The reason phrase of each status.
pub open spec fn spec_status_phrase(s: HttpStatus) -> Seq<char> {
    match s {
        HttpStatus::CONTINUE => "Continue"@,
        HttpStatus::SWITCHING_PROTOCOLS => "Switching Protocols"@,
        HttpStatus::PROCESSING => "Processing"@,
        HttpStatus::EARLYHINTS => "Earlyhints"@,
        HttpStatus::OK => "Ok"@,
        HttpStatus::CREATED => "Created"@,
        HttpStatus::ACCEPTED => "Accepted"@,
        HttpStatus::NON_AUTHORITATIVE_INFORMATION => "Non Authoritative Information"@,
        HttpStatus::NO_CONTENT => "No Content"@,
        HttpStatus::RESET_CONTENT => "Reset Content"@,
        HttpStatus::PARTIAL_CONTENT => "Partial Content"@,
        HttpStatus::AMBIGUOUS => "Ambiguous"@,
        HttpStatus::MOVED_PERMANENTLY => "Moved Permanently"@,
        HttpStatus::FOUND => "Found"@,
        HttpStatus::SEE_OTHER => "See Other"@,
        HttpStatus::NOT_MODIFIED => "Not Modfifed"@,
        HttpStatus::TEMPORARY_REDIRECT => "Temporary Redirect"@,
        HttpStatus::PERMANENT_REDIRECT => "Permanent Redirect"@,
        HttpStatus::BAD_REQUEST => "Bad Request"@,
        HttpStatus::UNAUTHORIZED => "Unauthorized"@,
        HttpStatus::PAYMENT_REQUIRED => "Payment Required"@,
        HttpStatus::FORBIDDEN => "Forbidden"@,
        HttpStatus::NOT_FOUND => "Not Found"@,
        HttpStatus::METHOD_NOT_ALLOWED => "Method Not Allowed"@,
        HttpStatus::NOT_ACCEPTABLE => "Not Acceptable"@,
        HttpStatus::PROXY_AUTHENTICATION_REQUIRED => "Proxy Authentication Required"@,
        HttpStatus::REQUEST_TIMEOUT => "Request Timeout"@,
        HttpStatus::CONFLICT => "Conflict"@,
        HttpStatus::GONE => "Gone"@,
        HttpStatus::LENGTH_REQUIRED => "Length Required"@,
        HttpStatus::PRECONDITION_FAILED => "Precondition Failed"@,
        HttpStatus::PAYLOAD_TOO_LARGE => "Payload Too Large"@,
        HttpStatus::URI_TOO_LONG => "URI Too Long"@,
        HttpStatus::UNSUPPORTED_MEDIA_TYPE => "Unsupported Media Type"@,
        HttpStatus::REQUESTED_RANGE_NOT_SATISFIABLE => "Required Range Not Satisfiable"@,
        HttpStatus::EXPECTATION_FAILED => "Expectation Failed"@,
        HttpStatus::I_AM_A_TEAPOT => "I Am A Teapot"@,
        HttpStatus::MISDIRECTED => "Misdirected"@,
        HttpStatus::UNPROCESSABLE_ENTITY => "Unprocessable Entity"@,
        HttpStatus::FAILED_DEPENDENCY => "Failed Dependency"@,
        HttpStatus::PRECONDITION_REQUIRED => "Precondition Required"@,
        HttpStatus::TOO_MANY_REQUESTS => "Too Many Requests"@,
        HttpStatus::INTERNAL_SERVER_ERROR => "Internal Server Error"@,
        HttpStatus::NOT_IMPLEMENTED => "Not Implemented"@,
        HttpStatus::BAD_GATEWAY => "Bad Gateway"@,
        HttpStatus::SERVICE_UNAVAILABLE => "Service Unavailable"@,
        HttpStatus::GATEWAY_TIMEOUT => "Gateway Timeout"@,
        HttpStatus::HTTP_VERSION_NOT_SUPPORTED => "Http Version Not Supported"@,
    }
}

impl HttpStatus {
    /// Resolves a status to its `(numeric code, reason phrase)` pair.
    /// Total over the enumeration: every variant has exactly one pair.
    pub fn reason_for(&self) -> (r: (u16, String))
        ensures
            r.0 == spec_status_code(*self),
            r.1@ == spec_status_phrase(*self),
    {
        match self {
            HttpStatus::CONTINUE => (100, String::from_str("Continue")),
            HttpStatus::SWITCHING_PROTOCOLS => (101, String::from_str("Switching Protocols")),
            HttpStatus::PROCESSING => (102, String::from_str("Processing")),
            HttpStatus::EARLYHINTS => (103, String::from_str("Earlyhints")),
            HttpStatus::OK => (200, String::from_str("Ok")),
            HttpStatus::CREATED => (201, String::from_str("Created")),
            HttpStatus::ACCEPTED => (202, String::from_str("Accepted")),
            HttpStatus::NON_AUTHORITATIVE_INFORMATION => (203, String::from_str("Non Authoritative Information")),
            HttpStatus::NO_CONTENT => (204, String::from_str("No Content")),
            HttpStatus::RESET_CONTENT => (205, String::from_str("Reset Content")),
            HttpStatus::PARTIAL_CONTENT => (206, String::from_str("Partial Content")),
            HttpStatus::AMBIGUOUS => (300, String::from_str("Ambiguous")),
            HttpStatus::MOVED_PERMANENTLY => (301, String::from_str("Moved Permanently")),
            HttpStatus::FOUND => (302, String::from_str("Found")),
            HttpStatus::SEE_OTHER => (303, String::from_str("See Other")),
            HttpStatus::NOT_MODIFIED => (304, String::from_str("Not Modfifed")),
            HttpStatus::TEMPORARY_REDIRECT => (307, String::from_str("Temporary Redirect")),
            HttpStatus::PERMANENT_REDIRECT => (308, String::from_str("Permanent Redirect")),
            HttpStatus::BAD_REQUEST => (400, String::from_str("Bad Request")),
            HttpStatus::UNAUTHORIZED => (401, String::from_str("Unauthorized")),
            HttpStatus::PAYMENT_REQUIRED => (402, String::from_str("Payment Required")),
            HttpStatus::FORBIDDEN => (403, String::from_str("Forbidden")),
            HttpStatus::NOT_FOUND => (404, String::from_str("Not Found")),
            HttpStatus::METHOD_NOT_ALLOWED => (405, String::from_str("Method Not Allowed")),
            HttpStatus::NOT_ACCEPTABLE => (406, String::from_str("Not Acceptable")),
            HttpStatus::PROXY_AUTHENTICATION_REQUIRED => (407, String::from_str("Proxy Authentication Required")),
            HttpStatus::REQUEST_TIMEOUT => (408, String::from_str("Request Timeout")),
            HttpStatus::CONFLICT => (409, String::from_str("Conflict")),
            HttpStatus::GONE => (410, String::from_str("Gone")),
            HttpStatus::LENGTH_REQUIRED => (411, String::from_str("Length Required")),
            HttpStatus::PRECONDITION_FAILED => (412, String::from_str("Precondition Failed")),
            HttpStatus::PAYLOAD_TOO_LARGE => (413, String::from_str("Payload Too Large")),
            HttpStatus::URI_TOO_LONG => (414, String::from_str("URI Too Long")),
            HttpStatus::UNSUPPORTED_MEDIA_TYPE => (415, String::from_str("Unsupported Media Type")),
            HttpStatus::REQUESTED_RANGE_NOT_SATISFIABLE => (416, String::from_str("Required Range Not Satisfiable")),
            HttpStatus::EXPECTATION_FAILED => (417, String::from_str("Expectation Failed")),
            HttpStatus::I_AM_A_TEAPOT => (418, String::from_str("I Am A Teapot")),
            HttpStatus::MISDIRECTED => (421, String::from_str("Misdirected")),
            HttpStatus::UNPROCESSABLE_ENTITY => (422, String::from_str("Unprocessable Entity")),
            HttpStatus::FAILED_DEPENDENCY => (424, String::from_str("Failed Dependency")),
            HttpStatus::PRECONDITION_REQUIRED => (428, String::from_str("Precondition Required")),
            HttpStatus::TOO_MANY_REQUESTS => (429, String::from_str("Too Many Requests")),
            HttpStatus::INTERNAL_SERVER_ERROR => (500, String::from_str("Internal Server Error")),
            HttpStatus::NOT_IMPLEMENTED => (501, String::from_str("Not Implemented")),
            HttpStatus::BAD_GATEWAY => (502, String::from_str("Bad Gateway")),
            HttpStatus::SERVICE_UNAVAILABLE => (503, String::from_str("Service Unavailable")),
            HttpStatus::GATEWAY_TIMEOUT => (504, String::from_str("Gateway Timeout")),
            HttpStatus::HTTP_VERSION_NOT_SUPPORTED => (505, String::from_str("Http Version Not Supported")),
        }
    }
}

/// Distinct status variants carry distinct numeric codes, so no two
/// variants resolve to the same `(code, phrase)` pair.
pub proof fn lemma_status_registry_unique(a: HttpStatus, b: HttpStatus)
    ensures
        spec_status_code(a) == spec_status_code(b) ==> a == b,
{
}

/// The spec-level picture of a response.
pub ghost struct RespModel {
    pub version: Version,
    pub status: HttpStatus,
    pub headers: Option<Seq<HeaderPair>>,
    pub body: Option<Seq<char>>,
}

/// A structured response: version, status, optional header map and
/// optional body.  A `None` header map is defaulted to a single
/// `Content-Type: text/html` line at serialization time.
pub struct HttpResponse {
    version: Version,
    status_code: HttpStatus,
    headers: Option<HeaderMap>,
    body: Option<String>,
}

impl View for HttpResponse {
    type V = RespModel;

    closed spec fn view(&self) -> RespModel {
        RespModel {
            version: self.version,
            status: self.status_code,
            headers: match self.headers {
                Some(h) => Some(h@),
                None => None,
            },
            body: self.body.deep_view(),
        }
    }
}

impl Default for HttpResponse {
    /// The default response: HTTP/1.1, 200 OK, no headers, no body.
    fn default() -> (r: HttpResponse)
        ensures
            r@.version == Version::V1_1,
            r@.status == HttpStatus::OK,
            r@.headers is None,
            r@.body is None,
    {
        HttpResponse {
            version: Version::V1_1,
            status_code: HttpStatus::OK,
            headers: None,
            body: None,
        }
    }
}

/// The body text a response serializes: empty when absent.
pub open spec fn spec_body_text(b: Option<Seq<char>>) -> Seq<char> {
    match b {
        Some(t) => t,
        None => Seq::<char>::empty(),
    }
}

/// The Content-Length value: the byte length of the UTF-8 encoding of
/// the body (zero when absent), as the machine reports it.  It is
/// always computed from the body, never taken from caller headers.
pub open spec fn spec_content_length(b: Option<Seq<char>>) -> usize {
    encode_utf8(spec_body_text(b)).len() as usize
}

/// A caller-supplied header block, rendered in order.  The engine's
/// `Server` identification replaces any caller-supplied `Server` value
/// in place and is appended at the end while still `pending`; any
/// caller-supplied `Content-Length` entry is dropped, since that header
/// is computed fresh from the body.
pub open spec fn spec_header_block(hs: Seq<HeaderPair>, pending: bool) -> Seq<char>
    decreases hs.len(),
{
    if hs.len() == 0 {
        if pending {
            "Server: nginx/1.14.1\r\n"@
        } else {
            Seq::<char>::empty()
        }
    } else if hs[0].0 == "Server"@ {
        "Server: nginx/1.14.1\r\n"@ + spec_header_block(hs.drop_first(), false)
    } else if hs[0].0 == "Content-Length"@ {
        spec_header_block(hs.drop_first(), pending)
    } else {
        hs[0].0 + ": "@ + hs[0].1 + "\r\n"@ + spec_header_block(hs.drop_first(), pending)
    }
}

/// The header block of a response: the caller's block with the server
/// identification injected, or the single defaulted Content-Type line
/// when the caller supplied no headers.
pub open spec fn spec_response_header_block(h: Option<Seq<HeaderPair>>) -> Seq<char> {
    match h {
        Some(hs) => spec_header_block(hs, true),
        None => "Content-Type: text/html\r\n"@,
    }
}

/// The full wire form of a response: status line, header block, the
/// computed Content-Length, a blank line, then the body verbatim.
pub open spec fn spec_serialize(r: RespModel) -> Seq<char> {
    spec_version_literal(r.version) + " "@ + spec_dec_digits(spec_status_code(r.status) as nat)
        + " "@ + spec_status_phrase(r.status) + "\r\n"@ + spec_response_header_block(r.headers)
        + "Content-Length: "@ + spec_dec_digits(spec_content_length(r.body) as nat) + "\r\n\r\n"@
        + spec_body_text(r.body)
}

fn render_header_block(h: &HeaderMap) -> (out: String)
    ensures
        out@ == spec_header_block(h@, true),
{
    let mut out = String::new();
    let mut pending = true;
    let n = h.len();
    let mut i: usize = 0;
    proof {
        assert(h@.skip(0) =~= h@);
        assert(out@ + spec_header_block(h@, true) =~= spec_header_block(h@, true));
    }
    while i < n
        invariant
            0 <= i <= n,
            n == h@.len(),
            out@ + spec_header_block(h@.skip(i as int), pending) == spec_header_block(h@, true),
        decreases n - i,
    {
        let ghost pre = out@;
        let ghost pre_pending = pending;
        let ghost tail = h@.skip(i as int);
        proof {
            assert(tail[0] == h@[i as int]);
            assert(tail.drop_first() =~= h@.skip(i + 1));
        }
        let (k, v) = h.entry_at(i);
        if crate::text::str_eq(k.as_str(), "Server") {
            out.append("Server: nginx/1.14.1\r\n");
            pending = false;
        } else if crate::text::str_eq(k.as_str(), "Content-Length") {
        } else {
            out.append(k.as_str());
            out.append(": ");
            out.append(v.as_str());
            out.append("\r\n");
        }
        proof {
            assert(out@ + spec_header_block(h@.skip(i + 1), pending) =~= pre + spec_header_block(
                tail,
                pre_pending,
            ));
        }
        i = i + 1;
    }
    proof {
        assert(h@.skip(n as int) =~= Seq::<HeaderPair>::empty());
    }
    if pending {
        out.append("Server: nginx/1.14.1\r\n");
        proof {
            assert(out@ =~= spec_header_block(h@, true));
        }
    } else {
        proof {
            assert(out@ =~= spec_header_block(h@, true));
        }
    }
    out
}

impl HttpResponse {
    /// Builds a response from its parts.  Headers are stored as given;
    /// a missing map is defaulted when the response is serialized.
    pub fn new(
        version: Version,
        status_code: HttpStatus,
        headers: Option<HeaderMap>,
        body: Option<String>,
    ) -> (r: HttpResponse)
        ensures
            r@.version == version,
            r@.status == status_code,
            (headers matches Some(h) ==> r@.headers == Some(h@)),
            (headers is None ==> r@.headers is None),
            r@.body == body.deep_view(),
    {
        HttpResponse { version, status_code, headers, body }
    }

    /// Serializes the response to its exact wire text.  Pure and total:
    /// well-formed responses always serialize.
    pub fn serialize(&self) -> (out: String)
        ensures
            out@ == spec_serialize(self@),
    {
        let mut out = self.version.literal();
        out.append(" ");
        let status = self.status_code.reason_for();
        let code_str = crate::text::usize_to_dec(status.0 as usize);
        out.append(code_str.as_str());
        out.append(" ");
        out.append(status.1.as_str());
        out.append("\r\n");
        let block = match &self.headers {
            Some(h) => render_header_block(h),
            None => String::from_str("Content-Type: text/html\r\n"),
        };
        out.append(block.as_str());
        out.append("Content-Length: ");
        let body_len: usize = match &self.body {
            Some(b) => b.as_str().len(),
            None => 0,
        };
        proof {
            if self.body is None {
                assert(encode_utf8(Seq::<char>::empty()) =~= Seq::<u8>::empty());
            }
        }
        let len_str = crate::text::usize_to_dec(body_len);
        out.append(len_str.as_str());
        out.append("\r\n\r\n");
        match &self.body {
            Some(b) => out.append(b.as_str()),
            None => (),
        }
        proof {
            assert(out@ =~= spec_serialize(self@));
        }
        out
    }

    /// Serializes the response and appends its UTF-8 bytes to the
    /// output sink in one pass; the transport writes them to the wire.
    pub fn send(&self, sink: &mut Vec<u8>)
        ensures
            final(sink)@ == old(sink)@ + encode_utf8(spec_serialize(self@)),
    {
        let s = self.serialize();
        let bytes: &[u8] = s.as_str().as_bytes();
        let m = bytes.len();
        let mut i: usize = 0;
        proof {
            assert(old(sink)@ + bytes@.take(0) =~= old(sink)@);
        }
        while i < m
            invariant
                0 <= i <= m,
                m == bytes@.len(),
                bytes@ == encode_utf8(spec_serialize(self@)),
                sink@ == old(sink)@ + bytes@.take(i as int),
            decreases m - i,
        {
            let b = bytes[i];
            sink.push(b);
            proof {
                assert(old(sink)@ + bytes@.take(i + 1) =~= (old(sink)@ + bytes@.take(i as int)).push(
                    bytes@[i as int],
                ));
            }
            i = i + 1;
        }
        proof {
            assert(bytes@.take(m as int) =~= bytes@);
        }
    }

    /// The protocol version this response echoes back.
    pub fn version(&self) -> (v: &Version)
        ensures
            *v == self@.version,
    {
        &self.version
    }

    /// The status this response carries.
    pub fn status_code(&self) -> (c: &HttpStatus)
        ensures
            *c == self@.status,
    {
        &self.status_code
    }

    /// The rendered header block of this response.
    pub fn headers(&self) -> (s: String)
        ensures
            s@ == spec_response_header_block(self@.headers),
    {
        match &self.headers {
            Some(h) => render_header_block(h),
            None => String::from_str("Content-Type: text/html\r\n"),
        }
    }

    /// The body text, empty when absent.
    pub fn body(&self) -> (b: &str)
        ensures
            b@ == spec_body_text(self@.body),
    {
        match &self.body {
            Some(b) => b.as_str(),
            None => {
                let e = "";
                proof {
                    reveal_strlit("");
                    assert(e@ =~= Seq::<char>::empty());
                }
                e
            },
        }
    }
}

} // verus!
