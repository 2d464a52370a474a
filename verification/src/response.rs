//! The response value the handlers build: a status code, a list of headers
//! and a text body, ready for the transport to copy onto the wire.

use vstd::prelude::*;

verus! {

use vstd::string::StrSliceExecFns;
use vstd::string::StringExecFns;
use vstd::utf8::encode_utf8;
use crate::text::decimal_of;
use crate::text::decimal_string;

/// One response header.
pub struct Header {
    pub name: String,
    pub value: String,
}

/// The mathematical value of a header: its name and value as character
/// sequences.
#[verifier::ext_equal]
pub struct HeaderView {
    pub name: Seq<char>,
    pub value: Seq<char>,
}

impl View for Header {
    type V = HeaderView;

    open spec fn view(&self) -> HeaderView {
        HeaderView { name: self.name@, value: self.value@ }
    }
}

impl DeepView for Header {
    type V = HeaderView;

    open spec fn deep_view(&self) -> HeaderView {
        self@
    }
}

/// A complete response. The status and every header are set before the body,
/// and nothing is rewritten afterwards: the value is built in one call and
/// then only read.
pub struct HttpResponse {
    pub status: u16,
    pub headers: Vec<Header>,
    pub body: String,
}

/// The headers of a JSON success response: the content type, and the exact
/// byte length of the body (bytes, not characters).
pub open spec fn json_headers_of(body: Seq<char>) -> Seq<HeaderView> {
    seq![
        HeaderView { name: "Content-type"@, value: "application/json"@ },
        HeaderView { name: "Content-length"@, value: decimal_of(encode_utf8(body).len()) },
    ]
}

/// The success response: status 200, JSON content type, a `Content-length`
/// header holding the byte length of `body`, and `body` itself.
pub fn send_json(body: String) -> (r: HttpResponse)
    ensures
        r.status == 200,
        r.body@ == body@,
        r.headers.deep_view() == json_headers_of(body@),
{
    let len: usize = body.as_str().as_bytes().len();
    let mut headers: Vec<Header> = Vec::new();
    headers.push(
        Header {
            name: String::from_str("Content-type"),
            value: String::from_str("application/json"),
        },
    );
    headers.push(
        Header { name: String::from_str("Content-length"), value: decimal_string(len) },
    );
    let r = HttpResponse { status: 200, headers, body };
    proof {
        assert(r.headers.deep_view() =~~= json_headers_of(r.body@));
    }
    r
}

/// The failure response for a scan that could not run: status 500, plain
/// text, a short message as the body.
pub fn internal_error(msg: &str) -> (r: HttpResponse)
    ensures
        r.status == 500,
        r.body@ == msg@,
        r.headers.deep_view() == (seq![
            HeaderView { name: "Content-type"@, value: "text/plain"@ },
        ]),
{
    let mut headers: Vec<Header> = Vec::new();
    headers.push(
        Header { name: String::from_str("Content-type"), value: String::from_str("text/plain") },
    );
    let r = HttpResponse { status: 500, headers, body: msg.to_owned() };
    proof {
        assert(r.headers.deep_view() =~~= seq![
            HeaderView { name: "Content-type"@, value: "text/plain"@ },
        ]);
    }
    r
}

/// The response for an unroutable request: status 404 and a body naming the
/// attempted routing key. The content type says JSON while the body is plain
/// text; the mismatch is the wire contract's own and is kept as it is.
pub fn not_found(key: &str) -> (r: HttpResponse)
    ensures
        r.status == 404,
        r.body@ == "Script not found. Try to find script: "@ + key@,
        r.headers.deep_view() == (seq![
            HeaderView { name: "Content-type"@, value: "application/json"@ },
        ]),
{
    let mut body = String::from_str("Script not found. Try to find script: ");
    body.append(key);
    let mut headers: Vec<Header> = Vec::new();
    headers.push(
        Header {
            name: String::from_str("Content-type"),
            value: String::from_str("application/json"),
        },
    );
    let r = HttpResponse { status: 404, headers, body };
    proof {
        assert(r.headers.deep_view() =~~= seq![
            HeaderView { name: "Content-type"@, value: "application/json"@ },
        ]);
    }
    r
}

} // verus!
