//! The normalized request/response data model: the handler-facing,
//! protocol-agnostic representation of one HTTP exchange.

use vstd::prelude::*;

verus! {

/// Tag for the HTTP method of a normalized request. Each standard verb has
/// its own tag; any other verb is `Extension`, with the literal verb text
/// kept beside the tag in `NormalizedRequest::method_ext`.
#[derive(Clone, Copy, PartialEq, Eq, Structural, Debug)]
pub enum MethodTag {
    Get,
    Post,
    Put,
    Delete,
    Head,
    Options,
    Connect,
    Patch,
    Trace,
    Extension,
}

/// One byte of header-value text: horizontal tab, space, or visible ASCII.
/// A header value made of such bytes can be represented as text; any other
/// byte makes the value untranslatable.
pub open spec fn is_text_byte(b: u8) -> bool {
    b == 9 || (32 <= b && b < 127)
}

/// A byte sequence whose every byte is header-value text.
pub open spec fn is_text(v: Seq<u8>) -> bool {
    forall|i: int| 0 <= i < v.len() ==> is_text_byte(#[trigger] v[i])
}

/// One (name, value) header pair. Duplicates are preserved and order is
/// kept. The value is carried as its wire bytes; a well-formed header value
/// holds only text bytes.
pub struct Header {
    pub name: String,
    pub value: Vec<u8>,
}

impl View for Header {
    type V = (Seq<char>, Seq<u8>);

    open spec fn view(&self) -> (Seq<char>, Seq<u8>) {
        (self.name@, self.value@)
    }
}

impl Header {
    /// A header is well formed when its value can be represented as text.
    pub open spec fn wf(&self) -> bool {
        is_text(self.value@)
    }
}

/// Mathematical model of a normalized request.
#[verifier::ext_equal]
pub ghost struct ReqView {
    pub method: MethodTag,
    pub method_ext: Seq<char>,
    pub uri: Seq<char>,
    pub headers: Seq<(Seq<char>, Seq<u8>)>,
    pub body: Seq<u8>,
    pub timeout_ms: u64,
}

/// The handler-facing representation of one inbound HTTP request: method tag
/// (with the literal verb text when the tag is `Extension`), target URI as
/// text, ordered header pairs, the fully buffered body, and an optional
/// timeout hint in milliseconds (0 when no hint accompanies the request).
pub struct NormalizedRequest {
    pub method: MethodTag,
    pub method_ext: String,
    pub uri: String,
    pub headers: Vec<Header>,
    pub body: Vec<u8>,
    pub timeout_ms: u64,
}

impl View for NormalizedRequest {
    type V = ReqView;

    open spec fn view(&self) -> ReqView {
        ReqView {
            method: self.method,
            method_ext: self.method_ext@,
            uri: self.uri@,
            headers: self.headers@.map_values(|h: Header| h@),
            body: self.body@,
            timeout_ms: self.timeout_ms,
        }
    }
}

/// Mathematical model of a normalized response.
#[verifier::ext_equal]
pub ghost struct RespView {
    pub status: u16,
    pub headers: Seq<(Seq<char>, Seq<u8>)>,
    pub body: Seq<u8>,
}

/// The handler-facing representation of one outbound HTTP response: status
/// code, ordered header pairs, and body bytes.
pub struct NormalizedResponse {
    pub status: u16,
    pub headers: Vec<Header>,
    pub body: Vec<u8>,
}

impl View for NormalizedResponse {
    type V = RespView;

    open spec fn view(&self) -> RespView {
        RespView {
            status: self.status,
            headers: self.headers@.map_values(|h: Header| h@),
            body: self.body@,
        }
    }
}

/// Plain wire-level response parts, ready for the HTTP layer to emit:
/// status code verbatim, header pairs in order, body verbatim.
pub struct WireResponse {
    pub status: u16,
    pub headers: Vec<(String, Vec<u8>)>,
    pub body: Vec<u8>,
}

impl View for WireResponse {
    type V = RespView;

    open spec fn view(&self) -> RespView {
        RespView {
            status: self.status,
            headers: self.headers@.map_values(|p: (String, Vec<u8>)| (p.0@, p.1@)),
            body: self.body@,
        }
    }
}

} // verus!
