//! The message translator: total conversion between wire HTTP primitives
//! (method text, URI text, raw header pairs, body bytes) and the normalized
//! request/response model. Pure data transformation; never panics.

use vstd::prelude::*;

use crate::message::Header;
use crate::message::MethodTag;
use crate::message::NormalizedRequest;
use crate::message::NormalizedResponse;
use crate::message::ReqView;
use crate::message::WireResponse;
use crate::message::is_text;
use crate::message::is_text_byte;

verus! {

/// The method tag that a verb's literal text translates to.
pub open spec fn method_tag_spec(m: Seq<char>) -> MethodTag {
    if m == "GET"@ {
        MethodTag::Get
    } else if m == "POST"@ {
        MethodTag::Post
    } else if m == "PUT"@ {
        MethodTag::Put
    } else if m == "DELETE"@ {
        MethodTag::Delete
    } else if m == "HEAD"@ {
        MethodTag::Head
    } else if m == "OPTIONS"@ {
        MethodTag::Options
    } else if m == "CONNECT"@ {
        MethodTag::Connect
    } else if m == "PATCH"@ {
        MethodTag::Patch
    } else if m == "TRACE"@ {
        MethodTag::Trace
    } else {
        MethodTag::Extension
    }
}

/// The extension text kept beside the method tag: the verb's literal text
/// for a non-standard verb, empty for a standard one.
pub open spec fn method_ext_spec(m: Seq<char>) -> Seq<char> {
    if method_tag_spec(m) == MethodTag::Extension {
        m
    } else {
        Seq::<char>::empty()
    }
}

/// Translate a verb's literal text to its method tag and extension text.
pub fn translate_method(m: String) -> (r: (MethodTag, String))
    ensures
        r.0 == method_tag_spec(m@),
        r.1@ == method_ext_spec(m@),
{
    if m == "GET".to_owned() {
        (MethodTag::Get, String::new())
    } else if m == "POST".to_owned() {
        (MethodTag::Post, String::new())
    } else if m == "PUT".to_owned() {
        (MethodTag::Put, String::new())
    } else if m == "DELETE".to_owned() {
        (MethodTag::Delete, String::new())
    } else if m == "HEAD".to_owned() {
        (MethodTag::Head, String::new())
    } else if m == "OPTIONS".to_owned() {
        (MethodTag::Options, String::new())
    } else if m == "CONNECT".to_owned() {
        (MethodTag::Connect, String::new())
    } else if m == "PATCH".to_owned() {
        (MethodTag::Patch, String::new())
    } else if m == "TRACE".to_owned() {
        (MethodTag::Trace, String::new())
    } else {
        (MethodTag::Extension, m)
    }
}

/// The view of raw wire header pairs: each (name, value bytes) pair as its
/// mathematical value.
pub open spec fn pairs_view(hs: Seq<(String, Vec<u8>)>) -> Seq<(Seq<char>, Seq<u8>)> {
    hs.map_values(|p: (String, Vec<u8>)| (p.0@, p.1@))
}

/// Whether every header value in a sequence of pairs is text.
pub open spec fn all_values_text(hs: Seq<(Seq<char>, Seq<u8>)>) -> bool {
    forall|i: int| 0 <= i < hs.len() ==> is_text((#[trigger] hs[i]).1)
}

/// The normalized request that a valid wire tuple translates to: method tag
/// and extension text from the verb, URI and header pairs carried over in
/// order, body verbatim, and no timeout hint.
pub open spec fn translated_request(
    m: Seq<char>,
    u: Seq<char>,
    hs: Seq<(Seq<char>, Seq<u8>)>,
    b: Seq<u8>,
) -> ReqView {
    ReqView {
        method: method_tag_spec(m),
        method_ext: method_ext_spec(m),
        uri: u,
        headers: hs,
        body: b,
        timeout_ms: 0,
    }
}

/// Why a wire request could not be translated to a normalized request.
#[derive(Clone, Copy, PartialEq, Eq, Structural, Debug)]
pub enum TranslateError {
    /// Some header value holds a byte that is not text.
    HeaderValueNotText,
}

/// Translate wire HTTP primitives to a normalized request. Succeeds exactly
/// when every header value can be represented as text; the failure is a
/// translation error, never a panic. On success the result is exactly the
/// translation of the inputs: verb mapped to its tag, URI, headers (order and
/// duplicates kept) and body carried over unchanged.
pub fn to_normalized_request(
    method: String,
    uri: String,
    headers: Vec<(String, Vec<u8>)>,
    body: Vec<u8>,
) -> (r: Result<NormalizedRequest, TranslateError>)
    ensures
        r is Ok <==> all_values_text(pairs_view(headers@)),
        r matches Ok(req) ==> req@ == translated_request(method@, uri@, pairs_view(headers@), body@),
        r matches Err(e) ==> e == TranslateError::HeaderValueNotText,
{
    let ghost m0 = method@;
    let ghost hs0 = headers@;
    let (tag, ext) = translate_method(method);
    let mut rest = headers;
    let mut out: Vec<Header> = Vec::new();
    while rest.len() > 0
        invariant
            hs0 == headers@,
            out@.len() + rest@.len() == hs0.len(),
            forall|j: int| 0 <= j < rest@.len() ==> #[trigger] rest@[j] == hs0[j + out@.len()],
            forall|j: int| 0 <= j < out@.len() ==> (#[trigger] out@[j])@ == pairs_view(hs0)[j],
            forall|j: int| 0 <= j < out@.len() ==> is_text(pairs_view(hs0)[j].1),
        decreases rest@.len(),
    {
        let ghost k = out@.len() as int;
        let (name, value) = rest.remove(0);
        if !value_is_text(&value) {
            proof {
                assert(value@ == hs0[k].1@);
                assert(pairs_view(hs0)[k].1 == hs0[k].1@);
                assert(!is_text(pairs_view(hs0)[k].1));
                assert(!all_values_text(pairs_view(headers@)));
            }
            return Err(TranslateError::HeaderValueNotText);
        }
        out.push(Header { name, value });
    }
    let req = NormalizedRequest {
        method: tag,
        method_ext: ext,
        uri,
        headers: out,
        body,
        timeout_ms: 0,
    };
    proof {
        assert(req@.headers =~= pairs_view(hs0));
        assert(req@ =~= translated_request(m0, uri@, pairs_view(hs0), body@));
    }
    Ok(req)
}

/// Translate a normalized response to plain wire response parts: status code
/// copied verbatim, headers copied in order, body copied verbatim.
pub fn to_wire_response(resp: NormalizedResponse) -> (r: WireResponse)
    ensures
        r@ == resp@,
{
    let ghost rv = resp@;
    let mut rest = resp.headers;
    let ghost hs0 = rest@;
    let mut out: Vec<(String, Vec<u8>)> = Vec::new();
    while rest.len() > 0
        invariant
            out@.len() + rest@.len() == hs0.len(),
            forall|j: int| 0 <= j < rest@.len() ==> #[trigger] rest@[j] == hs0[j + out@.len()],
            forall|j: int| 0 <= j < out@.len() ==>
                ((#[trigger] out@[j]).0@, out@[j].1@) == hs0[j]@,
        decreases rest@.len(),
    {
        let h = rest.remove(0);
        out.push((h.name, h.value));
    }
    let r = WireResponse { status: resp.status, headers: out, body: resp.body };
    proof {
        assert(r@.headers =~= rv.headers);
        assert(r@ =~= rv);
    }
    r
}

/// Whether every byte of a header value is text.
pub fn value_is_text(v: &Vec<u8>) -> (r: bool)
    ensures
        r == is_text(v@),
{
    let mut i: usize = 0;
    while i < v.len()
        invariant
            i <= v@.len(),
            forall|j: int| 0 <= j < i ==> is_text_byte(#[trigger] v@[j]),
        decreases v@.len() - i,
    {
        let b = v[i];
        if !(b == 9 || (32 <= b && b < 127)) {
            assert(!is_text_byte(v@[i as int]));
            return false;
        }
        i += 1;
    }
    true
}

} // verus!
