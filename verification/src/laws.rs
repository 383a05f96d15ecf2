//! Laws of the message translator, stated and proved over the mathematical
//! model: translation of a valid wire tuple loses nothing.

use vstd::prelude::*;

use crate::message::MethodTag;
use crate::message::ReqView;
use crate::message::RespView;
use crate::translate::all_values_text;
use crate::translate::method_ext_spec;
use crate::translate::method_tag_spec;
use crate::translate::translated_request;

verus! {

/// The literal verb text that a method tag with its extension text stands
/// for: the standard verb's canonical text, or the extension text itself.
pub open spec fn method_text_spec(t: MethodTag, ext: Seq<char>) -> Seq<char> {
    match t {
        MethodTag::Get => "GET"@,
        MethodTag::Post => "POST"@,
        MethodTag::Put => "PUT"@,
        MethodTag::Delete => "DELETE"@,
        MethodTag::Head => "HEAD"@,
        MethodTag::Options => "OPTIONS"@,
        MethodTag::Connect => "CONNECT"@,
        MethodTag::Patch => "PATCH"@,
        MethodTag::Trace => "TRACE"@,
        MethodTag::Extension => ext,
    }
}

/// The response of a handler that echoes its input: a success status with
/// the request's own headers and body.
pub open spec fn echo_response(rv: ReqView) -> RespView {
    RespView { status: 200, headers: rv.headers, body: rv.body }
}

/// A verb's literal text is recovered exactly from its method tag and
/// extension text: translating the method loses nothing.
pub proof fn lemma_method_round_trip(m: Seq<char>)
    ensures
        method_text_spec(method_tag_spec(m), method_ext_spec(m)) == m,
{
}

/// Round-trip law for the translator: any valid wire tuple (every header
/// value is text), translated to a normalized request and sent back through
/// a handler that echoes its input, yields a wire response that carries
/// exactly the input headers and body, with the input URI and verb
/// recoverable from the normalized request unchanged.
pub proof fn lemma_translator_round_trip(
    m: Seq<char>,
    u: Seq<char>,
    hs: Seq<(Seq<char>, Seq<u8>)>,
    b: Seq<u8>,
)
    requires
        all_values_text(hs),
    ensures
        ({
            let rv = translated_request(m, u, hs, b);
            &&& method_text_spec(rv.method, rv.method_ext) == m
            &&& rv.uri == u
            &&& echo_response(rv).headers == hs
            &&& echo_response(rv).body == b
        }),
{
    lemma_method_round_trip(m);
}

} // verus!
