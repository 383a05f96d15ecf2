//! Per-request pipeline decisions and failure isolation: what the dispatcher
//! does once the body buffering ends, and how a handler invocation's outcome
//! becomes exactly one well-formed response. Every error class is contained
//! at the request boundary: an unreadable body or an untranslatable request
//! short-circuits to a bad-request response without reaching the handler; a
//! handler fault or a worker-pool dispatch failure becomes an internal-error
//! response with a fixed diagnostic body.

use vstd::prelude::*;
use vstd::string::StrSliceExecFns;
use vstd::string::StringSliceAdditionalSpecFns;

use crate::message::NormalizedRequest;
use crate::message::NormalizedResponse;
use crate::message::RespView;
use crate::translate::TranslateError;
use crate::translate::all_values_text;
use crate::translate::pairs_view;
use crate::translate::to_normalized_request;
use crate::translate::translated_request;

verus! {

/// Status code of the synthesized bad-request responses.
pub const STATUS_BAD_REQUEST: u16 = 400;

/// Status code of the synthesized internal-error responses.
pub const STATUS_INTERNAL_SERVER_ERROR: u16 = 500;

/// The response synthesized when a request body cannot be fully read:
/// bad-request status, no headers, a fixed diagnostic body.
pub open spec fn is_body_read_error_response(r: RespView) -> bool {
    &&& r.status == STATUS_BAD_REQUEST
    &&& r.headers.len() == 0
    &&& r.body == "Error receiving HTTP request body".spec_bytes()
}

/// The response synthesized when a request cannot be translated (some header
/// value is not text): bad-request status, no headers, a fixed diagnostic
/// body.
pub open spec fn is_translation_error_response(r: RespView) -> bool {
    &&& r.status == STATUS_BAD_REQUEST
    &&& r.headers.len() == 0
    &&& r.body == "Invalid header value in HTTP request".spec_bytes()
}

/// The response synthesized when request processing terminates abnormally
/// (a handler fault, or the worker pool failing to run the invocation):
/// internal-error status, no headers, a fixed diagnostic body that leaks no
/// internal detail.
pub open spec fn is_internal_error_response(r: RespView) -> bool {
    &&& r.status == STATUS_INTERNAL_SERVER_ERROR
    &&& r.headers.len() == 0
    &&& r.body == "Panic detected!".spec_bytes()
}

/// Synthesize the bad-request response for an unreadable body.
pub fn body_read_error_response() -> (r: NormalizedResponse)
    ensures
        is_body_read_error_response(r@),
{
    NormalizedResponse {
        status: STATUS_BAD_REQUEST,
        headers: Vec::new(),
        body: ("Error receiving HTTP request body").as_bytes_vec(),
    }
}

/// Synthesize the bad-request response for an untranslatable request.
pub fn translation_error_response() -> (r: NormalizedResponse)
    ensures
        is_translation_error_response(r@),
{
    NormalizedResponse {
        status: STATUS_BAD_REQUEST,
        headers: Vec::new(),
        body: ("Invalid header value in HTTP request").as_bytes_vec(),
    }
}

/// Synthesize the internal-error response for an abnormal termination.
pub fn internal_error_response() -> (r: NormalizedResponse)
    ensures
        is_internal_error_response(r@),
{
    NormalizedResponse {
        status: STATUS_INTERNAL_SERVER_ERROR,
        headers: Vec::new(),
        body: ("Panic detected!").as_bytes_vec(),
    }
}

/// The outcome of buffering one request body: the complete body bytes, or a
/// connection error or truncation that left the body unreadable.
pub enum BodyOutcome {
    Complete(Vec<u8>),
    Unreadable,
}

/// What the dispatcher does next with one request: hand a normalized request
/// to the handler on the worker pool, or answer at once with a synthesized
/// response and never invoke the handler.
pub enum Step {
    Dispatch(NormalizedRequest),
    Respond(NormalizedResponse),
}

/// How one handler invocation ended: a normal completion carrying the
/// handler's response, an abnormal termination inside the handler, or the
/// worker pool failing to run the invocation at all.
pub enum HandlerOutcome {
    Completed(NormalizedResponse),
    Faulted,
    DispatchFailed,
}

/// Decide one request's next step once body buffering has ended. An
/// unreadable body short-circuits to the bad-request response and never
/// reaches the handler; a complete body is translated, and a translation
/// failure likewise short-circuits; otherwise the exact translation of the
/// inputs is dispatched to the handler.
pub fn plan_request(
    method: String,
    uri: String,
    headers: Vec<(String, Vec<u8>)>,
    body: BodyOutcome,
) -> (s: Step)
    ensures
        (match body {
            BodyOutcome::Unreadable => s matches Step::Respond(r)
                && is_body_read_error_response(r@),
            BodyOutcome::Complete(b) => if all_values_text(pairs_view(headers@)) {
                s matches Step::Dispatch(req) && req@ == translated_request(
                    method@,
                    uri@,
                    pairs_view(headers@),
                    b@,
                )
            } else {
                s matches Step::Respond(r) && is_translation_error_response(r@)
            },
        }),
{
    match body {
        BodyOutcome::Unreadable => Step::Respond(body_read_error_response()),
        BodyOutcome::Complete(b) => match to_normalized_request(method, uri, headers, b) {
            Ok(req) => Step::Dispatch(req),
            Err(TranslateError::HeaderValueNotText) => Step::Respond(
                translation_error_response(),
            ),
        },
    }
}

/// Resolve one handler invocation's outcome to exactly one response: a
/// normal completion is forwarded unchanged; a handler fault or a dispatch
/// failure becomes the synthesized internal-error response. The fault stops
/// here: nothing propagates past the request boundary.
pub fn resolve_outcome(outcome: HandlerOutcome) -> (r: NormalizedResponse)
    ensures
        outcome matches HandlerOutcome::Completed(resp) ==> r == resp,
        outcome is Faulted ==> is_internal_error_response(r@),
        outcome is DispatchFailed ==> is_internal_error_response(r@),
{
    match outcome {
        HandlerOutcome::Completed(resp) => resp,
        HandlerOutcome::Faulted => internal_error_response(),
        HandlerOutcome::DispatchFailed => internal_error_response(),
    }
}

/// The phases one request passes through under the dispatcher.
#[derive(Clone, Copy, PartialEq, Eq, Structural, Debug)]
pub enum RequestPhase {
    Received,
    BodyBuffered,
    Translated,
    Dispatched,
    Completed,
    Failed,
}

/// Whether one phase may directly follow another: a request is received,
/// its body buffered, the buffered request translated and dispatched, and
/// the dispatch completes — or it fails where its body cannot be read, where
/// it cannot be translated, or where its handler invocation ends abnormally.
pub open spec fn phase_allowed(pre: RequestPhase, post: RequestPhase) -> bool {
    match (pre, post) {
        (RequestPhase::Received, RequestPhase::BodyBuffered) => true,
        (RequestPhase::Received, RequestPhase::Failed) => true,
        (RequestPhase::BodyBuffered, RequestPhase::Translated) => true,
        (RequestPhase::BodyBuffered, RequestPhase::Failed) => true,
        (RequestPhase::Translated, RequestPhase::Dispatched) => true,
        (RequestPhase::Dispatched, RequestPhase::Completed) => true,
        (RequestPhase::Dispatched, RequestPhase::Failed) => true,
        _ => false,
    }
}

/// A phase in which the request holds its one response, synthesized or not.
pub open spec fn is_terminal_phase(p: RequestPhase) -> bool {
    p == RequestPhase::Completed || p == RequestPhase::Failed
}

/// The path one request takes through the phases, as `plan_request` and
/// `resolve_outcome` decide it: an unreadable body fails the request before
/// it is buffered, an untranslatable one after buffering, and a dispatched
/// one completes or fails with its handler outcome.
pub open spec fn request_path(
    body: BodyOutcome,
    headers: Seq<(Seq<char>, Seq<u8>)>,
    outcome: HandlerOutcome,
) -> Seq<RequestPhase> {
    match body {
        BodyOutcome::Unreadable => seq![RequestPhase::Received, RequestPhase::Failed],
        BodyOutcome::Complete(_) => if !all_values_text(headers) {
            seq![RequestPhase::Received, RequestPhase::BodyBuffered, RequestPhase::Failed]
        } else {
            match outcome {
                HandlerOutcome::Completed(_) => seq![
                    RequestPhase::Received,
                    RequestPhase::BodyBuffered,
                    RequestPhase::Translated,
                    RequestPhase::Dispatched,
                    RequestPhase::Completed,
                ],
                _ => seq![
                    RequestPhase::Received,
                    RequestPhase::BodyBuffered,
                    RequestPhase::Translated,
                    RequestPhase::Dispatched,
                    RequestPhase::Failed,
                ],
            }
        },
    }
}

/// Whatever one request's body outcome, headers and handler outcome, its
/// path through the dispatcher starts at `Received`, moves only along
/// allowed transitions, and reaches exactly one terminal phase: every
/// request yields exactly one response, never zero and never two.
pub proof fn lemma_request_path_valid(
    body: BodyOutcome,
    headers: Seq<(Seq<char>, Seq<u8>)>,
    outcome: HandlerOutcome,
)
    ensures
        ({
            let path = request_path(body, headers, outcome);
            &&& path.len() >= 2
            &&& path[0] == RequestPhase::Received
            &&& forall|i: int| 0 <= i < path.len() - 1 ==> phase_allowed(
                path[i],
                #[trigger] path[i + 1],
            )
            &&& is_terminal_phase(path.last())
            &&& forall|i: int| 0 <= i < path.len() - 1 ==> !is_terminal_phase(#[trigger] path[i])
        }),
{
}

/// The process exit status the server loop reports: zero on graceful
/// termination, one when the listener or the loop failed.
pub fn serve_exit_code(graceful: bool) -> (c: i32)
    ensures
        c == (if graceful {
            0i32
        } else {
            1i32
        }),
{
    if graceful {
        0
    } else {
        1
    }
}

} // verus!
