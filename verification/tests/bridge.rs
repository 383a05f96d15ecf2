use http_bridge::config::{bind_address, effective_host, effective_port_text};
use http_bridge::message::{Header, MethodTag, NormalizedResponse};
use http_bridge::pipeline::{
    plan_request, resolve_outcome, serve_exit_code, BodyOutcome, HandlerOutcome, Step,
};
use http_bridge::translate::{to_normalized_request, to_wire_response};

fn pair(name: &str, value: &[u8]) -> (String, Vec<u8>) {
    (name.to_string(), value.to_vec())
}

#[test]
fn translator_round_trip_through_echo_handler() {
    let headers = vec![
        pair("content-type", b"text/plain"),
        pair("x-dup", b"one"),
        pair("x-dup", b"two"),
    ];
    let body = b"hello world".to_vec();
    let req = to_normalized_request(
        "POST".to_string(),
        "/echo?q=1".to_string(),
        headers.clone(),
        body.clone(),
    )
    .expect("valid tuple must translate");

    assert_eq!(req.method, MethodTag::Post);
    assert_eq!(req.method_ext, "");
    assert_eq!(req.uri, "/echo?q=1");
    assert_eq!(req.timeout_ms, 0);

    // A handler that echoes its input.
    let echoed = NormalizedResponse {
        status: 200,
        headers: req.headers,
        body: req.body,
    };
    let wire = to_wire_response(echoed);
    assert_eq!(wire.status, 200);
    assert_eq!(wire.headers, headers);
    assert_eq!(wire.body, body);
}

#[test]
fn get_root_scenario() {
    let step = plan_request(
        "GET".to_string(),
        "/".to_string(),
        Vec::new(),
        BodyOutcome::Complete(Vec::new()),
    );
    let req = match step {
        Step::Dispatch(req) => req,
        Step::Respond(_) => panic!("a valid request must reach the handler"),
    };
    assert_eq!(req.method, MethodTag::Get);
    assert_eq!(req.method_ext, "");
    assert_eq!(req.uri, "/");
    assert!(req.headers.is_empty());
    assert!(req.body.is_empty());

    let handler_response = NormalizedResponse {
        status: 200,
        headers: vec![Header {
            name: "content-type".to_string(),
            value: b"text/plain".to_vec(),
        }],
        body: b"OK".to_vec(),
    };
    let wire = to_wire_response(resolve_outcome(HandlerOutcome::Completed(handler_response)));
    assert_eq!(wire.status, 200);
    assert_eq!(wire.headers, vec![pair("content-type", b"text/plain")]);
    assert_eq!(wire.body, b"OK".to_vec());
}

#[test]
fn purge_maps_to_extension_with_literal_text() {
    let step = plan_request(
        "PURGE".to_string(),
        "/cache".to_string(),
        Vec::new(),
        BodyOutcome::Complete(Vec::new()),
    );
    match step {
        Step::Dispatch(req) => {
            assert_eq!(req.method, MethodTag::Extension);
            assert_eq!(req.method_ext, "PURGE");
        }
        Step::Respond(_) => panic!("a valid request must reach the handler"),
    }
}

#[test]
fn standard_verbs_map_to_their_tags() {
    let cases = [
        ("GET", MethodTag::Get),
        ("POST", MethodTag::Post),
        ("PUT", MethodTag::Put),
        ("DELETE", MethodTag::Delete),
        ("HEAD", MethodTag::Head),
        ("OPTIONS", MethodTag::Options),
        ("CONNECT", MethodTag::Connect),
        ("PATCH", MethodTag::Patch),
        ("TRACE", MethodTag::Trace),
    ];
    for (verb, tag) in cases {
        let req = to_normalized_request(
            verb.to_string(),
            "/".to_string(),
            Vec::new(),
            Vec::new(),
        )
        .expect("standard verb must translate");
        assert_eq!(req.method, tag);
        assert_eq!(req.method_ext, "");
    }
}

#[test]
fn lowercase_verb_is_an_extension() {
    let req = to_normalized_request("get".to_string(), "/".to_string(), Vec::new(), Vec::new())
        .expect("any verb translates");
    assert_eq!(req.method, MethodTag::Extension);
    assert_eq!(req.method_ext, "get");
}

#[test]
fn unreadable_body_short_circuits_to_bad_request() {
    let step = plan_request(
        "GET".to_string(),
        "/".to_string(),
        vec![pair("a", b"1")],
        BodyOutcome::Unreadable,
    );
    match step {
        Step::Respond(r) => {
            assert_eq!(r.status, 400);
            assert!(r.headers.is_empty());
            assert_eq!(r.body, b"Error receiving HTTP request body".to_vec());
        }
        Step::Dispatch(_) => panic!("an unreadable body must never reach the handler"),
    }
}

#[test]
fn non_text_header_value_is_a_translation_error() {
    let headers = vec![pair("good", b"fine"), pair("bad", &[0xFFu8, 0x00u8])];
    let err = to_normalized_request("GET".to_string(), "/".to_string(), headers.clone(), Vec::new());
    assert!(err.is_err());

    let step = plan_request(
        "GET".to_string(),
        "/".to_string(),
        headers,
        BodyOutcome::Complete(Vec::new()),
    );
    match step {
        Step::Respond(r) => {
            assert_eq!(r.status, 400);
            assert_eq!(r.body, b"Invalid header value in HTTP request".to_vec());
        }
        Step::Dispatch(_) => panic!("an untranslatable request must never reach the handler"),
    }
}

#[test]
fn header_value_text_edges() {
    // Horizontal tab, space and visible ASCII are text; control bytes and
    // DEL are not.
    let ok = to_normalized_request(
        "GET".to_string(),
        "/".to_string(),
        vec![pair("v", &[9u8, 32u8, 33u8, 126u8])],
        Vec::new(),
    );
    assert!(ok.is_ok());
    for bad in [8u8, 10u8, 13u8, 31u8, 127u8, 128u8, 255u8] {
        let r = to_normalized_request(
            "GET".to_string(),
            "/".to_string(),
            vec![pair("v", &[bad])],
            Vec::new(),
        );
        assert!(r.is_err(), "byte {bad} must not count as text");
    }
}

#[test]
fn handler_fault_becomes_one_internal_error_and_service_continues() {
    let faulted = resolve_outcome(HandlerOutcome::Faulted);
    assert_eq!(faulted.status, 500);
    assert!(faulted.headers.is_empty());
    assert_eq!(faulted.body, b"Panic detected!".to_vec());

    // A following independent request is served normally.
    let step = plan_request(
        "GET".to_string(),
        "/after".to_string(),
        Vec::new(),
        BodyOutcome::Complete(Vec::new()),
    );
    let req = match step {
        Step::Dispatch(req) => req,
        Step::Respond(_) => panic!("a valid request must reach the handler"),
    };
    assert_eq!(req.uri, "/after");
    let ok = resolve_outcome(HandlerOutcome::Completed(NormalizedResponse {
        status: 204,
        headers: Vec::new(),
        body: Vec::new(),
    }));
    assert_eq!(ok.status, 204);
}

#[test]
fn dispatch_failure_becomes_internal_error() {
    let r = resolve_outcome(HandlerOutcome::DispatchFailed);
    assert_eq!(r.status, 500);
    assert_eq!(r.body, b"Panic detected!".to_vec());
}

#[test]
fn completed_outcome_is_forwarded_unchanged() {
    let resp = NormalizedResponse {
        status: 418,
        headers: vec![Header {
            name: "x-kind".to_string(),
            value: b"teapot".to_vec(),
        }],
        body: b"short and stout".to_vec(),
    };
    let r = resolve_outcome(HandlerOutcome::Completed(resp));
    assert_eq!(r.status, 418);
    assert_eq!(r.headers.len(), 1);
    assert_eq!(r.headers[0].name, "x-kind");
    assert_eq!(r.headers[0].value, b"teapot".to_vec());
    assert_eq!(r.body, b"short and stout".to_vec());
}

#[test]
fn wire_response_copies_everything_verbatim() {
    let resp = NormalizedResponse {
        status: 301,
        headers: vec![
            Header {
                name: "location".to_string(),
                value: b"/new".to_vec(),
            },
            Header {
                name: "x-extra".to_string(),
                value: b"kept in order".to_vec(),
            },
        ],
        body: b"moved".to_vec(),
    };
    let wire = to_wire_response(resp);
    assert_eq!(wire.status, 301);
    assert_eq!(
        wire.headers,
        vec![pair("location", b"/new"), pair("x-extra", b"kept in order")]
    );
    assert_eq!(wire.body, b"moved".to_vec());
}

#[test]
fn listening_configuration_defaults() {
    assert_eq!(effective_host(None), "127.0.0.1");
    assert_eq!(effective_host(Some("0.0.0.0".to_string())), "0.0.0.0");
    assert_eq!(effective_port_text(None), "8000");
    assert_eq!(effective_port_text(Some("9090".to_string())), "9090");
    assert_eq!(
        bind_address(effective_host(None), &effective_port_text(None)),
        "127.0.0.1:8000"
    );
    assert_eq!(
        bind_address("::1".to_string(), &"80".to_string()),
        "::1:80"
    );
}

#[test]
fn exit_status_of_the_server_loop() {
    assert_eq!(serve_exit_code(true), 0);
    assert_eq!(serve_exit_code(false), 1);
}
