use tplpipe::{
    next_fetch, pipeline_start, pipeline_step, render_document, FetchEvent,
    HeaderValueInfo, PipelineResult, PipelineState, RequestInfo,
};

fn get_request(query: &str) -> RequestInfo {
    RequestInfo {
        method: "GET".to_string(),
        query: query.to_string(),
        content_type: HeaderValueInfo::Missing,
        content_type_fallback: HeaderValueInfo::Missing,
        body: Vec::new(),
    }
}

fn run(req: &RequestInfo, mut events: Vec<FetchEvent>) -> PipelineResult {
    let mut state = pipeline_start(req);
    while let Some(_fetch) = next_fetch(&state) {
        assert!(!events.is_empty(), "pipeline asked for more fetches than expected");
        state = pipeline_step(state, events.remove(0));
    }
    match state {
        PipelineState::Done { result } => result,
        _ => panic!("pipeline stopped before it was done"),
    }
}

fn ok_event(body: &[u8]) -> FetchEvent {
    FetchEvent::Success { body: body.to_vec() }
}

fn expect_success(r: &PipelineResult) -> &str {
    match r {
        PipelineResult::Success { body } => body.as_str(),
        PipelineResult::Failure { status, body } => {
            panic!("expected success, got {} {}", status, body)
        },
    }
}

fn expect_failure(r: &PipelineResult) -> (u16, &str) {
    match r {
        PipelineResult::Success { body } => panic!("expected failure, got success {}", body),
        PipelineResult::Failure { status, body } => (*status, body.as_str()),
    }
}

#[test]
fn renders_template_against_data() {
    let req = get_request("t=http://x/tpl&d=http://x/data");
    let result = run(
        &req,
        vec![ok_event(b"Hello {{name}}"), ok_event(b"{\"name\": \"World\"}")],
    );
    assert_eq!(expect_success(&result), "Hello World");
}

#[test]
fn form_post_renders_like_get() {
    let get_result = run(
        &get_request("t=http://x/tpl&d=http://x/data"),
        vec![ok_event(b"Hello {{name}}"), ok_event(b"{\"name\": \"World\"}")],
    );
    let req = RequestInfo {
        method: "POST".to_string(),
        query: String::new(),
        content_type: HeaderValueInfo::Text("application/x-www-form-urlencoded".to_string()),
        content_type_fallback: HeaderValueInfo::Missing,
        body: b"t=http://x/tpl&d=http://x/data".to_vec(),
    };
    let post_result = run(
        &req,
        vec![ok_event(b"Hello {{name}}"), ok_event(b"{\"name\": \"World\"}")],
    );
    assert_eq!(expect_success(&get_result), expect_success(&post_result));
}

#[test]
fn fetch_requests_carry_urls_and_accept_headers() {
    let req = get_request("t=http://x/tpl&d=http://x/data");
    let state = pipeline_start(&req);
    let first = next_fetch(&state).expect("a template fetch");
    assert_eq!(first.url, "http://x/tpl");
    assert_eq!(first.accept, "text/html,text/plain");
    let state = pipeline_step(state, ok_event(b"Hello"));
    let second = next_fetch(&state).expect("a data fetch");
    assert_eq!(second.url, "http://x/data");
    assert_eq!(second.accept, "application/json");
}

#[test]
fn upstream_status_is_passed_through() {
    let req = get_request("t=http://x/tpl&d=http://x/data");
    let result = run(
        &req,
        vec![
            ok_event(b"Hello {{name}}"),
            FetchEvent::HttpError { status: 404, summary: "http status: 404".to_string() },
        ],
    );
    let (status, body) = expect_failure(&result);
    assert_eq!(status, 404);
    assert_eq!(body, "http status: 404");
}

#[test]
fn transport_failure_is_masked_as_internal_error() {
    let req = get_request("t=http://x/tpl&d=http://x/data");
    let result = run(&req, vec![FetchEvent::Transport]);
    let (status, body) = expect_failure(&result);
    assert_eq!(status, 500);
    assert_eq!(body, "Something went wrong");
}

#[test]
fn template_that_is_not_utf8_is_bad_media() {
    let req = get_request("t=http://x/tpl&d=http://x/data");
    let result = run(&req, vec![ok_event(&[0xff, 0xfe])]);
    let (status, body) = expect_failure(&result);
    assert_eq!(status, 415);
    assert_eq!(body, "Request body should be a UTF-8 encoded JSON/Form data");
}

#[test]
fn data_that_is_not_json_is_incorrect_json() {
    let req = get_request("t=http://x/tpl&d=http://x/data");
    let result = run(&req, vec![ok_event(b"Hello"), ok_event(b"not json")]);
    let (status, body) = expect_failure(&result);
    assert_eq!(status, 400);
    assert_eq!(body, "Incorrect JSON");
}

#[test]
fn unknown_content_type_stops_before_any_fetch() {
    let req = RequestInfo {
        method: "POST".to_string(),
        query: String::new(),
        content_type: HeaderValueInfo::Text("image/png".to_string()),
        content_type_fallback: HeaderValueInfo::Missing,
        body: b"{\"t\": \"u1\", \"d\": \"u2\"}".to_vec(),
    };
    let state = pipeline_start(&req);
    assert!(next_fetch(&state).is_none());
    let result = run(&req, vec![]);
    let (status, body) = expect_failure(&result);
    assert_eq!(status, 415);
    assert_eq!(body, "Request body should be a UTF-8 encoded JSON/Form data");
}

#[test]
fn disallowed_method_stops_before_any_fetch() {
    let mut req = get_request("t=x&d=y");
    req.method = "DELETE".to_string();
    let state = pipeline_start(&req);
    assert!(next_fetch(&state).is_none());
    let result = run(&req, vec![]);
    let (status, body) = expect_failure(&result);
    assert_eq!(status, 405);
    assert_eq!(body, "Method not allowed");
}

#[test]
fn identical_runs_yield_identical_results() {
    let once = run(
        &get_request("t=http://x/tpl&d=http://x/data"),
        vec![ok_event(b"Hi {{name}}: {{to_json name}}"), ok_event(b"{\"name\": \"W\"}")],
    );
    let twice = run(
        &get_request("t=http://x/tpl&d=http://x/data"),
        vec![ok_event(b"Hi {{name}}: {{to_json name}}"), ok_event(b"{\"name\": \"W\"}")],
    );
    assert_eq!(expect_success(&once), expect_success(&twice));
}

#[test]
fn to_json_helper_round_trips_compact_json() {
    let html = render_document("{{to_json x}}", "{\"x\": {\"a\":1,\"b\":[true,null]}}")
        .expect("render succeeds");
    assert_eq!(html, "{\"a\":1,\"b\":[true,null]}");
}

#[test]
fn to_json_helper_without_arguments_writes_nothing() {
    let html = render_document("a{{to_json}}b", "{}").expect("render succeeds");
    assert_eq!(html, "ab");
}

#[test]
fn substitution_escapes_html_but_to_json_does_not() {
    let escaped = render_document("{{v}}", "{\"v\": \"<b>\"}").expect("render succeeds");
    assert_eq!(escaped, "&lt;b&gt;");
    let raw = render_document("{{to_json v}}", "{\"v\": \"<b>\"}").expect("render succeeds");
    assert_eq!(raw, "\"<b>\"");
}

#[test]
fn malformed_template_is_bad_request() {
    let e = render_document("{{#if}}", "{}").expect_err("render fails");
    assert_eq!(e.status, 400);
    assert!(!e.message.is_empty());
}

#[test]
fn render_rejects_data_that_is_not_json() {
    let e = render_document("Hello", "not json").expect_err("render fails");
    assert_eq!(e.status, 400);
    assert_eq!(e.message, "Incorrect JSON");
}
