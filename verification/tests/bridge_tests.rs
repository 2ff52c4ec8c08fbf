use wapojs::bridge::{
    build_request, default_method, format_request_error, http_request, BodySource,
    HttpRequest, HttpResponseHead, Phase, RequestLifecycle,
};
use wapojs::headers::Headers;
use wapojs::pipe::{DownloadAction, PipeState, ReadOutcome, STREAM_BUF_SIZE};
use wapojs::service::{ScriptValue, Service};

fn pair(name: &str, value: &str) -> (String, String) {
    (name.to_string(), value.to_string())
}

fn pairs_of(h: &Headers) -> Vec<(String, String)> {
    let mut out = Vec::new();
    let mut i = 0;
    while i < h.len() {
        out.push((h.name_at(i).clone(), h.value_at(i).clone()));
        i += 1;
    }
    out
}

fn simple_request(url: &str) -> HttpRequest {
    HttpRequest {
        url: url.to_string(),
        method: default_method(),
        headers: Headers::new(),
        body: Vec::new(),
        stream_body: false,
    }
}

#[test]
fn default_method_is_get() {
    assert_eq!(default_method(), "GET");
}

#[test]
fn unparsable_url_fails_with_the_literal_url_in_the_message() {
    // One "error" event, no "head": the detail and the event message both
    // carry the failing URL text verbatim.
    let req = simple_request("not a url");
    let mut lc = RequestLifecycle::new();
    match build_request(req) {
        Ok(_) => panic!("a malformed URL must not build"),
        Err(detail) => {
            assert_eq!(detail, "failed to parse url: not a url");
            lc.fail();
            let msg = format_request_error("not a url", &detail);
            assert_eq!(
                msg,
                "failed to request `not a url`: failed to parse url: not a url"
            );
            assert!(msg.contains("not a url"));
        },
    }
    assert_eq!(lc.current_phase(), Phase::Failed);
}

#[test]
fn invalid_method_fails_to_build() {
    let mut req = simple_request("http://example.com/");
    req.method = "bad method".to_string();
    match build_request(req) {
        Ok(_) => panic!("a method with a space is no token"),
        Err(detail) => assert_eq!(detail, "failed to build request"),
    }
}

#[test]
fn method_is_uppercased() {
    let mut req = simple_request("http://example.com/");
    req.method = "get".to_string();
    let p = build_request(req).expect("a plain GET must build");
    assert_eq!(p.method, "GET");
    assert_eq!(p.url, "http://example.com/");
}

#[test]
fn host_is_taken_from_the_url_authority() {
    let req = simple_request("http://example.com:8080/path?q=1");
    let p = build_request(req).expect("the URL parses");
    let got = pairs_of(&p.headers);
    assert!(got.contains(&pair("Host", "example.com")));
}

#[test]
fn materialized_body_gets_exact_content_length() {
    let mut req = simple_request("http://example.com/");
    req.body = b"hello".to_vec();
    let p = build_request(req).expect("the URL parses");
    let got = pairs_of(&p.headers);
    assert!(got.contains(&pair("Content-Length", "5")));
    match p.body {
        BodySource::Full(b) => assert_eq!(b, b"hello".to_vec()),
        BodySource::Streamed => panic!("the body was materialized"),
    }
}

#[test]
fn streamed_body_is_canonical_and_unsized() {
    let mut req = simple_request("http://example.com/");
    req.stream_body = true;
    let p = build_request(req).expect("the URL parses");
    assert!(!p.headers.contains_name("Content-Length"));
    assert!(matches!(p.body, BodySource::Streamed));
}

#[test]
fn accept_encoding_never_survives_building() {
    let mut req = simple_request("http://example.com/");
    req.headers = Headers::from_pairs(vec![pair("Accept-Encoding", "gzip, br")]);
    let p = build_request(req).expect("the URL parses");
    assert!(!p.headers.contains_name("accept-encoding"));
}

#[test]
fn receipt_carries_cancel_token_and_upload_handle_flag() {
    let mut service = Service::new();
    let (receipt, _pipes) = http_request(&mut service, true, ScriptValue::new(4));
    assert_eq!(receipt.cancel_token, 0);
    assert!(receipt.opaque_body_stream);
    let (receipt2, _pipes2) = http_request(&mut service, false, ScriptValue::new(5));
    assert_eq!(receipt2.cancel_token, 1);
    assert!(!receipt2.opaque_body_stream);
    assert!(service.get_resource_value(receipt.cancel_token).is_some());
}

#[test]
fn successful_request_emits_head_then_exact_body_bytes() {
    // A 200 response with header X-B: 2; the head payload carries them,
    // and the body handle yields the exact bytes, then end-of-stream.
    let mut req = simple_request("http://example.com/");
    req.headers = Headers::from_pairs(vec![pair("X-A", "1")]);
    let p = build_request(req).expect("the URL parses");
    assert!(pairs_of(&p.headers).contains(&pair("X-A", "1")));

    let mut lc = RequestLifecycle::new();
    lc.headers_normalized();
    lc.request_sent();
    let mut down = PipeState::new(STREAM_BUF_SIZE);
    lc.emit_head(&down);
    let head = HttpResponseHead {
        status: 200,
        status_text: "OK".to_string(),
        version: "HTTP/1.1".to_string(),
        headers: Headers::from_pairs(vec![pair("X-B", "2")]),
    };
    assert_eq!(head.status, 200);
    assert!(pairs_of(&head.headers).contains(&pair("X-B", "2")));
    assert_eq!(lc.current_phase(), Phase::HeadEmitted);

    lc.body_relaying();
    let body = b"response body".to_vec();
    assert!(matches!(
        wapojs::pipe::download_relay_step(&mut down, Some(&body)),
        DownloadAction::Progress(13)
    ));
    assert!(matches!(
        wapojs::pipe::download_relay_step(&mut down, None),
        DownloadAction::Finished
    ));
    lc.finish();
    match down.read(STREAM_BUF_SIZE) {
        ReadOutcome::Data(got) => assert_eq!(got, body),
        _ => panic!("the body bytes must be readable after the head"),
    }
    assert!(matches!(down.read(1), ReadOutcome::Eof));
    assert_eq!(lc.current_phase(), Phase::Done);
}

#[test]
fn lifecycle_walks_the_streamed_path() {
    let mut lc = RequestLifecycle::new();
    assert_eq!(lc.current_phase(), Phase::Created);
    lc.headers_normalized();
    lc.upload_started();
    lc.request_sent();
    assert_eq!(lc.current_phase(), Phase::AwaitingResponse);
    let down = PipeState::new(8);
    lc.emit_head(&down);
    lc.body_relaying();
    lc.finish();
    assert_eq!(lc.current_phase(), Phase::Done);
}

#[test]
fn transport_failure_while_awaiting_emits_single_error() {
    let mut lc = RequestLifecycle::new();
    lc.headers_normalized();
    lc.request_sent();
    lc.fail();
    assert_eq!(lc.current_phase(), Phase::Failed);
    let msg = format_request_error("http://example.com/", "connection refused");
    assert_eq!(msg, "failed to request `http://example.com/`: connection refused");
}

#[test]
fn url_without_authority_yields_empty_host() {
    // hyper accepts a path-only URI; its host defaults to the empty
    // string, which is what the Host header then carries.
    let req = simple_request("/hello/world");
    let p = build_request(req).expect("a relative URI parses");
    assert!(pairs_of(&p.headers).contains(&pair("Host", "")));
}

#[test]
fn start_request_fails_terminally_on_bad_url() {
    let mut lc = RequestLifecycle::new();
    let r = wapojs::bridge::start_request(simple_request("not a url"), &mut lc);
    assert_eq!(r.unwrap_err(), "failed to parse url: not a url");
    assert_eq!(lc.current_phase(), Phase::Failed);
}

#[test]
fn start_request_normalizes_and_advances() {
    let mut lc = RequestLifecycle::new();
    let p = wapojs::bridge::start_request(simple_request("http://example.com/"), &mut lc)
        .expect("a plain request must build");
    assert_eq!(lc.current_phase(), Phase::HeadersNormalized);
    assert!(p.headers.contains_name("host"));
    assert!(p.headers.contains_name("user-agent"));
}

#[test]
fn on_response_emits_head_with_exact_payload() {
    let mut lc = RequestLifecycle::new();
    lc.headers_normalized();
    lc.request_sent();
    let down = PipeState::new(8);
    let head = wapojs::bridge::on_response(
        &mut lc,
        404,
        "Not Found".to_string(),
        "HTTP/1.1".to_string(),
        Headers::new(),
        &down,
    );
    assert_eq!(head.status, 404);
    assert_eq!(head.status_text, "Not Found");
    assert_eq!(head.version, "HTTP/1.1");
    assert_eq!(lc.current_phase(), Phase::HeadEmitted);
}
