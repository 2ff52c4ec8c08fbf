use wapojs::headers::{str_eq_ci, usize_to_string, HeaderInput, Headers};

fn pairs_of(h: &Headers) -> Vec<(String, String)> {
    let mut out = Vec::new();
    let mut i = 0;
    while i < h.len() {
        out.push((h.name_at(i).clone(), h.value_at(i).clone()));
        i += 1;
    }
    out
}

fn pair(name: &str, value: &str) -> (String, String) {
    (name.to_string(), value.to_string())
}

#[test]
fn names_compare_case_insensitively() {
    assert!(str_eq_ci("Content-Length", "content-length"));
    assert!(str_eq_ci("ACCEPT-encoding", "Accept-Encoding"));
    assert!(!str_eq_ci("Host", "Host "));
    assert!(!str_eq_ci("Host", "Hos"));
}

#[test]
fn contains_and_remove_are_case_insensitive() {
    let mut h = Headers::from_pairs(vec![pair("X-A", "1"), pair("ACCEPT-ENCODING", "gzip")]);
    assert!(h.contains_name("x-a"));
    assert!(h.contains_name("accept-encoding"));
    h.remove_name("Accept-Encoding");
    assert!(!h.contains_name("accept-encoding"));
    assert!(h.contains_name("X-A"));
}

#[test]
fn both_input_shapes_collapse_to_pairs() {
    let a = Headers::from_input(HeaderInput::Pairs(vec![pair("b", "2"), pair("a", "1")]));
    assert_eq!(pairs_of(&a), vec![pair("b", "2"), pair("a", "1")]);
    // A single-valued mapping arrives already in key order.
    let b = Headers::from_input(HeaderInput::Mapping(vec![pair("a", "1"), pair("b", "2")]));
    assert_eq!(pairs_of(&b), vec![pair("a", "1"), pair("b", "2")]);
}

#[test]
fn decimal_rendering_is_exact() {
    assert_eq!(usize_to_string(0), "0");
    assert_eq!(usize_to_string(5), "5");
    assert_eq!(usize_to_string(10), "10");
    assert_eq!(usize_to_string(8192), "8192");
    assert_eq!(usize_to_string(1234567), "1234567");
}

#[test]
fn content_length_injected_for_materialized_body() {
    // A non-streamed body of 5 bytes without a caller-supplied
    // Content-Length: the outgoing set holds Content-Length: 5 exactly.
    let mut h = Headers::from_pairs(vec![pair("Host", "example.com"), pair("X-A", "1")]);
    h.normalize_for_request("example.com", Some(5));
    let got = pairs_of(&h);
    let cl: Vec<&(String, String)> =
        got.iter().filter(|p| p.0.eq_ignore_ascii_case("content-length")).collect();
    assert_eq!(cl.len(), 1);
    assert_eq!(cl[0].1, "5");
}

#[test]
fn caller_content_length_is_kept() {
    let mut h = Headers::from_pairs(vec![pair("Host", "h"), pair("content-length", "3")]);
    h.normalize_for_request("h", Some(3));
    let got = pairs_of(&h);
    let cl: Vec<&(String, String)> =
        got.iter().filter(|p| p.0.eq_ignore_ascii_case("content-length")).collect();
    assert_eq!(cl.len(), 1);
    assert_eq!(cl[0].1, "3");
}

#[test]
fn streamed_body_gets_no_content_length() {
    let mut h = Headers::from_pairs(vec![pair("Host", "h")]);
    h.normalize_for_request("h", None);
    assert!(!h.contains_name("Content-Length"));
}

#[test]
fn accept_encoding_is_always_stripped() {
    // Whatever the supplied value or case, Accept-Encoding never reaches
    // the outgoing set.
    let mut h = Headers::from_pairs(vec![
        pair("Accept-Encoding", "gzip"),
        pair("X-A", "1"),
        pair("accept-ENCODING", "br"),
    ]);
    h.normalize_for_request("example.com", Some(0));
    assert!(!h.contains_name("Accept-Encoding"));
    assert!(!h.contains_name("accept-encoding"));
    assert!(h.contains_name("X-A"));
}

#[test]
fn host_and_user_agent_injected_when_absent() {
    let mut h = Headers::new();
    h.normalize_for_request("example.org", None);
    let got = pairs_of(&h);
    assert_eq!(got[0], pair("Host", "example.org"));
    assert_eq!(got[1], pair("User-Agent", "WapoJS/0.1.0"));
}

#[test]
fn caller_host_and_user_agent_are_kept() {
    let mut h = Headers::from_pairs(vec![pair("host", "mine"), pair("user-agent", "me")]);
    h.normalize_for_request("example.org", None);
    let got = pairs_of(&h);
    assert_eq!(got, vec![pair("host", "mine"), pair("user-agent", "me")]);
}

#[test]
fn insertion_order_and_duplicates_are_preserved() {
    let mut h = Headers::from_pairs(vec![
        pair("Host", "h"),
        pair("X-A", "1"),
        pair("X-A", "2"),
    ]);
    h.normalize_for_request("h", None);
    let got = pairs_of(&h);
    assert_eq!(
        got,
        vec![
            pair("Host", "h"),
            pair("X-A", "1"),
            pair("X-A", "2"),
            pair("User-Agent", "WapoJS/0.1.0"),
        ]
    );
}

#[test]
fn push_appends_in_order() {
    let mut h = Headers::new();
    h.push("A".to_string(), "1".to_string());
    h.push("B".to_string(), "2".to_string());
    assert_eq!(pairs_of(&h), vec![pair("A", "1"), pair("B", "2")]);
}
