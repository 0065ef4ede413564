use llmkey_pool::error::ProxyError;
use llmkey_pool::message::{Header, InboundRequest, OutboundRequest};
use llmkey_pool::translate::{
    assemble, filter_headers, is_excluded_name, make_credential_header, make_target_path,
    translate,
};

fn header(name: &str, value: &[u8]) -> Header {
    Header { name: name.to_string(), value: value.to_vec() }
}

fn request(path: &str, query: &str, headers: Vec<Header>, body: &[u8]) -> InboundRequest {
    InboundRequest {
        method: "POST".to_string(),
        path: path.to_string(),
        query: query.to_string(),
        headers,
        body: body.to_vec(),
    }
}

fn pairs(out: &OutboundRequest) -> Vec<(String, Vec<u8>)> {
    out.headers.iter().map(|h| (h.name.clone(), h.value.clone())).collect()
}

#[test]
fn bearer_surface_gets_a_bearer_token() {
    let out = translate(&request("/openai/chat", "", vec![], b""), "K1").unwrap();
    assert_eq!(out.url, "https://generativelanguage.googleapis.com/v1beta/openai/chat");
    assert_eq!(pairs(&out), vec![("Authorization".to_string(), b"Bearer K1".to_vec())]);
}

#[test]
fn other_paths_get_the_vendor_header() {
    let out = translate(&request("/models", "", vec![], b""), "K2").unwrap();
    assert_eq!(out.url, "https://generativelanguage.googleapis.com/v1beta/models");
    assert_eq!(pairs(&out), vec![("x-goog-api-key".to_string(), b"K2".to_vec())]);
}

#[test]
fn surface_is_decided_by_the_start_of_the_path() {
    assert_eq!(make_credential_header("/openai", "k").name, "Authorization");
    assert_eq!(make_credential_header("/openaix/y", "k").name, "Authorization");
    assert_eq!(make_credential_header("/v1/openai", "k").name, "x-goog-api-key");
    assert_eq!(make_credential_header("/OpenAI/chat", "k").name, "x-goog-api-key");
    assert_eq!(make_credential_header("/opena", "k").name, "x-goog-api-key");
    assert_eq!(make_credential_header("", "k").name, "x-goog-api-key");
    assert_eq!(make_credential_header("/openai/\u{e9}", "k\u{e9}").value, "Bearer k\u{e9}".as_bytes());
}

#[test]
fn query_is_joined_to_the_path() {
    assert_eq!(make_target_path("/models", ""), "/v1beta/models");
    assert_eq!(make_target_path("/models", "key=1&alt=sse"), "/v1beta/models&key=1&alt=sse");
    assert_eq!(make_target_path("", "a"), "/v1beta&a");
    let out = translate(&request("/models", "alt=sse", vec![], b""), "K").unwrap();
    assert_eq!(out.url, "https://generativelanguage.googleapis.com/v1beta/models&alt=sse");
}

#[test]
fn excluded_headers_are_dropped_whatever_their_case() {
    for name in [
        "host", "Host", "HOST", "content-length", "Content-Length", "accept-encoding",
        "Accept-Encoding", "connection", "Connection", "user-agent", "User-Agent",
        "authorization", "Authorization", "AUTHORIZATION", "x-goog-api-key", "X-Goog-Api-Key",
    ] {
        assert!(is_excluded_name(name), "{}", name);
    }
    for name in [
        "", "hos", "hosts", "content-type", "accept", "x-goog-api-client", "x-goog-api-ke\u{212a}y",
        "x-goog-api-\u{212a}ey", "h\u{f6}st", "authorization ", "user_agent",
    ] {
        assert!(!is_excluded_name(name), "{}", name);
    }
}

#[test]
fn remaining_headers_are_copied_in_order() {
    let inbound = vec![
        header("Host", b"proxy.local"),
        header("content-type", b"application/json"),
        header("Authorization", b"Bearer s3cret"),
        header("x-custom", &[0xff, 0xfe]),
        header("User-Agent", b"curl"),
        header("content-type", b"text/plain"),
        header("Content-Length", b"2"),
        header("accept", b"*/*"),
    ];
    let kept = filter_headers(&inbound);
    let got: Vec<(String, Vec<u8>)> = kept.iter().map(|h| (h.name.clone(), h.value.clone())).collect();
    assert_eq!(
        got,
        vec![
            ("content-type".to_string(), b"application/json".to_vec()),
            ("x-custom".to_string(), vec![0xff, 0xfe]),
            ("content-type".to_string(), b"text/plain".to_vec()),
            ("accept".to_string(), b"*/*".to_vec()),
        ]
    );
    assert!(filter_headers(&Vec::new()).is_empty());
}

#[test]
fn whole_request_is_translated() {
    let inbound = request(
        "/openai/chat/completions",
        "",
        vec![
            header("host", b"localhost:3030"),
            header("authorization", b"Bearer s3cret"),
            header("content-type", b"application/json"),
        ],
        b"{\"a\":1}",
    );
    let out = translate(&inbound, "K1").unwrap();
    assert_eq!(out.method, "POST");
    assert_eq!(
        out.url,
        "https://generativelanguage.googleapis.com/v1beta/openai/chat/completions"
    );
    assert_eq!(
        pairs(&out),
        vec![
            ("content-type".to_string(), b"application/json".to_vec()),
            ("Authorization".to_string(), b"Bearer K1".to_vec()),
        ]
    );
    assert_eq!(out.body, Some(b"{\"a\":1}".to_vec()));
}

#[test]
fn empty_body_is_left_out() {
    let out = translate(&request("/models", "", vec![], b""), "K").unwrap();
    assert_eq!(out.body, None);
    let out = translate(&request("/models", "", vec![], &[0]), "K").unwrap();
    assert_eq!(out.body, Some(vec![0]));
}

#[test]
fn body_bytes_pass_unmodified() {
    let body: Vec<u8> = (0..=255u8).collect();
    let out = translate(&request("/models", "", vec![], &body), "K").unwrap();
    assert_eq!(out.body, Some(body));
}

#[test]
fn refused_target_is_an_internal_failure() {
    match translate(&request("/a b", "", vec![], b""), "K") {
        Err(ProxyError::Internal(text)) => assert_eq!(text, "URL build fail: invalid uri character"),
        other => panic!("unexpected {:?}", other),
    }
    let long = format!("/{}", "a".repeat(70_000));
    match translate(&request(&long, "", vec![], b""), "K") {
        Err(e) => {
            assert_eq!(e.status_code(), 500);
            assert_eq!(e.response_body(), "Proxy Error: URL build fail: uri too long");
        }
        Ok(_) => panic!("an over-long target must be refused"),
    }
}

#[test]
fn target_is_cut_at_a_fragment() {
    let out = translate(&request("/models#frag", "x=1", vec![], b""), "K").unwrap();
    assert_eq!(out.url, "https://generativelanguage.googleapis.com/v1beta/models");
}

#[test]
fn host_cannot_be_changed_by_the_path() {
    for path in ["//evil.example/x", "/@evil.example", "/..//evil.example", ".evil.example/x"] {
        let input = request(path, "", vec![], b"");
        if let Ok(out) = translate(&input, "K") {
            assert!(
                out.url.starts_with("https://generativelanguage.googleapis.com/v1beta"),
                "{}",
                out.url
            );
        }
    }
}

#[test]
fn assemble_uses_what_the_builder_returned() {
    let inbound = request("/models", "", vec![header("accept", b"*/*")], b"x");
    let out = assemble(&inbound, "K", Ok("https://example.test/anything".to_string())).unwrap();
    assert_eq!(out.url, "https://example.test/anything");
    assert_eq!(
        pairs(&out),
        vec![
            ("accept".to_string(), b"*/*".to_vec()),
            ("x-goog-api-key".to_string(), b"K".to_vec()),
        ]
    );
    assert_eq!(out.body, Some(b"x".to_vec()));
    match assemble(&inbound, "K", Err("no good".to_string())) {
        Err(ProxyError::Internal(text)) => assert_eq!(text, "URL build fail: no good"),
        other => panic!("unexpected {:?}", other),
    }
}

const TARGET: &str = "https://generativelanguage.googleapis.com/v1beta";

fn refused_as(path: &str, text: &str) -> bool {
    match translate(&request(path, "", vec![], b""), "K") {
        Err(ProxyError::Internal(why)) => {
            assert_eq!(why, format!("URL build fail: {}", text), "{:?}", path);
            true
        }
        Err(other) => panic!("unexpected {:?}", other),
        Ok(_) => false,
    }
}

#[test]
fn every_ascii_character_in_the_path() {
    for b in 0u8..128 {
        let c = b as char;
        let path = format!("/a{}c", c);
        let taken = matches!(b, 0x21 | 0x22 | 0x24..=0x3B | 0x3D | 0x40..=0x5F | 0x61..=0x7E);
        match translate(&request(&path, "", vec![], b""), "K") {
            Ok(out) => {
                assert!(taken || c == '?' || c == '#', "{:?}", path);
                let shown = if c == '#' { "/a".to_string() } else { path.clone() };
                assert_eq!(out.url, format!("{}{}", TARGET, shown));
            }
            Err(_) => {
                assert!(!taken && c != '?' && c != '#', "{:?}", path);
                assert!(refused_as(&path, "invalid uri character"));
            }
        }
    }
}

#[test]
fn every_ascii_character_in_a_query_behind_the_path() {
    for b in 0u8..128 {
        let c = b as char;
        let path = format!("/a?x{}y", c);
        let taken = matches!(b, 0x21 | 0x24..=0x3B | 0x3D | 0x3F..=0x7E);
        match translate(&request(&path, "", vec![], b""), "K") {
            Ok(out) => {
                assert!(taken || c == '#', "{:?}", path);
                let shown = if c == '#' { "/a?x".to_string() } else { path.clone() };
                assert_eq!(out.url, format!("{}{}", TARGET, shown));
            }
            Err(_) => {
                assert!(!taken && c != '#', "{:?}", path);
                assert!(refused_as(&path, "invalid uri character"));
            }
        }
    }
}

#[test]
fn every_ascii_character_in_the_joined_query() {
    for b in 0u8..128 {
        let c = b as char;
        let query = format!("k={}", c);
        let taken = matches!(b, 0x21 | 0x22 | 0x24..=0x3B | 0x3D | 0x40..=0x5F | 0x61..=0x7E);
        let out = translate(&request("/models", &query, vec![], b""), "K");
        assert_eq!(out.is_ok(), taken || c == '?' || c == '#', "{:?}", query);
    }
}

#[test]
fn nothing_behind_a_fragment_is_looked_at() {
    let out = translate(&request("/a#b c<>\u{7f}\n", "", vec![], b""), "K").unwrap();
    assert_eq!(out.url, format!("{}/a", TARGET));
    let out = translate(&request("/a?q#\"`", "", vec![], b""), "K").unwrap();
    assert_eq!(out.url, format!("{}/a?q", TARGET));
    let out = translate(&request("#", "", vec![], b""), "K").unwrap();
    assert_eq!(out.url, TARGET);
}

#[test]
fn characters_beyond_ascii_are_taken() {
    let out = translate(&request("/caf\u{e9}/\u{4e2d}?\u{1f600}", "", vec![], b""), "K").unwrap();
    assert_eq!(out.url, format!("{}/caf\u{e9}/\u{4e2d}?\u{1f600}", TARGET));
}

#[test]
fn target_length_is_counted_in_bytes() {
    let fits = format!("/{}", "a".repeat(65526));
    let out = translate(&request(&fits, "", vec![], b""), "K").unwrap();
    assert_eq!(out.url.len(), TARGET.len() + 65527);
    let over = format!("/{}", "a".repeat(65527));
    assert!(refused_as(&over, "uri too long"));

    let fits = format!("/{}", "\u{e9}".repeat(32763));
    assert!(translate(&request(&fits, "", vec![], b""), "K").is_ok());
    let over = format!("/a{}", "\u{e9}".repeat(32763));
    assert!(refused_as(&over, "uri too long"));

    let fits = format!("/{}", "a".repeat(65524));
    assert!(translate(&request(&fits, "k", vec![], b""), "K").is_ok());
    let over = format!("/{}", "a".repeat(65525));
    match translate(&request(&over, "k", vec![], b""), "K") {
        Err(ProxyError::Internal(why)) => assert_eq!(why, "URL build fail: uri too long"),
        other => panic!("unexpected {:?}", other.map(|o| o.url.len())),
    }
}

#[test]
fn length_is_judged_before_characters() {
    let over = format!("/ {}", "a".repeat(65527));
    assert!(refused_as(&over, "uri too long"));
    let over = format!("/{}#{}", "a".repeat(10), " ".repeat(65527));
    assert!(refused_as(&over, "uri too long"));
}
