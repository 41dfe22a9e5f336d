use preview_proxy::codec::{decode_inbound, encode_outbound};
use preview_proxy::config::ServerConfig;
use preview_proxy::forward::{
    build_outbound_headers, get_preview_url, log_line, path_or_default, preview_host,
    preview_request_parts, preview_url_string, HttpVersion,
};
use preview_proxy::header::Header;
use preview_proxy::identity::{build_preview_identifier, new_session_token};
use preview_proxy::clock::current_timestamp;

fn hdr(name: &[u8], value: &[u8]) -> Header {
    Header { name: name.to_vec(), value: value.to_vec() }
}

fn names_and_values(hs: &[Header]) -> Vec<(Vec<u8>, Vec<u8>)> {
    hs.iter().map(|h| (h.name.clone(), h.value.clone())).collect()
}

#[test]
fn encode_then_decode_round_trips() {
    let original = vec![
        hdr(b"X-Test", b"1"),
        hdr(b"content-type", b"text/plain"),
        hdr(b"x-dup", b"a"),
        hdr(b"x-dup", b"b"),
    ];
    let encoded = encode_outbound(&original).expect("legal names must encode");
    let outcome = decode_inbound(&encoded);
    assert_eq!(names_and_values(&outcome.headers), names_and_values(&original));
    assert!(outcome.dropped.is_empty());
}

#[test]
fn encode_prefixes_every_name() {
    let original = vec![hdr(b"X-Test", b"1"), hdr(b"Host", b"localhost:8787")];
    let encoded = encode_outbound(&original).expect("legal names must encode");
    assert_eq!(
        names_and_values(&encoded),
        vec![
            (b"cf-ew-raw-X-Test".to_vec(), b"1".to_vec()),
            (b"cf-ew-raw-Host".to_vec(), b"localhost:8787".to_vec()),
        ]
    );
}

#[test]
fn encode_rejects_illegal_name() {
    let original = vec![hdr(b"ok-name", b"v"), hdr(b"bad name", b"v")];
    let err = encode_outbound(&original).expect_err("a space is not a header-name byte");
    assert_eq!(err.name, b"bad name".to_vec());
}

#[test]
fn encode_accepts_empty_name() {
    let original = vec![hdr(b"", b"v")];
    let encoded = encode_outbound(&original).expect("the bare prefix is a legal name");
    assert_eq!(encoded[0].name, b"cf-ew-raw-".to_vec());
}

#[test]
fn decode_drops_unprefixed_headers() {
    let upstream = vec![
        hdr(b"cf-ew-raw-Content-Type", b"text/plain"),
        hdr(b"Connection", b"close"),
    ];
    let outcome = decode_inbound(&upstream);
    assert_eq!(
        names_and_values(&outcome.headers),
        vec![(b"Content-Type".to_vec(), b"text/plain".to_vec())]
    );
    assert!(outcome.dropped.is_empty());
}

#[test]
fn decode_keeps_duplicates_in_order() {
    let upstream = vec![
        hdr(b"cf-ew-raw-set-cookie", b"a=1"),
        hdr(b"via", b"tunnel"),
        hdr(b"cf-ew-raw-set-cookie", b"b=2"),
    ];
    let outcome = decode_inbound(&upstream);
    assert_eq!(
        names_and_values(&outcome.headers),
        vec![
            (b"set-cookie".to_vec(), b"a=1".to_vec()),
            (b"set-cookie".to_vec(), b"b=2".to_vec()),
        ]
    );
}

#[test]
fn decode_reports_prefixed_but_illegal_names() {
    let upstream = vec![hdr(b"cf-ew-raw-", b"empty"), hdr(b"cf-ew-raw-bad name", b"v")];
    let outcome = decode_inbound(&upstream);
    assert!(outcome.headers.is_empty());
    assert_eq!(
        outcome.dropped,
        vec![b"cf-ew-raw-".to_vec(), b"cf-ew-raw-bad name".to_vec()]
    );
}

#[test]
fn preview_url_keeps_path_and_query() {
    assert_eq!(
        preview_url_string("/foo/bar?x=1"),
        "https://rawhttp.cloudflareworkers.com/foo/bar?x=1"
    );
}

#[test]
fn preview_url_of_empty_path() {
    assert_eq!(preview_url_string(""), "https://rawhttp.cloudflareworkers.com");
}

#[test]
fn get_preview_url_parses_rewritten_target() {
    let uri = get_preview_url("/foo/bar?x=1").expect("a valid path must parse");
    assert_eq!(uri.to_string(), "https://rawhttp.cloudflareworkers.com/foo/bar?x=1");
    assert!(get_preview_url("").is_ok());
}

#[test]
fn path_defaults_to_empty() {
    assert_eq!(path_or_default(None), "");
    assert_eq!(path_or_default(Some("/a?b=c")), "/a?b=c");
}

#[test]
fn preview_identifier_concatenation_order() {
    let config = ServerConfig::new("localhost".to_string(), true);
    assert_eq!(build_preview_identifier("abc", "s1", &config), "abcs11localhost");
}

#[test]
fn preview_identifier_without_https() {
    let config = ServerConfig::new("localhost".to_string(), false);
    assert_eq!(build_preview_identifier("abc", "s1", &config), "abcs10localhost");
}

#[test]
fn session_token_is_compact_lowercase_hex() {
    let t = new_session_token();
    assert_eq!(t.len(), 32);
    assert!(t.chars().all(|c| matches!(c, '0'..='9' | 'a'..='f')));
}

#[test]
fn session_tokens_are_fresh_per_call() {
    assert_ne!(new_session_token(), new_session_token());
}

#[test]
fn outbound_headers_end_with_host_and_credential() {
    let inbound = vec![hdr(b"X-Test", b"1")];
    let out = build_outbound_headers(&inbound, "pid123").expect("legal names must encode");
    assert_eq!(
        names_and_values(&out),
        vec![
            (b"cf-ew-raw-X-Test".to_vec(), b"1".to_vec()),
            (b"host".to_vec(), b"rawhttp.cloudflareworkers.com".to_vec()),
            (b"cf-ew-preview".to_vec(), b"pid123".to_vec()),
        ]
    );
}

#[test]
fn forced_host_header_wins_over_client_host() {
    let inbound = vec![hdr(b"host", b"localhost:8787"), hdr(b"Host", b"evil.example")];
    let out = build_outbound_headers(&inbound, "pid").expect("legal names must encode");
    let hosts: Vec<&Header> = out.iter().filter(|h| h.name == b"host".to_vec()).collect();
    assert_eq!(hosts.len(), 1);
    assert_eq!(hosts[0].value, preview_host().as_bytes().to_vec());
}

#[test]
fn credential_header_present_on_every_request() {
    for inbound in [vec![], vec![hdr(b"a", b"1")], vec![hdr(b"cf-ew-preview", b"forged")]] {
        let out = build_outbound_headers(&inbound, "the-id").expect("legal names must encode");
        let creds: Vec<&Header> =
            out.iter().filter(|h| h.name == b"cf-ew-preview".to_vec()).collect();
        assert_eq!(creds.len(), 1);
        assert_eq!(creds[0].value, b"the-id".to_vec());
    }
}

#[test]
fn version_renders_like_the_wire_form() {
    assert_eq!(HttpVersion::Http09.as_str(), "HTTP/0.9");
    assert_eq!(HttpVersion::Http10.as_str(), "HTTP/1.0");
    assert_eq!(HttpVersion::Http11.as_str(), "HTTP/1.1");
    assert_eq!(HttpVersion::Http2.as_str(), "HTTP/2.0");
    assert_eq!(HttpVersion::Http3.as_str(), "HTTP/3.0");
}

#[test]
fn log_line_format() {
    let config = ServerConfig::new("localhost".to_string(), false);
    let line = log_line("2020-01-02 03:04:05", "GET", &config, "/health", HttpVersion::Http11);
    assert_eq!(line, "[2020-01-02 03:04:05] \"GET localhost/health HTTP/1.1\"");
}

#[test]
fn forwarder_scenario_get_health() {
    let config = ServerConfig::new("localhost".to_string(), false);
    let inbound = vec![hdr(b"X-Test", b"1")];
    let parts = preview_request_parts(
        Some("/health"),
        &inbound,
        "GET",
        HttpVersion::Http11,
        "the-identifier",
        "2020-01-02 03:04:05",
        &config,
    )
    .expect("legal names must encode");
    assert_eq!(parts.path, "/health");
    assert_eq!(
        preview_url_string(&parts.path),
        "https://rawhttp.cloudflareworkers.com/health"
    );
    assert_eq!(
        names_and_values(&parts.headers),
        vec![
            (b"cf-ew-raw-X-Test".to_vec(), b"1".to_vec()),
            (b"host".to_vec(), b"rawhttp.cloudflareworkers.com".to_vec()),
            (b"cf-ew-preview".to_vec(), b"the-identifier".to_vec()),
        ]
    );
    assert_eq!(parts.log_line, "[2020-01-02 03:04:05] \"GET localhost/health HTTP/1.1\"");
}

#[test]
fn forwarder_reports_the_offending_name() {
    let config = ServerConfig::new("localhost".to_string(), false);
    let inbound = vec![hdr(b"fine", b"1"), hdr(b"not fine", b"2")];
    let err = preview_request_parts(
        None,
        &inbound,
        "GET",
        HttpVersion::Http11,
        "id",
        "2020-01-02 03:04:05",
        &config,
    )
    .expect_err("a space is not a header-name byte");
    assert_eq!(err.name, b"not fine".to_vec());
}

#[test]
fn timestamp_is_rendered_at_second_precision() {
    let ts = current_timestamp();
    assert_eq!(ts.len(), 19);
    let b = ts.as_bytes();
    assert_eq!(b[4], b'-');
    assert_eq!(b[7], b'-');
    assert_eq!(b[10], b' ');
    assert_eq!(b[13], b':');
    assert_eq!(b[16], b':');
}

#[test]
fn error_response_is_bad_gateway_with_diagnostic() {
    let (status, body) = preview_proxy::forward::error_response("upstream unreachable");
    assert_eq!(status, 502);
    assert_eq!(body, "preview proxy error: upstream unreachable");
}

#[test]
fn get_preview_url_rejects_malformed_path() {
    assert!(get_preview_url("/with space").is_err());
}
