//! The request forwarder: turns one inbound local request into the
//! outbound upstream request.
//!
//! It rewrites the target URL to the fixed upstream preview host while
//! keeping path and query, renames every inbound header with the tunnel
//! prefix, overwrites `Host` with the fixed upstream host, appends the
//! reserved credential header carrying the preview identifier, and renders
//! the per-request log line. Method, body and HTTP version pass through
//! the unverified shell untouched.

use vstd::prelude::*;
use crate::header::{Header, HeaderV, views};
use crate::codec::{
    encode_outbound, encode_headers, all_encodable, encodable, tunnel_prefix, HeaderEncodingError,
};
use crate::config::ServerConfig;
use vstd::slice::slice_to_vec;
use vstd::utf8::encode_utf8;

verus! {

/// The fixed upstream preview host, as characters.
pub open spec fn spec_preview_host() -> Seq<char> {
    "rawhttp.cloudflareworkers.com"@
}

/// The fixed upstream preview host: the one remote endpoint every request
/// is forwarded to.
pub fn preview_host() -> (s: &'static str)
    ensures
        s@ == spec_preview_host(),
{
    "rawhttp.cloudflareworkers.com"
}

/// The reserved name of the overwritten host header: `host`, as bytes.
pub open spec fn host_name() -> Seq<u8> {
    seq![104u8, 111u8, 115u8, 116u8]
}

/// The reserved name of the credential header, `cf-ew-preview`, as bytes.
/// It shares six leading bytes with the tunnel prefix but differs from
/// every name the codec can produce.
pub open spec fn credential_name() -> Seq<u8> {
    seq![99u8, 102u8, 45u8, 101u8, 119u8, 45u8, 112u8, 114u8, 101u8, 118u8, 105u8, 101u8, 119u8]
}

/// The host header forced onto every outbound request: the fixed upstream
/// host, never whatever the local client sent.
pub open spec fn host_header() -> HeaderV {
    HeaderV { name: host_name(), value: encode_utf8(spec_preview_host()) }
}

/// The credential header for one outbound request: the reserved name and
/// the preview identifier, verbatim.
pub open spec fn credential_header(id: Seq<char>) -> HeaderV {
    HeaderV { name: credential_name(), value: encode_utf8(id) }
}

/// Every outbound header set: the encoded inbound headers, then the forced
/// host header, then the credential header. The two reserved headers come
/// last, so they win over anything the client sent.
pub open spec fn outbound_headers(hs: Seq<HeaderV>, id: Seq<char>) -> Seq<HeaderV> {
    encode_headers(hs).push(host_header()).push(credential_header(id))
}

fn host_name_vec() -> (v: Vec<u8>)
    ensures
        v@ == host_name(),
{
    let mut v: Vec<u8> = Vec::new();
    v.push(104);
    v.push(111);
    v.push(115);
    v.push(116);
    proof {
        assert(v@ =~= host_name());
    }
    v
}

fn credential_name_vec() -> (v: Vec<u8>)
    ensures
        v@ == credential_name(),
{
    let mut v: Vec<u8> = Vec::new();
    v.push(99);
    v.push(102);
    v.push(45);
    v.push(101);
    v.push(119);
    v.push(45);
    v.push(112);
    v.push(114);
    v.push(101);
    v.push(118);
    v.push(105);
    v.push(101);
    v.push(119);
    proof {
        assert(v@ =~= credential_name());
    }
    v
}

/// Builds the header set of the outbound upstream request: every inbound
/// header renamed with the tunnel prefix, then the forced upstream `Host`
/// header, then the reserved credential header carrying the preview
/// identifier. Fails, without touching anything, exactly when some inbound
/// name cannot be legally prefixed.
pub fn build_outbound_headers(hs: &Vec<Header>, preview_id: &str) -> (r: Result<
    Vec<Header>,
    HeaderEncodingError,
>)
    ensures
        r is Ok <==> all_encodable(views(hs@)),
        r matches Ok(out) ==> views(out@) == outbound_headers(views(hs@), preview_id@),
        r matches Err(e) ==> exists|i: int|
            0 <= i < hs@.len() && !encodable(#[trigger] views(hs@)[i]) && e.name@ == views(
                hs@,
            )[i].name,
{
    let mut out = match encode_outbound(hs) {
        Ok(o) => o,
        Err(e) => {
            return Err(e);
        },
    };
    let ghost encoded = out@;
    let host_value = slice_to_vec(preview_host().as_bytes());
    out.push(Header { name: host_name_vec(), value: host_value });
    proof {
        assert(views(out@) =~~= views(encoded).push(host_header()));
    }
    let ghost with_host = out@;
    let cred_value = slice_to_vec(preview_id.as_bytes());
    out.push(Header { name: credential_name_vec(), value: cred_value });
    proof {
        assert(views(out@) =~~= views(with_host).push(credential_header(preview_id@)));
    }
    Ok(out)
}

/// Law: the reserved headers stand alone. In every outbound header set the
/// forced host header is the single header named `host` and the credential
/// header is the single header named `cf-ew-preview`; no encoded client
/// header can collide with either name, because every encoded name starts
/// with the tunnel prefix.
pub proof fn lemma_reserved_headers(hs: Seq<HeaderV>, id: Seq<char>)
    ensures
        outbound_headers(hs, id).len() == hs.len() + 2,
        forall|i: int|
            0 <= i < outbound_headers(hs, id).len() ==> ((#[trigger] outbound_headers(hs, id)[i].name
                == host_name()) <==> i == hs.len()),
        forall|i: int|
            0 <= i < outbound_headers(hs, id).len() ==> ((#[trigger] outbound_headers(hs, id)[i].name
                == credential_name()) <==> i == hs.len() + 1),
        outbound_headers(hs, id)[hs.len() as int] == host_header(),
        outbound_headers(hs, id)[hs.len() as int + 1] == credential_header(id),
{
    let out = outbound_headers(hs, id);
    assert forall|i: int| 0 <= i < hs.len() implies (#[trigger] out[i].name) != host_name()
        && out[i].name != credential_name() by {
        assert(out[i] == encode_headers(hs)[i]);
        let n = out[i].name;
        assert(n == tunnel_prefix() + hs[i].name);
        assert(n.len() >= 10);
        assert(host_name().len() == 4);
        assert(n[6] == 114);
        assert(credential_name()[6] == 112);
    }
    assert(credential_name()[6] != host_name()[3] || credential_name().len() != host_name().len());
    assert(host_header().name == host_name());
    assert(credential_header(id).name == credential_name());
    assert(credential_name().len() == 13 && host_name().len() == 4);
}

/// The path-and-query of an inbound URI, defaulting to the empty string
/// when the URI has no path component.
pub open spec fn spec_path(p: Option<&str>) -> Seq<char> {
    match p {
        Some(s) => s@,
        None => Seq::<char>::empty(),
    }
}

/// The inbound path-and-query as an owned string, or the empty string when
/// the URI carried none; an absent path is never an error.
pub fn path_or_default(path_and_query: Option<&str>) -> (r: String)
    ensures
        r@ == spec_path(path_and_query),
{
    match path_and_query {
        Some(p) => p.to_owned(),
        None => String::new(),
    }
}

/// The rewritten request target: the HTTPS scheme, the fixed upstream
/// host, and the inbound path-and-query, verbatim.
pub open spec fn spec_preview_url(path: Seq<char>) -> Seq<char> {
    "https://"@ + spec_preview_host() + path
}

/// Renders the outbound URL for an inbound path-and-query: exactly
/// `https://`, the fixed upstream host, then the path, unchanged.
pub fn preview_url_string(path: &str) -> (r: String)
    ensures
        r@ == spec_preview_url(path@),
{
    let mut s = "https://".to_owned();
    s.append(preview_host());
    s.append(path);
    s
}

/// The rewritten URL was not a syntactically valid URI; the request it
/// belongs to fails, the server keeps running.
#[derive(Debug)]
pub struct UrlConstructionError {}

/// The parsed URI type of the HTTP client the unverified shell drives;
/// opaque here, it only carries the rewritten target through.
#[verifier::external_type_specification]
#[verifier::external_body]
pub struct ExUri(hyper::Uri);

/// Whether the URI parser accepts this string. The parse is a function of
/// the string alone, so its acceptance can be named even though the parsed
/// value itself stays opaque.
pub uninterp spec fn uri_parse_ok(s: Seq<char>) -> bool;

/// Relies on `str::parse::<hyper::Uri>` (http's `FromStr` for `Uri`):
/// parses the textual form of a URI, and reports malformed input as an
/// error instead of panicking. Acceptance depends on the string alone.
#[verifier::external_body]
fn parse_uri(s: &str) -> (r: Result<hyper::Uri, UrlConstructionError>)
    ensures
        r is Ok <==> uri_parse_ok(s@),
{
    match s.parse::<hyper::Uri>() {
        Ok(u) => Ok(u),
        Err(_) => Err(UrlConstructionError {  }),
    }
}

/// Builds the parsed outbound URI for an inbound path-and-query, by
/// parsing exactly the string that `preview_url_string` renders: it
/// succeeds precisely when that rendered URL is a syntactically valid
/// URI. A malformed result is an error for this one request, never a
/// panic.
pub fn get_preview_url(path: &str) -> (r: Result<hyper::Uri, UrlConstructionError>)
    ensures
        r is Ok <==> uri_parse_ok(spec_preview_url(path@)),
{
    let url = preview_url_string(path);
    parse_uri(url.as_str())
}

/// The HTTP version of an inbound request, carried through unchanged and
/// shown in the log line.
#[derive(Clone, Copy, PartialEq, Eq, Structural, Debug)]
pub enum HttpVersion {
    Http09,
    Http10,
    Http11,
    Http2,
    Http3,
}

/// The textual form of an HTTP version, as it appears in log lines.
pub open spec fn version_chars(v: HttpVersion) -> Seq<char> {
    match v {
        HttpVersion::Http09 => "HTTP/0.9"@,
        HttpVersion::Http10 => "HTTP/1.0"@,
        HttpVersion::Http11 => "HTTP/1.1"@,
        HttpVersion::Http2 => "HTTP/2.0"@,
        HttpVersion::Http3 => "HTTP/3.0"@,
    }
}

impl HttpVersion {
    /// Renders the version for the log line.
    pub fn as_str(&self) -> (s: &'static str)
        ensures
            s@ == version_chars(*self),
    {
        match self {
            HttpVersion::Http09 => "HTTP/0.9",
            HttpVersion::Http10 => "HTTP/1.0",
            HttpVersion::Http11 => "HTTP/1.1",
            HttpVersion::Http2 => "HTTP/2.0",
            HttpVersion::Http3 => "HTTP/3.0",
        }
    }
}

/// The one log line a forwarded request produces:
/// `[<timestamp>] "<METHOD> <host><path> <version>"`.
pub open spec fn spec_log_line(
    timestamp: Seq<char>,
    method: Seq<char>,
    host: Seq<char>,
    path: Seq<char>,
    version: HttpVersion,
) -> Seq<char> {
    "["@ + timestamp + "] \""@ + method + " "@ + host + path + " "@ + version_chars(version)
        + "\""@
}

/// Renders the per-request log line. Observability only: its content never
/// gates forwarding.
pub fn log_line(
    timestamp: &str,
    method: &str,
    config: &ServerConfig,
    path: &str,
    version: HttpVersion,
) -> (r: String)
    ensures
        r@ == spec_log_line(timestamp@, method@, config.host@, path@, version),
{
    let mut s = "[".to_owned();
    s.append(timestamp);
    s.append("] \"");
    s.append(method);
    s.append(" ");
    s.append(config.host.as_str());
    s.append(path);
    s.append(" ");
    s.append(version.as_str());
    s.append("\"");
    s
}

/// Everything the unverified shell needs to issue one upstream request:
/// the path-and-query to parse into the rewritten target, the complete
/// outbound header set, and the log line to print. Method, body and HTTP
/// version are reused from the inbound request unchanged.
#[derive(Debug)]
pub struct OutboundParts {
    pub path: String,
    pub headers: Vec<Header>,
    pub log_line: String,
}

/// Plans the outbound upstream request for one inbound request: extracts
/// the path-and-query (empty when absent), renames every inbound header
/// with the tunnel prefix, forces the upstream `Host` header, appends the
/// credential header carrying the preview identifier, and renders the log
/// line. Fails exactly when some inbound header name cannot be legally
/// prefixed; such a failure belongs to this request alone.
pub fn preview_request_parts(
    path_and_query: Option<&str>,
    headers: &Vec<Header>,
    method: &str,
    version: HttpVersion,
    preview_id: &str,
    timestamp: &str,
    config: &ServerConfig,
) -> (r: Result<OutboundParts, HeaderEncodingError>)
    ensures
        r is Ok <==> all_encodable(views(headers@)),
        r matches Ok(p) ==> p.path@ == spec_path(path_and_query),
        r matches Ok(p) ==> views(p.headers@) == outbound_headers(views(headers@), preview_id@),
        r matches Ok(p) ==> p.log_line@ == spec_log_line(
            timestamp@,
            method@,
            config.host@,
            spec_path(path_and_query),
            version,
        ),
        r matches Err(e) ==> exists|i: int|
            0 <= i < headers@.len() && !encodable(#[trigger] views(headers@)[i]) && e.name@
                == views(headers@)[i].name,
{
    let path = path_or_default(path_and_query);
    let out_headers = match build_outbound_headers(headers, preview_id) {
        Ok(o) => o,
        Err(e) => {
            return Err(e);
        },
    };
    let line = log_line(timestamp, method, config, path.as_str(), version);
    Ok(OutboundParts { path, headers: out_headers, log_line: line })
}

/// The status code of every synthesized per-request failure response.
pub open spec fn bad_gateway_status() -> int {
    502
}

/// The response handed to the local client when forwarding one request
/// failed: a 502 status and a short diagnostic body. One failed request
/// never brings down the listener; the caller answers with this and keeps
/// serving.
pub fn error_response(message: &str) -> (r: (u16, String))
    ensures
        r.0 == bad_gateway_status(),
        r.1@ == "preview proxy error: "@ + message@,
{
    let mut body = "preview proxy error: ".to_owned();
    body.append(message);
    (502, body)
}

} // verus!
