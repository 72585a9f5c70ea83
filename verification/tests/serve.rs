use std::io::Read;

use flate2::read::GzDecoder;
use metrics_serve::serve::{
    internal_error, is_gzip, not_found, respond, try_respond, FmtMetrics, Header, RenderError,
    Request, Response, Serve, ServeError,
};

const TEXT: &[u8] = b"foo_total 1\n";

struct Source;

impl FmtMetrics for Source {
    fn render(&self) -> Result<Vec<u8>, RenderError> {
        Ok(TEXT.to_vec())
    }
}

struct FailingSource;

impl FmtMetrics for FailingSource {
    fn render(&self) -> Result<Vec<u8>, RenderError> {
        Err(RenderError)
    }
}

fn req(path: &str, headers: &[(&str, &[u8])]) -> Request {
    Request {
        path: path.as_bytes().to_vec(),
        headers: headers
            .iter()
            .map(|(n, v)| Header {
                name: n.as_bytes().to_vec(),
                value: v.to_vec(),
            })
            .collect(),
    }
}

fn header_value<'a>(resp: &'a Response, name: &str) -> Option<&'a [u8]> {
    resp.headers
        .iter()
        .find(|h| h.name.eq_ignore_ascii_case(name.as_bytes()))
        .map(|h| h.value.as_slice())
}

fn gunzip(data: &[u8]) -> Vec<u8> {
    let mut out = Vec::new();
    GzDecoder::new(data)
        .read_to_end(&mut out)
        .expect("body should be valid gzip");
    out
}

#[test]
fn healthz_not_found() {
    let serve = Serve::new(Source);
    let resp = serve.call(&req("/healthz", &[]));
    assert_eq!(resp.status, 404);
    assert!(resp.body.is_empty());
    assert!(resp.headers.is_empty());
}

#[test]
fn other_path_not_found_whatever_headers() {
    let serve = Serve::new(Source);
    let resp = serve.call(&req("/metrics2", &[("accept-encoding", b"gzip")]));
    assert_eq!(resp.status, 404);
    assert!(resp.body.is_empty());
}

#[test]
fn trailing_slash_not_found() {
    let serve = Serve::new(Source);
    let resp = serve.call(&req("/metrics/", &[]));
    assert_eq!(resp.status, 404);
    assert!(resp.body.is_empty());
}

#[test]
fn path_case_matters() {
    let serve = Serve::new(Source);
    let resp = serve.call(&req("/Metrics", &[]));
    assert_eq!(resp.status, 404);
}

#[test]
fn plain_when_no_accept_encoding() {
    let serve = Serve::new(Source);
    let resp = serve.call(&req("/metrics", &[]));
    assert_eq!(resp.status, 200);
    assert_eq!(resp.body, TEXT.to_vec());
    assert_eq!(header_value(&resp, "content-type"), Some(&b"text/plain"[..]));
    assert_eq!(header_value(&resp, "content-encoding"), None);
}

#[test]
fn plain_when_identity_encoding() {
    let serve = Serve::new(Source);
    let resp = serve.call(&req("/metrics", &[("accept-encoding", b"identity")]));
    assert_eq!(resp.status, 200);
    assert_eq!(resp.body, TEXT.to_vec());
    assert_eq!(header_value(&resp, "content-encoding"), None);
}

#[test]
fn gzip_when_listed_with_deflate() {
    let serve = Serve::new(Source);
    let resp = serve.call(&req("/metrics", &[("accept-encoding", b"gzip, deflate")]));
    assert_eq!(resp.status, 200);
    assert_eq!(
        header_value(&resp, "content-encoding"),
        Some(&b"gzip"[..])
    );
    assert_eq!(header_value(&resp, "content-type"), Some(&b"text/plain"[..]));
    assert_ne!(resp.body, TEXT.to_vec());
    assert_eq!(gunzip(&resp.body), TEXT.to_vec());
}

#[test]
fn gzip_when_any_header_occurrence_matches() {
    let serve = Serve::new(Source);
    let resp = serve.call(&req(
        "/metrics",
        &[("accept-encoding", b"br"), ("accept-encoding", b"gzip")],
    ));
    assert_eq!(resp.status, 200);
    assert_eq!(header_value(&resp, "content-encoding"), Some(&b"gzip"[..]));
    assert_eq!(gunzip(&resp.body), TEXT.to_vec());
}

#[test]
fn gzip_header_name_is_case_insensitive() {
    let serve = Serve::new(Source);
    let resp = serve.call(&req("/metrics", &[("Accept-Encoding", b"gzip")]));
    assert_eq!(resp.status, 200);
    assert_eq!(header_value(&resp, "content-encoding"), Some(&b"gzip"[..]));
}

#[test]
fn gzip_matches_as_raw_substring() {
    let serve = Serve::new(Source);
    let resp = serve.call(&req("/metrics", &[("accept-encoding", b"xxgzipzz")]));
    assert_eq!(resp.status, 200);
    assert_eq!(header_value(&resp, "content-encoding"), Some(&b"gzip"[..]));
}

#[test]
fn invalid_header_value_is_no_match() {
    let serve = Serve::new(Source);
    let resp = serve.call(&req(
        "/metrics",
        &[("accept-encoding", &[1, b'g', b'z', b'i', b'p'][..])],
    ));
    assert_eq!(resp.status, 200);
    assert_eq!(header_value(&resp, "content-encoding"), None);
    assert_eq!(resp.body, TEXT.to_vec());
}

#[test]
fn short_value_is_no_match() {
    let serve = Serve::new(Source);
    let resp = serve.call(&req("/metrics", &[("accept-encoding", b"gz")]));
    assert_eq!(resp.status, 200);
    assert_eq!(header_value(&resp, "content-encoding"), None);
}

#[test]
fn other_header_with_gzip_value_is_no_match() {
    let serve = Serve::new(Source);
    let resp = serve.call(&req("/metrics", &[("x-encoding", b"gzip")]));
    assert_eq!(resp.status, 200);
    assert_eq!(header_value(&resp, "content-encoding"), None);
}

#[test]
fn render_failure_yields_empty_500() {
    let serve = Serve::new(FailingSource);
    let resp = serve.call(&req("/metrics", &[]));
    assert_eq!(resp.status, 500);
    assert!(resp.body.is_empty());
    assert!(resp.headers.is_empty());
}

#[test]
fn render_failure_yields_500_even_for_gzip() {
    let serve = Serve::new(FailingSource);
    let resp = serve.call(&req("/metrics", &[("accept-encoding", b"gzip")]));
    assert_eq!(resp.status, 500);
    assert!(resp.body.is_empty());
}

#[test]
fn render_failure_off_path_still_404() {
    let serve = Serve::new(FailingSource);
    let resp = serve.call(&req("/healthz", &[]));
    assert_eq!(resp.status, 404);
}

#[test]
fn identical_calls_are_byte_identical() {
    let serve = Serve::new(Source);
    let plain = req("/metrics", &[]);
    assert_eq!(serve.call(&plain), serve.call(&plain));
    let zipped = req("/metrics", &[("accept-encoding", b"gzip")]);
    assert_eq!(serve.call(&zipped), serve.call(&zipped));
    let missed = req("/nope", &[]);
    assert_eq!(serve.call(&missed), serve.call(&missed));
}

#[test]
fn is_gzip_reads_all_headers() {
    assert!(is_gzip(&req("/metrics", &[("accept-encoding", b"gzip")])));
    assert!(is_gzip(&req(
        "/x",
        &[("a", b"b"), ("ACCEPT-ENCODING", b"deflate, gzip;q=0.5")],
    )));
    assert!(!is_gzip(&req("/metrics", &[])));
    assert!(!is_gzip(&req("/metrics", &[("accept-encoding", b"br")])));
    assert!(!is_gzip(&req("/metrics", &[("accept-encodingx", b"gzip")])));
}

#[test]
fn try_respond_reports_write_failure() {
    let r = try_respond(&req("/metrics", &[]), Err(RenderError));
    assert!(matches!(r, Err(ServeError::Io)));
}

#[test]
fn respond_substitutes_500_for_failure() {
    let resp = respond(&req("/metrics", &[]), Err(RenderError));
    assert_eq!(resp.status, 500);
    assert!(resp.body.is_empty());
}

#[test]
fn respond_is_404_off_path_even_on_failure() {
    let resp = respond(&req("/other", &[]), Err(RenderError));
    assert_eq!(resp.status, 404);
}

#[test]
fn fixed_status_constructors() {
    let nf = not_found();
    assert_eq!(nf.status, 404);
    assert!(nf.body.is_empty());
    assert!(nf.headers.is_empty());
    let ie = internal_error();
    assert_eq!(ie.status, 500);
    assert!(ie.body.is_empty());
    assert!(ie.headers.is_empty());
}

#[test]
fn error_messages() {
    assert_eq!(ServeError::Http.message(), "error constructing HTTP response");
    assert_eq!(ServeError::Io.message(), "error writing metrics");
}

#[test]
fn metrics_accessor_returns_the_source() {
    let serve = Serve::new(Source);
    assert_eq!(serve.metrics().render(), Ok(TEXT.to_vec()));
}
