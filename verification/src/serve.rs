//! The metrics responder: a single-path HTTP handler over plain values.
//!
//! A [`Serve`] wraps a metrics source and answers requests: `404` off the
//! metrics path, `200` with the rendered text (gzip-compressed when the
//! client advertises `gzip` in `Accept-Encoding`) on it, and `500` when
//! rendering fails.

use crate::gzip::{gzip_compress, gzip_of};
use vstd::prelude::*;

verus! {

/// One HTTP header: a name and a raw value.
///
/// Values are kept as raw bytes because clients may send header values
/// that are not valid text; such values must be tolerated, never failed on.
#[derive(Clone, Debug, PartialEq, Eq)]
pub struct Header {
    pub name: Vec<u8>,
    pub value: Vec<u8>,
}

/// The mathematical model of a [`Header`].
#[verifier::ext_equal]
pub struct HeaderView {
    pub name: Seq<u8>,
    pub value: Seq<u8>,
}

impl View for Header {
    type V = HeaderView;

    open spec fn view(&self) -> HeaderView {
        HeaderView { name: self.name@, value: self.value@ }
    }
}

/// An inbound HTTP request, reduced to what the responder reads:
/// its path and its headers.
#[derive(Clone, Debug, PartialEq, Eq)]
pub struct Request {
    pub path: Vec<u8>,
    pub headers: Vec<Header>,
}

/// The mathematical model of a [`Request`].
#[verifier::ext_equal]
pub struct RequestView {
    pub path: Seq<u8>,
    pub headers: Seq<HeaderView>,
}

impl View for Request {
    type V = RequestView;

    open spec fn view(&self) -> RequestView {
        RequestView {
            path: self.path@,
            headers: self.headers@.map_values(|h: Header| h@),
        }
    }
}

/// An HTTP response: status code, headers, body bytes.
#[derive(Clone, Debug, PartialEq, Eq)]
pub struct Response {
    pub status: u16,
    pub headers: Vec<Header>,
    pub body: Vec<u8>,
}

/// The mathematical model of a [`Response`].
#[verifier::ext_equal]
pub struct ResponseView {
    pub status: u16,
    pub headers: Seq<HeaderView>,
    pub body: Seq<u8>,
}

impl View for Response {
    type V = ResponseView;

    open spec fn view(&self) -> ResponseView {
        ResponseView {
            status: self.status,
            headers: self.headers@.map_values(|h: Header| h@),
            body: self.body@,
        }
    }
}

/// The one path the responder recognizes, `/metrics`, as bytes.
pub open spec fn metrics_path() -> Seq<u8> {
    seq![47, 109, 101, 116, 114, 105, 99, 115]
}

/// The `accept-encoding` header name, as bytes.
pub open spec fn accept_encoding_name() -> Seq<u8> {
    seq![
        97, 99, 99, 101, 112, 116, 45, 101, 110, 99, 111, 100, 105, 110, 103,
    ]
}

/// The `content-type` header name, as bytes.
pub open spec fn content_type_name() -> Seq<u8> {
    seq![99, 111, 110, 116, 101, 110, 116, 45, 116, 121, 112, 101]
}

/// The `content-encoding` header name, as bytes.
pub open spec fn content_encoding_name() -> Seq<u8> {
    seq![
        99, 111, 110, 116, 101, 110, 116, 45, 101, 110, 99, 111, 100, 105, 110,
        103,
    ]
}

/// The `text/plain` content type, as bytes.
pub open spec fn text_plain_value() -> Seq<u8> {
    seq![116, 101, 120, 116, 47, 112, 108, 97, 105, 110]
}

/// The `gzip` token, as bytes.
pub open spec fn gzip_token() -> Seq<u8> {
    seq![103, 122, 105, 112]
}

/// Lowercases one ASCII byte; bytes outside `A..=Z` pass through unchanged.
pub open spec fn lower_byte(b: u8) -> u8 {
    if 65 <= b && b <= 90 {
        (b + 32) as u8
    } else {
        b
    }
}

/// Two byte strings are the same header name when they agree letter for
/// letter up to ASCII case, as HTTP requires of header names.
pub open spec fn name_matches(a: Seq<u8>, b: Seq<u8>) -> bool {
    a.len() == b.len() && forall|i: int|
        0 <= i < a.len() ==> lower_byte(#[trigger] a[i]) == lower_byte(b[i])
}

/// A header value is text when every byte is visible ASCII, space or tab.
/// A value with any other byte is tolerated but never matches anything.
pub open spec fn is_header_text(v: Seq<u8>) -> bool {
    forall|i: int| 0 <= i < v.len() ==> (32 <= #[trigger] v[i] < 127 || v[i] == 9)
}

/// The four bytes of `gzip` stand at position `i` of `v`.
pub open spec fn gzip_at(v: Seq<u8>, i: int) -> bool {
    v[i] == 103 && v[i + 1] == 122 && v[i + 2] == 105 && v[i + 3] == 112
}

/// `v` holds `gzip` somewhere as a raw substring. Surrounding tokens,
/// separators and quality weights are not parsed.
pub open spec fn contains_gzip(v: Seq<u8>) -> bool {
    exists|i: int| 0 <= i && i + 4 <= v.len() && #[trigger] gzip_at(v, i)
}

/// A header value advertises gzip when it is valid text and holds the
/// `gzip` substring.
pub open spec fn value_accepts_gzip(v: Seq<u8>) -> bool {
    is_header_text(v) && contains_gzip(v)
}

/// A header advertises gzip when it is an `Accept-Encoding` header whose
/// value advertises it.
pub open spec fn header_offers_gzip(h: HeaderView) -> bool {
    name_matches(h.name, accept_encoding_name()) && value_accepts_gzip(h.value)
}

/// A request asks for gzip when any one of its headers advertises it.
pub open spec fn wants_gzip(req: RequestView) -> bool {
    exists|i: int| 0 <= i < req.headers.len() && #[trigger] header_offers_gzip(req.headers[i])
}

/// Lowercases one ASCII byte.
fn to_lower_byte(b: u8) -> (r: u8)
    ensures
        r == lower_byte(b),
{
    if 65 <= b && b <= 90 {
        b + 32
    } else {
        b
    }
}

/// Exact byte-string equality.
pub fn bytes_equal(a: &Vec<u8>, b: &Vec<u8>) -> (r: bool)
    ensures
        r == (a@ == b@),
{
    if a.len() != b.len() {
        return false;
    }
    let mut i: usize = 0;
    while i < a.len()
        invariant
            i <= a.len(),
            a@.len() == b@.len(),
            forall|j: int| 0 <= j < i ==> a@[j] == b@[j],
        decreases a.len() - i,
    {
        if a[i] != b[i] {
            return false;
        }
        i += 1;
    }
    proof {
        assert(a@ =~= b@);
    }
    true
}

/// Header-name equality: letter for letter, ignoring ASCII case.
pub fn names_equal(a: &Vec<u8>, b: &Vec<u8>) -> (r: bool)
    ensures
        r == name_matches(a@, b@),
{
    if a.len() != b.len() {
        return false;
    }
    let mut i: usize = 0;
    while i < a.len()
        invariant
            i <= a.len(),
            a@.len() == b@.len(),
            forall|j: int| 0 <= j < i ==> lower_byte(#[trigger] a@[j]) == lower_byte(b@[j]),
        decreases a.len() - i,
    {
        if to_lower_byte(a[i]) != to_lower_byte(b[i]) {
            return false;
        }
        i += 1;
    }
    true
}

/// Whether a header value advertises gzip: the value must be valid header
/// text and hold `gzip` as a raw substring. Values that are not valid text
/// never match, rather than failing the request.
pub fn value_offers_gzip(v: &Vec<u8>) -> (r: bool)
    ensures
        r == value_accepts_gzip(v@),
{
    let mut i: usize = 0;
    while i < v.len()
        invariant
            i <= v.len(),
            forall|j: int| 0 <= j < i ==> (32 <= #[trigger] v@[j] < 127 || v@[j] == 9),
        decreases v.len() - i,
    {
        let b = v[i];
        if !(32 <= b && b < 127 || b == 9) {
            return false;
        }
        i += 1;
    }
    if v.len() < 4 {
        return false;
    }
    let mut k: usize = 0;
    while k < v.len() - 3
        invariant
            v@.len() >= 4,
            k <= v@.len() - 3,
            is_header_text(v@),
            forall|j: int| 0 <= j < k ==> !#[trigger] gzip_at(v@, j),
        decreases v.len() - 3 - k,
    {
        if v[k] == 103 && v[k + 1] == 122 && v[k + 2] == 105 && v[k + 3] == 112 {
            proof {
                assert(gzip_at(v@, k as int));
            }
            return true;
        }
        k += 1;
    }
    false
}

/// Whether any `Accept-Encoding` header of the request advertises gzip.
/// A match in any one occurrence is sufficient.
pub fn is_gzip(req: &Request) -> (r: bool)
    ensures
        r == wants_gzip(req@),
{
    let name = accept_encoding_bytes();
    let mut i: usize = 0;
    while i < req.headers.len()
        invariant
            i <= req.headers.len(),
            name@ == accept_encoding_name(),
            forall|j: int| 0 <= j < i ==> !#[trigger] header_offers_gzip(req@.headers[j]),
        decreases req.headers.len() - i,
    {
        let h = &req.headers[i];
        proof {
            assert(req@.headers[i as int] == req.headers@[i as int]@);
        }
        if names_equal(&h.name, &name) && value_offers_gzip(&h.value) {
            proof {
                assert(header_offers_gzip(req@.headers[i as int]));
            }
            return true;
        }
        i += 1;
    }
    false
}

/// The failure a metrics source reports when it cannot render its text.
#[derive(Clone, Copy, Debug, PartialEq, Eq)]
pub struct RenderError;

/// Why the responder could not produce a successful response. It selects
/// the diagnostic line before the responder degrades to the generic `500`;
/// it is never sent to the client.
#[derive(Clone, Copy, Debug, PartialEq, Eq)]
pub enum ServeError {
    /// Building an HTTP response failed. The response constructors in this
    /// crate are total, so the responder itself never reports this.
    Http,
    /// Writing or compressing the metrics text failed.
    Io,
}

impl ServeError {
    /// The diagnostic line for this failure, fit for a log.
    pub fn message(&self) -> (r: &'static str)
        ensures
            *self is Http ==> r@ == "error constructing HTTP response"@,
            *self is Io ==> r@ == "error writing metrics"@,
    {
        match self {
            ServeError::Http => "error constructing HTTP response",
            ServeError::Io => "error writing metrics",
        }
    }
}

/// The empty `404` answer given for every path but the metrics path.
pub open spec fn not_found_view() -> ResponseView {
    ResponseView { status: 404, headers: Seq::empty(), body: Seq::empty() }
}

/// The empty `500` answer substituted for any internal failure.
pub open spec fn internal_error_view() -> ResponseView {
    ResponseView { status: 500, headers: Seq::empty(), body: Seq::empty() }
}

/// The headers of an uncompressed metrics answer.
pub open spec fn plain_headers() -> Seq<HeaderView> {
    seq![HeaderView { name: content_type_name(), value: text_plain_value() }]
}

/// The headers of a gzip-compressed metrics answer.
pub open spec fn gzip_headers() -> Seq<HeaderView> {
    seq![
        HeaderView { name: content_encoding_name(), value: gzip_token() },
        HeaderView { name: content_type_name(), value: text_plain_value() },
    ]
}

/// The `200` answer carrying the rendered text uncompressed.
pub open spec fn plain_ok_view(text: Seq<u8>) -> ResponseView {
    ResponseView { status: 200, headers: plain_headers(), body: text }
}

/// The `200` answer carrying the rendered text gzip-compressed.
pub open spec fn gzip_ok_view(text: Seq<u8>) -> ResponseView {
    ResponseView { status: 200, headers: gzip_headers(), body: gzip_of(text) }
}

/// Builds the empty `404 Not Found` response. Its status is fixed and
/// known valid, so construction cannot fail.
pub fn not_found() -> (r: Response)
    ensures
        r@ == not_found_view(),
{
    let r = Response { status: 404, headers: Vec::new(), body: Vec::new() };
    proof {
        assert(r@ =~= not_found_view());
    }
    r
}

/// Builds the empty `500 Internal Server Error` response. Its status is
/// fixed and known valid, so construction cannot fail.
pub fn internal_error() -> (r: Response)
    ensures
        r@ == internal_error_view(),
{
    let r = Response { status: 500, headers: Vec::new(), body: Vec::new() };
    proof {
        assert(r@ =~= internal_error_view());
    }
    r
}

/// Builds the uncompressed `200` response around the rendered text.
fn plain_response(body: Vec<u8>) -> (r: Response)
    ensures
        r@ == plain_ok_view(body@),
{
    let mut headers: Vec<Header> = Vec::new();
    headers.push(Header { name: content_type_bytes(), value: text_plain_bytes() });
    let r = Response { status: 200, headers, body };
    proof {
        assert(r@ =~= plain_ok_view(r.body@));
    }
    r
}

/// Builds the gzip-encoded `200` response around the compressed bytes.
fn gzip_response(body: Vec<u8>) -> (r: Response)
    ensures
        r@ == (ResponseView { status: 200, headers: gzip_headers(), body: body@ }),
{
    let mut headers: Vec<Header> = Vec::new();
    headers.push(Header { name: content_encoding_bytes(), value: gzip_value_bytes() });
    headers.push(Header { name: content_type_bytes(), value: text_plain_bytes() });
    let r = Response { status: 200, headers, body };
    proof {
        assert(r@ =~= (ResponseView { status: 200, headers: gzip_headers(), body: r.body@ }));
    }
    r
}

/// A source able to render its current metrics snapshot as text in the
/// exposition format. Rendering must never panic: a failure is reported
/// as a [`RenderError`] value so the responder can degrade to a `500`.
pub trait FmtMetrics {
    /// Renders the full current snapshot as text bytes.
    fn render(&self) -> Result<Vec<u8>, RenderError>;
}

/// The model of a rendering outcome: the text as a byte sequence, or the
/// reported failure.
pub open spec fn rendered_view(rendered: Result<Vec<u8>, RenderError>) -> Result<
    Seq<u8>,
    RenderError,
> {
    match rendered {
        Ok(text) => Ok(text@),
        Err(e) => Err(e),
    }
}

/// The model of a responder outcome before the `500` fallback.
pub open spec fn respond_result_view(r: Result<Response, ServeError>) -> Result<
    ResponseView,
    ServeError,
> {
    match r {
        Ok(resp) => Ok(resp@),
        Err(e) => Err(e),
    }
}

/// What answering `req` after the rendering outcome `rendered` yields,
/// before the `500` fallback: the response owed, or the internal failure.
pub open spec fn try_response_of(req: RequestView, rendered: Result<Seq<u8>, RenderError>) -> Result<
    ResponseView,
    ServeError,
> {
    if req.path != metrics_path() {
        Ok(not_found_view())
    } else {
        match rendered {
            Ok(text) => if wants_gzip(req) {
                Ok(gzip_ok_view(text))
            } else {
                Ok(plain_ok_view(text))
            },
            Err(_) => Err(ServeError::Io),
        }
    }
}

/// The response sent for `req` after the rendering outcome `rendered`:
/// the owed answer, or the empty `500` when rendering failed.
pub open spec fn response_of(req: RequestView, rendered: Result<Seq<u8>, RenderError>) -> ResponseView {
    match try_response_of(req, rendered) {
        Ok(resp) => resp,
        Err(_) => internal_error_view(),
    }
}

/// Answers `req` given the rendering outcome `rendered`, reporting an
/// internal failure instead of substituting the `500` for it.
pub fn try_respond(req: &Request, rendered: Result<Vec<u8>, RenderError>) -> (r: Result<
    Response,
    ServeError,
>)
    ensures
        respond_result_view(r) == try_response_of(req@, rendered_view(rendered)),
{
    let path = metrics_path_bytes();
    if !bytes_equal(&req.path, &path) {
        return Ok(not_found());
    }
    match rendered {
        Ok(text) => {
            if is_gzip(req) {
                let zipped = gzip_compress(&text);
                Ok(gzip_response(zipped))
            } else {
                Ok(plain_response(text))
            }
        },
        Err(_) => Err(ServeError::Io),
    }
}

/// Answers `req` given the rendering outcome `rendered`. Total: every
/// internal failure degrades to the empty `500` response.
pub fn respond(req: &Request, rendered: Result<Vec<u8>, RenderError>) -> (r: Response)
    ensures
        r@ == response_of(req@, rendered_view(rendered)),
{
    match try_respond(req, rendered) {
        Ok(resp) => resp,
        Err(_) => internal_error(),
    }
}

/// Serves Prometheus-style metrics rendered by the wrapped source.
///
/// The responder is stateless: it holds the source for its whole life and
/// each call is a pure function of the request and the current snapshot.
#[derive(Clone, Debug)]
pub struct Serve<M: FmtMetrics> {
    metrics: M,
}

impl<M: FmtMetrics> Serve<M> {
    /// The wrapped metrics source.
    pub closed spec fn spec_metrics(&self) -> M {
        self.metrics
    }

    /// Wraps a metrics source.
    pub fn new(metrics: M) -> (s: Self)
        ensures
            s.spec_metrics() == metrics,
    {
        Serve { metrics }
    }

    /// Borrows the wrapped metrics source.
    pub fn metrics(&self) -> (m: &M)
        ensures
            *m == self.spec_metrics(),
    {
        &self.metrics
    }

    /// Answers one request: `404` off the metrics path, otherwise the
    /// rendered metrics, gzip-compressed when the request asks for it,
    /// or the empty `500` when rendering fails.
    pub fn call(&self, req: &Request) -> (r: Response)
        ensures
            exists|rendered: Result<Seq<u8>, RenderError>|
                r@ == #[trigger] response_of(req@, rendered),
            req@.path != metrics_path() ==> r@ == not_found_view(),
            req@.path == metrics_path() ==> r@.status == 200 || r@ == internal_error_view(),
    {
        let rendered = self.metrics.render();
        let ghost rv = rendered_view(rendered);
        let r = respond(req, rendered);
        proof {
            assert(r@ == response_of(req@, rv));
        }
        r
    }
}

/// Law: a request whose path is not the metrics path is answered with the
/// empty `404`, whatever its headers and whatever the rendering did.
pub proof fn lemma_unknown_path_not_found(req: RequestView, rendered: Result<Seq<u8>, RenderError>)
    requires
        req.path != metrics_path(),
    ensures
        response_of(req, rendered) == not_found_view(),
        response_of(req, rendered).status == 404,
        response_of(req, rendered).body == Seq::<u8>::empty(),
{
}

/// Law: a metrics-path request that does not advertise gzip is answered
/// `200` with `Content-Type: text/plain`, no `Content-Encoding` header,
/// and exactly the rendered text as its body.
pub proof fn lemma_plain_metrics(req: RequestView, text: Seq<u8>)
    requires
        req.path == metrics_path(),
        !wants_gzip(req),
    ensures
        response_of(req, Ok(text)) == plain_ok_view(text),
        response_of(req, Ok(text)).status == 200,
        response_of(req, Ok(text)).body == text,
        response_of(req, Ok(text)).headers[0].name == content_type_name(),
        response_of(req, Ok(text)).headers[0].value == text_plain_value(),
        forall|i: int|
            0 <= i < response_of(req, Ok(text)).headers.len() ==> !name_matches(
                #[trigger] response_of(req, Ok(text)).headers[i].name,
                content_encoding_name(),
            ),
{
    assert(content_type_name().len() != content_encoding_name().len());
}

/// Law: a metrics-path request that advertises gzip in any one of its
/// `Accept-Encoding` headers is answered `200` with `Content-Encoding:
/// gzip` and `Content-Type: text/plain`, its body the gzip encoding of
/// exactly the rendered text.
pub proof fn lemma_gzip_metrics(req: RequestView, text: Seq<u8>)
    requires
        req.path == metrics_path(),
        wants_gzip(req),
    ensures
        response_of(req, Ok(text)) == gzip_ok_view(text),
        response_of(req, Ok(text)).status == 200,
        response_of(req, Ok(text)).body == gzip_of(text),
        response_of(req, Ok(text)).headers[0].name == content_encoding_name(),
        response_of(req, Ok(text)).headers[0].value == gzip_token(),
        response_of(req, Ok(text)).headers[1].name == content_type_name(),
        response_of(req, Ok(text)).headers[1].value == text_plain_value(),
{
}

/// Law: the responder is idempotent. The same request over the same
/// rendering outcome is answered with a byte-identical response.
pub proof fn lemma_idempotent(
    req1: RequestView,
    req2: RequestView,
    rendered1: Result<Seq<u8>, RenderError>,
    rendered2: Result<Seq<u8>, RenderError>,
)
    requires
        req1 == req2,
        rendered1 == rendered2,
    ensures
        response_of(req1, rendered1) == response_of(req2, rendered2),
{
}

/// Law: when rendering fails, a metrics-path request is answered with the
/// empty `500`, after the failure is reported as a write failure.
pub proof fn lemma_render_failure(req: RequestView, e: RenderError)
    requires
        req.path == metrics_path(),
    ensures
        try_response_of(req, Err(e)) == Err::<ResponseView, ServeError>(ServeError::Io),
        response_of(req, Err(e)) == internal_error_view(),
        response_of(req, Err(e)).status == 500,
        response_of(req, Err(e)).body == Seq::<u8>::empty(),
{
}

/// The exact bytes of `/metrics`.
fn metrics_path_bytes() -> (r: Vec<u8>)
    ensures
        r@ == metrics_path(),
{
    let mut v: Vec<u8> = Vec::new();
    v.push(47);
    v.push(109);
    v.push(101);
    v.push(116);
    v.push(114);
    v.push(105);
    v.push(99);
    v.push(115);
    proof {
        assert(v@ =~= metrics_path());
    }
    v
}

/// The exact bytes of `accept-encoding`.
fn accept_encoding_bytes() -> (r: Vec<u8>)
    ensures
        r@ == accept_encoding_name(),
{
    let mut v: Vec<u8> = Vec::new();
    v.push(97);
    v.push(99);
    v.push(99);
    v.push(101);
    v.push(112);
    v.push(116);
    v.push(45);
    v.push(101);
    v.push(110);
    v.push(99);
    v.push(111);
    v.push(100);
    v.push(105);
    v.push(110);
    v.push(103);
    proof {
        assert(v@ =~= accept_encoding_name());
    }
    v
}

/// The exact bytes of `content-type`.
fn content_type_bytes() -> (r: Vec<u8>)
    ensures
        r@ == content_type_name(),
{
    let mut v: Vec<u8> = Vec::new();
    v.push(99);
    v.push(111);
    v.push(110);
    v.push(116);
    v.push(101);
    v.push(110);
    v.push(116);
    v.push(45);
    v.push(116);
    v.push(121);
    v.push(112);
    v.push(101);
    proof {
        assert(v@ =~= content_type_name());
    }
    v
}

/// The exact bytes of `content-encoding`.
fn content_encoding_bytes() -> (r: Vec<u8>)
    ensures
        r@ == content_encoding_name(),
{
    let mut v: Vec<u8> = Vec::new();
    v.push(99);
    v.push(111);
    v.push(110);
    v.push(116);
    v.push(101);
    v.push(110);
    v.push(116);
    v.push(45);
    v.push(101);
    v.push(110);
    v.push(99);
    v.push(111);
    v.push(100);
    v.push(105);
    v.push(110);
    v.push(103);
    proof {
        assert(v@ =~= content_encoding_name());
    }
    v
}

/// The exact bytes of `text/plain`.
fn text_plain_bytes() -> (r: Vec<u8>)
    ensures
        r@ == text_plain_value(),
{
    let mut v: Vec<u8> = Vec::new();
    v.push(116);
    v.push(101);
    v.push(120);
    v.push(116);
    v.push(47);
    v.push(112);
    v.push(108);
    v.push(97);
    v.push(105);
    v.push(110);
    proof {
        assert(v@ =~= text_plain_value());
    }
    v
}

/// The exact bytes of `gzip`.
fn gzip_value_bytes() -> (r: Vec<u8>)
    ensures
        r@ == gzip_token(),
{
    let mut v: Vec<u8> = Vec::new();
    v.push(103);
    v.push(122);
    v.push(105);
    v.push(112);
    proof {
        assert(v@ =~= gzip_token());
    }
    v
}

} // verus!
