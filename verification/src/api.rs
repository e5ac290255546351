//! HTTP requests and responses as plain values, the construction of requests and the
//! reading of response statuses and headers.
use vstd::prelude::*;
use crate::decimal::{parse_u64, parse_u64_spec};
use crate::error::{Error, Result};
use crate::urls::{append_query_pairs, url_with_query_pairs};

verus! {

/// Marker for the types that the library alone implements its traits for.
pub trait Sealed {}

/// Abstract synchronous HTTP client: any HTTP backend implementing this trait can send
/// the requests of the library.
pub trait Client {
    /// Whether `r` is what this client may answer when it sends `req`: the response of
    /// the server, or the error of the transport. A client that does not state it may
    /// answer anything.
    closed spec fn answers(&self, req: RawRequest, r: Result<RawResponse>) -> bool {
        true
    }

    /// Send a request and get its response.
    fn execute_api(&self, req: RawRequest) -> (r: Result<RawResponse>)
        ensures
            self.answers(req, r),
    ;
}

/// An abstract API request. The operation is only performed when it is executed on an
/// HTTP `Client`.
pub trait Api: Sealed + Sized {
    /// The response type of the API endpoint.
    type Response;

    /// Perform the operation through an HTTP client.
    fn execute<C: Client>(self, client: &C) -> Result<Self::Response>;
}

/// A single request whose response is handed back as it is.
pub struct SimpleApi {
    request: Result<RawRequest>,
}

impl Sealed for SimpleApi {}

impl SimpleApi {
    /// The request held, or the error of building it.
    pub closed spec fn request_spec(&self) -> Result<RawRequest> {
        self.request
    }

    /// Wrap a request, or the error of building it.
    pub fn new(request: Result<RawRequest>) -> (r: Self)
        ensures
            r.request_spec() == request,
    {
        SimpleApi { request }
    }
}

impl Api for SimpleApi {
    type Response = RawResponse;

    fn execute<C: Client>(self, client: &C) -> (r: Result<RawResponse>)
        ensures
            self.request_spec() is Ok ==> client.answers(self.request_spec()->Ok_0, r),
            self.request_spec() is Err ==> r is Err && r->Err_0 == self.request_spec()->Err_0,
    {
        match self.request {
            Ok(req) => client.execute_api(req),
            Err(e) => Err(e),
        }
    }
}

/// Header and query pairs as plain values.
pub type Pairs = Seq<(Seq<char>, Seq<char>)>;

/// HTTP methods used by the API.
#[derive(Clone, Copy, Debug, PartialEq, Eq, Structural)]
pub enum Method {
    Get,
    Post,
    Put,
    Patch,
    Delete,
}

/// The body of a request.
#[derive(Clone, Debug)]
pub enum RequestBody {
    /// No body.
    Empty,
    /// Raw bytes.
    Bytes(Vec<u8>),
    /// JSON text, sent with `content-type: application/json`.
    Json(String),
    /// Text sent as its UTF-8 bytes, with no content type of its own.
    Text(String),
}

/// What a request body holds.
pub enum BodyView {
    Empty,
    Bytes(Seq<u8>),
    Json(Seq<char>),
    Text(Seq<char>),
}

impl View for RequestBody {
    type V = BodyView;

    open spec fn view(&self) -> BodyView {
        match self {
            RequestBody::Empty => BodyView::Empty,
            RequestBody::Bytes(b) => BodyView::Bytes(b@),
            RequestBody::Json(j) => BodyView::Json(j@),
            RequestBody::Text(t) => BodyView::Text(t@),
        }
    }
}

/// A request ready to be sent by an HTTP client.
#[derive(Clone, Debug)]
pub struct RawRequest {
    pub method: Method,
    /// The full URL, query included.
    pub url: String,
    pub headers: Vec<(String, String)>,
    pub body: RequestBody,
}

/// What a request holds.
pub struct RequestView {
    pub method: Method,
    pub url: Seq<char>,
    pub headers: Pairs,
    pub body: BodyView,
}

impl View for RawRequest {
    type V = RequestView;

    open spec fn view(&self) -> RequestView {
        RequestView {
            method: self.method,
            url: self.url@,
            headers: self.headers.deep_view(),
            body: self.body@,
        }
    }
}

/// A response as received by an HTTP client.
#[derive(Clone, Debug)]
pub struct RawResponse {
    pub status: u16,
    /// Header names in lower case; a value is `None` when it is not visible ASCII.
    pub headers: Vec<(String, Option<String>)>,
    pub body: Vec<u8>,
}

/// A request under construction: method, URL without query, query pairs and headers.
#[derive(Clone, Debug)]
pub struct RequestBuilder {
    pub method: Method,
    pub url: String,
    pub query: Vec<(String, String)>,
    pub headers: Vec<(String, String)>,
}

/// What a request under construction holds.
pub struct BuilderView {
    pub method: Method,
    pub url: Seq<char>,
    pub query: Pairs,
    pub headers: Pairs,
}

impl View for RequestBuilder {
    type V = BuilderView;

    open spec fn view(&self) -> BuilderView {
        BuilderView {
            method: self.method,
            url: self.url@,
            query: self.query.deep_view(),
            headers: self.headers.deep_view(),
        }
    }
}

/// The URL of a request: the base URL, with the query pairs appended when there are any.
pub open spec fn request_url(url: Seq<char>, query: Pairs) -> Option<Seq<char>> {
    if query.len() == 0 {
        Some(url)
    } else {
        url_with_query_pairs(url, query)
    }
}

/// The request that a builder finishes into with a body, if its URL can be formed.
pub open spec fn finish_spec(b: BuilderView, body: BodyView) -> Option<RequestView> {
    match request_url(b.url, b.query) {
        Some(u) => Some(RequestView { method: b.method, url: u, headers: b.headers, body }),
        None => None,
    }
}

/// The builder with one more header.
pub open spec fn with_header(b: BuilderView, name: Seq<char>, value: Seq<char>) -> BuilderView {
    BuilderView { headers: b.headers.push((name, value)), ..b }
}

/// The builder with more headers.
pub open spec fn with_headers(b: BuilderView, pairs: Pairs) -> BuilderView {
    BuilderView { headers: b.headers + pairs, ..b }
}

/// The builder with more query pairs.
pub open spec fn with_query(b: BuilderView, pairs: Pairs) -> BuilderView {
    BuilderView { query: b.query + pairs, ..b }
}

/// A fresh builder.
pub open spec fn new_builder(method: Method, url: Seq<char>) -> BuilderView {
    BuilderView { method, url, query: Seq::empty(), headers: Seq::empty() }
}

/// The value of an `Authorization` header for a bearer token.
pub open spec fn bearer_value(token: Seq<char>) -> Seq<char> {
    "Bearer "@ + token
}

/// The builder with the header `authorization: Bearer {token}`.
pub open spec fn with_bearer(b: BuilderView, token: Seq<char>) -> BuilderView {
    with_header(b, "authorization"@, bearer_value(token))
}

/// The reason given when a request cannot be formed from its parts.
pub open spec fn build_failure_reason() -> Seq<char> {
    "Cannot build the request"@
}

/// Whether `r` is the request `v`, or, when there is none, the error for an invalid URL.
pub open spec fn yields(r: Result<RawRequest>, v: Option<RequestView>) -> bool {
    match v {
        Some(req) => r is Ok && r->Ok_0@ == req,
        None => r is Err && r->Err_0.is_invalid_request(build_failure_reason()),
    }
}

/// Makes an owned pair of strings.
pub fn pair(k: &str, v: &str) -> (r: (String, String))
    ensures
        r.0@ == k@,
        r.1@ == v@,
{
    (k.to_owned(), v.to_owned())
}

impl RequestBuilder {
    /// Start a request with a method and a URL.
    pub fn new(method: Method, url: String) -> (r: Self)
        ensures
            r@ == new_builder(method, url@),
    {
        let r = RequestBuilder { method, url, query: Vec::new(), headers: Vec::new() };
        assert(r.query.deep_view() =~= Seq::<(Seq<char>, Seq<char>)>::empty());
        assert(r.headers.deep_view() =~= Seq::<(Seq<char>, Seq<char>)>::empty());
        r
    }

    /// Add a header.
    pub fn header(self, name: &str, value: String) -> (r: Self)
        ensures
            r@ == with_header(self@, name@, value@),
    {
        let mut s = self;
        let ghost h = s.headers.deep_view();
        s.headers.push((name.to_owned(), value));
        assert(s.headers.deep_view() =~= h.push((name@, value@)));
        s
    }

    /// Add the header `Authorization: Bearer {token}`.
    pub fn bearer_auth(self, token: &str) -> (r: Self)
        ensures
            r@ == with_bearer(self@, token@),
    {
        let mut v = "Bearer ".to_owned();
        v.append(token);
        self.header("authorization", v)
    }

    /// Append query pairs.
    pub fn query(self, pairs: Vec<(String, String)>) -> (r: Self)
        ensures
            r@ == with_query(self@, pairs.deep_view()),
    {
        let mut s = self;
        let mut pairs = pairs;
        let ghost q = s.query.deep_view();
        let ghost p = pairs.deep_view();
        s.query.append(&mut pairs);
        assert(s.query.deep_view() =~= q + p);
        s
    }

    /// Append headers.
    pub fn headers(self, pairs: Vec<(String, String)>) -> (r: Self)
        ensures
            r@ == with_headers(self@, pairs.deep_view()),
    {
        let mut s = self;
        let mut pairs = pairs;
        let ghost h = s.headers.deep_view();
        let ghost p = pairs.deep_view();
        s.headers.append(&mut pairs);
        assert(s.headers.deep_view() =~= h + p);
        s
    }

    /// Finish the request with a body.
    pub fn body(self, body: RequestBody) -> (r: Result<RawRequest>)
        ensures
            yields(r, finish_spec(self@, body@)),
    {
        let ghost b = self@;
        let url = if self.query.len() == 0 {
            self.url
        } else {
            match append_query_pairs(self.url.as_str(), &self.query) {
                Some(u) => u,
                None => {
                    proof {
                        reveal_strlit("Cannot build the request");
                    }
                    return Err(Error::invalid_request("Cannot build the request"));
                },
            }
        };
        let r = RawRequest { method: self.method, url, headers: self.headers, body };
        assert(r@ == finish_spec(b, body@)->Some_0);
        Ok(r)
    }

    /// Finish the request without a body.
    pub fn empty_body(self) -> (r: Result<RawRequest>)
        ensures
            yields(r, finish_spec(self@, BodyView::Empty)),
    {
        self.body(RequestBody::Empty)
    }

    /// Finish the request with raw bytes as body.
    pub fn bytes_body(self, data: Vec<u8>) -> (r: Result<RawRequest>)
        ensures
            yields(r, finish_spec(self@, BodyView::Bytes(data@))),
    {
        self.body(RequestBody::Bytes(data))
    }

    /// Finish the request with JSON text as body, adding `content-type: application/json`.
    pub fn json_body(self, json: String) -> (r: Result<RawRequest>)
        ensures
            yields(
                r,
                finish_spec(with_header(self@, "content-type"@, "application/json"@), BodyView::Json(json@)),
            ),
    {
        let s = self.header("content-type", "application/json".to_owned());
        s.body(RequestBody::Json(json))
    }
}

/// A 2xx status.
pub open spec fn is_success(status: u16) -> bool {
    200 <= status <= 299
}

/// A 3xx status.
pub open spec fn is_redirection(status: u16) -> bool {
    300 <= status <= 399
}

/// How the body of a response is to be read.
#[derive(Clone, Copy, Debug, PartialEq, Eq, Structural)]
pub enum Expect {
    /// A value is parsed from the body.
    Value,
    /// A value is parsed from the body, except that `304 Not Modified` and `202 Accepted`
    /// carry no value.
    OptionalValue,
    /// Nothing is read from the body.
    NoContent,
}

/// What a response amounts to.
#[derive(Clone, Copy, Debug, PartialEq, Eq, Structural)]
pub enum Outcome {
    /// The body holds the value.
    Value,
    /// There is no value, and no error.
    Absent,
    /// Success without anything to read.
    Done,
    /// An error status: the body holds the error object.
    Failure { status: u16, retry_after: Option<u32> },
}

/// Whether a name of a header equals `name`.
pub fn str_eq(a: &str, b: &str) -> (r: bool)
    ensures
        r == (a@ == b@),
{
    let n = a.unicode_len();
    if n != b.unicode_len() {
        return false;
    }
    let mut i: usize = 0;
    while i < n
        invariant
            i <= n,
            n == a@.len(),
            n == b@.len(),
            forall|j: int| 0 <= j < i ==> a@[j] == b@[j],
        decreases n - i,
    {
        if a.get_char(i) != b.get_char(i) {
            return false;
        }
        i = i + 1;
    }
    assert(a@ =~= b@);
    true
}

/// The value of the first header named `name`: `None` when there is none, `Some(None)`
/// when its value is not visible ASCII.
pub open spec fn first_header(headers: Seq<(Seq<char>, Option<Seq<char>>)>, name: Seq<char>) -> Option<Option<Seq<char>>>
    decreases headers.len(),
{
    if headers.len() == 0 {
        None
    } else if headers[0].0 == name {
        Some(headers[0].1)
    } else {
        first_header(headers.drop_first(), name)
    }
}

/// Finds the value of the first header named `name`.
pub fn find_header<'a>(headers: &'a Vec<(String, Option<String>)>, name: &str) -> (r: Option<&'a Option<String>>)
    ensures
        (match r {
            Some(v) => Some(v.deep_view()),
            None => None,
        }) == first_header(headers.deep_view(), name@),
{
    let mut i: usize = 0;
    assert(headers.deep_view().skip(0) =~= headers.deep_view());
    while i < headers.len()
        invariant
            i <= headers.len(),
            first_header(headers.deep_view(), name@) == first_header(
                headers.deep_view().skip(i as int),
                name@,
            ),
        decreases headers.len() - i,
    {
        let ghost rest = headers.deep_view().skip(i as int);
        assert(rest[0] == headers.deep_view()[i as int]);
        if str_eq(headers[i].0.as_str(), name) {
            return Some(&headers[i].1);
        }
        assert(rest.drop_first() =~= headers.deep_view().skip(i + 1));
        i = i + 1;
    }
    None
}

/// The delay in seconds given by the header `Retry-After`: the first such header, visible
/// ASCII, parsed as a decimal `u32`.
pub open spec fn retry_after_spec(headers: Seq<(Seq<char>, Option<Seq<char>>)>) -> Option<u32> {
    match first_header(headers, "retry-after"@) {
        Some(Some(v)) => match parse_u64_spec(v) {
            Some(n) => if n <= u32::MAX {
                Some(n as u32)
            } else {
                None
            },
            None => None,
        },
        _ => None,
    }
}

/// Parses the retry delay hint, in seconds, from the header `Retry-After`.
pub fn parse_retry_after_sec(resp: &RawResponse) -> (r: Option<u32>)
    ensures
        r == retry_after_spec(resp.headers.deep_view()),
{
    match find_header(&resp.headers, "retry-after") {
        Some(Some(v)) => match parse_u64(v.as_str()) {
            Some(n) => if n <= 0xffff_ffff {
                Some(n as u32)
            } else {
                None
            },
            None => None,
        },
        _ => None,
    }
}

/// What a response of the storage API amounts to: an error status (other than 2xx or 3xx)
/// is a failure; otherwise, when an optional value is expected, `304` and `202` mean
/// absent; otherwise the value is in the body, or, when none is expected, it is done.
pub open spec fn storage_outcome_spec(status: u16, headers: Seq<(Seq<char>, Option<Seq<char>>)>, expect: Expect) -> Outcome {
    if expect == Expect::OptionalValue && (status == 304 || status == 202) {
        Outcome::Absent
    } else if !(is_success(status) || is_redirection(status)) {
        Outcome::Failure { status, retry_after: retry_after_spec(headers) }
    } else if expect == Expect::NoContent {
        Outcome::Done
    } else {
        Outcome::Value
    }
}

/// Reads the status of a response of the storage API.
pub fn storage_outcome(resp: &RawResponse, expect: Expect) -> (r: Outcome)
    ensures
        r == storage_outcome_spec(resp.status, resp.headers.deep_view(), expect),
{
    let status = resp.status;
    if expect == Expect::OptionalValue && (status == 304 || status == 202) {
        Outcome::Absent
    } else if !(200 <= status && status <= 399) {
        Outcome::Failure { status, retry_after: parse_retry_after_sec(resp) }
    } else if expect == Expect::NoContent {
        Outcome::Done
    } else {
        Outcome::Value
    }
}

/// What a response of the OAuth2 endpoint amounts to: the value when the status is 2xx,
/// a failure otherwise.
pub open spec fn oauth2_outcome_spec(status: u16, headers: Seq<(Seq<char>, Option<Seq<char>>)>) -> Outcome {
    if is_success(status) {
        Outcome::Value
    } else {
        Outcome::Failure { status, retry_after: retry_after_spec(headers) }
    }
}

/// Reads the status of a response of the OAuth2 endpoint.
pub fn oauth2_outcome(resp: &RawResponse) -> (r: Outcome)
    ensures
        r == oauth2_outcome_spec(resp.status, resp.headers.deep_view()),
{
    if 200 <= resp.status && resp.status <= 299 {
        Outcome::Value
    } else {
        Outcome::Failure { status: resp.status, retry_after: parse_retry_after_sec(resp) }
    }
}

} // verus!
