//! The harness itself: server, client, and the race against the timeout.
//!
//! A `TestServer` records what every decision of the harness depends on:
//! the behaviour of the handler it serves and the timeout in seconds. A
//! `TestClient` is bound to one server and to the source address the server
//! will observe; each verb method turns it into a request builder, and
//! `perform` carries the finished request through the round trip. The
//! outcome of racing a request against the timer is resolved by
//! `run_request`, with exact win/lose semantics; an unverified runner that
//! drives real connections reports each race's winner in a `RaceOutcome`
//! and leaves the resolution to this module.

use vstd::prelude::*;
use vstd::string::StringExecFns;
use vstd::string::StrSliceExecFns;
use vstd::utf8::encode_utf8;
use crate::addr::{TestAddr, addr_bytes, default_client_addr};
use crate::decimal::{dec_bytes, dec_u64};
use crate::error::{TestError, ErrorModel};
use crate::http::{
    Method, Header, HeaderModel, TestRequest, RequestModel, TestResponse, ResponseModel, Version,
    clone_bytes, spec_find_header,
};

verus! {

/// The header names this library writes.
pub open spec fn content_type_name() -> Seq<char> {
    "content-type"@
}

/// See `content_type_name`.
pub open spec fn content_length_name() -> Seq<char> {
    "content-length"@
}

/// How a handler behaves. The harness consumes handlers as opaque
/// capabilities; these are the behaviours it is exercised with, each one a
/// function of the request and of the source address the server observed.
pub enum HandlerKind {
    /// Replies with a fixed status and body, whatever the request.
    Fixed { status: u16, body: Vec<u8> },
    /// Replies 200 with the request body echoed back, the request's
    /// `content-type` kept, and a `content-length` for the echoed bytes.
    Echo,
    /// Replies 200 with the canonical text of the address the server
    /// observed as the source of the connection.
    ReportAddr,
    /// Never completes: the request future makes no progress, so only the
    /// timer can end the race.
    Hang,
}

/// The spec-level image of a `HandlerKind`.
#[verifier::ext_equal]
pub enum HandlerModel {
    Fixed { status: u16, body: Seq<u8> },
    Echo,
    ReportAddr,
    Hang,
}

impl View for HandlerKind {
    type V = HandlerModel;

    open spec fn view(&self) -> HandlerModel {
        match self {
            HandlerKind::Fixed { status, body } => HandlerModel::Fixed {
                status: *status,
                body: body@,
            },
            HandlerKind::Echo => HandlerModel::Echo,
            HandlerKind::ReportAddr => HandlerModel::ReportAddr,
            HandlerKind::Hang => HandlerModel::Hang,
        }
    }
}

impl Clone for HandlerKind {
    /// An equal behaviour.
    fn clone(&self) -> (r: Self)
        ensures
            r@ == self@,
    {
        match self {
            HandlerKind::Fixed { status, body } => HandlerKind::Fixed {
                status: *status,
                body: clone_bytes(body),
            },
            HandlerKind::Echo => HandlerKind::Echo,
            HandlerKind::ReportAddr => HandlerKind::ReportAddr,
            HandlerKind::Hang => HandlerKind::Hang,
        }
    }
}

/// What a handler does with one request: a finished response, or nothing,
/// ever.
pub enum HandlerOutcome {
    Responds(TestResponse),
    NeverCompletes,
}

/// The spec-level image of a `HandlerOutcome`.
#[verifier::ext_equal]
pub enum OutcomeModel {
    Responds(ResponseModel),
    NeverCompletes,
}

impl View for HandlerOutcome {
    type V = OutcomeModel;

    open spec fn view(&self) -> OutcomeModel {
        match self {
            HandlerOutcome::Responds(resp) => OutcomeModel::Responds(resp@),
            HandlerOutcome::NeverCompletes => OutcomeModel::NeverCompletes,
        }
    }
}

/// The headers of an echoed response: the request's `content-type` if it
/// had one, then a `content-length` for the echoed body.
pub open spec fn echo_headers(req: RequestModel) -> Seq<HeaderModel> {
    let length = HeaderModel {
        name: content_length_name(),
        value: dec_bytes(req.body.len()),
    };
    match spec_find_header(req.headers, content_type_name()) {
        Some(v) => seq![HeaderModel { name: content_type_name(), value: v }, length],
        None => seq![length],
    }
}

/// What each handler behaviour does with one request, as a value.
pub open spec fn handle_model(h: HandlerModel, req: RequestModel, client_addr: TestAddr) -> OutcomeModel {
    match h {
        HandlerModel::Fixed { status, body } => OutcomeModel::Responds(
            ResponseModel {
                status,
                version: Version::Http11,
                headers: seq![
                    HeaderModel { name: content_length_name(), value: dec_bytes(body.len()) },
                ],
                body,
            },
        ),
        HandlerModel::Echo => OutcomeModel::Responds(
            ResponseModel {
                status: 200,
                version: Version::Http11,
                headers: echo_headers(req),
                body: req.body,
            },
        ),
        HandlerModel::ReportAddr => OutcomeModel::Responds(
            ResponseModel {
                status: 200,
                version: Version::Http11,
                headers: seq![
                    HeaderModel {
                        name: content_length_name(),
                        value: dec_bytes(addr_bytes(client_addr).len()),
                    },
                ],
                body: addr_bytes(client_addr),
            },
        ),
        HandlerModel::Hang => OutcomeModel::NeverCompletes,
    }
}

impl HandlerKind {
    /// This behaviour's outcome for one request, observed from
    /// `client_addr`.
    pub fn handle(&self, req: &TestRequest, client_addr: &TestAddr) -> (r: HandlerOutcome)
        ensures
            r@ == handle_model(self@, req@, *client_addr),
    {
        match self {
            HandlerKind::Fixed { status, body } => {
                let body_copy = clone_bytes(body);
                let mut headers: Vec<Header> = Vec::new();
                headers.push(Header {
                    name: String::from_str("content-length"),
                    value: dec_u64(body_copy.len() as u64),
                });
                let resp = TestResponse { status: *status, version: Version::Http11, headers, body: body_copy };
                let r = HandlerOutcome::Responds(resp);
                assert(r@ =~= handle_model(self@, req@, *client_addr));
                r
            },
            HandlerKind::Echo => {
                let body_copy = clone_bytes(&req.body);
                let mut headers: Vec<Header> = Vec::new();
                let ct_name = String::from_str("content-type");
                match crate::http::find_header(&req.headers, &ct_name) {
                    Some(v) => {
                        headers.push(Header { name: ct_name, value: v });
                    },
                    None => {},
                }
                headers.push(Header {
                    name: String::from_str("content-length"),
                    value: dec_u64(body_copy.len() as u64),
                });
                let resp = TestResponse { status: 200, version: Version::Http11, headers, body: body_copy };
                let r = HandlerOutcome::Responds(resp);
                assert(r@ =~= handle_model(self@, req@, *client_addr));
                r
            },
            HandlerKind::ReportAddr => {
                let body = client_addr.text_bytes();
                let mut headers: Vec<Header> = Vec::new();
                headers.push(Header {
                    name: String::from_str("content-length"),
                    value: dec_u64(body.len() as u64),
                });
                let resp = TestResponse { status: 200, version: Version::Http11, headers, body };
                let r = HandlerOutcome::Responds(resp);
                assert(r@ =~= handle_model(self@, req@, *client_addr));
                r
            },
            HandlerKind::Hang => HandlerOutcome::NeverCompletes,
        }
    }
}

/// The winner of the race between a request future and the timer, as the
/// runner reports it: the request finished (with a value or with the text
/// of its error), or the timer fired first. A race never has a third
/// outcome.
pub enum RaceOutcome<T> {
    Completed(Result<T, String>),
    TimerElapsed,
}

/// The spec-level image of a `TestServer`.
#[verifier::ext_equal]
pub struct ServerModel {
    pub handler: HandlerModel,
    pub timeout: u64,
}

/// The timeout, in seconds, a harness records when the caller chose none.
pub const DEFAULT_TIMEOUT_SECONDS: u64 = 10;

/// The harness: it records what every decision of a request round trip
/// depends on. Clones share one underlying engine and endpoint, so a clone
/// is modelled as the same value.
pub struct TestServer {
    handler: HandlerKind,
    timeout: u64,
}

impl View for TestServer {
    type V = ServerModel;

    closed spec fn view(&self) -> ServerModel {
        ServerModel { handler: self.handler@, timeout: self.timeout }
    }
}

impl Clone for TestServer {
    /// A clone shares the engine and endpoint of the original; it is the
    /// same harness.
    fn clone(&self) -> (r: Self)
        ensures
            r@ == self@,
    {
        TestServer { handler: self.handler.clone(), timeout: self.timeout }
    }
}

impl TestServer {
    /// A harness for `handler` with the default timeout of 10 seconds.
    pub fn new(handler: HandlerKind) -> (r: Result<TestServer, TestError>)
        ensures
            r matches Ok(s) && s@ == (ServerModel { handler: handler@, timeout: 10 }),
    {
        TestServer::with_timeout(handler, 10)
    }

    /// A harness for `handler` that waits at most `timeout` seconds for any
    /// single request. Construction of the model always succeeds; a
    /// `Setup` error is the runner's, raised when its engine or endpoint
    /// cannot be created.
    pub fn with_timeout(handler: HandlerKind, timeout: u64) -> (r: Result<TestServer, TestError>)
        ensures
            r matches Ok(s) && s@ == (ServerModel { handler: handler@, timeout }),
    {
        Ok(TestServer { handler, timeout })
    }

    /// The timeout this harness races every request against, in seconds.
    pub fn timeout(&self) -> (r: u64)
        ensures
            r == self@.timeout,
    {
        self.timeout
    }

    /// A client of this harness; the server will observe `127.0.0.1:10000`
    /// as the source address of its connections.
    pub fn client(&self) -> (c: TestClient)
        ensures
            c@ == (ClientModel { server: self@, client_addr: default_client_addr() }),
    {
        self.client_with_address(TestAddr::new(127, 0, 0, 1, 10000))
    }

    /// A client of this harness whose connections the server will observe
    /// as coming from `client_addr`. The address need not be reachable: it
    /// only affects what the server side is shown.
    pub fn client_with_address(&self, client_addr: TestAddr) -> (c: TestClient)
        ensures
            c@ == (ClientModel { server: self@, client_addr }),
    {
        TestClient { server: self.clone(), client_addr }
    }

    /// Resolves a finished race between a request future and the timer.
    /// First to resolve wins: a completed request yields its value or a
    /// `RequestFailed` carrying its error, and an elapsed timer yields
    /// `TimedOut` — never a third state, and the abandoned request is not
    /// retried.
    pub fn run_request<T>(&self, outcome: RaceOutcome<T>) -> (r: Result<T, TestError>)
        ensures
            outcome matches RaceOutcome::Completed(Ok(v)) ==> (r matches Ok(w) && w == v),
            outcome matches RaceOutcome::Completed(Err(c)) ==> (r matches Err(e)
                && e@ == (ErrorModel::RequestFailed { cause: c@ })),
            outcome is TimerElapsed ==> (r matches Err(e) && e is TimedOut),
    {
        match outcome {
            RaceOutcome::Completed(Ok(v)) => Ok(v),
            RaceOutcome::Completed(Err(cause)) => Err(TestError::RequestFailed { cause }),
            RaceOutcome::TimerElapsed => Err(TestError::TimedOut),
        }
    }

    /// Resolves a future the engine drove to completion with no timer in
    /// the race: its value, or a `RequestFailed` carrying its error.
    pub fn run_future<T>(&self, completion: Result<T, String>) -> (r: Result<T, TestError>)
        ensures
            completion matches Ok(v) ==> (r matches Ok(w) && w == v),
            completion matches Err(c) ==> (r matches Err(e)
                && e@ == (ErrorModel::RequestFailed { cause: c@ })),
    {
        match completion {
            Ok(v) => Ok(v),
            Err(cause) => Err(TestError::RequestFailed { cause }),
        }
    }
}

/// The spec-level image of a `TestClient`.
#[verifier::ext_equal]
pub struct ClientModel {
    pub server: ServerModel,
    pub client_addr: TestAddr,
}

/// A client bound to one harness and to the source address the server will
/// observe. Each verb method consumes it and yields a request builder.
pub struct TestClient {
    server: TestServer,
    client_addr: TestAddr,
}

impl View for TestClient {
    type V = ClientModel;

    closed spec fn view(&self) -> ClientModel {
        ClientModel { server: self.server@, client_addr: self.client_addr }
    }
}

/// A well-formed URI in the form this library accepts: `http://`, then an
/// authority that does not begin with `/`. The authority is cosmetic — the
/// connector dials the harness's own endpoint whatever the URI names.
pub open spec fn uri_wf(s: Seq<char>) -> bool {
    &&& s.len() >= 8
    &&& s[0] == 'h'
    &&& s[1] == 't'
    &&& s[2] == 't'
    &&& s[3] == 'p'
    &&& s[4] == ':'
    &&& s[5] == '/'
    &&& s[6] == '/'
    &&& s[7] != '/'
}

/// An already-parsed URI: text that has passed the well-formedness check.
pub struct Uri {
    text: String,
}

impl Uri {
    /// The text of this URI.
    pub closed spec fn spec_text(&self) -> Seq<char> {
        self.text@
    }

    #[verifier::type_invariant]
    spec fn wf(&self) -> bool {
        uri_wf(self.text@)
    }

    /// Parses URI text; succeeds exactly on well-formed text.
    pub fn parse(s: &str) -> (r: Option<Uri>)
        ensures
            r is Some <==> uri_wf(s@),
            r matches Some(u) ==> u.spec_text() == s@,
    {
        if check_uri(s) {
            Some(Uri { text: String::from_str(s) })
        } else {
            None
        }
    }

    /// The text of this URI, for the runner to place on the wire.
    pub fn text(&self) -> (r: &String)
        ensures
            r@ == self.spec_text(),
            uri_wf(self.spec_text()),
    {
        proof {
            use_type_invariant(self);
        }
        &self.text
    }
}

/// Whether `s` is a well-formed URI.
fn check_uri(s: &str) -> (r: bool)
    ensures
        r == uri_wf(s@),
{
    let n: usize = s.unicode_len();
    if n < 8 {
        return false;
    }
    s.get_char(0) == 'h' && s.get_char(1) == 't' && s.get_char(2) == 't' && s.get_char(3) == 'p'
        && s.get_char(4) == ':' && s.get_char(5) == '/' && s.get_char(6) == '/'
        && s.get_char(7) != '/'
}

/// The spec-level image of a `RequestBuilder`.
#[verifier::ext_equal]
pub struct BuilderModel {
    pub client: ClientModel,
    pub request: RequestModel,
}

/// A request under construction, still bound to the client that will issue
/// it. Finishing the chain with `perform` sends the request.
pub struct RequestBuilder {
    client: TestClient,
    request: TestRequest,
}

impl View for RequestBuilder {
    type V = BuilderModel;

    closed spec fn view(&self) -> BuilderModel {
        BuilderModel { client: self.client@, request: self.request@ }
    }
}

impl RequestBuilder {
    /// Replaces the body of the request being built.
    pub fn with_body(self, body: Vec<u8>) -> (r: Self)
        ensures
            r@ == (BuilderModel {
                client: self@.client,
                request: RequestModel { body: body@, ..self@.request },
            }),
    {
        let ghost pre = self@;
        let ghost new_body = body@;
        let RequestBuilder { client, request } = self;
        let r = RequestBuilder {
            client,
            request: TestRequest { body, ..request },
        };
        assert(r@ =~= (BuilderModel {
            client: pre.client,
            request: RequestModel { body: new_body, ..pre.request },
        }));
        r
    }

    /// Appends one header to the request being built.
    pub fn with_header(self, name: String, value: Vec<u8>) -> (r: Self)
        ensures
            r@ == (BuilderModel {
                client: self@.client,
                request: RequestModel {
                    headers: self@.request.headers.push(HeaderModel { name: name@, value: value@ }),
                    ..self@.request
                },
            }),
    {
        let ghost pre = self@;
        let ghost added = HeaderModel { name: name@, value: value@ };
        let RequestBuilder { client, mut request } = self;
        request.headers.push(Header { name, value });
        let r = RequestBuilder { client, request };
        assert(r@.request.headers =~= pre.request.headers.push(added));
        assert(r@ =~= (BuilderModel {
            client: pre.client,
            request: RequestModel { headers: pre.request.headers.push(added), ..pre.request },
        }));
        r
    }

    /// Attaches a body and a `content-type` header for `content_type` to
    /// the request being built.
    fn attach(self, body: Vec<u8>, content_type: &str) -> (r: Self)
        ensures
            r@ == (BuilderModel {
                client: self@.client,
                request: RequestModel {
                    headers: self@.request.headers.push(HeaderModel {
                        name: content_type_name(),
                        value: encode_utf8(content_type@),
                    }),
                    body: body@,
                    ..self@.request
                },
            }),
    {
        let ghost pre = self@;
        let ghost bv = body@;
        let r = self.with_body(body).with_header(
            String::from_str("content-type"),
            content_type.as_bytes_vec(),
        );
        assert(r@ =~= (BuilderModel {
            client: pre.client,
            request: RequestModel {
                headers: pre.request.headers.push(HeaderModel {
                    name: content_type_name(),
                    value: encode_utf8(content_type@),
                }),
                body: bv,
                ..pre.request
            },
        }));
        r
    }

    /// Sends the built request; see `TestClient::perform`.
    pub fn perform(self) -> (r: Result<TestResponse, TestError>)
        ensures
            response_result_view(r) == perform_model(self@.client.server, self@.client.client_addr, self@.request),
    {
        let RequestBuilder { client, request } = self;
        client.perform(request)
    }
}

/// A request result, viewed model by model.
pub open spec fn response_result_view(r: Result<TestResponse, TestError>) -> Result<ResponseModel, ErrorModel> {
    match r {
        Ok(t) => Ok(t@),
        Err(e) => Err(e@),
    }
}

/// The full round trip of one request: the handler's outcome, raced against
/// the timer. A handler that never completes loses the race whatever the
/// timeout; one that responds wins with its response.
pub open spec fn perform_model(server: ServerModel, client_addr: TestAddr, req: RequestModel) -> Result<ResponseModel, ErrorModel> {
    match handle_model(server.handler, req, client_addr) {
        OutcomeModel::Responds(resp) => Ok(resp),
        OutcomeModel::NeverCompletes => Err(ErrorModel::TimedOut),
    }
}

/// The request a body-free verb builds.
pub open spec fn bare_request(method: Method, uri: Seq<char>) -> RequestModel {
    RequestModel { method, uri, headers: Seq::empty(), body: Seq::empty() }
}

/// The request a body-carrying verb builds: the body, and one
/// `content-type` header holding the given content type's text.
pub open spec fn body_request(
    method: Method,
    uri: Seq<char>,
    body: Seq<u8>,
    content_type: Seq<char>,
) -> RequestModel {
    RequestModel {
        method,
        uri,
        headers: seq![
            HeaderModel { name: content_type_name(), value: encode_utf8(content_type) },
        ],
        body,
    }
}

impl TestClient {
    /// Parses the URI text and begins a HEAD request.
    pub fn head(self, uri: &str) -> (r: RequestBuilder)
        requires
            uri_wf(uri@),
        ensures
            r@ == (BuilderModel { client: self@, request: bare_request(Method::Head, uri@) }),
    {
        self.build_request(Method::Head, uri)
    }

    /// Begins a HEAD request for an already-parsed URI.
    pub fn head_uri(self, uri: Uri) -> (r: RequestBuilder)
        ensures
            r@ == (BuilderModel {
                client: self@,
                request: bare_request(Method::Head, uri.spec_text()),
            }),
    {
        self.build_request_uri(Method::Head, uri)
    }

    /// Parses the URI text and begins a GET request.
    pub fn get(self, uri: &str) -> (r: RequestBuilder)
        requires
            uri_wf(uri@),
        ensures
            r@ == (BuilderModel { client: self@, request: bare_request(Method::Get, uri@) }),
    {
        self.build_request(Method::Get, uri)
    }

    /// Begins a GET request for an already-parsed URI.
    pub fn get_uri(self, uri: Uri) -> (r: RequestBuilder)
        ensures
            r@ == (BuilderModel {
                client: self@,
                request: bare_request(Method::Get, uri.spec_text()),
            }),
    {
        self.build_request_uri(Method::Get, uri)
    }

    /// Parses the URI text and begins a POST request carrying `body`, with
    /// a `content-type` header for `content_type`.
    pub fn post(self, uri: &str, body: Vec<u8>, content_type: &str) -> (r: RequestBuilder)
        requires
            uri_wf(uri@),
        ensures
            r@ == (BuilderModel {
                client: self@,
                request: body_request(Method::Post, uri@, body@, content_type@),
            }),
    {
        let ghost pre = self@;
        let ghost bv = body@;
        let r = self.build_request(Method::Post, uri).attach(body, content_type);
        assert(r@ =~= (BuilderModel {
            client: pre,
            request: body_request(Method::Post, uri@, bv, content_type@),
        }));
        r
    }

    /// Begins a POST request for an already-parsed URI; see `post`.
    pub fn post_uri(self, uri: Uri, body: Vec<u8>, content_type: &str) -> (r: RequestBuilder)
        ensures
            r@ == (BuilderModel {
                client: self@,
                request: body_request(Method::Post, uri.spec_text(), body@, content_type@),
            }),
    {
        let ghost pre = self@;
        let ghost bv = body@;
        let ghost ut = uri.spec_text();
        let r = self.build_request_uri(Method::Post, uri).attach(body, content_type);
        assert(r@ =~= (BuilderModel {
            client: pre,
            request: body_request(Method::Post, ut, bv, content_type@),
        }));
        r
    }

    /// Parses the URI text and begins a PUT request; see `post`.
    pub fn put(self, uri: &str, body: Vec<u8>, content_type: &str) -> (r: RequestBuilder)
        requires
            uri_wf(uri@),
        ensures
            r@ == (BuilderModel {
                client: self@,
                request: body_request(Method::Put, uri@, body@, content_type@),
            }),
    {
        let ghost pre = self@;
        let ghost bv = body@;
        let r = self.build_request(Method::Put, uri).attach(body, content_type);
        assert(r@ =~= (BuilderModel {
            client: pre,
            request: body_request(Method::Put, uri@, bv, content_type@),
        }));
        r
    }

    /// Begins a PUT request for an already-parsed URI; see `post`.
    pub fn put_uri(self, uri: Uri, body: Vec<u8>, content_type: &str) -> (r: RequestBuilder)
        ensures
            r@ == (BuilderModel {
                client: self@,
                request: body_request(Method::Put, uri.spec_text(), body@, content_type@),
            }),
    {
        let ghost pre = self@;
        let ghost bv = body@;
        let ghost ut = uri.spec_text();
        let r = self.build_request_uri(Method::Put, uri).attach(body, content_type);
        assert(r@ =~= (BuilderModel {
            client: pre,
            request: body_request(Method::Put, ut, bv, content_type@),
        }));
        r
    }

    /// Parses the URI text and begins a PATCH request; see `post`.
    pub fn patch(self, uri: &str, body: Vec<u8>, content_type: &str) -> (r: RequestBuilder)
        requires
            uri_wf(uri@),
        ensures
            r@ == (BuilderModel {
                client: self@,
                request: body_request(Method::Patch, uri@, body@, content_type@),
            }),
    {
        let ghost pre = self@;
        let ghost bv = body@;
        let r = self.build_request(Method::Patch, uri).attach(body, content_type);
        assert(r@ =~= (BuilderModel {
            client: pre,
            request: body_request(Method::Patch, uri@, bv, content_type@),
        }));
        r
    }

    /// Begins a PATCH request for an already-parsed URI; see `post`.
    pub fn patch_uri(self, uri: Uri, body: Vec<u8>, content_type: &str) -> (r: RequestBuilder)
        ensures
            r@ == (BuilderModel {
                client: self@,
                request: body_request(Method::Patch, uri.spec_text(), body@, content_type@),
            }),
    {
        let ghost pre = self@;
        let ghost bv = body@;
        let ghost ut = uri.spec_text();
        let r = self.build_request_uri(Method::Patch, uri).attach(body, content_type);
        assert(r@ =~= (BuilderModel {
            client: pre,
            request: body_request(Method::Patch, ut, bv, content_type@),
        }));
        r
    }

    /// Parses the URI text and begins a DELETE request.
    pub fn delete(self, uri: &str) -> (r: RequestBuilder)
        requires
            uri_wf(uri@),
        ensures
            r@ == (BuilderModel { client: self@, request: bare_request(Method::Delete, uri@) }),
    {
        self.build_request(Method::Delete, uri)
    }

    /// Begins a DELETE request for an already-parsed URI.
    pub fn delete_uri(self, uri: Uri) -> (r: RequestBuilder)
        ensures
            r@ == (BuilderModel {
                client: self@,
                request: bare_request(Method::Delete, uri.spec_text()),
            }),
    {
        self.build_request_uri(Method::Delete, uri)
    }

    /// Begins a request with the given method and URI text; the text must
    /// be well-formed.
    pub fn build_request(self, method: Method, uri: &str) -> (r: RequestBuilder)
        requires
            uri_wf(uri@),
        ensures
            r@ == (BuilderModel {
                client: self@,
                request: RequestModel {
                    method,
                    uri: uri@,
                    headers: Seq::empty(),
                    body: Seq::empty(),
                },
            }),
    {
        let request = TestRequest {
            method,
            uri: String::from_str(uri),
            headers: Vec::new(),
            body: Vec::new(),
        };
        let r = RequestBuilder { client: self, request };
        assert(r@ =~= (BuilderModel {
            client: r@.client,
            request: RequestModel {
                method,
                uri: uri@,
                headers: Seq::empty(),
                body: Seq::empty(),
            },
        }));
        r
    }

    /// Begins a request with the given method and an already-parsed URI.
    pub fn build_request_uri(self, method: Method, uri: Uri) -> (r: RequestBuilder)
        ensures
            r@ == (BuilderModel {
                client: self@,
                request: RequestModel {
                    method,
                    uri: uri.spec_text(),
                    headers: Seq::empty(),
                    body: Seq::empty(),
                },
            }),
    {
        proof {
            use_type_invariant(&uri);
        }
        let text = uri.text();
        self.build_request(method, text.as_str())
    }

    /// Sends `req` through this client's connector and resolves the race
    /// against the harness's timeout: the handler's response if it
    /// completes, `TimedOut` if it never does.
    pub fn perform(self, req: TestRequest) -> (r: Result<TestResponse, TestError>)
        ensures
            response_result_view(r) == perform_model(self@.server, self@.client_addr, req@),
    {
        let outcome = self.server.handler.handle(&req, &self.client_addr);
        let race: RaceOutcome<TestResponse> = match outcome {
            HandlerOutcome::Responds(resp) => RaceOutcome::Completed(Ok(resp)),
            HandlerOutcome::NeverCompletes => RaceOutcome::TimerElapsed,
        };
        self.server.run_request(race)
    }
}

} // verus!

