//! The session and the decisions of one query: when to refresh the token and retry, which
//! session changes a response directs, and what the query returns.
use vstd::prelude::*;
use crate::error::FireboltError;
use crate::headers::{
    ResponseHeaders, ResponseHeadersView, apply_headers, ensure_trailing_slash, headers_outcome,
    with_trailing_slash,
};
use crate::json::json_document;
use crate::params::Parameters;
use crate::parser::{parse_response, parse_server_error, response_of};
use crate::result::{ResultSet, ResultSetView};
use crate::text::{join, owned};

verus! {

/// A session with the service: credentials, token, engine URL and session parameters.
#[derive(Debug)]
pub struct FireboltClient {
    client_id: String,
    client_secret: String,
    token: String,
    parameters: Parameters,
    engine_url: String,
    api_endpoint: String,
}

/// The mathematical form of a session.
pub struct SessionView {
    pub client_id: Seq<char>,
    pub client_secret: Seq<char>,
    pub token: Seq<char>,
    pub parameters: Map<Seq<char>, Seq<char>>,
    pub engine_url: Seq<char>,
    pub api_endpoint: Seq<char>,
}

impl View for FireboltClient {
    type V = SessionView;

    closed spec fn view(&self) -> SessionView {
        SessionView {
            client_id: self.client_id@,
            client_secret: self.client_secret@,
            token: self.token@,
            parameters: self.parameters@,
            engine_url: self.engine_url@,
            api_endpoint: self.api_endpoint@,
        }
    }
}

/// The kind of a `FireboltError`.
pub enum ErrorKind {
    Authentication,
    Network,
    Query,
    Serialization,
    Configuration,
    HeaderParsing,
    Unknown,
}

pub open spec fn kind_of(e: FireboltError) -> ErrorKind {
    match e {
        FireboltError::Authentication(_) => ErrorKind::Authentication,
        FireboltError::Network(_) => ErrorKind::Network,
        FireboltError::Query(_) => ErrorKind::Query,
        FireboltError::Serialization(_) => ErrorKind::Serialization,
        FireboltError::Configuration(_) => ErrorKind::Configuration,
        FireboltError::HeaderParsing(_) => ErrorKind::HeaderParsing,
        FireboltError::Unknown(_) => ErrorKind::Unknown,
    }
}

/// Where a query stands.
#[derive(Debug, Clone, Copy, PartialEq, Eq, Structural)]
pub enum QueryPhase {
    /// A request is out; its status and headers are awaited.
    AwaitingResponse,
    /// The token was refused; a new one is awaited.
    AwaitingToken,
    /// A success status came; the body is awaited.
    AwaitingBody,
    /// A failure status came; the body is awaited.
    AwaitingErrorBody,
    /// The query returned.
    Finished,
}

/// One query in progress: what its request holds, whether a refused token may still be
/// refreshed, and how many requests it has sent.
#[derive(Debug)]
pub struct QueryRun {
    phase: QueryPhase,
    retry_allowed: bool,
    sends: u8,
    url: String,
    sql: String,
    parameters: Parameters,
}

/// The mathematical form of a `QueryRun`.
pub struct RunView {
    pub phase: QueryPhase,
    pub retry_allowed: bool,
    pub sends: nat,
    pub url: Seq<char>,
    pub sql: Seq<char>,
    pub parameters: Map<Seq<char>, Seq<char>>,
}

impl View for QueryRun {
    type V = RunView;

    closed spec fn view(&self) -> RunView {
        RunView {
            phase: self.phase,
            retry_allowed: self.retry_allowed,
            sends: self.sends as nat,
            url: self.url@,
            sql: self.sql@,
            parameters: self.parameters@,
        }
    }
}

impl QueryRun {
    /// The parameters are well formed, a refusal may be retried exactly while one request
    /// has been sent, and a token is awaited only while a retry is allowed.
    pub closed spec fn wf(&self) -> bool {
        &&& self.parameters.wf()
        &&& 1 <= self.sends <= 2
        &&& self.retry_allowed <==> self.sends == 1
        &&& self.phase == QueryPhase::AwaitingToken ==> self.retry_allowed
    }

    /// Where the query stands.
    pub fn phase(&self) -> (r: QueryPhase)
        ensures
            r == self@.phase,
    {
        self.phase
    }

    /// The number of requests sent so far.
    pub fn sends(&self) -> (r: u8)
        ensures
            r as nat == self@.sends,
    {
        self.sends
    }
}

/// A request to send: the SQL text as body, posted to `url` with `parameters` as query string
/// and `token` as bearer credential.
#[derive(Debug)]
pub struct QueryRequest {
    pub url: String,
    pub sql: String,
    pub parameters: Parameters,
    pub token: String,
}

/// The value of an `Authorization` header that presents `token` as bearer credential.
pub fn bearer_credential(token: &str) -> (r: String)
    ensures
        r@ == "Bearer "@ + token@,
{
    join("Bearer ", token)
}

impl QueryRequest {
    /// The value of the request's `Authorization` header.
    pub fn authorization(&self) -> (r: String)
        ensures
            r@ == "Bearer "@ + self.token@,
    {
        bearer_credential(self.token.as_str())
    }
}

/// The mathematical form of a `QueryRequest`.
pub struct RequestView {
    pub url: Seq<char>,
    pub sql: Seq<char>,
    pub parameters: Map<Seq<char>, Seq<char>>,
    pub token: Seq<char>,
}

impl View for QueryRequest {
    type V = RequestView;

    open spec fn view(&self) -> RequestView {
        RequestView {
            url: self.url@,
            sql: self.sql@,
            parameters: self.parameters@,
            token: self.token@,
        }
    }
}

/// What the caller reports back after carrying out an action.
#[derive(Debug)]
pub enum QueryEvent {
    /// The request could not be sent or its response not received.
    SendFailed(String),
    /// A response came, with its status code and session headers.
    Responded(u16, ResponseHeaders),
    /// The body was read, or reading it failed with a message.
    BodyRead(Result<String, String>),
    /// The authenticator gave a new token, or failed with a message.
    Authenticated(Result<String, String>),
}

/// The mathematical form of a `QueryEvent`.
pub enum EventView {
    SendFailed(Seq<char>),
    Responded(u16, ResponseHeadersView),
    BodyRead(Result<Seq<char>, Seq<char>>),
    Authenticated(Result<Seq<char>, Seq<char>>),
}

pub open spec fn text_result_view(r: Result<String, String>) -> Result<Seq<char>, Seq<char>> {
    match r {
        Ok(s) => Ok(s@),
        Err(m) => Err(m@),
    }
}

impl View for QueryEvent {
    type V = EventView;

    open spec fn view(&self) -> EventView {
        match self {
            QueryEvent::SendFailed(m) => EventView::SendFailed(m@),
            QueryEvent::Responded(status, h) => EventView::Responded(*status, h@),
            QueryEvent::BodyRead(b) => EventView::BodyRead(text_result_view(*b)),
            QueryEvent::Authenticated(t) => EventView::Authenticated(text_result_view(*t)),
        }
    }
}

/// What the caller is to do next.
#[derive(Debug)]
pub enum QueryAction {
    /// Send this request and report `Responded` or `SendFailed`.
    Send(QueryRequest),
    /// Ask the authenticator for a token with these credentials and endpoint and report
    /// `Authenticated`.
    Authenticate { client_id: String, client_secret: String, api_endpoint: String },
    /// Read the body of the response and report `BodyRead`.
    ReadBody,
    /// The query returns this.
    Finish(Result<ResultSet, FireboltError>),
}

/// The mathematical form of a `QueryAction`.
pub enum ActionView {
    Send(RequestView),
    Authenticate(Seq<char>, Seq<char>, Seq<char>),
    ReadBody,
    Finish(Result<ResultSetView, ErrorKind>),
}

impl View for QueryAction {
    type V = ActionView;

    open spec fn view(&self) -> ActionView {
        match self {
            QueryAction::Send(req) => ActionView::Send(req@),
            QueryAction::Authenticate { client_id, client_secret, api_endpoint } => ActionView::Authenticate(
                client_id@,
                client_secret@,
                api_endpoint@,
            ),
            QueryAction::ReadBody => ActionView::ReadBody,
            QueryAction::Finish(Ok(rs)) => ActionView::Finish(Ok(rs@)),
            QueryAction::Finish(Err(e)) => ActionView::Finish(Err(kind_of(*e))),
        }
    }
}

/// What a success body decodes to: a serialization error where it is no JSON, a query error
/// where its structure is wrong, else the result set.
pub open spec fn body_outcome(body: Seq<char>) -> Result<ResultSetView, ErrorKind> {
    match json_document(body) {
        None => Err(ErrorKind::Serialization),
        Some(doc) => match response_of(doc) {
            Some(rs) => Ok(rs),
            None => Err(ErrorKind::Query),
        },
    }
}

/// The run and first request of a query of `sql` on session `s`: posted to the engine URL
/// with a trailing slash, with the session parameters and `output_format=JSON_Compact`.
pub open spec fn start_run(s: SessionView, sql: Seq<char>) -> RunView {
    RunView {
        phase: QueryPhase::AwaitingResponse,
        retry_allowed: true,
        sends: 1,
        url: with_trailing_slash(s.engine_url),
        sql,
        parameters: s.parameters.insert("output_format"@, "JSON_Compact"@),
    }
}

pub open spec fn request_of(run: RunView, token: Seq<char>) -> RequestView {
    RequestView { url: run.url, sql: run.sql, parameters: run.parameters, token }
}

pub open spec fn finished(run: RunView) -> RunView {
    RunView { phase: QueryPhase::Finished, ..run }
}

pub open spec fn is_success(status: u16) -> bool {
    200 <= status <= 299
}

/// One step of a query: from session `s`, run `run` and event `e` to the next session, run
/// and action. A refused token is refreshed and the request sent again once; a second refusal
/// fails. Session headers are applied on a success status only, before the body is read.
pub open spec fn step_spec(s: SessionView, run: RunView, e: EventView) -> (SessionView, RunView, ActionView) {
    let unexpected = (s, finished(run), ActionView::Finish(Err(ErrorKind::Unknown)));
    match run.phase {
        QueryPhase::AwaitingResponse => match e {
            EventView::SendFailed(_) => (s, finished(run), ActionView::Finish(Err(ErrorKind::Network))),
            EventView::Responded(status, h) => if status == 401 {
                if run.retry_allowed {
                    (
                        s,
                        RunView { phase: QueryPhase::AwaitingToken, ..run },
                        ActionView::Authenticate(s.client_id, s.client_secret, s.api_endpoint),
                    )
                } else {
                    (s, finished(run), ActionView::Finish(Err(ErrorKind::Authentication)))
                }
            } else if is_success(status) {
                let (url, params, ok) = headers_outcome(s.engine_url, s.parameters, h);
                let s2 = SessionView { engine_url: url, parameters: params, ..s };
                if ok {
                    (s2, RunView { phase: QueryPhase::AwaitingBody, ..run }, ActionView::ReadBody)
                } else {
                    (s2, finished(run), ActionView::Finish(Err(ErrorKind::HeaderParsing)))
                }
            } else {
                (s, RunView { phase: QueryPhase::AwaitingErrorBody, ..run }, ActionView::ReadBody)
            },
            _ => unexpected,
        },
        QueryPhase::AwaitingToken => match e {
            EventView::Authenticated(Ok(t)) => (
                SessionView { token: t, ..s },
                RunView {
                    phase: QueryPhase::AwaitingResponse,
                    retry_allowed: false,
                    sends: run.sends + 1,
                    ..run
                },
                ActionView::Send(request_of(run, t)),
            ),
            EventView::Authenticated(Err(_)) => (
                s,
                finished(run),
                ActionView::Finish(Err(ErrorKind::Authentication)),
            ),
            _ => unexpected,
        },
        QueryPhase::AwaitingBody => match e {
            EventView::BodyRead(Ok(b)) => (s, finished(run), ActionView::Finish(body_outcome(b))),
            EventView::BodyRead(Err(_)) => (s, finished(run), ActionView::Finish(Err(ErrorKind::Network))),
            _ => unexpected,
        },
        QueryPhase::AwaitingErrorBody => match e {
            EventView::BodyRead(Ok(_)) => (s, finished(run), ActionView::Finish(Err(ErrorKind::Query))),
            EventView::BodyRead(Err(_)) => (s, finished(run), ActionView::Finish(Err(ErrorKind::Network))),
            _ => unexpected,
        },
        QueryPhase::Finished => unexpected,
    }
}

/// The message of the error that a step ends a query with, where it does not come from
/// decoding a success body: a failure status gives `Server error: ` and the body, a failed
/// token refresh carries the authenticator's message, a failed send or read the transport's.
pub open spec fn finish_message(run: RunView, e: EventView) -> Option<Seq<char>> {
    match run.phase {
        QueryPhase::AwaitingResponse => match e {
            EventView::SendFailed(m) => Some("Request failed: "@ + m),
            EventView::Responded(status, _) => if status == 401 {
                Some("Authentication failed after token refresh"@)
            } else if is_success(status) {
                Some("Invalid session header"@)
            } else {
                None
            },
            _ => Some("Unexpected event"@),
        },
        QueryPhase::AwaitingToken => match e {
            EventView::Authenticated(Err(m)) => Some("Token refresh failed: "@ + m),
            EventView::Authenticated(Ok(_)) => None,
            _ => Some("Unexpected event"@),
        },
        QueryPhase::AwaitingBody => match e {
            EventView::BodyRead(Err(m)) => Some("Failed to read response: "@ + m),
            EventView::BodyRead(Ok(b)) => if json_document(b) is None {
                Some("Failed to parse JSON"@)
            } else {
                None
            },
            _ => Some("Unexpected event"@),
        },
        QueryPhase::AwaitingErrorBody => match e {
            EventView::BodyRead(Err(m)) => Some("Failed to read error response: "@ + m),
            EventView::BodyRead(Ok(b)) => Some("Server error: "@ + b),
            _ => Some("Unexpected event"@),
        },
        QueryPhase::Finished => Some("The query has finished"@),
    }
}

impl FireboltClient {
    /// The parameters are well formed.
    pub closed spec fn wf(&self) -> bool {
        self.parameters.wf()
    }

    /// A session with no parameters.
    pub fn new(
        client_id: String,
        client_secret: String,
        token: String,
        engine_url: String,
        api_endpoint: String,
    ) -> (r: FireboltClient)
        ensures
            r.wf(),
            r@ == (SessionView {
                client_id: client_id@,
                client_secret: client_secret@,
                token: token@,
                parameters: Map::empty(),
                engine_url: engine_url@,
                api_endpoint: api_endpoint@,
            }),
    {
        FireboltClient {
            client_id,
            client_secret,
            token,
            parameters: Parameters::new(),
            engine_url,
            api_endpoint,
        }
    }

    pub fn client_id(&self) -> (r: &str)
        ensures
            r@ == self@.client_id,
    {
        self.client_id.as_str()
    }

    pub fn client_secret(&self) -> (r: &str)
        ensures
            r@ == self@.client_secret,
    {
        self.client_secret.as_str()
    }

    pub fn api_endpoint(&self) -> (r: &str)
        ensures
            r@ == self@.api_endpoint,
    {
        self.api_endpoint.as_str()
    }

    pub fn engine_url(&self) -> (r: &str)
        ensures
            r@ == self@.engine_url,
    {
        self.engine_url.as_str()
    }

    pub fn token(&self) -> (r: &str)
        ensures
            r@ == self@.token,
    {
        self.token.as_str()
    }

    pub fn parameters(&self) -> (r: &Parameters)
        requires
            self.wf(),
        ensures
            r.wf(),
            r@ == self@.parameters,
    {
        &self.parameters
    }

    pub fn set_token(&mut self, token: String)
        requires
            old(self).wf(),
        ensures
            final(self).wf(),
            final(self)@ == (SessionView { token: token@, ..old(self)@ }),
    {
        self.token = token;
    }

    /// A builder for a session.
    pub fn builder() -> (r: crate::factory::FireboltClientFactory)
        ensures
            r@ == crate::factory::empty_factory(),
    {
        crate::factory::FireboltClientFactory::new()
    }

    /// Applies the session changes of a success response's headers: see `headers_outcome`.
    /// A malformed header fails with a header parsing error, and the changes made before it
    /// stay.
    pub fn process_response_headers(&mut self, headers: &ResponseHeaders) -> (r: Result<(), FireboltError>)
        requires
            old(self).wf(),
        ensures
            final(self).wf(),
            ({
                let (url, params, ok) = headers_outcome(
                    old(self)@.engine_url,
                    old(self)@.parameters,
                    headers@,
                );
                &&& final(self)@ == (SessionView { engine_url: url, parameters: params, ..old(self)@ })
                &&& (r is Ok <==> ok)
                &&& (r matches Err(e) ==> e is HeaderParsing && e.text()@ == "Invalid session header"@)
            }),
    {
        if apply_headers(&mut self.engine_url, &mut self.parameters, headers) {
            Ok(())
        } else {
            Err(FireboltError::HeaderParsing(String::from_str("Invalid session header")))
        }
    }

    /// Starts a query of `sql`: the run to drive with `step`, and the first request to send.
    pub fn query(&self, sql: &str) -> (r: (QueryRun, QueryRequest))
        requires
            self.wf(),
        ensures
            r.0.wf(),
            r.0@ == start_run(self@, sql@),
            r.1@ == request_of(start_run(self@, sql@), self@.token),
    {
        let url = ensure_trailing_slash(self.engine_url.as_str());
        let mut params = self.parameters.duplicate();
        params.insert(owned("output_format"), owned("JSON_Compact"));
        let request = QueryRequest {
            url: url.clone(),
            sql: owned(sql),
            parameters: params.duplicate(),
            token: self.token.clone(),
        };
        let run = QueryRun {
            phase: QueryPhase::AwaitingResponse,
            retry_allowed: true,
            sends: 1,
            url,
            sql: owned(sql),
            parameters: params,
        };
        (run, request)
    }

    /// Takes one step of a query: see `step_spec`.
    pub fn step(&mut self, run: &mut QueryRun, event: QueryEvent) -> (r: QueryAction)
        requires
            old(self).wf(),
            old(run).wf(),
        ensures
            final(self).wf(),
            final(run).wf(),
            (final(self)@, final(run)@, r@) == step_spec(old(self)@, old(run)@, event@),
            r matches QueryAction::Finish(Err(err)) ==> (finish_message(old(run)@, event@) matches Some(
                m,
            ) ==> err.text()@ == m),
    {
        let ghost e = event@;
        let phase = run.phase;
        run.phase = QueryPhase::Finished;
        match phase {
            QueryPhase::AwaitingResponse => match event {
                QueryEvent::SendFailed(m) => {
                    QueryAction::Finish(Err(FireboltError::Network(join("Request failed: ", m.as_str()))))
                },
                QueryEvent::Responded(status, headers) => {
                    if status == 401 {
                        if run.retry_allowed {
                            run.phase = QueryPhase::AwaitingToken;
                            QueryAction::Authenticate {
                                client_id: self.client_id.clone(),
                                client_secret: self.client_secret.clone(),
                                api_endpoint: self.api_endpoint.clone(),
                            }
                        } else {
                            QueryAction::Finish(
                                Err(
                                    FireboltError::Authentication(
                                        String::from_str("Authentication failed after token refresh"),
                                    ),
                                ),
                            )
                        }
                    } else if 200 <= status && status <= 299 {
                        match self.process_response_headers(&headers) {
                            Ok(()) => {
                                run.phase = QueryPhase::AwaitingBody;
                                QueryAction::ReadBody
                            },
                            Err(err) => QueryAction::Finish(Err(err)),
                        }
                    } else {
                        run.phase = QueryPhase::AwaitingErrorBody;
                        QueryAction::ReadBody
                    }
                },
                _ => QueryAction::Finish(Err(FireboltError::Unknown(String::from_str("Unexpected event")))),
            },
            QueryPhase::AwaitingToken => match event {
                QueryEvent::Authenticated(Ok(t)) => {
                    self.token = t.clone();
                    run.phase = QueryPhase::AwaitingResponse;
                    run.retry_allowed = false;
                    run.sends = run.sends + 1;
                    QueryAction::Send(
                        QueryRequest {
                            url: run.url.clone(),
                            sql: run.sql.clone(),
                            parameters: run.parameters.duplicate(),
                            token: t,
                        },
                    )
                },
                QueryEvent::Authenticated(Err(m)) => QueryAction::Finish(
                    Err(FireboltError::Authentication(join("Token refresh failed: ", m.as_str()))),
                ),
                _ => QueryAction::Finish(Err(FireboltError::Unknown(String::from_str("Unexpected event")))),
            },
            QueryPhase::AwaitingBody => match event {
                QueryEvent::BodyRead(Ok(body)) => QueryAction::Finish(parse_response(body)),
                QueryEvent::BodyRead(Err(m)) => QueryAction::Finish(
                    Err(FireboltError::Network(join("Failed to read response: ", m.as_str()))),
                ),
                _ => QueryAction::Finish(Err(FireboltError::Unknown(String::from_str("Unexpected event")))),
            },
            QueryPhase::AwaitingErrorBody => match event {
                QueryEvent::BodyRead(Ok(body)) => QueryAction::Finish(Err(parse_server_error(body))),
                QueryEvent::BodyRead(Err(m)) => QueryAction::Finish(
                    Err(FireboltError::Network(join("Failed to read error response: ", m.as_str()))),
                ),
                _ => QueryAction::Finish(Err(FireboltError::Unknown(String::from_str("Unexpected event")))),
            },
            QueryPhase::Finished => QueryAction::Finish(
                Err(FireboltError::Unknown(String::from_str("The query has finished"))),
            ),
        }
    }
}

/// The bounds that every run of a query keeps: one or two requests sent, a retry allowed
/// exactly while one has been sent, and a token awaited only while a retry is allowed.
pub open spec fn run_bounded(run: RunView) -> bool {
    &&& 1 <= run.sends <= 2
    &&& run.retry_allowed <==> run.sends == 1
    &&& run.phase == QueryPhase::AwaitingToken ==> run.retry_allowed
}

/// No query sends more than two requests: a new run keeps the bounds, and so does each step.
pub proof fn lemma_at_most_two_requests(s: SessionView, sql: Seq<char>, run: RunView, e: EventView)
    requires
        run_bounded(run),
    ensures
        run_bounded(start_run(s, sql)),
        run_bounded(step_spec(s, run, e).1),
        step_spec(s, run, e).2 is Send ==> run.sends == 1 && step_spec(s, run, e).1.sends == 2,
{
}

/// Session headers that change nothing.
pub open spec fn no_headers() -> ResponseHeadersView {
    ResponseHeadersView {
        update_endpoint: crate::headers::HeaderFieldView::Absent,
        update_parameters: crate::headers::HeaderFieldView::Absent,
        reset_session: false,
        remove_parameters: crate::headers::HeaderFieldView::Absent,
    }
}

/// A first request refused with 401 leads to one token request with the session's
/// credentials, then the same request again with the new token; when that one succeeds the
/// query returns the decoded body, and the session holds the new token.
pub proof fn lemma_refresh_then_success(
    s: SessionView,
    sql: Seq<char>,
    h: ResponseHeadersView,
    token: Seq<char>,
    body: Seq<char>,
)
    requires
        token != s.token,
        body_outcome(body) is Ok,
    ensures
        ({
            let run0 = start_run(s, sql);
            let (s1, run1, a1) = step_spec(s, run0, EventView::Responded(401, h));
            let (s2, run2, a2) = step_spec(s1, run1, EventView::Authenticated(Ok(token)));
            let (s3, run3, a3) = step_spec(s2, run2, EventView::Responded(200, no_headers()));
            let (s4, run4, a4) = step_spec(s3, run3, EventView::BodyRead(Ok(body)));
            &&& a1 == ActionView::Authenticate(s.client_id, s.client_secret, s.api_endpoint)
            &&& a2 == ActionView::Send(request_of(run0, token))
            &&& a3 is ReadBody
            &&& a4 == ActionView::Finish(body_outcome(body))
            &&& a4 matches ActionView::Finish(Ok(_))
            &&& s4.token == token && s4.token != s.token
            &&& run4.sends == 2
        }),
{
}

/// A request refused with 401 again after the token refresh fails the query with an
/// authentication error, after two requests in all.
pub proof fn lemma_second_refusal_fails(
    s: SessionView,
    sql: Seq<char>,
    h1: ResponseHeadersView,
    token: Seq<char>,
    h2: ResponseHeadersView,
)
    ensures
        ({
            let run0 = start_run(s, sql);
            let (s1, run1, a1) = step_spec(s, run0, EventView::Responded(401, h1));
            let (s2, run2, a2) = step_spec(s1, run1, EventView::Authenticated(Ok(token)));
            let (s3, run3, a3) = step_spec(s2, run2, EventView::Responded(401, h2));
            &&& a2 is Send
            &&& a3 == ActionView::Finish(Err(ErrorKind::Authentication))
            &&& run3.phase == QueryPhase::Finished
            &&& run3.sends == 2
        }),
{
}

} // verus!
