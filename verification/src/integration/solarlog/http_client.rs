//! The session client of the device.
//!
//! The client holds the session token and the circuit breaker, and decides
//! what is sent to the device and what an answer means. It sends nothing
//! itself: an operation yields a [`Step`], the caller performs it and hands
//! the [`Reply`] to [`HttpClient::resume`], until the operation ends. Many
//! operations may be under way at once; each call of the client is one
//! undivided step.
use super::error::{Error, ErrorModel};
use crate::breaker::CircuitBreaker;
use crate::http::HttpFailure;
use crate::json::{json_model, parse, parsed_json, JsonModel};
use crate::resilience::{breaker_after_failure, succeeded, Attempts, AttemptsModel, Verdict};
use crate::retry::RetryPlan;
use crate::text::{contains, same_text, spec_contains};
use serde_json::Value;
use vstd::prelude::*;
use vstd::string::*;

verus! {

/// What an operation is after.
pub enum Operation {
    /// A session; with `force`, a fresh one even where one is held.
    Login { force: bool },
    /// The answer to a query, within a session.
    Query { query: String },
}

/// Where an operation stands.
pub enum Stage {
    /// The login request is out.
    AwaitLogin,
    /// The query is out, sent with `token`.
    AwaitAnswer { token: String },
    /// Another operation's login is out; this one waits for its end.
    Parked,
    /// A pause of `millis` milliseconds before the next attempt.
    Backoff { millis: u64 },
}

/// An operation under way.
pub struct Call {
    operation: Operation,
    attempts: Attempts,
    stage: Stage,
}

/// What the caller is to do next for an operation.
#[derive(Debug, PartialEq)]
pub enum Step {
    /// `POST /login` with the form fields `u` and `p`; the reply is the
    /// value of the session cookie in the answer, if there is one.
    Login { user: String, password: String },
    /// `POST /getjp` with the `Cookie` header and the body; the reply is
    /// the text of the answer.
    Getjp { cookie: String, body: String },
    /// `POST /logout` with the `Cookie` header.
    Logout { cookie: String },
    /// Wait until a login that is out has come back, then report `Woke`.
    Park,
    /// Wait for `millis` milliseconds, then report `Woke`.
    Sleep { millis: u64 },
}

/// What came of a step.
pub enum Reply {
    /// The session token that the device set, none where it set none, or
    /// the failure of the request.
    Login(Result<Option<String>, HttpFailure>),
    /// The text of the answer, or the failure of the request.
    Getjp(Result<String, HttpFailure>),
    /// The wait is over.
    Woke,
}

/// How far an operation has come.
pub enum Progress {
    /// It goes on: the caller performs the step and resumes the call.
    Pending(Call, Step),
    /// A login ended well: a session is held.
    LoggedIn,
    /// A query ended well: the JSON value that the device answered with.
    Answer(Value),
    /// The operation ended with an error.
    Failed(Error),
}

/// What an operation is after, as a mathematical value.
pub enum OperationModel {
    Login { force: bool },
    Query { query: Seq<char> },
}

/// Where an operation stands, as a mathematical value.
pub enum StageModel {
    AwaitLogin,
    AwaitAnswer { token: Seq<char> },
    Parked,
    Backoff { millis: u64 },
}

/// An operation under way, as mathematical values.
pub struct CallModel {
    pub operation: OperationModel,
    pub attempts: AttemptsModel,
    pub stage: StageModel,
}

/// A step, as a mathematical value.
pub enum StepModel {
    Login { user: Seq<char>, password: Seq<char> },
    Getjp { cookie: Seq<char>, body: Seq<char> },
    Logout { cookie: Seq<char> },
    Park,
    Sleep { millis: u64 },
}

/// What came of a step, as a mathematical value.
pub enum ReplyModel {
    Login(Result<Option<Seq<char>>, HttpFailure>),
    Getjp(Result<Seq<char>, HttpFailure>),
    Woke,
}

/// How far an operation has come, as a mathematical value.
pub enum ProgressModel {
    Pending(CallModel, StepModel),
    LoggedIn,
    Answer(JsonModel),
    Failed(ErrorModel),
}

/// The client, as mathematical values.
pub struct ClientModel {
    pub password: Seq<char>,
    /// The session token, where one is held.
    pub token: Option<Seq<char>>,
    /// A login request is out and has not come back.
    pub login_in_flight: bool,
    pub breaker: CircuitBreaker,
}

impl View for Operation {
    type V = OperationModel;

    open spec fn view(&self) -> OperationModel {
        match self {
            Operation::Login { force } => OperationModel::Login { force: *force },
            Operation::Query { query } => OperationModel::Query { query: query@ },
        }
    }
}

impl View for Stage {
    type V = StageModel;

    open spec fn view(&self) -> StageModel {
        match self {
            Stage::AwaitLogin => StageModel::AwaitLogin,
            Stage::AwaitAnswer { token } => StageModel::AwaitAnswer { token: token@ },
            Stage::Parked => StageModel::Parked,
            Stage::Backoff { millis } => StageModel::Backoff { millis: *millis },
        }
    }
}

impl View for Call {
    type V = CallModel;

    closed spec fn view(&self) -> CallModel {
        CallModel { operation: self.operation@, attempts: self.attempts@, stage: self.stage@ }
    }
}

impl View for Step {
    type V = StepModel;

    open spec fn view(&self) -> StepModel {
        match self {
            Step::Login { user, password } => StepModel::Login {
                user: user@,
                password: password@,
            },
            Step::Getjp { cookie, body } => StepModel::Getjp { cookie: cookie@, body: body@ },
            Step::Logout { cookie } => StepModel::Logout { cookie: cookie@ },
            Step::Park => StepModel::Park,
            Step::Sleep { millis } => StepModel::Sleep { millis: *millis },
        }
    }
}

impl View for Reply {
    type V = ReplyModel;

    open spec fn view(&self) -> ReplyModel {
        match self {
            Reply::Login(Ok(Some(token))) => ReplyModel::Login(Ok(Some(token@))),
            Reply::Login(Ok(None)) => ReplyModel::Login(Ok(None)),
            Reply::Login(Err(failure)) => ReplyModel::Login(Err(*failure)),
            Reply::Getjp(Ok(text)) => ReplyModel::Getjp(Ok(text@)),
            Reply::Getjp(Err(failure)) => ReplyModel::Getjp(Err(*failure)),
            Reply::Woke => ReplyModel::Woke,
        }
    }
}

impl View for Progress {
    type V = ProgressModel;

    open spec fn view(&self) -> ProgressModel {
        match self {
            Progress::Pending(call, step) => ProgressModel::Pending(call@, step@),
            Progress::LoggedIn => ProgressModel::LoggedIn,
            Progress::Answer(value) => ProgressModel::Answer(json_model(*value)),
            Progress::Failed(error) => ProgressModel::Failed(error@),
        }
    }
}

/// The name of the cookie in which the device hands out the session token.
pub const SESSION_COOKIE: &'static str = "SolarLog";

/// The value of the `Cookie` header that carries `token`.
pub open spec fn session_cookie(token: Seq<char>) -> Seq<char> {
    "SolarLog="@ + token
}

/// The body of a query sent with `token`.
pub open spec fn query_body(token: Seq<char>, query: Seq<char>) -> Seq<char> {
    "token="@ + token + ";"@ + query
}

/// What the text of an answer says before it is read as JSON: the device
/// writes one of two markers into it where it does not answer the query.
pub open spec fn answer_error(text: Seq<char>) -> Option<ErrorModel> {
    if spec_contains(text, "QUERY IMPOSSIBLE"@) {
        Some(ErrorModel::QueryImpossible)
    } else if spec_contains(text, "ACCESS DENIED"@) {
        Some(ErrorModel::AccessDenied)
    } else {
        None
    }
}

impl OperationModel {
    /// The query that the operation sends; a login sends none.
    pub open spec fn query(self) -> Seq<char> {
        match self {
            OperationModel::Login { .. } => Seq::empty(),
            OperationModel::Query { query } => query,
        }
    }
}

impl CallModel {
    /// The call's attempts add up, and it pauses just when an attempt is due.
    pub open spec fn wf(self) -> bool {
        &&& self.attempts.wf()
        &&& self.attempts.due == (self.stage is Backoff)
    }
}

impl ClientModel {
    /// The client that was just made: no session, a closed breaker.
    pub open spec fn fresh(password: Seq<char>) -> ClientModel {
        ClientModel {
            password,
            token: None,
            login_in_flight: false,
            breaker: CircuitBreaker {
                state: crate::breaker::BreakerState::Closed { failures: 0 },
                threshold: 5,
                cooldown: 60000,
            },
        }
    }

    /// The login request.
    pub open spec fn login_step(self) -> StepModel {
        StepModel::Login { user: "user"@, password: self.password }
    }

    /// The step that a call waits on.
    pub open spec fn pending_step(self, call: CallModel) -> StepModel {
        match call.stage {
            StageModel::AwaitLogin => self.login_step(),
            StageModel::AwaitAnswer { token } => StepModel::Getjp {
                cookie: session_cookie(token),
                body: query_body(token, call.operation.query()),
            },
            StageModel::Parked => StepModel::Park,
            StageModel::Backoff { millis } => StepModel::Sleep { millis },
        }
    }

    /// The session without `token`, if that is the token held; a token that
    /// another operation has put in its place stays.
    pub open spec fn without_token(self, token: Seq<char>) -> ClientModel {
        if self.token == Some(token) {
            ClientModel { token: None, ..self }
        } else {
            self
        }
    }

    /// An attempt has ended well.
    pub open spec fn succeed(self) -> ClientModel {
        ClientModel { breaker: self.breaker.succeeded(), ..self }
    }

    /// An attempt has ended with `error` at `now`: the breaker counts the
    /// error if it is one to record, and the plan decides between a pause
    /// and the end of the operation.
    pub open spec fn fail(
        self,
        operation: OperationModel,
        attempts: AttemptsModel,
        error: ErrorModel,
        now: u64,
    ) -> (ClientModel, ProgressModel) {
        let client = ClientModel {
            breaker: breaker_after_failure(self.breaker, error.recorded(), now),
            ..self
        };
        match attempts.verdict(error.retryable()) {
            Verdict::Retry { millis } => (
                client,
                ProgressModel::Pending(
                    CallModel {
                        operation,
                        attempts: attempts.after_failure(error.retryable()),
                        stage: StageModel::Backoff { millis },
                    },
                    StepModel::Sleep { millis },
                ),
            ),
            Verdict::Surface => (client, ProgressModel::Failed(error)),
        }
    }

    /// The query goes out with the token held.
    pub open spec fn send_query(self, operation: OperationModel, attempts: AttemptsModel) -> (
        ClientModel,
        ProgressModel,
    )
        recommends
            self.token is Some,
    {
        let token = self.token->0;
        (
            self,
            ProgressModel::Pending(
                CallModel { operation, attempts, stage: StageModel::AwaitAnswer { token } },
                StepModel::Getjp {
                    cookie: session_cookie(token),
                    body: query_body(token, operation.query()),
                },
            ),
        )
    }

    /// Within an attempt: see to it that a session is held, then go on. A
    /// login that asks for no fresh session ends where one is held, and a
    /// query goes out with it. Where none is held, or a fresh one is asked
    /// for, the login request goes out, unless one is out already: then the
    /// operation waits for that one.
    pub open spec fn ensure_session(
        self,
        operation: OperationModel,
        attempts: AttemptsModel,
    ) -> (ClientModel, ProgressModel) {
        let held = self.token is Some;
        if held && operation == (OperationModel::Login { force: false }) {
            (self.succeed(), ProgressModel::LoggedIn)
        } else if held && operation is Query {
            self.send_query(operation, attempts)
        } else if self.login_in_flight {
            (
                self,
                ProgressModel::Pending(
                    CallModel { operation, attempts, stage: StageModel::Parked },
                    StepModel::Park,
                ),
            )
        } else {
            (
                ClientModel { login_in_flight: true, ..self },
                ProgressModel::Pending(
                    CallModel { operation, attempts, stage: StageModel::AwaitLogin },
                    self.login_step(),
                ),
            )
        }
    }

    /// An attempt is due at `now`. Where the breaker rejects it, the
    /// operation ends with `RequestRejected` and nothing is sent.
    pub open spec fn attempt(
        self,
        operation: OperationModel,
        attempts: AttemptsModel,
        now: u64,
    ) -> (ClientModel, ProgressModel) {
        if self.breaker.permits(now) {
            ClientModel { breaker: self.breaker.asked(now), ..self }.ensure_session(
                operation,
                attempts.started(true),
            )
        } else {
            (self, ProgressModel::Failed(ErrorModel::RequestRejected))
        }
    }

    /// The login request has come back.
    pub open spec fn login_replied(
        self,
        operation: OperationModel,
        attempts: AttemptsModel,
        result: Result<Option<Seq<char>>, HttpFailure>,
        now: u64,
    ) -> (ClientModel, ProgressModel) {
        let client = ClientModel { login_in_flight: false, ..self };
        match result {
            Err(failure) => client.fail(
                operation,
                attempts,
                ErrorModel::RequestFailed(failure),
                now,
            ),
            Ok(None) => ClientModel { token: None, ..client }.fail(
                operation,
                attempts,
                ErrorModel::WrongPassword,
                now,
            ),
            Ok(Some(token)) => {
                let client = ClientModel { token: Some(token), ..client };
                if operation is Query {
                    client.send_query(operation, attempts)
                } else {
                    (client.succeed(), ProgressModel::LoggedIn)
                }
            },
        }
    }

    /// The query sent with `token` has come back.
    pub open spec fn query_replied(
        self,
        operation: OperationModel,
        attempts: AttemptsModel,
        token: Seq<char>,
        result: Result<Seq<char>, HttpFailure>,
        now: u64,
    ) -> (ClientModel, ProgressModel) {
        match result {
            Err(failure) => self.fail(operation, attempts, ErrorModel::RequestFailed(failure), now),
            Ok(text) => match answer_error(text) {
                Some(ErrorModel::AccessDenied) => self.without_token(token).fail(
                    operation,
                    attempts,
                    ErrorModel::AccessDenied,
                    now,
                ),
                Some(error) => self.fail(operation, attempts, error, now),
                None => match parsed_json(text) {
                    Some(value) => (self.succeed(), ProgressModel::Answer(value)),
                    None => self.fail(operation, attempts, ErrorModel::ResponseJsonError, now),
                },
            },
        }
    }

    /// A login begins at `now`.
    pub open spec fn login(self, force: bool, plan: Seq<u64>, now: u64) -> (
        ClientModel,
        ProgressModel,
    ) {
        self.attempt(OperationModel::Login { force }, AttemptsModel::fresh(plan), now)
    }

    /// A query begins at `now`.
    pub open spec fn query(self, query: Seq<char>, plan: Seq<u64>, now: u64) -> (
        ClientModel,
        ProgressModel,
    ) {
        self.attempt(OperationModel::Query { query }, AttemptsModel::fresh(plan), now)
    }

    /// A call goes on with the reply to its step, at `now`. A reply that
    /// does not answer the step leaves all as it is, and the step is handed
    /// out again.
    pub open spec fn resume(self, call: CallModel, reply: ReplyModel, now: u64) -> (
        ClientModel,
        ProgressModel,
    ) {
        match (call.stage, reply) {
            (StageModel::AwaitLogin, ReplyModel::Login(result)) => self.login_replied(
                call.operation,
                call.attempts,
                result,
                now,
            ),
            (StageModel::AwaitAnswer { token }, ReplyModel::Getjp(result)) => self.query_replied(
                call.operation,
                call.attempts,
                token,
                result,
                now,
            ),
            (StageModel::Parked, ReplyModel::Woke) => self.ensure_session(
                call.operation,
                call.attempts,
            ),
            (StageModel::Backoff { .. }, ReplyModel::Woke) => self.attempt(
                call.operation,
                call.attempts,
                now,
            ),
            _ => (self, ProgressModel::Pending(call, self.pending_step(call))),
        }
    }

    /// The session ends: the token is given up.
    pub open spec fn logout(self) -> (ClientModel, Option<StepModel>) {
        match self.token {
            Some(token) => (
                ClientModel { token: None, ..self },
                Some(StepModel::Logout { cookie: session_cookie(token) }),
            ),
            None => (self, None),
        }
    }
}

impl ProgressModel {
    /// Where the operation goes on, the call is well formed.
    pub open spec fn wf(self) -> bool {
        self matches ProgressModel::Pending(call, _) ==> call.wf()
    }
}

/// The session client of the device.
pub struct HttpClient {
    password: String,
    token: Option<String>,
    login_in_flight: bool,
    circuit_breaker: CircuitBreaker,
}

impl View for HttpClient {
    type V = ClientModel;

    closed spec fn view(&self) -> ClientModel {
        ClientModel {
            password: self.password@,
            token: match self.token {
                Some(token) => Some(token@),
                None => None,
            },
            login_in_flight: self.login_in_flight,
            breaker: self.circuit_breaker,
        }
    }
}

impl Call {
    /// How many attempts of the operation went out so far.
    pub fn attempts_made(&self) -> (n: usize)
        ensures
            n == self@.attempts.made,
    {
        self.attempts.made()
    }

    /// How many retries the operation's plan held at the start.
    pub fn retries(&self) -> (n: usize)
        ensures
            n == self@.attempts.retries,
    {
        self.attempts.retries()
    }
}

impl Step {
    /// The path of the device that the step posts to; none for a wait.
    pub fn path(&self) -> (path: Option<&'static str>)
        ensures
            path matches Some(p) ==> {
                &&& self is Login ==> p@ == "/login"@
                &&& self is Getjp ==> p@ == "/getjp"@
                &&& self is Logout ==> p@ == "/logout"@
            },
            path is None <==> self is Park || self is Sleep,
    {
        match self {
            Step::Login { .. } => Some("/login"),
            Step::Getjp { .. } => Some("/getjp"),
            Step::Logout { .. } => Some("/logout"),
            Step::Park => None,
            Step::Sleep { .. } => None,
        }
    }
}

impl HttpClient {
    /// Creates a new instance of `HttpClient`: no session is held, and the
    /// breaker is closed.
    pub fn new(password: String) -> (client: HttpClient)
        ensures
            client@ == ClientModel::fresh(password@),
    {
        HttpClient {
            password,
            token: None,
            login_in_flight: false,
            circuit_breaker: Self::circuit_breaker(),
        }
    }

    /// Check if the client is logged in.
    pub fn is_logged_in(&self) -> (r: bool)
        ensures
            r == self@.token is Some,
    {
        self.token.is_some()
    }

    /// Login to the device. With `force`, a fresh session is asked for even
    /// where one is held.
    pub fn login(&mut self, force: bool, plan: RetryPlan, now: u64) -> (progress: Progress)
        ensures
            (final(self)@, progress@) == old(self)@.login(force, plan@, now),
            progress@.wf(),
    {
        self.attempt(Operation::Login { force }, Attempts::new(plan), now)
    }

    /// Query the device, within a session that is opened where none is held.
    pub fn query(&mut self, query: &str, plan: RetryPlan, now: u64) -> (progress: Progress)
        ensures
            (final(self)@, progress@) == old(self)@.query(query@, plan@, now),
            progress@.wf(),
    {
        self.attempt(Operation::Query { query: query.to_owned() }, Attempts::new(plan), now)
    }

    /// Goes on with `call`, whose step came back with `reply` at `now`.
    pub fn resume(&mut self, call: Call, reply: Reply, now: u64) -> (progress: Progress)
        ensures
            (final(self)@, progress@) == old(self)@.resume(call@, reply@, now),
            call@.wf() ==> progress@.wf(),
    {
        let Call { operation, attempts, stage } = call;
        match (stage, reply) {
            (Stage::AwaitLogin, Reply::Login(result)) => self.login_replied(
                operation,
                attempts,
                result,
                now,
            ),
            (Stage::AwaitAnswer { token }, Reply::Getjp(result)) => self.query_replied(
                operation,
                attempts,
                token,
                result,
                now,
            ),
            (Stage::Parked, Reply::Woke) => self.ensure_session(operation, attempts),
            (Stage::Backoff { .. }, Reply::Woke) => self.attempt(operation, attempts, now),
            (stage, _) => {
                let call = Call { operation, attempts, stage };
                let step = self.pending_step(&call);
                Progress::Pending(call, step)
            },
        }
    }

    /// Logs out from the device: the token is given up, and where one was
    /// held the step that tells the device comes back. The step is made
    /// once; its failure is no error of the client.
    pub fn logout(&mut self) -> (step: Option<Step>)
        ensures
            (final(self)@, match step {
                Some(s) => Some(s@),
                None => None,
            }) == old(self)@.logout(),
    {
        match self.token.take() {
            Some(token) => Some(Self::request_logout(token.as_str())),
            None => None,
        }
    }

    /// Whether a logout told the device: a step was made and it came back
    /// with a success.
    pub fn logged_out(sent: &Option<Result<(), HttpFailure>>) -> (r: bool)
        ensures
            r == (*sent matches Some(Ok(_))),
    {
        match sent {
            Some(Ok(_)) => true,
            _ => false,
        }
    }

    /// The logout request for the session `token`.
    pub fn request_logout(token: &str) -> (step: Step)
        ensures
            step@ == (StepModel::Logout { cookie: session_cookie(token@) }),
    {
        Step::Logout { cookie: Self::cookie(token) }
    }

    /// The `Cookie` header value that carries `token`.
    fn cookie(token: &str) -> (cookie: String)
        ensures
            cookie@ == session_cookie(token@),
    {
        let mut cookie = String::from_str("SolarLog=");
        cookie.append(token);
        cookie
    }

    /// The login request.
    fn request_login(&self) -> (step: Step)
        ensures
            step@ == self@.login_step(),
    {
        Step::Login { user: String::from_str("user"), password: self.password.clone() }
    }

    /// The query request, sent with `token`.
    fn request_getjp(token: &str, query: &str) -> (step: Step)
        ensures
            step@ == (StepModel::Getjp {
                cookie: session_cookie(token@),
                body: query_body(token@, query@),
            }),
    {
        let mut body = String::from_str("token=");
        body.append(token);
        body.append(";");
        body.append(query);
        Step::Getjp { cookie: Self::cookie(token), body }
    }

    /// The step that `call` waits on.
    fn pending_step(&self, call: &Call) -> (step: Step)
        ensures
            step@ == self@.pending_step(call@),
    {
        match &call.stage {
            Stage::AwaitLogin => self.request_login(),
            Stage::AwaitAnswer { token } => Self::request_getjp(
                token.as_str(),
                Self::query_of(&call.operation),
            ),
            Stage::Parked => Step::Park,
            Stage::Backoff { millis } => Step::Sleep { millis: *millis },
        }
    }

    /// The query that an operation sends.
    fn query_of(operation: &Operation) -> (query: &str)
        ensures
            query@ == operation@.query(),
    {
        match operation {
            Operation::Login { .. } => {
                proof {
                    reveal_strlit("");
                    assert(""@ =~= Seq::<char>::empty());
                }
                ""
            },
            Operation::Query { query } => query.as_str(),
        }
    }

    /// Looks at the text of an answer for the two markers that the device
    /// writes in place of JSON.
    pub fn validate_query_response(text: &str) -> (r: Result<&str, Error>)
        ensures
            match r {
                Ok(same) => same@ == text@ && answer_error(text@) is None,
                Err(error) => answer_error(text@) == Some(error@),
            },
    {
        if contains(text, "QUERY IMPOSSIBLE") {
            return Err(Error::QueryImpossible);
        }
        if contains(text, "ACCESS DENIED") {
            return Err(Error::AccessDenied);
        }
        Ok(text)
    }

    /// The breaker of the device client: open after five recorded failures
    /// in a row, for sixty seconds.
    fn circuit_breaker() -> (breaker: CircuitBreaker)
        ensures
            breaker == ClientModel::fresh(Seq::empty()).breaker,
    {
        CircuitBreaker::new(5, 60000)
    }

    /// Check if the failure is an HTTP 4xx client error.
    pub fn is_client_error(failure: &HttpFailure) -> (r: bool)
        ensures
            r == failure.client_error(),
    {
        failure.is_client_error()
    }

    /// Whether an error may be mended by another attempt.
    pub fn is_retryable_error(error: &Error) -> (r: bool)
        ensures
            r == error@.retryable(),
    {
        match error {
            Error::RequestFailed(failure) => !failure.is_client_error(),
            Error::AccessDenied => true,
            Error::TokenExpired => true,
            _ => false,
        }
    }

    /// Whether the circuit breaker counts an error.
    pub fn is_recorded_error(error: &Error) -> (r: bool)
        ensures
            r == error@.recorded(),
    {
        match error {
            Error::RequestFailed(failure) => !failure.is_client_error(),
            _ => false,
        }
    }

    /// Clears the token if it is `token`: a token that another operation
    /// has put in its place stays.
    fn clear_token(&mut self, token: &str)
        ensures
            final(self)@ == old(self)@.without_token(token@),
    {
        let same = match &self.token {
            Some(current) => same_text(current.as_str(), token),
            None => false,
        };
        if same {
            self.token = None;
        }
    }

    /// An attempt is due at `now`: the breaker is asked first.
    fn attempt(&mut self, operation: Operation, attempts: Attempts, now: u64) -> (progress:
        Progress)
        ensures
            (final(self)@, progress@) == old(self)@.attempt(operation@, attempts@, now),
            attempts@.wf() && attempts@.due ==> progress@.wf(),
    {
        let mut attempts = attempts;
        if attempts.start_attempt(&mut self.circuit_breaker, now) {
            self.ensure_session(operation, attempts)
        } else {
            Progress::Failed(Error::RequestRejected)
        }
    }

    /// Within an attempt: sees to it that a session is held, then goes on.
    fn ensure_session(&mut self, operation: Operation, attempts: Attempts) -> (progress: Progress)
        ensures
            (final(self)@, progress@) == old(self)@.ensure_session(operation@, attempts@),
            attempts@.wf() && !attempts@.due ==> progress@.wf(),
    {
        let held = self.token.is_some();
        let plain_login = match &operation {
            Operation::Login { force } => !*force,
            Operation::Query { .. } => false,
        };
        let is_query = match &operation {
            Operation::Login { .. } => false,
            Operation::Query { .. } => true,
        };
        if held && plain_login {
            succeeded(&mut self.circuit_breaker);
            Progress::LoggedIn
        } else if held && is_query {
            self.send_query(operation, attempts)
        } else if self.login_in_flight {
            Progress::Pending(Call { operation, attempts, stage: Stage::Parked }, Step::Park)
        } else {
            let step = self.request_login();
            self.login_in_flight = true;
            Progress::Pending(Call { operation, attempts, stage: Stage::AwaitLogin }, step)
        }
    }

    /// The query goes out with the token held.
    fn send_query(&self, operation: Operation, attempts: Attempts) -> (progress: Progress)
        requires
            self@.token is Some,
        ensures
            (self@, progress@) == self@.send_query(operation@, attempts@),
            attempts@.wf() && !attempts@.due ==> progress@.wf(),
    {
        let token = match &self.token {
            Some(token) => token.clone(),
            None => String::new(),
        };
        let step = Self::request_getjp(token.as_str(), Self::query_of(&operation));
        Progress::Pending(Call { operation, attempts, stage: Stage::AwaitAnswer { token } }, step)
    }

    /// An attempt has ended with `error` at `now`.
    fn fail(&mut self, operation: Operation, attempts: Attempts, error: Error, now: u64) -> (progress:
        Progress)
        ensures
            (final(self)@, progress@) == old(self)@.fail(operation@, attempts@, error@, now),
            attempts@.wf() && !attempts@.due ==> progress@.wf(),
    {
        let mut attempts = attempts;
        let retryable = Self::is_retryable_error(&error);
        let recordable = Self::is_recorded_error(&error);
        match attempts.fail(&mut self.circuit_breaker, retryable, recordable, now) {
            Verdict::Retry { millis } => Progress::Pending(
                Call { operation, attempts, stage: Stage::Backoff { millis } },
                Step::Sleep { millis },
            ),
            Verdict::Surface => Progress::Failed(error),
        }
    }

    /// The login request has come back.
    fn login_replied(
        &mut self,
        operation: Operation,
        attempts: Attempts,
        result: Result<Option<String>, HttpFailure>,
        now: u64,
    ) -> (progress: Progress)
        ensures
            (final(self)@, progress@) == old(self)@.login_replied(
                operation@,
                attempts@,
                (Reply::Login(result))@->Login_0,
                now,
            ),
            attempts@.wf() && !attempts@.due ==> progress@.wf(),
    {
        self.login_in_flight = false;
        match result {
            Err(failure) => self.fail(operation, attempts, Error::RequestFailed(failure), now),
            Ok(None) => {
                self.token = None;
                self.fail(operation, attempts, Error::WrongPassword, now)
            },
            Ok(Some(token)) => {
                self.token = Some(token);
                let is_query = match &operation {
                    Operation::Login { .. } => false,
                    Operation::Query { .. } => true,
                };
                if is_query {
                    self.send_query(operation, attempts)
                } else {
                    succeeded(&mut self.circuit_breaker);
                    Progress::LoggedIn
                }
            },
        }
    }

    /// The query sent with `token` has come back.
    fn query_replied(
        &mut self,
        operation: Operation,
        attempts: Attempts,
        token: String,
        result: Result<String, HttpFailure>,
        now: u64,
    ) -> (progress: Progress)
        ensures
            (final(self)@, progress@) == old(self)@.query_replied(
                operation@,
                attempts@,
                token@,
                (Reply::Getjp(result))@->Getjp_0,
                now,
            ),
            attempts@.wf() && !attempts@.due ==> progress@.wf(),
    {
        match result {
            Err(failure) => self.fail(operation, attempts, Error::RequestFailed(failure), now),
            Ok(text) => match Self::validate_query_response(text.as_str()) {
                Err(Error::AccessDenied) => {
                    self.clear_token(token.as_str());
                    self.fail(operation, attempts, Error::AccessDenied, now)
                },
                Err(error) => self.fail(operation, attempts, error, now),
                Ok(text) => match parse(text) {
                    Ok(value) => {
                        succeeded(&mut self.circuit_breaker);
                        Progress::Answer(value)
                    },
                    Err(words) => self.fail(
                        operation,
                        attempts,
                        Error::ResponseJsonError(words),
                        now,
                    ),
                },
            },
        }
    }
}

/// An operation makes at most one attempt more than its plan held retries.
pub proof fn lemma_attempts_bounded(call: CallModel)
    requires
        call.wf(),
    ensures
        call.attempts.made <= 1 + call.attempts.retries,
{
}

/// Every operation begins well formed, and stays so step by step: the bound
/// on its attempts holds as long as it runs. Its aim and the size of its
/// plan never change.
pub proof fn lemma_operation_stays_bounded(
    client: ClientModel,
    call: CallModel,
    reply: ReplyModel,
    query: Seq<char>,
    force: bool,
    plan: Seq<u64>,
    now: u64,
)
    requires
        call.wf(),
    ensures
        client.login(force, plan, now).1.wf(),
        client.query(query, plan, now).1.wf(),
        client.resume(call, reply, now).1.wf(),
        client.resume(call, reply, now).1 matches ProgressModel::Pending(next, _) ==> {
            &&& next.operation == call.operation
            &&& next.attempts.retries == call.attempts.retries
            &&& next.attempts.made <= 1 + call.attempts.retries
        },
        client.query(query, plan, now).1 matches ProgressModel::Pending(next, _) ==> {
            &&& next.attempts.retries == plan.len()
            &&& next.attempts.made <= 1 + plan.len()
        },
{
}

/// A query that fails on the side of the device or of the network (no 4xx)
/// is counted by the breaker. It is tried again after the next pause of the
/// plan, without a new attempt being counted yet, and goes to the caller
/// once the plan is used up.
pub proof fn lemma_server_error_retried_within_plan(
    client: ClientModel,
    call: CallModel,
    failure: HttpFailure,
    now: u64,
)
    requires
        call.stage is AwaitAnswer,
        !failure.client_error(),
    ensures
        ({
            let (after, progress) = client.resume(call, ReplyModel::Getjp(Err(failure)), now);
            let remaining = call.attempts.remaining;
            &&& after.breaker == client.breaker.failed(now)
            &&& remaining.len() == 0 ==> progress == ProgressModel::Failed(
                ErrorModel::RequestFailed(failure),
            )
            &&& remaining.len() > 0 ==> (progress matches ProgressModel::Pending(next, step) && {
                &&& step == (StepModel::Sleep { millis: remaining[0] })
                &&& next.attempts.remaining == remaining.drop_first()
                &&& next.attempts.made == call.attempts.made
            })
        }),
{
}

/// A client error (4xx), a wrong password and a query that the device
/// cannot answer go to the caller at once, whatever the plan still holds,
/// and the breaker is left as it is: its count of failures does not change.
pub proof fn lemma_permanent_errors_surface(
    client: ClientModel,
    operation: OperationModel,
    attempts: AttemptsModel,
    error: ErrorModel,
    now: u64,
)
    requires
        !error.retryable(),
    ensures
        !error.recorded(),
        client.fail(operation, attempts, error, now) == (client, ProgressModel::Failed(error)),
{
}

/// While the breaker is open, an operation that begins, and an attempt that
/// is due after a pause, fail at once with `RequestRejected`: no step is
/// handed out, so nothing is sent, and the client stays as it is.
pub proof fn lemma_open_breaker_rejects(
    client: ClientModel,
    call: CallModel,
    query: Seq<char>,
    force: bool,
    plan: Seq<u64>,
    now: u64,
)
    requires
        !client.breaker.permits(now),
    ensures
        client.login(force, plan, now) == (
            client,
            ProgressModel::Failed(ErrorModel::RequestRejected),
        ),
        client.query(query, plan, now) == (
            client,
            ProgressModel::Failed(ErrorModel::RequestRejected),
        ),
        call.stage is Backoff ==> client.resume(call, ReplyModel::Woke, now) == (
            client,
            ProgressModel::Failed(ErrorModel::RequestRejected),
        ),
{
}

/// Once the clock has passed the cooldown of an open breaker, the next
/// query is let through as a probe: it is not rejected, a step goes out for
/// it, and the breaker is half open.
pub proof fn lemma_probe_after_cooldown(
    client: ClientModel,
    query: Seq<char>,
    plan: Seq<u64>,
    until: u64,
    now: u64,
)
    requires
        client.breaker.state == (crate::breaker::BreakerState::Open { until }),
        now > until,
    ensures
        client.query(query, plan, now).1 is Pending,
        client.query(query, plan, now).0.breaker.state == crate::breaker::BreakerState::HalfOpen,
{
}

/// A query that the device answers with "access denied" heals itself. The
/// token that the query was sent with is cleared, and the error may be
/// retried: after the pause the same query is tried again, which sends
/// exactly one login request first and then, with the token of the new
/// session, the query itself.
pub proof fn lemma_access_denied_heals(
    client: ClientModel,
    call: CallModel,
    token: Seq<char>,
    text: Seq<char>,
    fresh: Seq<char>,
    now: u64,
    later: u64,
    last: u64,
)
    requires
        call.operation is Query,
        call.stage == (StageModel::AwaitAnswer { token }),
        call.attempts.remaining.len() > 0,
        client.token == Some(token),
        !client.login_in_flight,
        !(client.breaker.state is Open),
        spec_contains(text, "ACCESS DENIED"@),
        !spec_contains(text, "QUERY IMPOSSIBLE"@),
    ensures
        ({
            let (denied, paused) = client.resume(call, ReplyModel::Getjp(Ok(text)), now);
            &&& denied.token is None
            &&& paused matches ProgressModel::Pending(sleeping, pause)
            &&& pause == (StepModel::Sleep { millis: call.attempts.remaining[0] })
            &&& ({
                let (asking, login) = denied.resume(sleeping, ReplyModel::Woke, later);
                &&& asking.login_in_flight
                &&& login matches ProgressModel::Pending(waiting, request)
                &&& request == client.login_step()
                &&& ({
                    let (healed, again) = asking.resume(
                        waiting,
                        ReplyModel::Login(Ok(Some(fresh))),
                        last,
                    );
                    &&& healed.token == Some(fresh)
                    &&& !healed.login_in_flight
                    &&& again matches ProgressModel::Pending(_, retried)
                    &&& retried == (StepModel::Getjp {
                        cookie: session_cookie(fresh),
                        body: query_body(fresh, call.operation.query()),
                    })
                })
            })
        }),
{
}

/// A token that another operation has put in place is not cleared by an
/// "access denied" that answers an older token.
pub proof fn lemma_newer_token_stays(
    client: ClientModel,
    call: CallModel,
    token: Seq<char>,
    text: Seq<char>,
    now: u64,
)
    requires
        call.stage == (StageModel::AwaitAnswer { token }),
        client.token is Some,
        client.token != Some(token),
    ensures
        client.resume(call, ReplyModel::Getjp(Ok(text)), now).0.token == client.token,
{
}

/// At most one login request is out at a time: while one is out, no step of
/// any operation is another login request.
pub proof fn lemma_one_login_at_a_time(
    client: ClientModel,
    call: CallModel,
    query: Seq<char>,
    force: bool,
    plan: Seq<u64>,
    now: u64,
)
    requires
        client.login_in_flight,
        !(call.stage is AwaitLogin),
    ensures
        !(client.login(force, plan, now).1 matches ProgressModel::Pending(_, step) && step is Login),
        !(client.query(query, plan, now).1 matches ProgressModel::Pending(_, step) && step is Login),
        forall|reply: ReplyModel|
            !(#[trigger] client.resume(call, reply, now).1 matches ProgressModel::Pending(_, step)
                && step is Login),
{
}

/// How a query runs on when every request for it fails with `failure`: the
/// number of requests that fail from here on, the one that is out counted
/// in, and how the query ends. The clock shows `times[k]` when the request
/// that is out comes back, and `times[k + 1]` when the pause after it is
/// over, and so on.
pub open spec fn failing_run(
    client: ClientModel,
    call: CallModel,
    failure: HttpFailure,
    times: Seq<u64>,
    k: int,
) -> (nat, ProgressModel)
    decreases call.attempts.remaining.len(),
{
    let (failed, paused) = client.resume(call, ReplyModel::Getjp(Err(failure)), times[k]);
    match paused {
        ProgressModel::Pending(sleeping, StepModel::Sleep { .. }) => {
            let (woken, retried) = failed.resume(sleeping, ReplyModel::Woke, times[k + 1]);
            match retried {
                ProgressModel::Pending(again, StepModel::Getjp { .. }) => if again.attempts.remaining.len()
                    < call.attempts.remaining.len() {
                    let (more, end) = failing_run(woken, again, failure, times, k + 2);
                    (1 + more, end)
                } else {
                    (1, retried)
                },
                _ => (1, retried),
            }
        },
        _ => (1, paused),
    }
}

/// A query whose every request fails on the side of the device or of the
/// network (no 4xx) is sent at most once for each retry that its plan still
/// holds, and once more; then the error goes to the caller: the failure
/// itself, or `RequestRejected` where the breaker has opened in between.
pub proof fn lemma_failing_query_is_bounded(
    client: ClientModel,
    call: CallModel,
    failure: HttpFailure,
    times: Seq<u64>,
    k: int,
)
    requires
        call.operation is Query,
        call.stage is AwaitAnswer,
        client.token is Some,
        !failure.client_error(),
    ensures
        failing_run(client, call, failure, times, k).0 <= 1 + call.attempts.remaining.len(),
        failing_run(client, call, failure, times, k).1 == ProgressModel::Failed(
            ErrorModel::RequestFailed(failure),
        ) || failing_run(client, call, failure, times, k).1 == ProgressModel::Failed(
            ErrorModel::RequestRejected,
        ),
    decreases call.attempts.remaining.len(),
{
    let (failed, paused) = client.resume(call, ReplyModel::Getjp(Err(failure)), times[k]);
    if let ProgressModel::Pending(sleeping, StepModel::Sleep { .. }) = paused {
        let (woken, retried) = failed.resume(sleeping, ReplyModel::Woke, times[k + 1]);
        if let ProgressModel::Pending(again, StepModel::Getjp { .. }) = retried {
            assert(again.attempts.remaining == call.attempts.remaining.drop_first());
            lemma_failing_query_is_bounded(woken, again, failure, times, k + 2);
        }
    }
}

/// A query that starts on a plan and whose every request fails is sent at
/// most once more than the plan holds retries.
pub proof fn lemma_retry_bound_of_a_query(
    client: ClientModel,
    query: Seq<char>,
    plan: Seq<u64>,
    failure: HttpFailure,
    times: Seq<u64>,
)
    requires
        client.token is Some,
        !failure.client_error(),
    ensures
        client.query(query, plan, times[0]).1 matches ProgressModel::Pending(call, _) ==> failing_run(
            client.query(query, plan, times[0]).0,
            call,
            failure,
            times,
            1,
        ).0 <= 1 + plan.len(),
{
    let (started, progress) = client.query(query, plan, times[0]);
    if let ProgressModel::Pending(call, _) = progress {
        lemma_failing_query_is_bounded(started, call, failure, times, 1);
    }
}

/// After as many recorded failures in a row as the threshold of the
/// breaker, the next login and the next query fail at once with
/// `RequestRejected`, as long as the clock has not passed the cooldown that
/// began with the last failure: no step is handed out, so nothing is sent.
/// Once the clock has passed it, the next query goes out as a probe.
pub proof fn lemma_rejects_after_threshold(
    client: ClientModel,
    closed: CircuitBreaker,
    times: Seq<u64>,
    query: Seq<char>,
    force: bool,
    plan: Seq<u64>,
    now: u64,
)
    requires
        closed.state == (crate::breaker::BreakerState::Closed { failures: 0 }),
        closed.threshold >= 1,
        times.len() == closed.threshold,
        client.breaker == closed.failed_at_each(times),
    ensures
        now <= crate::breaker::deadline(times.last(), closed.cooldown) ==> {
            &&& client.query(query, plan, now) == (
                client,
                ProgressModel::Failed(ErrorModel::RequestRejected),
            )
            &&& client.login(force, plan, now) == (
                client,
                ProgressModel::Failed(ErrorModel::RequestRejected),
            )
        },
        now > crate::breaker::deadline(times.last(), closed.cooldown) ==> {
            &&& client.query(query, plan, now).1 is Pending
            &&& client.query(query, plan, now).0.breaker.state
                == crate::breaker::BreakerState::HalfOpen
        },
{
    crate::breaker::lemma_opens_at_threshold(closed, times, now);
}

/// A query that the device answers with a client error (4xx) ends at once
/// with that failure, and leaves the client as it was: the token stays, and
/// the breaker keeps its state and its count of failures.
pub proof fn lemma_client_error_changes_nothing(
    client: ClientModel,
    call: CallModel,
    failure: HttpFailure,
    now: u64,
)
    requires
        call.stage is AwaitAnswer,
        failure.client_error(),
    ensures
        client.resume(call, ReplyModel::Getjp(Err(failure)), now) == (
            client,
            ProgressModel::Failed(ErrorModel::RequestFailed(failure)),
        ),
{
}

/// The same where another operation's login is out when the query is
/// retried: the retry sends no login of its own but waits for that one,
/// and once it has brought a token the query goes out with it. Either way
/// one login request stands between the denial and the retried query.
pub proof fn lemma_access_denied_heals_behind_a_login(
    client: ClientModel,
    call: CallModel,
    token: Seq<char>,
    text: Seq<char>,
    fresh: Seq<char>,
    now: u64,
    later: u64,
    last: u64,
)
    requires
        call.operation is Query,
        call.stage == (StageModel::AwaitAnswer { token }),
        call.attempts.remaining.len() > 0,
        client.token == Some(token),
        client.login_in_flight,
        !(client.breaker.state is Open),
        spec_contains(text, "ACCESS DENIED"@),
        !spec_contains(text, "QUERY IMPOSSIBLE"@),
    ensures
        ({
            let (denied, paused) = client.resume(call, ReplyModel::Getjp(Ok(text)), now);
            &&& denied.token is None
            &&& paused matches ProgressModel::Pending(sleeping, pause)
            &&& pause == (StepModel::Sleep { millis: call.attempts.remaining[0] })
            &&& ({
                let (waiting, parked) = denied.resume(sleeping, ReplyModel::Woke, later);
                &&& waiting.login_in_flight
                &&& parked matches ProgressModel::Pending(resting, wait)
                &&& wait == StepModel::Park
                &&& ({
                    let healed = ClientModel {
                        token: Some(fresh),
                        login_in_flight: false,
                        ..waiting
                    };
                    let (after, again) = healed.resume(resting, ReplyModel::Woke, last);
                    &&& after.token == Some(fresh)
                    &&& again matches ProgressModel::Pending(_, retried)
                    &&& retried == (StepModel::Getjp {
                        cookie: session_cookie(fresh),
                        body: query_body(fresh, call.operation.query()),
                    })
                })
            })
        }),
{
}

} // verus!
