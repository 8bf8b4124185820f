//! The publish client of the hub.
//!
//! The client holds the bearer token and the circuit breaker, and decides
//! what is sent to the hub and what an answer means. It sends nothing
//! itself: a publication yields a [`Step`], the caller performs it and hands
//! the [`Reply`] to [`HttpClient::resume`], until the publication ends.
use super::error::{Error, ErrorModel};
use super::schemas::{StateCreateOrUpdate, StateModel};
use crate::breaker::{BreakerState, CircuitBreaker};
use crate::http::HttpFailure;
use crate::json::{serialize, serialized_json};
use crate::resilience::{breaker_after_failure, succeeded, Attempts, AttemptsModel, Verdict};
use crate::retry::RetryPlan;
use vstd::prelude::*;
use vstd::string::*;

verus! {

/// Where a publication stands.
pub enum Stage {
    /// The request is out.
    AwaitPost,
    /// A pause of `millis` milliseconds before the next attempt.
    Backoff { millis: u64 },
}

/// A publication under way.
pub struct Call {
    entity_id: String,
    body: String,
    attempts: Attempts,
    stage: Stage,
}

/// What the caller is to do next for a publication.
#[derive(Debug, PartialEq)]
pub enum Step {
    /// `POST` to `path`, below the address of the hub, with the headers
    /// `Authorization` and `Content-Type` and the body.
    Post { path: String, authorization: String, content_type: String, body: String },
    /// Wait for `millis` milliseconds, then report `Woke`.
    Sleep { millis: u64 },
}

/// What came of a step.
pub enum Reply {
    /// The hub answered with a success, or the request failed.
    Posted(Result<(), HttpFailure>),
    /// The wait is over.
    Woke,
}

/// How far a publication has come.
pub enum Progress {
    /// It goes on: the caller performs the step and resumes the call.
    Pending(Call, Step),
    /// The hub has the state.
    Done,
    /// The publication ended with an error.
    Failed(Error),
}

/// Where a publication stands, as a mathematical value.
pub enum StageModel {
    AwaitPost,
    Backoff { millis: u64 },
}

/// A publication under way, as mathematical values.
pub struct CallModel {
    pub entity_id: Seq<char>,
    pub body: Seq<char>,
    pub attempts: AttemptsModel,
    pub stage: StageModel,
}

/// A step, as a mathematical value.
pub enum StepModel {
    Post { path: Seq<char>, authorization: Seq<char>, content_type: Seq<char>, body: Seq<char> },
    Sleep { millis: u64 },
}

/// How far a publication has come, as a mathematical value.
pub enum ProgressModel {
    Pending(CallModel, StepModel),
    Done,
    Failed(ErrorModel),
}

/// The client, as mathematical values.
pub struct ClientModel {
    /// The bearer token of the hub.
    pub token: Seq<char>,
    pub breaker: CircuitBreaker,
}

impl View for Stage {
    type V = StageModel;

    open spec fn view(&self) -> StageModel {
        match self {
            Stage::AwaitPost => StageModel::AwaitPost,
            Stage::Backoff { millis } => StageModel::Backoff { millis: *millis },
        }
    }
}

impl View for Call {
    type V = CallModel;

    closed spec fn view(&self) -> CallModel {
        CallModel {
            entity_id: self.entity_id@,
            body: self.body@,
            attempts: self.attempts@,
            stage: self.stage@,
        }
    }
}

impl View for Step {
    type V = StepModel;

    open spec fn view(&self) -> StepModel {
        match self {
            Step::Post { path, authorization, content_type, body } => StepModel::Post {
                path: path@,
                authorization: authorization@,
                content_type: content_type@,
                body: body@,
            },
            Step::Sleep { millis } => StepModel::Sleep { millis: *millis },
        }
    }
}

impl View for Progress {
    type V = ProgressModel;

    open spec fn view(&self) -> ProgressModel {
        match self {
            Progress::Pending(call, step) => ProgressModel::Pending(call@, step@),
            Progress::Done => ProgressModel::Done,
            Progress::Failed(error) => ProgressModel::Failed(error@),
        }
    }
}

impl CallModel {
    /// The call's attempts add up, and it pauses just when an attempt is due.
    pub open spec fn wf(self) -> bool {
        &&& self.attempts.wf()
        &&& self.attempts.due == (self.stage is Backoff)
    }
}

impl ProgressModel {
    /// Where the publication goes on, the call is well formed.
    pub open spec fn wf(self) -> bool {
        self matches ProgressModel::Pending(call, _) ==> call.wf()
    }
}

impl ClientModel {
    /// The client that was just made: a closed breaker.
    pub open spec fn fresh(token: Seq<char>) -> ClientModel {
        ClientModel {
            token,
            breaker: CircuitBreaker {
                state: BreakerState::Closed { failures: 0 },
                threshold: 5,
                cooldown: 60000,
            },
        }
    }

    /// The request that publishes `body` as the state of `entity_id`.
    pub open spec fn post_step(self, entity_id: Seq<char>, body: Seq<char>) -> StepModel {
        StepModel::Post {
            path: "api/states/"@ + entity_id,
            authorization: "Bearer "@ + self.token,
            content_type: "application/json"@,
            body,
        }
    }

    /// An attempt is due at `now`. Where the breaker rejects it, the
    /// publication ends with `RequestRejected` and nothing is sent.
    pub open spec fn attempt(
        self,
        entity_id: Seq<char>,
        body: Seq<char>,
        attempts: AttemptsModel,
        now: u64,
    ) -> (ClientModel, ProgressModel) {
        if self.breaker.permits(now) {
            (
                ClientModel { breaker: self.breaker.asked(now), ..self },
                ProgressModel::Pending(
                    CallModel {
                        entity_id,
                        body,
                        attempts: attempts.started(true),
                        stage: StageModel::AwaitPost,
                    },
                    self.post_step(entity_id, body),
                ),
            )
        } else {
            (self, ProgressModel::Failed(ErrorModel::RequestRejected))
        }
    }

    /// The request has come back at `now`.
    pub open spec fn posted(self, call: CallModel, result: Result<(), HttpFailure>, now: u64) -> (
        ClientModel,
        ProgressModel,
    ) {
        match result {
            Ok(_) => (ClientModel { breaker: self.breaker.succeeded(), ..self }, ProgressModel::Done),
            Err(failure) => {
                let error = ErrorModel::RequestFailed(failure);
                let client = ClientModel {
                    breaker: breaker_after_failure(self.breaker, error.recorded(), now),
                    ..self
                };
                match call.attempts.verdict(error.retryable()) {
                    Verdict::Retry { millis } => (
                        client,
                        ProgressModel::Pending(
                            CallModel {
                                attempts: call.attempts.after_failure(error.retryable()),
                                stage: StageModel::Backoff { millis },
                                ..call
                            },
                            StepModel::Sleep { millis },
                        ),
                    ),
                    Verdict::Surface => (client, ProgressModel::Failed(error)),
                }
            },
        }
    }

    /// A publication of `state` for `entity_id` begins at `now`, with the
    /// state written as JSON.
    pub open spec fn set_state(
        self,
        entity_id: Seq<char>,
        state: StateModel,
        plan: Seq<u64>,
        now: u64,
    ) -> (ClientModel, ProgressModel) {
        self.attempt(entity_id, serialized_json(state.json()), AttemptsModel::fresh(plan), now)
    }

    /// A call goes on with the reply to its step, at `now`. A reply that
    /// does not answer the step leaves all as it is, and the step is handed
    /// out again.
    pub open spec fn resume(self, call: CallModel, posted: Option<Result<(), HttpFailure>>, now: u64) -> (
        ClientModel,
        ProgressModel,
    ) {
        match (call.stage, posted) {
            (StageModel::AwaitPost, Some(result)) => self.posted(call, result, now),
            (StageModel::Backoff { .. }, None) => self.attempt(
                call.entity_id,
                call.body,
                call.attempts,
                now,
            ),
            (StageModel::AwaitPost, None) => (
                self,
                ProgressModel::Pending(call, self.post_step(call.entity_id, call.body)),
            ),
            (StageModel::Backoff { millis }, Some(_)) => (
                self,
                ProgressModel::Pending(call, StepModel::Sleep { millis }),
            ),
        }
    }
}

impl Reply {
    /// What the reply reports: the end of a request, or none for the end of
    /// a wait.
    pub open spec fn posted(self) -> Option<Result<(), HttpFailure>> {
        match self {
            Reply::Posted(result) => Some(result),
            Reply::Woke => None,
        }
    }
}

/// The publish client of the hub.
pub struct HttpClient {
    token: String,
    circuit_breaker: CircuitBreaker,
}

impl View for HttpClient {
    type V = ClientModel;

    closed spec fn view(&self) -> ClientModel {
        ClientModel { token: self.token@, breaker: self.circuit_breaker }
    }
}

impl Call {
    /// How many attempts of the publication went out so far.
    pub fn attempts_made(&self) -> (n: usize)
        ensures
            n == self@.attempts.made,
    {
        self.attempts.made()
    }

    /// How many retries the publication's plan held at the start.
    pub fn retries(&self) -> (n: usize)
        ensures
            n == self@.attempts.retries,
    {
        self.attempts.retries()
    }
}

impl HttpClient {
    /// Creates a new instance of `HttpClient`, with a closed breaker.
    pub fn new(token: String) -> (client: HttpClient)
        ensures
            client@ == ClientModel::fresh(token@),
    {
        HttpClient { token, circuit_breaker: Self::circuit_breaker() }
    }

    /// Creates or updates a state in the hub.
    pub fn set_state(
        &mut self,
        entity_id: &str,
        state: &StateCreateOrUpdate,
        plan: RetryPlan,
        now: u64,
    ) -> (progress: Progress)
        ensures
            (final(self)@, progress@) == old(self)@.set_state(entity_id@, state@, plan@, now),
            progress@.wf(),
    {
        match serialize(&state.to_json()) {
            Ok(body) => self.attempt(entity_id.to_owned(), body, Attempts::new(plan), now),
            Err(words) => Progress::Failed(Error::JsonSerializationFailed(words)),
        }
    }

    /// Goes on with `call`, whose step came back with `reply` at `now`.
    pub fn resume(&mut self, call: Call, reply: Reply, now: u64) -> (progress: Progress)
        ensures
            (final(self)@, progress@) == old(self)@.resume(call@, reply.posted(), now),
            call@.wf() ==> progress@.wf(),
    {
        let Call { entity_id, body, attempts, stage } = call;
        match (stage, reply) {
            (Stage::AwaitPost, Reply::Posted(Ok(_))) => {
                succeeded(&mut self.circuit_breaker);
                Progress::Done
            },
            (Stage::AwaitPost, Reply::Posted(Err(failure))) => {
                let mut attempts = attempts;
                let error = Error::RequestFailed(failure);
                let retryable = Self::is_retryable_error(&error);
                let recordable = Self::is_recorded_error(&error);
                match attempts.fail(&mut self.circuit_breaker, retryable, recordable, now) {
                    Verdict::Retry { millis } => Progress::Pending(
                        Call { entity_id, body, attempts, stage: Stage::Backoff { millis } },
                        Step::Sleep { millis },
                    ),
                    Verdict::Surface => Progress::Failed(error),
                }
            },
            (Stage::Backoff { .. }, Reply::Woke) => self.attempt(entity_id, body, attempts, now),
            (Stage::AwaitPost, Reply::Woke) => {
                let step = self.request_post_state(entity_id.as_str(), body.as_str());
                Progress::Pending(Call { entity_id, body, attempts, stage: Stage::AwaitPost }, step)
            },
            (Stage::Backoff { millis }, Reply::Posted(_)) => Progress::Pending(
                Call { entity_id, body, attempts, stage: Stage::Backoff { millis } },
                Step::Sleep { millis },
            ),
        }
    }

    /// An attempt is due at `now`: the breaker is asked first.
    fn attempt(&mut self, entity_id: String, body: String, attempts: Attempts, now: u64) -> (progress:
        Progress)
        ensures
            (final(self)@, progress@) == old(self)@.attempt(entity_id@, body@, attempts@, now),
            attempts@.wf() && attempts@.due ==> progress@.wf(),
    {
        let mut attempts = attempts;
        if attempts.start_attempt(&mut self.circuit_breaker, now) {
            let step = self.request_post_state(entity_id.as_str(), body.as_str());
            Progress::Pending(Call { entity_id, body, attempts, stage: Stage::AwaitPost }, step)
        } else {
            Progress::Failed(Error::RequestRejected)
        }
    }

    /// The request that publishes `body` as the state of `entity_id`.
    fn request_post_state(&self, entity_id: &str, body: &str) -> (step: Step)
        ensures
            step@ == self@.post_step(entity_id@, body@),
    {
        let mut path = String::from_str("api/states/");
        path.append(entity_id);
        let mut authorization = String::from_str("Bearer ");
        authorization.append(self.token.as_str());
        Step::Post {
            path,
            authorization,
            content_type: String::from_str("application/json"),
            body: body.to_owned(),
        }
    }

    /// The breaker of the hub client: open after five recorded failures in
    /// a row, for sixty seconds.
    fn circuit_breaker() -> (breaker: CircuitBreaker)
        ensures
            breaker == ClientModel::fresh(Seq::empty()).breaker,
    {
        CircuitBreaker::new(5, 60000)
    }

    /// Check if the failure is an HTTP 4xx client error.
    pub fn is_client_error(failure: &HttpFailure) -> (r: bool)
        ensures
            r == failure.client_error(),
    {
        failure.is_client_error()
    }

    /// Whether an error may be mended by another attempt.
    pub fn is_retryable_error(error: &Error) -> (r: bool)
        ensures
            r == error@.retryable(),
    {
        match error {
            Error::RequestFailed(failure) => !failure.is_client_error(),
            Error::RequestRejected => false,
            Error::JsonSerializationFailed(_) => false,
        }
    }

    /// Whether the circuit breaker counts an error.
    pub fn is_recorded_error(error: &Error) -> (r: bool)
        ensures
            r == error@.recorded(),
    {
        match error {
            Error::RequestFailed(failure) => !failure.is_client_error(),
            Error::RequestRejected => false,
            Error::JsonSerializationFailed(_) => false,
        }
    }
}

/// A publication makes at most one attempt more than its plan held retries,
/// from its first step to its last.
pub proof fn lemma_publication_stays_bounded(
    client: ClientModel,
    call: CallModel,
    posted: Option<Result<(), HttpFailure>>,
    entity_id: Seq<char>,
    state: StateModel,
    plan: Seq<u64>,
    now: u64,
)
    requires
        call.wf(),
    ensures
        call.attempts.made <= 1 + call.attempts.retries,
        client.set_state(entity_id, state, plan, now).1.wf(),
        client.set_state(entity_id, state, plan, now).1 matches ProgressModel::Pending(next, _) ==> {
            &&& next.attempts.retries == plan.len()
            &&& next.attempts.made <= 1 + plan.len()
        },
        client.resume(call, posted, now).1.wf(),
        client.resume(call, posted, now).1 matches ProgressModel::Pending(next, _) ==> {
            &&& next.entity_id == call.entity_id
            &&& next.body == call.body
            &&& next.attempts.retries == call.attempts.retries
            &&& next.attempts.made <= 1 + call.attempts.retries
        },
{
}

/// A failure on the side of the hub or of the network (no 4xx) is counted
/// by the breaker and tried again after the next pause of the plan; once
/// the plan is used up it goes to the caller. A client error goes to the
/// caller at once, and the breaker is left as it is: its count of failures
/// does not change.
pub proof fn lemma_failure_handling(
    client: ClientModel,
    call: CallModel,
    failure: HttpFailure,
    now: u64,
)
    requires
        call.stage is AwaitPost,
    ensures
        ({
            let (after, progress) = client.resume(call, Some(Err(failure)), now);
            let remaining = call.attempts.remaining;
            let error = ErrorModel::RequestFailed(failure);
            &&& failure.client_error() ==> progress == ProgressModel::Failed(error) && after
                == client
            &&& !failure.client_error() ==> after.breaker == client.breaker.failed(now)
            &&& !failure.client_error() && remaining.len() == 0 ==> progress
                == ProgressModel::Failed(error)
            &&& !failure.client_error() && remaining.len() > 0 ==> (progress matches ProgressModel::Pending(
                next,
                step,
            ) && {
                &&& step == (StepModel::Sleep { millis: remaining[0] })
                &&& next.attempts.remaining == remaining.drop_first()
                &&& next.attempts.made == call.attempts.made
            })
        }),
{
}

/// While the breaker is open, a publication that begins, and an attempt
/// that is due after a pause, fail at once with `RequestRejected`: no step
/// is handed out, so nothing is sent. Once the clock has passed the
/// cooldown, the next publication goes out as a probe.
pub proof fn lemma_breaker_guards_hub(
    client: ClientModel,
    call: CallModel,
    entity_id: Seq<char>,
    state: StateModel,
    plan: Seq<u64>,
    now: u64,
)
    ensures
        !client.breaker.permits(now) ==> client.set_state(entity_id, state, plan, now) == (
            client,
            ProgressModel::Failed(ErrorModel::RequestRejected),
        ),
        !client.breaker.permits(now) && call.stage is Backoff ==> client.resume(call, None, now)
            == (client, ProgressModel::Failed(ErrorModel::RequestRejected)),
        client.breaker.permits(now) ==> client.set_state(entity_id, state, plan, now).1
            is Pending,
        client.breaker.state is Open && client.breaker.permits(now) ==> client.set_state(
            entity_id,
            state,
            plan,
            now,
        ).0.breaker.state == BreakerState::HalfOpen,
{
}

/// How a publication runs on when every request for it fails with
/// `failure`: the number of requests that fail from here on, the one that
/// is out counted in, and how the publication ends. The clock shows
/// `times[k]` when the request that is out comes back, and `times[k + 1]`
/// when the pause after it is over, and so on.
pub open spec fn failing_run(
    client: ClientModel,
    call: CallModel,
    failure: HttpFailure,
    times: Seq<u64>,
    k: int,
) -> (nat, ProgressModel)
    decreases call.attempts.remaining.len(),
{
    let (failed, paused) = client.resume(call, Some(Err(failure)), times[k]);
    match paused {
        ProgressModel::Pending(sleeping, StepModel::Sleep { .. }) => {
            let (woken, retried) = failed.resume(sleeping, None, times[k + 1]);
            match retried {
                ProgressModel::Pending(again, StepModel::Post { .. }) => if again.attempts.remaining.len()
                    < call.attempts.remaining.len() {
                    let (more, end) = failing_run(woken, again, failure, times, k + 2);
                    (1 + more, end)
                } else {
                    (1, retried)
                },
                _ => (1, retried),
            }
        },
        _ => (1, paused),
    }
}

/// A publication whose every request fails is sent at most once for each
/// retry that its plan still holds, and once more; then the error goes to
/// the caller: the failure itself, or `RequestRejected` where the breaker
/// has opened in between. A client error (4xx) ends it with the first
/// request.
pub proof fn lemma_failing_publication_is_bounded(
    client: ClientModel,
    call: CallModel,
    failure: HttpFailure,
    times: Seq<u64>,
    k: int,
)
    requires
        call.stage is AwaitPost,
    ensures
        failing_run(client, call, failure, times, k).0 <= 1 + call.attempts.remaining.len(),
        failure.client_error() ==> failing_run(client, call, failure, times, k).0 == 1,
        failing_run(client, call, failure, times, k).1 == ProgressModel::Failed(
            ErrorModel::RequestFailed(failure),
        ) || failing_run(client, call, failure, times, k).1 == ProgressModel::Failed(
            ErrorModel::RequestRejected,
        ),
    decreases call.attempts.remaining.len(),
{
    let (failed, paused) = client.resume(call, Some(Err(failure)), times[k]);
    if let ProgressModel::Pending(sleeping, StepModel::Sleep { .. }) = paused {
        let (woken, retried) = failed.resume(sleeping, None, times[k + 1]);
        if let ProgressModel::Pending(again, StepModel::Post { .. }) = retried {
            assert(again.attempts.remaining == call.attempts.remaining.drop_first());
            lemma_failing_publication_is_bounded(woken, again, failure, times, k + 2);
        }
    }
}

/// After as many recorded failures in a row as the threshold of the
/// breaker, the next publication fails at once with `RequestRejected`, as
/// long as the clock has not passed the cooldown that began with the last
/// failure; once the clock has passed it, the next publication goes out as
/// a probe.
pub proof fn lemma_rejects_after_threshold(
    client: ClientModel,
    closed: CircuitBreaker,
    times: Seq<u64>,
    entity_id: Seq<char>,
    state: StateModel,
    plan: Seq<u64>,
    now: u64,
)
    requires
        closed.state == (BreakerState::Closed { failures: 0 }),
        closed.threshold >= 1,
        times.len() == closed.threshold,
        client.breaker == closed.failed_at_each(times),
    ensures
        now <= crate::breaker::deadline(times.last(), closed.cooldown) ==> client.set_state(
            entity_id,
            state,
            plan,
            now,
        ) == (client, ProgressModel::Failed(ErrorModel::RequestRejected)),
        now > crate::breaker::deadline(times.last(), closed.cooldown) ==> {
            &&& client.set_state(entity_id, state, plan, now).1 is Pending
            &&& client.set_state(entity_id, state, plan, now).0.breaker.state
                == BreakerState::HalfOpen
        },
{
    crate::breaker::lemma_opens_at_threshold(closed, times, now);
}

} // verus!
