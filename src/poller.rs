use vstd::prelude::*;
use crate::error::ClientError;
use crate::operation::{
    base64_decoded, ErrorWrapper, GeneratedImage, OperationStatus, Response, INVALID_IMAGE,
};
use crate::request::{art_model_uri, make_art_model_uri, Request};

verus! {

/// Endpoint that accepts image generation requests.
pub const ART_URL: &'static str =
    "https://llm.api.cloud.yandex.net/foundationModels/v1/imageGenerationAsync";

/// Endpoint under which each operation is looked up by its id.
pub const OPERATIONS_URL: &'static str = "https://operation.api.cloud.yandex.net/operations";

/// Pause between two status checks of a running operation.
pub const DEFAULT_POLL_DELAY_MS: u64 = 1000;

/// Cause reported for a failed status that carries no error object.
pub const UNEXPECTED_STATUS: &'static str = "the service answered with a failure status and no error object";

/// The `Authorization` header value for an API key.
pub open spec fn authorization_of(api_key: Seq<char>) -> Seq<char> {
    "Api-Key "@ + api_key
}

pub fn make_authorization(api_key: &str) -> (r: String)
    ensures
        r@ == authorization_of(api_key@),
{
    String::from_str("Api-Key ").concat(api_key)
}

/// Where the status of an operation is read.
pub open spec fn operation_url(id: Seq<char>) -> Seq<char> {
    OPERATIONS_URL@ + "/"@ + id
}

/// What one HTTP exchange produced, as the transport and the JSON reader saw it.
#[derive(Debug)]
pub enum Reply<T> {
    /// The call produced no response; the transport's description.
    TransportFailed(String),
    /// The service answered.
    Received(HttpReply<T>),
}

/// A response of the service, with its body read both ways it may be shaped.
#[derive(Debug)]
pub struct HttpReply<T> {
    pub status: u16,
    pub body: String,
    /// The body read as the expected payload, or why it could not be.
    pub payload: Result<T, String>,
    /// The body read as a service error object, where it is one.
    pub service_error: Option<ErrorWrapper>,
}

pub open spec fn is_success_status(status: u16) -> bool {
    200 <= status < 300
}

/// The result that a reply amounts to: a success status brings the payload, a failure
/// status the service's error object.
pub open spec fn read_as<T>(reply: Reply<T>, r: Result<T, ClientError>) -> bool {
    match reply {
        Reply::TransportFailed(m) => r == Err::<T, ClientError>(ClientError::Transport(m)),
        Reply::Received(h) => if is_success_status(h.status) {
            match h.payload {
                Ok(p) => r == Ok::<T, ClientError>(p),
                Err(cause) => r == Err::<T, ClientError>(
                    ClientError::DecodeFailure { raw: h.body, cause },
                ),
            }
        } else {
            match h.service_error {
                Some(e) => r == Err::<T, ClientError>(ClientError::Service(e)),
                None => {
                    &&& r is Err
                    &&& r->Err_0 is DecodeFailure
                    &&& r->Err_0->raw == h.body
                    &&& r->Err_0->cause@ == UNEXPECTED_STATUS@
                },
            }
        },
    }
}

/// Tells apart the shapes a reply can take: a payload, a service error, a body of neither
/// shape, or no response at all.
pub fn read_reply<T>(reply: Reply<T>) -> (r: Result<T, ClientError>)
    ensures
        read_as(reply, r),
{
    match reply {
        Reply::TransportFailed(m) => Err(ClientError::Transport(m)),
        Reply::Received(h) => {
            if 200 <= h.status && h.status < 300 {
                match h.payload {
                    Ok(p) => Ok(p),
                    Err(cause) => Err(ClientError::DecodeFailure { raw: h.body, cause }),
                }
            } else {
                match h.service_error {
                    Some(e) => Err(ClientError::Service(e)),
                    None => Err(
                        ClientError::DecodeFailure {
                            raw: h.body,
                            cause: String::from_str(UNEXPECTED_STATUS),
                        },
                    ),
                }
            }
        },
    }
}

/// Credentials for the image service: an API key and the account scope that routes
/// requests to the model.
pub struct Art {
    api_key: String,
    bucket_id: String,
}

/// The call that submits a request.
#[derive(Debug)]
pub struct Submission {
    pub url: String,
    pub authorization: String,
    pub request: Request,
}

/// The call that reads the status of an operation.
#[derive(Debug)]
pub struct StatusCheck {
    pub url: String,
    pub authorization: String,
}

impl Art {
    pub closed spec fn spec_api_key(&self) -> Seq<char> {
        self.api_key@
    }

    pub closed spec fn spec_bucket_id(&self) -> Seq<char> {
        self.bucket_id@
    }

    pub fn new(api_key: String, bucket_id: String) -> (r: Self)
        ensures
            r.spec_api_key() == api_key@,
            r.spec_bucket_id() == bucket_id@,
    {
        Art { api_key, bucket_id }
    }

    pub fn change_credentials(&mut self, api_key: String, bucket_id: String)
        ensures
            final(self).spec_api_key() == api_key@,
            final(self).spec_bucket_id() == bucket_id@,
    {
        self.api_key = api_key;
        self.bucket_id = bucket_id;
    }

    /// The submission of `request`, routed to the model of this account scope whatever
    /// routing identifier the request held.
    pub fn submission(&self, request: Request) -> (r: Submission)
        ensures
            r.url@ == ART_URL@,
            r.authorization@ == authorization_of(self.spec_api_key()),
            r.request.model_uri@ == art_model_uri(self.spec_bucket_id()),
            r.request.messages == request.messages,
            r.request.generation_options == request.generation_options,
    {
        Submission {
            url: String::from_str(ART_URL),
            authorization: make_authorization(self.api_key.as_str()),
            request: Request { model_uri: make_art_model_uri(self.bucket_id.as_str()), ..request },
        }
    }

    /// The status check of the operation `id`.
    pub fn status_check(&self, id: &str) -> (r: StatusCheck)
        ensures
            r.url@ == operation_url(id@),
            r.authorization@ == authorization_of(self.spec_api_key()),
    {
        StatusCheck {
            url: String::from_str(OPERATIONS_URL).concat("/").concat(id),
            authorization: make_authorization(self.api_key.as_str()),
        }
    }
}

/// Where one generate-and-wait call stands.
#[derive(Debug)]
#[allow(inconsistent_fields)]
pub enum PollState {
    /// The request is to be sent.
    Submitting,
    /// The operation `id` runs; its status is to be checked.
    Polling { id: String },
    /// The operation finished with an image.
    Succeeded { id: String, image: GeneratedImage },
    /// The service reported an error.
    Failed { error: ErrorWrapper },
    /// The operation `id` finished with neither an error nor a payload, or with both.
    ProtocolViolation { id: String },
    /// The last call failed in transport or brought an unreadable body. With an id, the
    /// status check may be made again; without one, the submission.
    TransportFailed { id: Option<String>, error: ClientError },
}

/// The state after the reply to a submission.
pub open spec fn after_submit(read: Result<Response, ClientError>, next: PollState) -> bool {
    match read {
        Err(ClientError::Service(e)) => next == PollState::Failed { error: e },
        Err(e) => next == PollState::TransportFailed { id: None, error: e },
        Ok(env) => match env.error {
            Some(e) => next == PollState::Failed { error: e },
            None => next == PollState::Polling { id: env.id },
        },
    }
}

/// The state after the reply to a status check of the operation `id`.
pub open spec fn after_check(id: String, read: Result<Response, ClientError>, next: PollState) -> bool {
    match read {
        Err(ClientError::Service(e)) => next == PollState::Failed { error: e },
        Err(e) => next == PollState::TransportFailed { id: Some(id), error: e },
        Ok(env) => match env.spec_status() {
            OperationStatus::Pending => next == PollState::Polling { id },
            OperationStatus::Failed => next == PollState::Failed { error: env.error->0 },
            OperationStatus::ProtocolViolation => next == PollState::ProtocolViolation { id },
            OperationStatus::Succeeded => {
                let payload = env.response->0;
                match base64_decoded(payload.image@) {
                    Some(bytes) => {
                        &&& next is Succeeded
                        &&& next->Succeeded_id == id
                        &&& next->image.bytes@ == bytes
                        &&& next->image.model_version == payload.model_version
                    },
                    None => {
                        &&& next is TransportFailed
                        &&& next->TransportFailed_id == Some(id)
                        &&& next->TransportFailed_error is DecodeFailure
                        &&& next->TransportFailed_error->raw == payload.image
                        &&& next->TransportFailed_error->cause@ == INVALID_IMAGE@
                    },
                }
            },
        },
    }
}

impl PollState {
    pub open spec fn polling(id: String) -> PollState {
        PollState::Polling { id }
    }

    pub open spec fn violation(id: String) -> PollState {
        PollState::ProtocolViolation { id }
    }

    /// No reply moves a call out of these states.
    pub open spec fn is_terminal(&self) -> bool {
        ||| self is Succeeded
        ||| self is Failed
        ||| self is ProtocolViolation
    }

    /// The state that the read reply `read` leads to from `self`.
    pub open spec fn transition(self, read: Result<Response, ClientError>, next: PollState) -> bool {
        match self {
            PollState::Submitting => after_submit(read, next),
            PollState::Polling { id } => after_check(id, read, next),
            PollState::TransportFailed { id: None, .. } => after_submit(read, next),
            PollState::TransportFailed { id: Some(id), .. } => after_check(id, read, next),
            _ => next == self,
        }
    }

    /// Takes the read reply to the last call: a submission from `Submitting` or from a
    /// `TransportFailed` without id, a status check otherwise.
    pub fn advance(self, read: Result<Response, ClientError>) -> (r: PollState)
        ensures
            self.transition(read, r),
    {
        match self {
            PollState::Submitting => Self::submitted(read),
            PollState::TransportFailed { id: None, .. } => Self::submitted(read),
            PollState::Polling { id } => Self::checked(id, read),
            PollState::TransportFailed { id: Some(id), .. } => Self::checked(id, read),
            _ => self,
        }
    }

    fn submitted(read: Result<Response, ClientError>) -> (r: PollState)
        ensures
            after_submit(read, r),
    {
        match read {
            Err(ClientError::Service(e)) => PollState::Failed { error: e },
            Err(e) => PollState::TransportFailed { id: None, error: e },
            Ok(env) => match env.error {
                Some(e) => PollState::Failed { error: e },
                None => PollState::Polling { id: env.id },
            },
        }
    }

    fn checked(id: String, read: Result<Response, ClientError>) -> (r: PollState)
        ensures
            after_check(id, read, r),
    {
        match read {
            Err(ClientError::Service(e)) => PollState::Failed { error: e },
            Err(e) => PollState::TransportFailed { id: Some(id), error: e },
            Ok(env) => match env.status() {
                OperationStatus::Pending => PollState::Polling { id },
                OperationStatus::ProtocolViolation => PollState::ProtocolViolation { id },
                OperationStatus::Failed => match env.error {
                    Some(error) => PollState::Failed { error },
                    None => PollState::ProtocolViolation { id },
                },
                OperationStatus::Succeeded => match env.response {
                    Some(payload) => match payload.decode_image() {
                        Ok(image) => PollState::Succeeded { id, image },
                        Err(error) => PollState::TransportFailed { id: Some(id), error },
                    },
                    None => PollState::ProtocolViolation { id },
                },
            },
        }
    }

    /// The outcome of a call that has stopped.
    pub fn into_outcome(self) -> (r: Result<GeneratedImage, ClientError>)
        requires
            !(self is Submitting),
            !(self is Polling),
        ensures
            match self {
                PollState::Succeeded { image, .. } => r == Ok::<GeneratedImage, ClientError>(image),
                PollState::Failed { error } => r == Err::<GeneratedImage, ClientError>(ClientError::Service(error)),
                PollState::ProtocolViolation { id } => r == Err::<GeneratedImage, ClientError>(ClientError::ProtocolViolation { id }),
                PollState::TransportFailed { error, .. } => r == Err::<GeneratedImage, ClientError>(error),
                _ => false,
            },
    {
        match self {
            PollState::Succeeded { image, .. } => Ok(image),
            PollState::Failed { error } => Err(ClientError::Service(error)),
            PollState::ProtocolViolation { id } => Err(ClientError::ProtocolViolation { id }),
            PollState::TransportFailed { error, .. } => Err(error),
            PollState::Submitting => Err(ClientError::ProtocolViolation { id: String::new() }),
            PollState::Polling { id } => Err(ClientError::ProtocolViolation { id }),
        }
    }
}

/// How a `Poller` paces its checks and how much it tries before it gives up.
#[derive(Debug, Clone, Copy, PartialEq, Eq, Structural)]
pub struct PollPolicy {
    /// Pause before each status check; never zero.
    pub delay_ms: u64,
    /// How many transport failures in a row are followed by another try.
    pub max_retries: u32,
    /// How many status checks may be made in all; `None` for no bound.
    pub max_checks: Option<u32>,
}

impl PollPolicy {
    /// One second between checks, no retry after a transport failure, no bound on checks.
    pub fn standard() -> (r: PollPolicy)
        ensures
            r.delay_ms == DEFAULT_POLL_DELAY_MS,
            r.max_retries == 0,
            r.max_checks is None,
    {
        PollPolicy { delay_ms: DEFAULT_POLL_DELAY_MS, max_retries: 0, max_checks: None }
    }
}

/// The call that a `Poller` asks its driver to make next.
#[derive(Debug)]
pub enum PollStep {
    Submit,
    Check { id: String, delay_ms: u64 },
    Finish,
}

/// Runs one generate-and-wait call under a `PollPolicy`: the state, and what was spent.
#[derive(Debug)]
pub struct Poller {
    pub state: PollState,
    pub policy: PollPolicy,
    /// Transport failures in a row, up to the last reply.
    pub failures: u32,
    /// Status checks made so far.
    pub checks: u32,
}

/// Whether the reply to the call made from `s` was the reply to a status check.
pub open spec fn is_checking(s: PollState) -> bool {
    ||| s is Polling
    ||| (s is TransportFailed && s->TransportFailed_id is Some)
}

impl Poller {
    pub open spec fn wf(&self) -> bool {
        self.policy.delay_ms > 0
    }

    pub open spec fn may_retry(&self) -> bool {
        self.failures <= self.policy.max_retries
    }

    pub open spec fn may_check(&self) -> bool {
        match self.policy.max_checks {
            None => true,
            Some(m) => self.checks < m,
        }
    }

    pub fn new(policy: PollPolicy) -> (r: Poller)
        requires
            policy.delay_ms > 0,
        ensures
            r.wf(),
            r.state is Submitting,
            r.policy == policy,
            r.failures == 0,
            r.checks == 0,
    {
        Poller { state: PollState::Submitting, policy, failures: 0, checks: 0 }
    }

    /// The next call: the submission, a status check after the policy's pause, or none.
    /// A transport failure is followed by the same call again while retries are left; a
    /// check is made only while the budget of checks lasts.
    pub fn next_step(&self) -> (r: PollStep)
        ensures
            r is Submit <==> (self.state is Submitting || (self.state is TransportFailed
                && self.state->TransportFailed_id is None && self.may_retry())),
            r is Check <==> ((self.state is Polling && self.may_check()) || (self.state is TransportFailed
                && self.state->TransportFailed_id is Some && self.may_retry() && self.may_check())),
            r is Check && self.state is Polling ==> r->Check_id@ == self.state->Polling_id@,
            r is Check && self.state is TransportFailed ==> r->Check_id@ == self.state->TransportFailed_id->0@,
            r is Check ==> r->delay_ms == self.policy.delay_ms,
    {
        let may_check = match self.policy.max_checks {
            None => true,
            Some(m) => self.checks < m,
        };
        let may_retry = self.failures <= self.policy.max_retries;
        match &self.state {
            PollState::Submitting => PollStep::Submit,
            PollState::Polling { id } => if may_check {
                PollStep::Check { id: id.clone(), delay_ms: self.policy.delay_ms }
            } else {
                PollStep::Finish
            },
            PollState::TransportFailed { id: None, .. } => if may_retry {
                PollStep::Submit
            } else {
                PollStep::Finish
            },
            PollState::TransportFailed { id: Some(id), .. } => if may_retry && may_check {
                PollStep::Check { id: id.clone(), delay_ms: self.policy.delay_ms }
            } else {
                PollStep::Finish
            },
            _ => PollStep::Finish,
        }
    }

    /// Takes the read reply to the call that `next_step` asked for.
    pub fn take_reply(&mut self, read: Result<Response, ClientError>)
        ensures
            old(self).state.transition(read, final(self).state),
            final(self).policy == old(self).policy,
            final(self).checks == if is_checking(old(self).state) {
                old(self).checks.saturating_add(1)
            } else {
                old(self).checks
            },
            final(self).failures == if final(self).state is TransportFailed {
                old(self).failures.saturating_add(1)
            } else {
                0
            },
    {
        let checking = match &self.state {
            PollState::Polling { .. } => true,
            PollState::TransportFailed { id: Some(_), .. } => true,
            _ => false,
        };
        if checking {
            self.checks = self.checks.saturating_add(1);
        }
        let mut state = PollState::Submitting;
        core::mem::swap(&mut state, &mut self.state);
        self.state = state.advance(read);
        self.failures = match &self.state {
            PollState::TransportFailed { .. } => self.failures.saturating_add(1),
            _ => 0,
        };
    }

    /// The outcome of a call that has finished: that of its state, or `Abandoned` where the
    /// budget of checks ran out first.
    pub fn into_outcome(self) -> (r: Result<GeneratedImage, ClientError>)
        requires
            !(self.state is Submitting),
        ensures
            match self.state {
                PollState::Succeeded { image, .. } => r == Ok::<GeneratedImage, ClientError>(image),
                PollState::Failed { error } => r == Err::<GeneratedImage, ClientError>(ClientError::Service(error)),
                PollState::ProtocolViolation { id } => r == Err::<GeneratedImage, ClientError>(ClientError::ProtocolViolation { id }),
                PollState::TransportFailed { error, .. } => r == Err::<GeneratedImage, ClientError>(error),
                PollState::Polling { id } => r == Err::<GeneratedImage, ClientError>(ClientError::Abandoned { id }),
                _ => false,
            },
    {
        match self.state {
            PollState::Polling { id } => Err(ClientError::Abandoned { id }),
            state => state.into_outcome(),
        }
    }
}

/// No reply moves a call out of a terminal state.
pub proof fn lemma_terminal_states_are_final(
    s: PollState,
    read: Result<Response, ClientError>,
    next: PollState,
)
    requires
        s.is_terminal(),
        s.transition(read, next),
    ensures
        next == s,
{
}

/// Checking a running operation twice, with the service answering both times that it is
/// not done, leaves the call polling the same id both times.
pub proof fn lemma_not_done_check_is_idempotent(
    id: String,
    first: Response,
    second: Response,
    s1: PollState,
    s2: PollState,
)
    requires
        !first.done && first.error is None && first.response is None,
        !second.done && second.error is None && second.response is None,
        PollState::polling(id).transition(Ok(first), s1),
        s1.transition(Ok(second), s2),
    ensures
        s1 == PollState::polling(id),
        s2 == PollState::polling(id),
{
}

/// A call goes on polling after a status check only when the snapshot it read was not done
/// and carried neither an error nor a payload.
pub proof fn lemma_still_polling_means_no_outcome(
    id: String,
    env: Response,
    next: PollState,
)
    requires
        PollState::polling(id).transition(Ok(env), next),
        next is Polling,
    ensures
        !env.done,
        env.error is None,
        env.response is None,
{
}

/// A check whose reply is a done snapshot with neither an error nor a payload ends the call
/// in a protocol violation, never in success.
pub proof fn lemma_done_without_outcome_is_violation(
    id: String,
    env: Response,
    next: PollState,
)
    requires
        env.done && env.error is None && env.response is None,
        PollState::polling(id).transition(Ok(env), next),
    ensures
        next == PollState::violation(id),
{
}

} // verus!
