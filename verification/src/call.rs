//! One GitHub API call as a state machine: first the rate-limit wait, then
//! the request, then reading its answer. The caller performs each action
//! (a request, a parse, a sleep) and hands the outcome back as an event.
use vstd::prelude::*;
use crate::github::{authorization_spec, authorization_value, opt_string_view, rate_limit_url, GithubError};
use crate::ratelimit::{
    next_slot, opt_time, quota_wait_secs, quota_wait_spec, reserve_slot, RateLimitData, NEAR_LIMIT,
    UNAUTHENTICATED_DELAY_NANOS,
};

verus! {

/// Where a call stands.
#[derive(Debug, Clone, Copy, PartialEq, Eq, Structural)]
pub enum CallPhase {
    /// Nothing has been done yet.
    Start,
    /// With an API key: the quota was asked for.
    AwaitQuota,
    /// With an API key: the quota's body is being decoded.
    AwaitQuotaBody,
    /// Without an API key: the shared record of the previous request's time
    /// and the current time were asked for.
    AwaitPacing,
    /// A wait was ordered.
    AwaitWait,
    /// The request itself was sent.
    AwaitResponse,
    /// The answer (status 200) is being decoded.
    AwaitBody,
    /// The answer carried another status; its text is being read.
    AwaitErrorText { status: u16 },
    /// The call has its result.
    Finished,
}

/// What the caller reports back.
#[derive(Debug)]
pub enum CallEvent<T> {
    /// The call is to begin.
    Begin,
    /// A request was answered with this status, or could not be completed
    /// (the transport's description of the failure).
    Responded(Result<u16, String>),
    /// The quota's body, decoded or not, and the current time in seconds since
    /// the Unix epoch.
    QuotaParsed(Result<RateLimitData, String>, u64),
    /// The time reserved for the previous request made without an API key, if
    /// any, and the current time, both in nanoseconds since a fixed origin;
    /// the caller holds the shared record until it has performed `Pace`.
    Clock { last: Option<u128>, now: u128 },
    /// The ordered wait is over.
    Waited,
    /// The answer's body, decoded or not.
    BodyParsed(Result<T, String>),
    /// The text of an error answer, if it could be read.
    ErrorText(Option<String>),
}

/// What the caller is asked to do next.
#[derive(Debug)]
pub enum CallAction<T> {
    /// Send a GET request to `url`, with this `Authorization` header if any.
    Get { url: String, authorization: Option<String> },
    /// Decode the answer's body as the quota record.
    ParseQuota,
    /// Take hold of the shared record of the time reserved for the latest
    /// request made without an API key, and report it with the current time.
    ReadClock,
    /// Sleep this many seconds.
    SleepSecs(u64),
    /// Store `slot` as the time reserved for the latest request made without
    /// an API key, release the record, then sleep `wait` nanoseconds.
    Pace { wait: u128, slot: u128 },
    /// Decode the answer's body as the call's record.
    ParseBody,
    /// Read the answer's body as text.
    ReadErrorText,
    /// The call is over, with this result.
    Finish(Result<T, GithubError>),
}

/// A call to one address of the GitHub API.
#[derive(Debug)]
pub struct ApiCall {
    /// The address of the request.
    pub url: String,
    /// The API key of the environment, if one is set; its presence alone
    /// makes the call an authenticated one.
    pub api_key: Option<String>,
    pub phase: CallPhase,
}

/// The message of a failed body when no text could be read.
pub open spec fn missing_error_text() -> Seq<char> {
    "No error message"@
}

/// Whether `status` is one of GitHub's answers to an exhausted quota:
/// 403 Forbidden or 429 Too Many Requests.
pub open spec fn is_rate_limited_status(status: u16) -> bool {
    status == 403 || status == 429
}

impl ApiCall {
    /// A call to `url` that has not begun.
    pub fn new(url: String, api_key: Option<String>) -> (call: ApiCall)
        ensures
            call.url == url,
            call.api_key == api_key,
            call.phase == CallPhase::Start,
    {
        ApiCall { url, api_key, phase: CallPhase::Start }
    }

    /// How many steps the call can still take at most.
    pub open spec fn rank(self) -> nat {
        match self.phase {
            CallPhase::Start => 6,
            CallPhase::AwaitQuota => 5,
            CallPhase::AwaitQuotaBody => 4,
            CallPhase::AwaitPacing => 4,
            CallPhase::AwaitWait => 3,
            CallPhase::AwaitResponse => 2,
            CallPhase::AwaitBody => 1,
            CallPhase::AwaitErrorText { .. } => 1,
            CallPhase::Finished => 0,
        }
    }

    /// Whether the call expects `event` now, as it comes from a real run:
    /// statuses are those that `http` accepts (100 to 999); a wait for the
    /// quota's renewal fits in `u64`; a reservation one second after the
    /// previous one fits in `u128`.
    pub open spec fn expects<T>(self, event: CallEvent<T>) -> bool {
        match (self.phase, event) {
            (CallPhase::Start, CallEvent::Begin) => true,
            (CallPhase::AwaitQuota, CallEvent::Responded(r)) => r matches Ok(s) ==> 100 <= s <= 999,
            (CallPhase::AwaitQuotaBody, CallEvent::QuotaParsed(q, now)) => q matches Ok(d) ==> (
                d.remaining <= NEAR_LIMIT && d.reset > now ==> d.reset - now < u64::MAX),
            (CallPhase::AwaitPacing, CallEvent::Clock { last, now }) =>
                last matches Some(l) ==> l + UNAUTHENTICATED_DELAY_NANOS <= u128::MAX,
            (CallPhase::AwaitWait, CallEvent::Waited) => true,
            (CallPhase::AwaitResponse, CallEvent::Responded(r)) => r matches Ok(s) ==> 100 <= s <= 999,
            (CallPhase::AwaitBody, CallEvent::BodyParsed(_)) => true,
            (CallPhase::AwaitErrorText { .. }, CallEvent::ErrorText(_)) => true,
            _ => false,
        }
    }

    /// Whether `action` is the call's own request, with the authorization
    /// that its key gives.
    pub open spec fn is_main_request<T>(self, action: CallAction<T>) -> bool {
        &&& action matches CallAction::Get { url, authorization }
        &&& url@ == self.url@
        &&& opt_string_view(authorization) == authorization_spec(opt_string_view(self.api_key))
    }

    /// Whether `action` asks for the quota, with the authorization that the
    /// call's key gives.
    pub open spec fn is_quota_request<T>(self, action: CallAction<T>) -> bool {
        &&& action matches CallAction::Get { url, authorization }
        &&& url@ == "https://api.github.com/rate_limit"@
        &&& opt_string_view(authorization) == authorization_spec(opt_string_view(self.api_key))
    }

    /// The transition of the call on `event`: the phase it moves to and the
    /// action it asks for.
    pub open spec fn step_spec<T>(self, event: CallEvent<T>, next: ApiCall, action: CallAction<T>) -> bool {
        &&& next.url == self.url
        &&& next.api_key == self.api_key
        &&& match (self.phase, event) {
            (CallPhase::Start, CallEvent::Begin) => if self.api_key is Some {
                next.phase == CallPhase::AwaitQuota && self.is_quota_request(action)
            } else {
                next.phase == CallPhase::AwaitPacing && action == CallAction::<T>::ReadClock
            },
            (CallPhase::AwaitQuota, CallEvent::Responded(Err(m))) =>
                next.phase == CallPhase::Finished
                && action == CallAction::<T>::Finish(Err(GithubError::RequestFailed(m))),
            (CallPhase::AwaitQuota, CallEvent::Responded(Ok(s))) => if s == 200 {
                next.phase == CallPhase::AwaitQuotaBody && action == CallAction::<T>::ParseQuota
            } else {
                next.phase == CallPhase::AwaitResponse && self.is_main_request(action)
            },
            (CallPhase::AwaitQuotaBody, CallEvent::QuotaParsed(Err(m), _)) =>
                next.phase == CallPhase::Finished
                && action == CallAction::<T>::Finish(Err(GithubError::RequestFailed(m))),
            (CallPhase::AwaitQuotaBody, CallEvent::QuotaParsed(Ok(q), now)) => match quota_wait_spec(q, now) {
                Some(w) => {
                    &&& next.phase == CallPhase::AwaitWait
                    &&& action matches CallAction::SleepSecs(s)
                    &&& s == w
                },
                None => next.phase == CallPhase::AwaitResponse && self.is_main_request(action),
            },
            (CallPhase::AwaitPacing, CallEvent::Clock { last, now }) => {
                &&& next.phase == CallPhase::AwaitWait
                &&& action matches CallAction::Pace { wait, slot }
                &&& slot == next_slot(opt_time(last), now as int)
                &&& wait == slot - now
            },
            (CallPhase::AwaitWait, CallEvent::Waited) =>
                next.phase == CallPhase::AwaitResponse && self.is_main_request(action),
            (CallPhase::AwaitResponse, CallEvent::Responded(Err(m))) =>
                next.phase == CallPhase::Finished
                && action == CallAction::<T>::Finish(Err(GithubError::RequestFailed(m))),
            (CallPhase::AwaitResponse, CallEvent::Responded(Ok(s))) => if s == 200 {
                next.phase == CallPhase::AwaitBody && action == CallAction::<T>::ParseBody
            } else if is_rate_limited_status(s) {
                next.phase == CallPhase::Finished
                && action == CallAction::<T>::Finish(Err(GithubError::RateLimitExceeded))
            } else {
                next.phase == (CallPhase::AwaitErrorText { status: s }) && action == CallAction::<T>::ReadErrorText
            },
            (CallPhase::AwaitBody, CallEvent::BodyParsed(Ok(t))) =>
                next.phase == CallPhase::Finished && action == CallAction::Finish(Ok(t)),
            (CallPhase::AwaitBody, CallEvent::BodyParsed(Err(m))) =>
                next.phase == CallPhase::Finished
                && action == CallAction::<T>::Finish(Err(GithubError::RequestFailed(m))),
            (CallPhase::AwaitErrorText { status }, CallEvent::ErrorText(text)) => {
                &&& next.phase == CallPhase::Finished
                &&& action matches CallAction::Finish(Err(GithubError::ApiError { status: s, message }))
                &&& s == status
                &&& message@ == match text {
                    Some(t) => t@,
                    None => missing_error_text(),
                }
            },
            _ => false,
        }
    }

    /// Whether the call expects `event` now.
    pub fn accepts<T>(&self, event: &CallEvent<T>) -> (ok: bool)
        ensures
            ok == self.expects(*event),
    {
        match (&self.phase, event) {
            (CallPhase::Start, CallEvent::Begin) => true,
            (CallPhase::AwaitQuota, CallEvent::Responded(r)) => match r {
                Ok(s) => 100 <= *s && *s <= 999,
                Err(_) => true,
            },
            (CallPhase::AwaitQuotaBody, CallEvent::QuotaParsed(q, now)) => match q {
                Ok(d) => !(d.remaining <= NEAR_LIMIT && d.reset > *now) || d.reset - *now < u64::MAX,
                Err(_) => true,
            },
            (CallPhase::AwaitPacing, CallEvent::Clock { last, .. }) => match last {
                Some(l) => *l <= u128::MAX - UNAUTHENTICATED_DELAY_NANOS,
                None => true,
            },
            (CallPhase::AwaitWait, CallEvent::Waited) => true,
            (CallPhase::AwaitResponse, CallEvent::Responded(r)) => match r {
                Ok(s) => 100 <= *s && *s <= 999,
                Err(_) => true,
            },
            (CallPhase::AwaitBody, CallEvent::BodyParsed(_)) => true,
            (CallPhase::AwaitErrorText { .. }, CallEvent::ErrorText(_)) => true,
            _ => false,
        }
    }

    /// Whether the call has its result.
    pub fn is_finished(&self) -> (done: bool)
        ensures
            done == (self.phase == CallPhase::Finished),
    {
        match self.phase {
            CallPhase::Finished => true,
            _ => false,
        }
    }

    fn main_request<T>(&self) -> (action: CallAction<T>)
        ensures
            self.is_main_request(action),
    {
        let authorization = match &self.api_key {
            Some(k) => authorization_value(Some(k.as_str())),
            None => authorization_value(None),
        };
        CallAction::Get { url: self.url.clone(), authorization }
    }

    fn quota_request<T>(&self) -> (action: CallAction<T>)
        ensures
            self.is_quota_request(action),
    {
        let authorization = match &self.api_key {
            Some(k) => authorization_value(Some(k.as_str())),
            None => authorization_value(None),
        };
        CallAction::Get { url: rate_limit_url(), authorization }
    }

    /// Moves the call on by `event` and returns what is to be done next.
    pub fn step<T>(&mut self, event: CallEvent<T>) -> (action: CallAction<T>)
        requires
            old(self).expects(event),
        ensures
            old(self).step_spec(event, *final(self), action),
    {
        match event {
            CallEvent::Begin => {
                if self.api_key.is_some() {
                    self.phase = CallPhase::AwaitQuota;
                    self.quota_request()
                } else {
                    self.phase = CallPhase::AwaitPacing;
                    CallAction::ReadClock
                }
            },
            CallEvent::Responded(Err(m)) => {
                self.phase = CallPhase::Finished;
                CallAction::Finish(Err(GithubError::RequestFailed(m)))
            },
            CallEvent::Responded(Ok(s)) => {
                if self.phase == CallPhase::AwaitQuota {
                    if s == 200 {
                        self.phase = CallPhase::AwaitQuotaBody;
                        CallAction::ParseQuota
                    } else {
                        self.phase = CallPhase::AwaitResponse;
                        self.main_request()
                    }
                } else if s == 200 {
                    self.phase = CallPhase::AwaitBody;
                    CallAction::ParseBody
                } else if s == 403 || s == 429 {
                    self.phase = CallPhase::Finished;
                    CallAction::Finish(Err(GithubError::RateLimitExceeded))
                } else {
                    self.phase = CallPhase::AwaitErrorText { status: s };
                    CallAction::ReadErrorText
                }
            },
            CallEvent::QuotaParsed(Err(m), _) => {
                self.phase = CallPhase::Finished;
                CallAction::Finish(Err(GithubError::RequestFailed(m)))
            },
            CallEvent::QuotaParsed(Ok(q), now) => {
                match quota_wait_secs(&q, now) {
                    Some(w) => {
                        self.phase = CallPhase::AwaitWait;
                        CallAction::SleepSecs(w)
                    },
                    None => {
                        self.phase = CallPhase::AwaitResponse;
                        self.main_request()
                    },
                }
            },
            CallEvent::Clock { last, now } => {
                let (wait, slot) = reserve_slot(last, now);
                self.phase = CallPhase::AwaitWait;
                CallAction::Pace { wait, slot }
            },
            CallEvent::Waited => {
                self.phase = CallPhase::AwaitResponse;
                self.main_request()
            },
            CallEvent::BodyParsed(Ok(t)) => {
                self.phase = CallPhase::Finished;
                CallAction::Finish(Ok(t))
            },
            CallEvent::BodyParsed(Err(m)) => {
                self.phase = CallPhase::Finished;
                CallAction::Finish(Err(GithubError::RequestFailed(m)))
            },
            CallEvent::ErrorText(text) => {
                let status = match self.phase {
                    CallPhase::AwaitErrorText { status } => status,
                    _ => 0,
                };
                let message = match text {
                    Some(t) => t,
                    None => String::from_str("No error message"),
                };
                self.phase = CallPhase::Finished;
                CallAction::Finish(Err(GithubError::ApiError { status, message }))
            },
        }
    }
}

/// Every step brings a call closer to its end: its rank drops, and the call
/// is finished exactly when the step asks to finish it. A call therefore ends,
/// with a result, after at most six events.
pub proof fn lemma_step_progresses<T>(call: ApiCall, event: CallEvent<T>, next: ApiCall, action: CallAction<T>)
    requires
        call.expects(event),
        call.step_spec(event, next, action),
    ensures
        next.rank() < call.rank(),
        (next.phase == CallPhase::Finished) == (action is Finish),
{
}

/// A finished call expects no more events.
pub proof fn lemma_finished_call_is_over<T>(call: ApiCall, event: CallEvent<T>)
    requires
        call.phase == CallPhase::Finished,
    ensures
        !call.expects(event),
{
}

/// A request answered with 403 or 429 ends its call with
/// `RateLimitExceeded`; one answered with another status than 200 ends it
/// only after the answer's text is read, with an `ApiError` that carries the
/// status.
pub proof fn lemma_status_decides_outcome<T>(call: ApiCall, status: u16, next: ApiCall, action: CallAction<T>)
    requires
        call.phase == CallPhase::AwaitResponse,
        call.step_spec(CallEvent::<T>::Responded(Ok(status)), next, action),
    ensures
        is_rate_limited_status(status) ==> action == CallAction::<T>::Finish(Err(GithubError::RateLimitExceeded)),
        status == 200 ==> action == CallAction::<T>::ParseBody,
        status != 200 && !is_rate_limited_status(status) ==> next.phase == (CallPhase::AwaitErrorText { status }),
{
}

} // verus!
