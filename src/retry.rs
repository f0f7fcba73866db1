//! The retry executor: the decisions of one `send`, as a state machine.
//!
//! The executor says what to do next (emit a sink event, wait, make one
//! transport call, finish); the caller performs it and, after a transport
//! call, hands back the classified outcome. Attempt `k` (counting from 0)
//! waits `k * retry_delay_ms` before it starts; the loader is switched on
//! before the first attempt and off after the last one, and at most one
//! outcome message is shown.
use vstd::prelude::*;

use crate::error::{error_text, retryable, HttpError};
use crate::request::RequestConfig;
use crate::response::{is_success_status, HttpResponse};
use crate::text::{decimal, decimal_string};

verus! {

/// How an attempt ended, as far as the retry loop is concerned.
#[derive(Debug, Clone, Copy, PartialEq, Eq, Structural)]
pub enum Verdict {
    Success,
    Retryable,
    Fatal,
}

/// The verdict on a classified outcome.
pub open spec fn verdict_of(r: Result<HttpResponse, HttpError>) -> Verdict {
    match r {
        Ok(_) => Verdict::Success,
        Err(e) => if retryable(e) {
            Verdict::Retryable
        } else {
            Verdict::Fatal
        },
    }
}

/// What the executor's decisions depend on, fixed when `send` begins.
#[derive(Debug, Clone, Copy, PartialEq, Eq, Structural)]
pub struct RetryPolicy {
    pub retry_count: u32,
    pub retry_delay_ms: u32,
    /// Loader events are emitted (the flag is on and a sink is attached).
    pub loader: bool,
    /// Progress events are emitted.
    pub progress: bool,
    /// The outcome message is emitted.
    pub notify: bool,
    /// The URL is not empty.
    pub url_valid: bool,
}

/// The policy for a request, given whether a notification sink is attached.
pub open spec fn policy_for(c: RequestConfig, has_sink: bool) -> RetryPolicy {
    RetryPolicy {
        retry_count: c.retry_count,
        retry_delay_ms: c.retry_delay_ms,
        loader: c.with_loader && has_sink,
        progress: c.with_progress && has_sink,
        notify: c.with_notifications && has_sink,
        url_valid: c.url@.len() > 0,
    }
}

/// Where a `send` stands.
#[derive(Debug, Clone, Copy, PartialEq, Eq, Structural)]
pub enum Stage {
    /// Nothing done yet.
    Opening,
    /// Before an attempt: the backoff wait.
    Backoff,
    /// The progress reset.
    Reset,
    /// URL check, then the progress mark before sending.
    Dispatch,
    /// The transport call is due.
    Send,
    /// Waiting for the transport's outcome.
    Awaiting,
    /// An outcome is in: the progress mark on success.
    Settled(Verdict),
    /// Retry or stop.
    Decide(Verdict),
    /// The outcome message.
    Announce(Verdict),
    /// The loader is switched off.
    Release(Verdict),
    /// The outcome is handed back.
    Finishing(Verdict),
    /// All done.
    Done(Verdict),
}

/// One thing for the caller to do.
#[derive(Debug, Clone, Copy, PartialEq, Eq, Structural)]
pub enum Action {
    /// Emit the loader-on event.
    EnableLoader,
    /// Emit the loader-off event.
    DisableLoader,
    /// Emit a progress event, in percent.
    Progress(u8),
    /// Emit the outcome message (see `RetryExecutor::notification`).
    Notify,
    /// Suspend for this many milliseconds.
    Wait(u64),
    /// Make one transport call and deliver its classified outcome.
    Transmit,
    /// Return the outcome (see `RetryExecutor::finish`).
    Finish,
}

/// The executor's state, without the outcome it holds.
#[derive(Debug, Clone, Copy, PartialEq, Eq, Structural)]
pub struct SendState {
    pub policy: RetryPolicy,
    /// The attempt under way, counting from 0.
    pub attempt: u32,
    pub stage: Stage,
}

/// Where every `send` starts.
pub open spec fn initial(p: RetryPolicy) -> SendState {
    SendState { policy: p, attempt: 0, stage: Stage::Opening }
}

/// The verdict a stage carries.
pub open spec fn stage_verdict(st: Stage) -> Option<Verdict> {
    match st {
        Stage::Settled(v) => Some(v),
        Stage::Decide(v) => Some(v),
        Stage::Announce(v) => Some(v),
        Stage::Release(v) => Some(v),
        Stage::Finishing(v) => Some(v),
        Stage::Done(v) => Some(v),
        _ => None,
    }
}

/// The wait before attempt `attempt`.
pub open spec fn backoff_ms(p: RetryPolicy, attempt: u32) -> u64 {
    (p.retry_delay_ms * attempt) as u64
}

/// Order of the stages within one attempt, last first.
pub open spec fn rank(st: Stage) -> nat {
    match st {
        Stage::Opening => 11,
        Stage::Backoff => 10,
        Stage::Reset => 9,
        Stage::Dispatch => 8,
        Stage::Send => 7,
        Stage::Awaiting => 6,
        Stage::Settled(_) => 5,
        Stage::Decide(_) => 4,
        Stage::Announce(_) => 3,
        Stage::Release(_) => 2,
        Stage::Finishing(_) => 1,
        Stage::Done(_) => 0,
    }
}

/// Attempts that may still follow the current one.
pub open spec fn attempts_left(s: SendState) -> nat {
    if s.attempt <= s.policy.retry_count {
        (s.policy.retry_count - s.attempt) as nat
    } else {
        0
    }
}

/// The stage after `st`, keeping the attempt.
pub open spec fn at(s: SendState, st: Stage) -> SendState {
    SendState { stage: st, ..s }
}

/// One transition: the next state and the action it emits, if any.
/// `Awaiting` and `Done` do not move here.
pub open spec fn stepped(s: SendState) -> (SendState, Option<Action>) {
    let p = s.policy;
    match s.stage {
        Stage::Opening => (
            at(s, Stage::Backoff),
            if p.loader {
                Some(Action::EnableLoader)
            } else {
                None
            },
        ),
        Stage::Backoff => (
            at(s, Stage::Reset),
            if s.attempt > 0 {
                Some(Action::Wait(backoff_ms(p, s.attempt)))
            } else {
                None
            },
        ),
        Stage::Reset => (
            at(s, Stage::Dispatch),
            if p.progress {
                Some(Action::Progress(0))
            } else {
                None
            },
        ),
        Stage::Dispatch => if !p.url_valid {
            (at(s, Stage::Settled(Verdict::Fatal)), None)
        } else {
            (
                at(s, Stage::Send),
                if p.progress {
                    Some(Action::Progress(50))
                } else {
                    None
                },
            )
        },
        Stage::Send => (at(s, Stage::Awaiting), Some(Action::Transmit)),
        Stage::Awaiting => (s, None),
        Stage::Settled(v) => (
            at(s, Stage::Decide(v)),
            if v == Verdict::Success && p.progress {
                Some(Action::Progress(100))
            } else {
                None
            },
        ),
        Stage::Decide(v) => if v == Verdict::Retryable && s.attempt < p.retry_count {
            (SendState { attempt: (s.attempt + 1) as u32, stage: Stage::Backoff, ..s }, None)
        } else {
            (at(s, Stage::Announce(v)), None)
        },
        Stage::Announce(v) => (
            at(s, Stage::Release(v)),
            if p.notify {
                Some(Action::Notify)
            } else {
                None
            },
        ),
        Stage::Release(v) => (
            at(s, Stage::Finishing(v)),
            if p.loader {
                Some(Action::DisableLoader)
            } else {
                None
            },
        ),
        Stage::Finishing(v) => (at(s, Stage::Done(v)), Some(Action::Finish)),
        Stage::Done(_) => (s, None),
    }
}

/// The state after the transport's outcome, with verdict `v`, came in.
pub open spec fn delivered(s: SendState, v: Verdict) -> SendState {
    if s.stage is Awaiting {
        at(s, Stage::Settled(v))
    } else {
        s
    }
}

/// Transitions up to and including the next one that emits an action.
pub open spec fn advance(s: SendState) -> (SendState, Action)
    decreases attempts_left(s), rank(s.stage),
{
    if s.stage is Awaiting || s.stage is Done {
        (s, Action::Finish)
    } else {
        let (n, o) = stepped(s);
        match o {
            Some(a) => (n, a),
            None => advance(n),
        }
    }
}

/// The actions an optional action stands for.
pub open spec fn emitted(o: Option<Action>) -> Seq<Action> {
    match o {
        Some(a) => seq![a],
        None => seq![],
    }
}

/// Every action of a `send` from `s` on, where the transport call of
/// attempt `k` ends with verdict `transport(k)`.
pub open spec fn run(s: SendState, transport: spec_fn(u32) -> Verdict) -> Seq<Action>
    decreases attempts_left(s), rank(s.stage),
{
    if s.stage is Done {
        seq![]
    } else if s.stage is Awaiting {
        run(delivered(s, transport(s.attempt)), transport)
    } else {
        let (n, o) = stepped(s);
        emitted(o) + run(n, transport)
    }
}

/// The message shown for an outcome.
pub open spec fn notification_text(r: Result<HttpResponse, HttpError>) -> Seq<char> {
    match r {
        Ok(resp) => "Request completed successfully ("@ + decimal(resp.status as nat) + ")"@,
        Err(e) => "Request failed: "@ + error_text(e),
    }
}

/// The outcome of a request whose URL is empty.
pub open spec fn is_invalid_url(o: Option<Result<HttpResponse, HttpError>>) -> bool {
    o matches Some(Err(HttpError::InvalidUrl { url })) && url@.len() == 0
}

impl SendState {
    /// One transition, as `stepped` describes it.
    pub fn step(self) -> (r: (SendState, Option<Action>))
        requires
            self.attempt <= self.policy.retry_count,
        ensures
            r == stepped(self),
    {
        let p = self.policy;
        match self.stage {
            Stage::Opening => (
                SendState { stage: Stage::Backoff, ..self },
                if p.loader {
                    Some(Action::EnableLoader)
                } else {
                    None
                },
            ),
            Stage::Backoff => {
                let o = if self.attempt > 0 {
                    proof {
                        assert(p.retry_delay_ms * self.attempt <= u32::MAX as int * u32::MAX as int)
                            by (nonlinear_arith)
                            requires
                                p.retry_delay_ms <= u32::MAX,
                                self.attempt <= u32::MAX,
                        ;
                    }
                    Some(Action::Wait(p.retry_delay_ms as u64 * self.attempt as u64))
                } else {
                    None
                };
                (SendState { stage: Stage::Reset, ..self }, o)
            },
            Stage::Reset => (
                SendState { stage: Stage::Dispatch, ..self },
                if p.progress {
                    Some(Action::Progress(0))
                } else {
                    None
                },
            ),
            Stage::Dispatch => if !p.url_valid {
                (SendState { stage: Stage::Settled(Verdict::Fatal), ..self }, None)
            } else {
                (
                    SendState { stage: Stage::Send, ..self },
                    if p.progress {
                        Some(Action::Progress(50))
                    } else {
                        None
                    },
                )
            },
            Stage::Send => (SendState { stage: Stage::Awaiting, ..self }, Some(Action::Transmit)),
            Stage::Awaiting => (self, None),
            Stage::Settled(v) => (
                SendState { stage: Stage::Decide(v), ..self },
                if v == Verdict::Success && p.progress {
                    Some(Action::Progress(100))
                } else {
                    None
                },
            ),
            Stage::Decide(v) => if v == Verdict::Retryable && self.attempt < p.retry_count {
                (SendState { attempt: self.attempt + 1, stage: Stage::Backoff, ..self }, None)
            } else {
                (SendState { stage: Stage::Announce(v), ..self }, None)
            },
            Stage::Announce(v) => (
                SendState { stage: Stage::Release(v), ..self },
                if p.notify {
                    Some(Action::Notify)
                } else {
                    None
                },
            ),
            Stage::Release(v) => (
                SendState { stage: Stage::Finishing(v), ..self },
                if p.loader {
                    Some(Action::DisableLoader)
                } else {
                    None
                },
            ),
            Stage::Finishing(v) => (
                SendState { stage: Stage::Done(v), ..self },
                Some(Action::Finish),
            ),
            Stage::Done(_) => (self, None),
        }
    }
}

/// The verdict on a classified outcome.
pub fn verdict(r: &Result<HttpResponse, HttpError>) -> (v: Verdict)
    ensures
        v == verdict_of(*r),
{
    match r {
        Ok(_) => Verdict::Success,
        Err(e) => if e.is_retryable() {
            Verdict::Retryable
        } else {
            Verdict::Fatal
        },
    }
}

/// Runs the decisions of one `send`.
pub struct RetryExecutor {
    state: SendState,
    outcome: Option<Result<HttpResponse, HttpError>>,
}

impl RetryExecutor {
    #[verifier::type_invariant]
    spec fn inv(self) -> bool {
        let s = self.state;
        &&& s.attempt <= s.policy.retry_count
        &&& (stage_verdict(s.stage) matches Some(v) ==> (self.outcome matches Some(o)
            && verdict_of(o) == v))
        &&& (self.outcome matches Some(Ok(resp)) ==> is_success_status(resp.status))
        &&& !s.policy.url_valid ==> {
            &&& !(s.stage is Send)
            &&& !(s.stage is Awaiting)
            &&& (self.outcome is None || is_invalid_url(self.outcome))
        }
    }

    /// The executor's state.
    pub closed spec fn state(&self) -> SendState {
        self.state
    }

    /// The latest outcome, once there is one.
    pub closed spec fn outcome(&self) -> Option<Result<HttpResponse, HttpError>> {
        self.outcome
    }

    /// An executor for `config`; `has_sink` tells whether notification
    /// events have anywhere to go.
    pub fn new(config: &RequestConfig, has_sink: bool) -> (r: Self)
        ensures
            r.state() == initial(policy_for(*config, has_sink)),
            r.outcome() is None,
    {
        let policy = RetryPolicy {
            retry_count: config.retry_count,
            retry_delay_ms: config.retry_delay_ms,
            loader: config.with_loader && has_sink,
            progress: config.with_progress && has_sink,
            notify: config.with_notifications && has_sink,
            url_valid: config.url.as_str().unicode_len() > 0,
        };
        RetryExecutor { state: SendState { policy, attempt: 0, stage: Stage::Opening }, outcome: None }
    }

    /// The current stage.
    pub fn stage(&self) -> (r: Stage)
        ensures
            r == self.state().stage,
    {
        self.state.stage
    }

    /// The attempt under way, counting from 0.
    pub fn attempt(&self) -> (r: u32)
        ensures
            r == self.state().attempt,
    {
        self.state.attempt
    }

    /// The attempts allowed in all.
    pub fn attempts_allowed(&self) -> (r: u64)
        ensures
            r == self.state().policy.retry_count + 1,
    {
        self.state.policy.retry_count as u64 + 1
    }

    /// The next action. An empty URL settles the attempt with an
    /// `InvalidUrl` error without a transport call.
    pub fn next_action(&mut self) -> (a: Action)
        requires
            !(old(self).state().stage is Awaiting),
            !(old(self).state().stage is Done),
        ensures
            (final(self).state(), a) == advance(old(self).state()),
            old(self).state().policy.url_valid ==> final(self).outcome() == old(self).outcome(),
            !old(self).state().policy.url_valid ==> (final(self).outcome() == old(self).outcome()
                || is_invalid_url(final(self).outcome())),
            stage_verdict(final(self).state().stage) is Some ==> final(self).outcome() is Some,
    {
        proof {
            use_type_invariant(&*self);
        }
        let ghost target = advance(self.state);
        let ghost start = self.outcome;
        loop
            invariant
                !(self.state.stage is Awaiting),
                !(self.state.stage is Done),
                advance(self.state) == target,
                target == advance(old(self).state),
                start == old(self).outcome,
                self.state.policy == old(self).state.policy,
                self.state.policy.url_valid ==> self.outcome == start,
                !self.state.policy.url_valid ==> (self.outcome == start || is_invalid_url(
                    self.outcome,
                )),
            decreases attempts_left(self.state), rank(self.state.stage),
        {
            proof {
                use_type_invariant(&*self);
            }
            let (n, o) = self.state.step();
            if !self.state.policy.url_valid && self.state.stage == Stage::Dispatch {
                self.outcome = Some(Err(HttpError::InvalidUrl { url: String::new() }));
            }
            self.state = n;
            match o {
                Some(a) => {
                    return a;
                },
                None => {},
            }
        }
    }

    /// Hands the executor the classified outcome of the transport call.
    pub fn deliver(&mut self, outcome: Result<HttpResponse, HttpError>)
        requires
            old(self).state().stage is Awaiting,
            outcome matches Ok(resp) ==> is_success_status(resp.status),
        ensures
            final(self).state() == delivered(old(self).state(), verdict_of(outcome)),
            final(self).outcome() == Some(outcome),
    {
        proof {
            use_type_invariant(&*self);
        }
        let v = verdict(&outcome);
        self.outcome = Some(outcome);
        self.state = SendState { stage: Stage::Settled(v), ..self.state };
    }

    /// The message for the outcome at hand.
    pub fn notification(&self) -> (r: String)
        requires
            self.outcome() is Some,
        ensures
            r@ == notification_text(self.outcome().unwrap()),
    {
        match &self.outcome {
            Some(Ok(resp)) => {
                let code = decimal_string(resp.status as u64);
                String::from_str("Request completed successfully (").concat(code.as_str()).concat(
                    ")",
                )
            },
            Some(Err(e)) => {
                let text = e.to_string();
                String::from_str("Request failed: ").concat(text.as_str())
            },
            None => String::new(),
        }
    }

    /// The outcome to return from `send`: the last transport outcome, or
    /// the `InvalidUrl` error.
    pub fn finish(self) -> (r: Result<HttpResponse, HttpError>)
        requires
            self.state().stage is Done,
        ensures
            self.outcome() == Some(r),
            self.state().stage == Stage::Done(verdict_of(r)),
            r matches Ok(resp) ==> is_success_status(resp.status),
    {
        proof {
            use_type_invariant(&self);
        }
        match self.outcome {
            Some(r) => r,
            None => Err(HttpError::InvalidUrl { url: String::new() }),
        }
    }
}

} // verus!
