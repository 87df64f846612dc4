//! One turn at a time behind the bridge. A turn that is cancelled, or that fails in a way
//! that leaves the session unsure, ends the bridge with it.

use vstd::prelude::*;

use crate::ids::Uuid;
use crate::json::{Json, JsonModel};
use crate::providers::bridge::wire::{
    call_model, cancel_message, cancel_params, decode_turn_result, message_id, response_to,
    shutdown_message, turn_answer, turn_message, turn_params, validate_response_envelope,
};
use crate::providers::{
    after, cancel_error, cancel_terminal_reason, cancelled_because, end_error, error_of_cancel,
    later, CancelReason, HostEnd, ProviderError, ResultModel, SessionRequest, SessionResult, TerminalEvidence,
    TerminalReason, PROVIDER_TERMINAL_GRACE_MS,
};
use crate::text::same_text;

verus! {

/// How long before the request's own deadline its turn is given up.
pub const PROVIDER_DEADLINE_MARGIN_MS: u64 = 100;

/// What is known of the bridge.
#[derive(Clone, Copy, Debug, PartialEq, Eq, Structural)]
pub enum ActorState {
    Idle,
    Running,
    Cancelling,
    Closed,
}

/// The turn that runs. Times are milliseconds of one clock.
pub struct ActiveTurn {
    pub request_id: String,
    pub rpc_id: u64,
    /// Whether the request is still to be answered.
    pub unanswered: bool,
    pub deadline: u64,
    /// By when the bridge must have ended.
    pub close_deadline: Option<u64>,
    pub cancel_rpc_id: Option<u64>,
    pub shutdown_rpc_id: Option<u64>,
    /// Whether the end of the turn has been shown.
    pub terminal_sent: bool,
    pub terminal_reason: TerminalReason,
}

/// The sessions behind a bridge, one turn at a time.
pub struct BridgeActor {
    pub state: ActorState,
    /// The number that the next request is made under.
    pub next_rpc_id: u64,
    pub active: Option<ActiveTurn>,
    pub session_id: Option<Uuid>,
}

/// What a request for a turn leads to.
pub enum HandleStep {
    Refuse(SessionResult),
    /// The turn is to be started by a message.
    Start(Json),
}

/// What ending the turn that runs leads to: its request is answered, where it was not, and
/// two messages are to be written.
pub struct CloseStep {
    pub result: Option<SessionResult>,
    pub cancel: Json,
    pub shutdown: Json,
}

/// What a response of the bridge leads to.
pub enum ResponseStep {
    Nothing,
    /// The end of a turn that was cancelled is shown.
    Ended(TerminalEvidence),
    /// The turn is over.
    Finished(Option<SessionResult>, TerminalEvidence),
    /// The end of the turn is shown, and the bridge is ended.
    Close(TerminalEvidence, CloseStep),
}

/// What closing leads to.
pub enum ActorClose {
    /// Nothing runs: the bridge is told to end, and given the time for it.
    Shutdown(Json),
    /// The turn that runs is ended first.
    Turn(CloseStep),
}

/// What the end of the bridge leads to.
pub struct FinishStep {
    pub result: Option<SessionResult>,
    pub evidence: Option<TerminalEvidence>,
}

impl ActiveTurn {
    /// A turn that is being ended has been answered, and the requests that end it are its
    /// own.
    pub open spec fn wf(self) -> bool {
        &&& self.close_deadline is Some ==> !self.unanswered
        &&& self.cancel_rpc_id matches Some(id) ==> id > self.rpc_id
        &&& self.shutdown_rpc_id matches Some(id) ==> id > self.rpc_id
        &&& (self.cancel_rpc_id is Some && self.shutdown_rpc_id is Some) ==> self.cancel_rpc_id
            != self.shutdown_rpc_id
        &&& (self.cancel_rpc_id is Some || self.shutdown_rpc_id is Some || self.terminal_sent)
            ==> self.close_deadline is Some
    }
}

/// The reason that the bridge is told for a cancellation.
pub open spec fn bridge_reason(reason: CancelReason) -> Seq<char> {
    match reason {
        CancelReason::RequestTimeout => "request_timeout"@,
        CancelReason::ProviderDisconnected => "provider_disconnected"@,
        _ => "task_interrupted"@,
    }
}

fn bridge_reason_text(reason: CancelReason) -> (text: &'static str)
    ensures
        text@ == bridge_reason(reason),
{
    match reason {
        CancelReason::RequestTimeout => "request_timeout",
        CancelReason::TaskInterrupted | CancelReason::RequestCancelled => "task_interrupted",
        CancelReason::ProviderDisconnected => "provider_disconnected",
    }
}

/// When a turn is given up: some time before its request's deadline, but not before now.
pub open spec fn turn_deadline(deadline: u64, now: u64) -> u64 {
    if deadline >= PROVIDER_DEADLINE_MARGIN_MS && deadline - PROVIDER_DEADLINE_MARGIN_MS > now {
        (deadline - PROVIDER_DEADLINE_MARGIN_MS) as u64
    } else {
        now
    }
}

fn margin_deadline(deadline: u64, now: u64) -> (time: u64)
    ensures
        time == turn_deadline(deadline, now),
{
    if deadline >= PROVIDER_DEADLINE_MARGIN_MS && deadline - PROVIDER_DEADLINE_MARGIN_MS > now {
        deadline - PROVIDER_DEADLINE_MARGIN_MS
    } else {
        now
    }
}

/// Whether an answer is given where it was still to be, and only there.
pub open spec fn settles(
    unanswered: bool,
    model: ResultModel,
    result: Option<SessionResult>,
) -> bool {
    if unanswered {
        result matches Some(result) && result.model() == model
    } else {
        result is None
    }
}

/// Whether evidence shows the end of a request for a reason.
pub open spec fn shows(
    evidence: TerminalEvidence,
    request_id: Seq<char>,
    reason: TerminalReason,
) -> bool {
    evidence.request_id@ == request_id && evidence.reason == reason && !evidence.child_reaped
}

/// The turn as it is while it is being ended.
pub open spec fn closing(
    turn: ActiveTurn,
    next_rpc_id: u64,
    reason: TerminalReason,
    terminal_sent: bool,
    now: u64,
) -> ActiveTurn {
    ActiveTurn {
        unanswered: false,
        terminal_reason: reason,
        terminal_sent,
        cancel_rpc_id: Some(next_rpc_id),
        shutdown_rpc_id: Some((next_rpc_id + 1) as u64),
        close_deadline: Some(later(now, PROVIDER_TERMINAL_GRACE_MS)),
        ..turn
    }
}

/// Whether the turn that runs is being ended: it was answered, and the bridge is told.
pub open spec fn closes(
    before: BridgeActor,
    model: ResultModel,
    told: CancelReason,
    step: CloseStep,
) -> bool {
    let turn = before.active->0;
    &&& settles(turn.unanswered, model, step.result)
    &&& step.cancel.model() == call_model(
        before.next_rpc_id,
        "cancel"@,
        cancel_params(turn.request_id@, bridge_reason(told)),
    )
    &&& step.shutdown.model() == call_model(
        (before.next_rpc_id + 1) as u64,
        "shutdown"@,
        JsonModel::Object(Seq::empty()),
    )
}

/// The failures of a turn that leave the session unsure.
pub open spec fn unsure(error: ProviderError) -> bool {
    error is RequestTimeout || error is ProviderDisconnected || error is ClaudeProtocolError
        || error is BridgeProtocolError
}

fn is_unsure(error: ProviderError) -> (yes: bool)
    ensures
        yes == unsure(error),
{
    match error {
        ProviderError::RequestTimeout
        | ProviderError::ProviderDisconnected
        | ProviderError::ClaudeProtocolError
        | ProviderError::BridgeProtocolError => true,
        _ => false,
    }
}

/// Why a response of the bridge ends the session.
pub open spec fn response_fault(before: BridgeActor, value: JsonModel) -> Option<ProviderError> {
    match (before.active, value.at("id"@).unsigned()) {
        (None, _) => Some(ProviderError::ClaudeProtocolError),
        (_, None) => Some(ProviderError::ClaudeProtocolError),
        (Some(turn), Some(id)) => if id == turn.rpc_id {
            if !response_to(value, id) {
                Some(ProviderError::BridgeProtocolError)
            } else {
                match turn_answer(value) {
                    Ok(_) => None,
                    Err(error) => Some(error),
                }
            }
        } else if turn.cancel_rpc_id == Some(id) {
            if response_to(value, id) && value.at("result"@).at("cancelled"@).boolean() is Some {
                None
            } else {
                Some(ProviderError::BridgeProtocolError)
            }
        } else if turn.shutdown_rpc_id == Some(id) {
            if response_to(value, id) && value.at("result"@).text_at("state"@) == Some("closed"@) {
                None
            } else {
                Some(ProviderError::BridgeProtocolError)
            }
        } else {
            Some(ProviderError::ClaudeProtocolError)
        },
    }
}

/// Whether the response to a turn leads to a step.
pub open spec fn turn_response_leads(
    before: BridgeActor,
    result: ResultModel,
    session: Option<Uuid>,
    now: u64,
    after: BridgeActor,
    step: ResponseStep,
) -> bool {
    let turn = before.active->0;
    let kept = match session {
        Some(id) => Some(id),
        None => before.session_id,
    };
    if turn.close_deadline is Some {
        &&& after == (BridgeActor {
            session_id: kept,
            active: Some(ActiveTurn { terminal_sent: true, ..turn }),
            ..before
        })
        &&& if turn.terminal_sent {
            step is Nothing
        } else {
            step matches ResponseStep::Ended(evidence) && shows(
                evidence,
                turn.request_id@,
                turn.terminal_reason,
            )
        }
    } else if result matches ResultModel::Failure(error) && unsure(error) {
        let timed_out = result->Failure_0 is RequestTimeout;
        let reason = if timed_out {
            TerminalReason::RequestTimeout
        } else {
            TerminalReason::HostError
        };
        let told = if timed_out {
            CancelReason::RequestTimeout
        } else {
            CancelReason::ProviderDisconnected
        };
        &&& after == (BridgeActor {
            state: ActorState::Cancelling,
            session_id: kept,
            next_rpc_id: (before.next_rpc_id + 2) as u64,
            active: Some(closing(turn, before.next_rpc_id, reason, true, now)),
        })
        &&& step matches ResponseStep::Close(evidence, close) && shows(
            evidence,
            turn.request_id@,
            reason,
        ) && closes(before, result, told, close)
    } else {
        &&& after == (BridgeActor {
            state: ActorState::Idle,
            session_id: kept,
            active: None,
            ..before
        })
        &&& step matches ResponseStep::Finished(given, evidence) && settles(
            turn.unanswered,
            result,
            given,
        ) && shows(evidence, turn.request_id@, TerminalReason::TurnEnded)
    }
}

/// Whether a response that does not end the session leads to a step.
pub open spec fn response_leads(
    before: BridgeActor,
    value: JsonModel,
    now: u64,
    after: BridgeActor,
    step: ResponseStep,
) -> bool {
    let turn = before.active->0;
    let id = value.at("id"@).unsigned()->0;
    if id == turn.rpc_id {
        turn_answer(value) matches Ok((result, session)) && turn_response_leads(
            before,
            result,
            session,
            now,
            after,
            step,
        )
    } else {
        &&& step is Nothing
        &&& after == (BridgeActor {
            active: Some(
                if turn.cancel_rpc_id == Some(id) {
                    ActiveTurn { cancel_rpc_id: None, ..turn }
                } else {
                    ActiveTurn { shutdown_rpc_id: None, ..turn }
                },
            ),
            ..before
        })
    }
}

/// Why a request for a turn is refused.
pub open spec fn handle_fault(actor: BridgeActor, request: SessionRequest, now: u64) -> Option<
    ProviderError,
> {
    if actor.active is Some {
        Some(ProviderError::SessionBusy)
    } else if !(actor.state is Idle) {
        Some(ProviderError::ProviderNotReady)
    } else if request.deadline <= now {
        Some(ProviderError::RequestTimeout)
    } else {
        None
    }
}

/// The error that ends the session: what is no message breaks the protocol; a bridge that
/// does not end in time after its turn was cancelled has run out of time; anything else but
/// a refused message is the loss of the bridge.
pub open spec fn fatal_error(end: HostEnd) -> ProviderError {
    end_error(end, ProviderError::BridgeProtocolError)
}

/// What a request is answered whose bridge has ended.
pub open spec fn visible_error(fatal: ProviderError) -> ProviderError {
    match fatal {
        ProviderError::RequestTimeout => ProviderError::RequestTimeout,
        ProviderError::BridgeProtocolError => ProviderError::BridgeProtocolError,
        ProviderError::ClaudeProtocolError => ProviderError::ClaudeProtocolError,
        _ => ProviderError::ProviderDisconnected,
    }
}

impl BridgeActor {
    /// A turn runs exactly where the state says so.
    pub open spec fn wf(self) -> bool {
        &&& self.active matches Some(turn) ==> turn.wf() && turn.rpc_id < self.next_rpc_id && (
        turn.cancel_rpc_id matches Some(id) ==> id < self.next_rpc_id) && (
        turn.shutdown_rpc_id matches Some(id) ==> id < self.next_rpc_id)
        &&& match self.state {
            ActorState::Idle | ActorState::Closed => self.active is None,
            ActorState::Running => self.active matches Some(turn) && turn.close_deadline is None,
            ActorState::Cancelling => self.active matches Some(turn) && turn.close_deadline
                is Some,
        }
    }

    /// There are numbers for two more requests.
    pub open spec fn can_call(self) -> bool {
        self.next_rpc_id <= u64::MAX - 2
    }

    /// The sessions of a bridge that has been initialized. The first request did that.
    pub fn new(session_id: Option<Uuid>) -> (actor: BridgeActor)
        ensures
            actor.wf(),
            actor == (BridgeActor {
                state: ActorState::Idle,
                next_rpc_id: 2,
                active: None,
                session_id,
            }),
    {
        BridgeActor { state: ActorState::Idle, next_rpc_id: 2, active: None, session_id }
    }

    pub fn is_ready(&self) -> (ready: bool)
        ensures
            ready == self.state is Idle,
    {
        self.state == ActorState::Idle
    }

    pub fn session_id(&self) -> (id: Option<Uuid>)
        ensures
            id == self.session_id,
    {
        self.session_id
    }

    /// By when the request must have been answered, and by when the bridge must have ended.
    pub fn actor_deadlines(&self) -> (deadlines: (Option<u64>, Option<u64>))
        ensures
            deadlines == (match self.active {
                None => (None::<u64>, None::<u64>),
                Some(turn) => (
                    if turn.close_deadline is None {
                        Some(turn.deadline)
                    } else {
                        None
                    },
                    turn.close_deadline,
                ),
            }),
    {
        match &self.active {
            None => (None, None),
            Some(turn) => {
                let request = match turn.close_deadline {
                    None => Some(turn.deadline),
                    Some(_) => None,
                };
                (request, turn.close_deadline)
            },
        }
    }

    /// A turn is asked for.
    pub fn start_turn(&mut self, request: SessionRequest, now: u64) -> (step: HandleStep)
        requires
            old(self).wf(),
            old(self).can_call(),
        ensures
            final(self).wf(),
            match handle_fault(*old(self), request, now) {
                Some(fault) => {
                    &&& *final(self) == *old(self)
                    &&& step == HandleStep::Refuse(SessionResult::Failure { error: fault })
                },
                None => {
                    &&& step matches HandleStep::Start(message) && message.model() == call_model(
                        old(self).next_rpc_id,
                        "turn"@,
                        turn_params(
                            request.request_id@,
                            request.content@,
                            (request.deadline - now) as u64,
                        ),
                    )
                    &&& *final(self) == (BridgeActor {
                        state: ActorState::Running,
                        next_rpc_id: (old(self).next_rpc_id + 1) as u64,
                        active: Some(
                            ActiveTurn {
                                request_id: request.request_id,
                                rpc_id: old(self).next_rpc_id,
                                unanswered: true,
                                deadline: turn_deadline(request.deadline, now),
                                close_deadline: None,
                                cancel_rpc_id: None,
                                shutdown_rpc_id: None,
                                terminal_sent: false,
                                terminal_reason: TerminalReason::TurnEnded,
                            },
                        ),
                        ..*old(self)
                    })
                },
            },
    {
        if self.active.is_some() {
            return HandleStep::Refuse(SessionResult::failure(ProviderError::SessionBusy));
        }
        if self.state != ActorState::Idle {
            return HandleStep::Refuse(SessionResult::failure(ProviderError::ProviderNotReady));
        }
        if request.deadline <= now {
            return HandleStep::Refuse(SessionResult::failure(ProviderError::RequestTimeout));
        }
        let rpc_id = self.next_rpc_id;
        self.next_rpc_id = self.next_rpc_id + 1;
        let message = turn_message(
            rpc_id,
            request.request_id.as_str(),
            request.content.as_str(),
            request.deadline - now,
        );
        self.active = Some(
            ActiveTurn {
                request_id: request.request_id,
                rpc_id,
                unanswered: true,
                deadline: margin_deadline(request.deadline, now),
                close_deadline: None,
                cancel_rpc_id: None,
                shutdown_rpc_id: None,
                terminal_sent: false,
                terminal_reason: TerminalReason::TurnEnded,
            },
        );
        self.state = ActorState::Running;
        HandleStep::Start(message)
    }

    /// The message that starts a turn could not be written: no turn runs, and its request
    /// is answered.
    pub fn start_failed(&mut self) -> (result: SessionResult)
        requires
            old(self).wf(),
            old(self).state is Running,
        ensures
            final(self).wf(),
            result == (SessionResult::Failure { error: ProviderError::ProviderDisconnected }),
            *final(self) == (BridgeActor { state: ActorState::Idle, active: None, ..*old(self) }),
    {
        self.active = None;
        self.state = ActorState::Idle;
        SessionResult::failure(ProviderError::ProviderDisconnected)
    }

    /// The turn that runs is ended, with an answer and a reason.
    fn begin_close(
        &mut self,
        turn: ActiveTurn,
        result: SessionResult,
        reason: TerminalReason,
        told: CancelReason,
        terminal_sent: bool,
        now: u64,
    ) -> (step: CloseStep)
        requires
            old(self).active is None,
            old(self).can_call(),
            turn.rpc_id < old(self).next_rpc_id,
        ensures
            final(self).wf(),
            *final(self) == (BridgeActor {
                state: ActorState::Cancelling,
                next_rpc_id: (old(self).next_rpc_id + 2) as u64,
                active: Some(closing(turn, old(self).next_rpc_id, reason, terminal_sent, now)),
                ..*old(self)
            }),
            closes(
                BridgeActor { active: Some(turn), ..*old(self) },
                result.model(),
                told,
                step,
            ),
    {
        let mut turn = turn;
        let given = if turn.unanswered {
            Some(result)
        } else {
            None
        };
        let cancel_id = self.next_rpc_id;
        let shutdown_id = self.next_rpc_id + 1;
        self.next_rpc_id = self.next_rpc_id + 2;
        let cancel = cancel_message(cancel_id, turn.request_id.as_str(), bridge_reason_text(told));
        let shutdown = shutdown_message(shutdown_id);
        turn.unanswered = false;
        turn.terminal_reason = reason;
        turn.terminal_sent = terminal_sent;
        turn.cancel_rpc_id = Some(cancel_id);
        turn.shutdown_rpc_id = Some(shutdown_id);
        turn.close_deadline = Some(after(now, PROVIDER_TERMINAL_GRACE_MS));
        self.active = Some(turn);
        self.state = ActorState::Cancelling;
        CloseStep { result: given, cancel, shutdown }
    }

    /// The turn of a request is to be cancelled. What is to be done; nothing where it is
    /// being ended already.
    pub fn cancel_turn(&mut self, request_id: &str, reason: CancelReason, now: u64) -> (step: Result<
        Option<CloseStep>,
        ProviderError,
    >)
        requires
            old(self).wf(),
            old(self).can_call(),
        ensures
            final(self).wf(),
            if !(old(self).active matches Some(turn) && turn.request_id@ == request_id@) {
                &&& step == Err::<Option<CloseStep>, ProviderError>(ProviderError::ProviderNotReady)
                &&& *final(self) == *old(self)
            } else if old(self).active->0.close_deadline is Some {
                &&& step matches Ok(None)
                &&& *final(self) == *old(self)
            } else {
                &&& step matches Ok(Some(step)) && closes(
                    *old(self),
                    ResultModel::Failure(cancel_error(reason)),
                    reason,
                    step,
                )
                &&& *final(self) == (BridgeActor {
                    state: ActorState::Cancelling,
                    next_rpc_id: (old(self).next_rpc_id + 2) as u64,
                    active: Some(
                        closing(
                            old(self).active->0,
                            old(self).next_rpc_id,
                            cancelled_because(reason),
                            false,
                            now,
                        ),
                    ),
                    ..*old(self)
                })
            },
    {
        let open = match &self.active {
            Some(turn) => {
                if !same_text(turn.request_id.as_str(), request_id) {
                    return Err(ProviderError::ProviderNotReady);
                }
                turn.close_deadline.is_none()
            },
            None => {
                return Err(ProviderError::ProviderNotReady);
            },
        };
        if !open {
            return Ok(None);
        }
        match self.active.take() {
            Some(turn) => {
                assert(BridgeActor { active: Some(turn), ..*self } == *old(self));
                let result = SessionResult::failure(error_of_cancel(reason));
                Ok(
                    Some(
                        self.begin_close(
                            turn,
                            result,
                            cancel_terminal_reason(reason),
                            reason,
                            false,
                            now,
                        ),
                    ),
                )
            },
            None => Ok(None),
        }
    }

    /// The bridge is to be closed.
    pub fn close_actor(&mut self, now: u64) -> (step: ActorClose)
        requires
            old(self).wf(),
            old(self).can_call(),
        ensures
            final(self).wf(),
            match old(self).active {
                None => {
                    &&& *final(self) == *old(self)
                    &&& step matches ActorClose::Shutdown(message) && message.model() == call_model(
                        old(self).next_rpc_id,
                        "shutdown"@,
                        JsonModel::Object(Seq::empty()),
                    )
                },
                Some(turn) => {
                    &&& step matches ActorClose::Turn(close) && closes(
                        *old(self),
                        ResultModel::Failure(ProviderError::ProviderDisconnected),
                        CancelReason::ProviderDisconnected,
                        close,
                    )
                    &&& *final(self) == (BridgeActor {
                        state: ActorState::Cancelling,
                        next_rpc_id: (old(self).next_rpc_id + 2) as u64,
                        active: Some(
                            closing(
                                turn,
                                old(self).next_rpc_id,
                                TerminalReason::SessionEnded,
                                turn.terminal_sent,
                                now,
                            ),
                        ),
                        ..*old(self)
                    })
                },
            },
    {
        match self.active.take() {
            None => ActorClose::Shutdown(shutdown_message(self.next_rpc_id)),
            Some(turn) => {
                assert(BridgeActor { active: Some(turn), ..*self } == *old(self));
                let shown = turn.terminal_sent;
                ActorClose::Turn(
                    self.begin_close(
                        turn,
                        SessionResult::failure(ProviderError::ProviderDisconnected),
                        TerminalReason::SessionEnded,
                        CancelReason::ProviderDisconnected,
                        shown,
                        now,
                    ),
                )
            },
        }
    }

    /// The time of the request is over.
    pub fn handle_request_timeout(&mut self, now: u64) -> (step: CloseStep)
        requires
            old(self).wf(),
            old(self).can_call(),
            old(self).state is Running,
        ensures
            final(self).wf(),
            closes(
                *old(self),
                ResultModel::Failure(ProviderError::RequestTimeout),
                CancelReason::RequestTimeout,
                step,
            ),
            *final(self) == (BridgeActor {
                state: ActorState::Cancelling,
                next_rpc_id: (old(self).next_rpc_id + 2) as u64,
                active: Some(
                    closing(
                        old(self).active->0,
                        old(self).next_rpc_id,
                        TerminalReason::RequestTimeout,
                        false,
                        now,
                    ),
                ),
                ..*old(self)
            }),
    {
        let turn = self.active.take().unwrap();
        assert(BridgeActor { active: Some(turn), ..*self } == *old(self));
        self.begin_close(
            turn,
            SessionResult::failure(ProviderError::RequestTimeout),
            TerminalReason::RequestTimeout,
            CancelReason::RequestTimeout,
            false,
            now,
        )
    }

    /// The response to the turn that runs.
    fn turn_response(&mut self, turn: ActiveTurn, value: &Json, now: u64) -> (step: Result<
        ResponseStep,
        ProviderError,
    >)
        requires
            old(self).active is None,
            (BridgeActor { active: Some(turn), ..*old(self) }).wf(),
            old(self).can_call(),
        ensures
            match turn_answer(value.model()) {
                Ok((result, session)) => final(self).wf() && (step matches Ok(step)
                    && turn_response_leads(
                    BridgeActor { active: Some(turn), ..*old(self) },
                    result,
                    session,
                    now,
                    *final(self),
                    step,
                )),
                Err(error) => step == Err::<ResponseStep, ProviderError>(error) && *final(self) == (
                BridgeActor { active: Some(turn), ..*old(self) }),
            },
    {
        let answer = match decode_turn_result(value) {
            Ok(answer) => answer,
            Err(error) => {
                self.active = Some(turn);
                return Err(error);
            },
        };
        if let Some(id) = answer.session_id {
            self.session_id = Some(id);
        }
        let mut turn = turn;
        let request_id = turn.request_id.as_str().to_owned();
        if turn.close_deadline.is_some() {
            let shown = turn.terminal_sent;
            let reason = turn.terminal_reason;
            turn.terminal_sent = true;
            self.active = Some(turn);
            if shown {
                return Ok(ResponseStep::Nothing);
            }
            return Ok(
                ResponseStep::Ended(TerminalEvidence { request_id, reason, child_reaped: false }),
            );
        }
        let result = answer.result;
        if let Some(error) = result.error() {
            if is_unsure(error) {
                let (reason, told) = if error == ProviderError::RequestTimeout {
                    (TerminalReason::RequestTimeout, CancelReason::RequestTimeout)
                } else {
                    (TerminalReason::HostError, CancelReason::ProviderDisconnected)
                };
                let close = self.begin_close(turn, result, reason, told, true, now);
                return Ok(
                    ResponseStep::Close(
                        TerminalEvidence { request_id, reason, child_reaped: false },
                        close,
                    ),
                );
            }
        }
        self.state = ActorState::Idle;
        let given = if turn.unanswered {
            Some(result)
        } else {
            None
        };
        Ok(
            ResponseStep::Finished(
                given,
                TerminalEvidence {
                    request_id,
                    reason: TerminalReason::TurnEnded,
                    child_reaped: false,
                },
            ),
        )
    }

    /// A response of the bridge.
    pub fn process_response(&mut self, value: &Json, now: u64) -> (step: Result<
        ResponseStep,
        ProviderError,
    >)
        requires
            old(self).wf(),
            old(self).can_call(),
        ensures
            final(self).wf(),
            match response_fault(*old(self), value.model()) {
                Some(fault) => step == Err::<ResponseStep, ProviderError>(fault) && *final(self)
                    == *old(self),
                None => step matches Ok(step) && response_leads(
                    *old(self),
                    value.model(),
                    now,
                    *final(self),
                    step,
                ),
            },
    {
        let (rpc_id, cancel_id, shutdown_id) = match &self.active {
            Some(turn) => (turn.rpc_id, turn.cancel_rpc_id, turn.shutdown_rpc_id),
            None => {
                return Err(ProviderError::ClaudeProtocolError);
            },
        };
        let id = match message_id(value) {
            Some(id) => id,
            None => {
                return Err(ProviderError::ClaudeProtocolError);
            },
        };
        if id == rpc_id {
            if let Err(error) = validate_response_envelope(value, id) {
                return Err(error);
            }
            let turn = self.active.take().unwrap();
            assert(BridgeActor { active: Some(turn), ..*self } == *old(self));
            return self.turn_response(turn, value, now);
        }
        let cancelled = match cancel_id {
            Some(cancel_id) => cancel_id == id,
            None => false,
        };
        if cancelled {
            if let Err(error) = validate_response_envelope(value, id) {
                return Err(error);
            }
            let told = match value.get("result") {
                Some(result) => match result.get("cancelled") {
                    Some(flag) => flag.as_bool().is_some(),
                    None => false,
                },
                None => false,
            };
            if !told {
                return Err(ProviderError::BridgeProtocolError);
            }
            let mut turn = self.active.take().unwrap();
            turn.cancel_rpc_id = None;
            self.active = Some(turn);
            return Ok(ResponseStep::Nothing);
        }
        let shut = match shutdown_id {
            Some(shutdown_id) => shutdown_id == id,
            None => false,
        };
        if shut {
            if let Err(error) = validate_response_envelope(value, id) {
                return Err(error);
            }
            let closed = match value.get("result") {
                Some(result) => result.says("state", "closed"),
                None => false,
            };
            if !closed {
                return Err(ProviderError::BridgeProtocolError);
            }
            let mut turn = self.active.take().unwrap();
            turn.shutdown_rpc_id = None;
            self.active = Some(turn);
            return Ok(ResponseStep::Nothing);
        }
        Err(ProviderError::ClaudeProtocolError)
    }

    /// The bridge has ended, for a reason: the turn that ran is answered, and its end shown
    /// where it was not.
    pub fn finish(&mut self, end: HostEnd, reaped: bool) -> (step: FinishStep)
        requires
            old(self).wf(),
        ensures
            final(self).wf(),
            *final(self) == (BridgeActor { state: ActorState::Closed, active: None, ..*old(self) }),
            match old(self).active {
                None => step.result is None && step.evidence is None,
                Some(turn) => {
                    &&& settles(
                        turn.unanswered,
                        ResultModel::Failure(visible_error(fatal_error(end))),
                        step.result,
                    )
                    &&& if turn.terminal_sent {
                        step.evidence is None
                    } else {
                        step.evidence matches Some(evidence) && evidence.request_id@
                            == turn.request_id@ && evidence.reason == turn.terminal_reason
                            && evidence.child_reaped == reaped
                    }
                },
            },
    {
        let fatal_error = end.error(ProviderError::BridgeProtocolError);
        self.state = ActorState::Closed;
        match self.active.take() {
            None => FinishStep { result: None, evidence: None },
            Some(turn) => {
                let visible = match fatal_error {
                    ProviderError::RequestTimeout => ProviderError::RequestTimeout,
                    ProviderError::BridgeProtocolError => ProviderError::BridgeProtocolError,
                    ProviderError::ClaudeProtocolError => ProviderError::ClaudeProtocolError,
                    _ => ProviderError::ProviderDisconnected,
                };
                let result = if turn.unanswered {
                    Some(SessionResult::failure(visible))
                } else {
                    None
                };
                let evidence = if turn.terminal_sent {
                    None
                } else {
                    Some(
                        TerminalEvidence {
                            request_id: turn.request_id,
                            reason: turn.terminal_reason,
                            child_reaped: reaped,
                        },
                    )
                };
                FinishStep { result, evidence }
            },
        }
    }
}

/// A request is answered once, and its end is shown once: no response answers or shows
/// again what was before.
pub proof fn turns_end_once(
    before: BridgeActor,
    value: JsonModel,
    now: u64,
    after: BridgeActor,
    step: ResponseStep,
)
    requires
        before.wf(),
        before.active is Some,
        response_leads(before, value, now, after, step),
    ensures
        !before.active->0.unanswered ==> !(step matches ResponseStep::Finished(Some(_), _)) && !(
        step matches ResponseStep::Close(_, close) && close.result is Some) && (
        after.active matches Some(turn) ==> !turn.unanswered),
        before.active->0.terminal_sent ==> step is Nothing && (after.active matches Some(turn)
            && turn.terminal_sent),
{
}

} // verus!
