//! One turn at a time in a thread of the app server: how it is started, what is collected
//! of it, how it is cancelled and how it ends.

use vstd::prelude::*;

use crate::json::{models, Json, JsonModel};
use crate::providers::codex::wire::{
    answer_model, answer_server_request, answers, call_model, id_in, interrupt_message,
    interrupt_params, is_server_request, response_id, response_thing, server_request, turn_message,
    turn_params,
};
use crate::providers::{
    after, cancel_error, cancel_terminal_reason, cancelled_because, end_error, error_of_cancel,
    later, CancelReason, HostEnd, ProviderError, ResultModel, SessionRequest, SessionResult, TerminalEvidence,
    TerminalReason, MAX_EARLY_NOTIFICATIONS, MAX_PROVIDER_FRAME_BYTES, PROVIDER_TERMINAL_GRACE_MS,
};
use crate::text::{join_lines, lines_joined, opt_text, same_text, texts};

verus! {

/// What is known of the app server.
#[derive(Clone, Copy, Debug, PartialEq, Eq, Structural)]
pub enum ActorState {
    Idle,
    Running,
    Cancelling,
    Closed,
}

/// The turn that runs. Times are milliseconds of one clock.
pub struct ActiveTurn {
    pub request_id: String,
    /// Whether the request is still to be answered.
    pub unanswered: bool,
    /// The turn's identifier, once the app server has given it one.
    pub turn_id: Option<String>,
    pub start_rpc_id: u64,
    pub start_rpc_deadline: u64,
    pub deadline: u64,
    /// By when a cancelled turn must have ended.
    pub cancel_deadline: Option<u64>,
    pub interrupt_rpc_id: Option<u64>,
    pub interrupt_sent: bool,
    pub final_messages: Vec<String>,
    pub fallback_message: Option<String>,
    /// What arrived before the turn had an identifier.
    pub early_events: Vec<Json>,
    pub early_bytes: usize,
    pub terminal_reason: TerminalReason,
}

/// The messages of a turn that its answer is made of.
#[verifier::ext_equal]
pub struct Collected {
    pub finals: Seq<Seq<char>>,
    pub fallback: Option<Seq<char>>,
}

/// What a notification means for a turn.
pub enum NoteEffect {
    Nothing,
    /// A message of the answer.
    Final(Seq<char>),
    /// A message that is the answer where there is no other.
    Fallback(Seq<char>),
    /// The turn is over, with a status.
    Completed(Seq<char>),
}

/// What a notification means for a turn of a thread. Only what speaks of exactly that
/// thread and that turn counts.
pub open spec fn note_effect(
    thread_id: Seq<char>,
    turn_id: Option<Seq<char>>,
    value: JsonModel,
) -> NoteEffect {
    let method = value.text_at("method"@);
    let params = value.at("params"@);
    if !(params is Object) || params.text_at("threadId"@) != Some(thread_id) {
        NoteEffect::Nothing
    } else if method == Some("item/completed"@) {
        let item = params.at("item"@);
        if params.text_at("turnId"@) != turn_id || item.text_at("type"@) != Some("agentMessage"@) {
            NoteEffect::Nothing
        } else {
            match item.text_at("text"@) {
                None => NoteEffect::Nothing,
                Some(text) => match item.get("phase"@) {
                    None => NoteEffect::Fallback(text),
                    Some(phase) => if phase == JsonModel::Text("final_answer"@) {
                        NoteEffect::Final(text)
                    } else {
                        NoteEffect::Nothing
                    },
                },
            }
        }
    } else if method == Some("turn/completed"@) {
        let turn = params.at("turn"@);
        if !(turn is Object) || turn.text_at("id"@) != turn_id {
            NoteEffect::Nothing
        } else {
            match turn.text_at("status"@) {
                Some(status) => NoteEffect::Completed(status),
                None => NoteEffect::Nothing,
            }
        }
    } else {
        NoteEffect::Nothing
    }
}

/// What has been collected once a notification was seen.
pub open spec fn collect(collected: Collected, effect: NoteEffect) -> Collected {
    match effect {
        NoteEffect::Final(text) => Collected { finals: collected.finals.push(text), ..collected },
        NoteEffect::Fallback(text) => Collected { fallback: Some(text), ..collected },
        _ => collected,
    }
}

/// The answer of a turn that is over.
pub open spec fn completion(collected: Collected, status: Seq<char>) -> ResultModel {
    if status == "completed"@ {
        if collected.finals.len() > 0 {
            ResultModel::Success(lines_joined(collected.finals))
        } else {
            match collected.fallback {
                Some(text) => ResultModel::Success(text),
                None => ResultModel::Failure(ProviderError::CodexNoFinalResponse),
            }
        }
    } else if status == "interrupted"@ {
        ResultModel::Failure(ProviderError::CodexTurnInterrupted)
    } else if status == "failed"@ {
        ResultModel::Failure(ProviderError::CodexTurnFailed)
    } else {
        ResultModel::Failure(ProviderError::CodexProtocolError)
    }
}

/// What has been collected, and the answer, if the turn is over.
pub struct Replay {
    pub collected: Collected,
    pub result: Option<ResultModel>,
}

/// What the first notifications of some come to, up to the one that ends the turn.
pub open spec fn replay(
    thread_id: Seq<char>,
    turn_id: Option<Seq<char>>,
    collected: Collected,
    events: Seq<JsonModel>,
    n: int,
) -> Replay
    decreases n,
{
    if n <= 0 {
        Replay { collected, result: None }
    } else {
        let before = replay(thread_id, turn_id, collected, events, n - 1);
        if before.result is Some {
            before
        } else {
            let effect = note_effect(thread_id, turn_id, events[n - 1]);
            match effect {
                NoteEffect::Completed(status) => Replay {
                    collected: before.collected,
                    result: Some(completion(before.collected, status)),
                },
                _ => Replay { collected: collect(before.collected, effect), result: None },
            }
        }
    }
}

/// Once a turn is over, no notification changes what it came to.
proof fn replay_stays(
    thread_id: Seq<char>,
    turn_id: Option<Seq<char>>,
    collected: Collected,
    events: Seq<JsonModel>,
    n: int,
    m: int,
)
    requires
        0 <= n <= m,
        replay(thread_id, turn_id, collected, events, n).result is Some,
    ensures
        replay(thread_id, turn_id, collected, events, m) == replay(
            thread_id,
            turn_id,
            collected,
            events,
            n,
        ),
    decreases m - n,
{
    if n < m {
        replay_stays(thread_id, turn_id, collected, events, n, m - 1);
    }
}

/// Whether a notification is one that a turn of a thread waits for.
pub open spec fn relevant(thread_id: Seq<char>, value: JsonModel) -> bool {
    &&& value.text_at("method"@) == Some("item/completed"@) || value.text_at("method"@) == Some(
        "turn/completed"@,
    )
    &&& value.at("params"@) is Object
    &&& value.at("params"@).text_at("threadId"@) == Some(thread_id)
}

pub fn is_relevant_notification(thread_id: &str, value: &Json) -> (yes: bool)
    ensures
        yes == relevant(thread_id@, value.model()),
{
    (value.says("method", "item/completed") || value.says("method", "turn/completed"))
        && match value.get("params") {
        Some(params) => params.is_object() && params.says("threadId", thread_id),
        None => false,
    }
}

impl ActiveTurn {
    pub open spec fn collected(self) -> Collected {
        Collected { finals: texts(self.final_messages@), fallback: opt_text(self.fallback_message) }
    }

    /// What arrived early is bounded, and held only until the turn has an identifier; a turn
    /// is interrupted only by its identifier and once it is cancelled, and what is
    /// cancelled has been answered.
    pub open spec fn wf(self) -> bool {
        &&& self.early_events@.len() <= MAX_EARLY_NOTIFICATIONS
        &&& self.early_bytes <= MAX_PROVIDER_FRAME_BYTES
        &&& self.turn_id is Some ==> self.early_events@.len() == 0
        &&& self.interrupt_sent == self.interrupt_rpc_id is Some
        &&& self.interrupt_sent ==> self.turn_id is Some && self.cancel_deadline is Some
        &&& self.cancel_deadline is Some ==> !self.unanswered
    }

    /// A notification for the turn. The turn's answer, if it is over.
    pub fn apply_notification(&mut self, thread_id: &str, value: &Json) -> (result: Option<
        SessionResult,
    >)
        ensures
            ({
                let effect = note_effect(
                    thread_id@,
                    opt_text(old(self).turn_id),
                    value.model(),
                );
                &&& *final(self) == (ActiveTurn {
                    final_messages: final(self).final_messages,
                    fallback_message: final(self).fallback_message,
                    ..*old(self)
                })
                &&& final(self).collected() == collect(old(self).collected(), effect)
                &&& match effect {
                    NoteEffect::Completed(status) => result matches Some(result) && result.model()
                        == completion(old(self).collected(), status),
                    _ => result is None,
                }
            }),
    {
        let params = match value.get("params") {
            Some(params) => params,
            None => {
                return None;
            },
        };
        if !params.is_object() || !params.says("threadId", thread_id) {
            return None;
        }
        if value.says("method", "item/completed") {
            let ours = match (params.text_at("turnId"), &self.turn_id) {
                (Some(told), Some(turn)) => same_text(told, turn.as_str()),
                (None, None) => true,
                _ => false,
            };
            if !ours {
                return None;
            }
            let item = match params.get("item") {
                Some(item) => item,
                None => {
                    return None;
                },
            };
            if !item.says("type", "agentMessage") {
                return None;
            }
            let text = match item.text_at("text") {
                Some(text) => text,
                None => {
                    return None;
                },
            };
            match item.get("phase") {
                None => {
                    self.fallback_message = Some(text.to_owned());
                },
                Some(phase) => {
                    let last = match phase.as_text() {
                        Some(phase) => same_text(phase, "final_answer"),
                        None => false,
                    };
                    if last {
                        let ghost before = self.final_messages@;
                        self.final_messages.push(text.to_owned());
                        assert(texts(self.final_messages@) =~= texts(before).push(text@));
                    }
                },
            }
            return None;
        }
        if !value.says("method", "turn/completed") {
            return None;
        }
        let completed = match params.get("turn") {
            Some(completed) => completed,
            None => {
                return None;
            },
        };
        if !completed.is_object() {
            return None;
        }
        let ours = match (completed.text_at("id"), &self.turn_id) {
            (Some(told), Some(turn)) => same_text(told, turn.as_str()),
            (None, None) => true,
            _ => false,
        };
        if !ours {
            return None;
        }
        let status = match completed.text_at("status") {
            Some(status) => status,
            None => {
                return None;
            },
        };
        Some(
            if same_text(status, "completed") {
                if self.final_messages.len() > 0 {
                    SessionResult::success(join_lines(&self.final_messages))
                } else {
                    match &self.fallback_message {
                        Some(text) => SessionResult::success(text.as_str().to_owned()),
                        None => SessionResult::failure(ProviderError::CodexNoFinalResponse),
                    }
                }
            } else if same_text(status, "interrupted") {
                SessionResult::failure(ProviderError::CodexTurnInterrupted)
            } else if same_text(status, "failed") {
                SessionResult::failure(ProviderError::CodexTurnFailed)
            } else {
                SessionResult::failure(ProviderError::CodexProtocolError)
            },
        )
    }

    /// What arrived before the turn had an identifier is seen now. The turn's answer, if it
    /// is over.
    fn replay_early(&mut self, thread_id: &str) -> (result: Option<SessionResult>)
        ensures
            ({
                let seen = replay(
                    thread_id@,
                    opt_text(old(self).turn_id),
                    old(self).collected(),
                    models(old(self).early_events@),
                    old(self).early_events@.len() as int,
                );
                &&& *final(self) == (ActiveTurn {
                    final_messages: final(self).final_messages,
                    fallback_message: final(self).fallback_message,
                    early_events: final(self).early_events,
                    early_bytes: 0,
                    ..*old(self)
                })
                &&& final(self).early_events@.len() == 0
                &&& final(self).collected() == seen.collected
                &&& match seen.result {
                    Some(model) => result matches Some(result) && result.model() == model,
                    None => result is None,
                }
            }),
    {
        let mut early: Vec<Json> = Vec::new();
        std::mem::swap(&mut early, &mut self.early_events);
        self.early_bytes = 0;
        let ghost begun = *self;
        let ghost events = models(early@);
        let ghost turn_id = opt_text(self.turn_id);
        let ghost first = old(self).collected();
        let mut i: usize = 0;
        while i < early.len()
            invariant
                i <= early@.len(),
                early@ == old(self).early_events@,
                events == models(early@),
                turn_id == opt_text(old(self).turn_id),
                first == old(self).collected(),
                begun == (ActiveTurn {
                    early_events: begun.early_events,
                    early_bytes: 0,
                    ..*old(self)
                }),
                begun.early_events@.len() == 0,
                *self == (ActiveTurn {
                    final_messages: self.final_messages,
                    fallback_message: self.fallback_message,
                    ..begun
                }),
                replay(thread_id@, turn_id, first, events, i as int).result is None,
                self.collected() == replay(thread_id@, turn_id, first, events, i as int).collected,
            decreases early.len() - i,
        {
            assert(events[i as int] == early@[i as int].model());
            let seen = self.apply_notification(thread_id, &early[i]);
            if seen.is_some() {
                proof {
                    replay_stays(
                        thread_id@,
                        turn_id,
                        first,
                        events,
                        i as int + 1,
                        early@.len() as int,
                    );
                }
                return seen;
            }
            i += 1;
        }
        None
    }
}

/// The sessions of an app server, one turn at a time.
pub struct CodexActor {
    pub state: ActorState,
    pub thread_id: String,
    /// The number that the next request is made under.
    pub next_rpc_id: u64,
    pub active: Option<ActiveTurn>,
    pub rpc_timeout: u64,
}

/// What a message of the app server leads to.
pub enum MessageStep {
    Nothing,
    /// A message is to be written.
    Write(Json),
    /// The turn is over: its answer, where it was not answered, and what shows its end.
    Finished(Option<SessionResult>, TerminalEvidence),
}

/// What a request for a turn leads to.
pub enum HandleStep {
    Refuse(SessionResult),
    /// The turn is to be started by a message.
    Start(Json),
}

/// What a cancellation leads to.
pub struct CancelStep {
    /// What the request is answered, where it was not.
    pub result: Option<SessionResult>,
    /// The message that interrupts the turn.
    pub interrupt: Option<Json>,
}

/// By when something must have happened.
#[derive(Clone, Copy, Debug, PartialEq, Eq, Structural)]
pub struct ActorDeadlines {
    /// The request must have been answered.
    pub request: Option<u64>,
    /// The turn must have been started.
    pub start: Option<u64>,
    /// The cancelled turn must have ended.
    pub cancel: Option<u64>,
}

/// What the end of the app server leads to.
pub struct FinishStep {
    pub result: Option<SessionResult>,
    pub evidence: Option<TerminalEvidence>,
}

/// Whether an answer is given where it was still to be, and only there.
pub open spec fn settles(
    unanswered: bool,
    model: ResultModel,
    result: Option<SessionResult>,
) -> bool {
    if unanswered {
        result matches Some(result) && result.model() == model
    } else {
        result is None
    }
}

/// Whether a turn is over: it was answered, and its end is shown.
pub open spec fn turn_finished(
    before: CodexActor,
    model: ResultModel,
    after: CodexActor,
    step: MessageStep,
) -> bool {
    &&& after == (CodexActor { state: ActorState::Idle, active: None, ..before })
    &&& step matches MessageStep::Finished(result, evidence)
    &&& settles(before.active->0.unanswered, model, result)
    &&& evidence.request_id@ == before.active->0.request_id@
    &&& evidence.reason == before.active->0.terminal_reason
    &&& !evidence.child_reaped
}

/// Whether a turn has been started under an identifier: what arrived early has been seen,
/// and a turn that was cancelled meanwhile is interrupted.
pub open spec fn turn_started(
    before: CodexActor,
    turn_id: Seq<char>,
    after: CodexActor,
    step: MessageStep,
) -> bool {
    let turn = before.active->0;
    let seen = replay(
        before.thread_id@,
        Some(turn_id),
        turn.collected(),
        models(turn.early_events@),
        turn.early_events@.len() as int,
    );
    match seen.result {
        Some(model) => turn_finished(before, model, after, step),
        None => {
            let interrupts = turn.cancel_deadline is Some && !turn.interrupt_sent;
            &&& after.active matches Some(next)
            &&& opt_text(next.turn_id) == Some(turn_id)
            &&& next.collected() == seen.collected
            &&& next.early_events@.len() == 0
            &&& next == (ActiveTurn {
                turn_id: next.turn_id,
                final_messages: next.final_messages,
                fallback_message: next.fallback_message,
                early_events: next.early_events,
                early_bytes: 0,
                interrupt_rpc_id: if interrupts {
                    Some(before.next_rpc_id)
                } else {
                    turn.interrupt_rpc_id
                },
                interrupt_sent: turn.interrupt_sent || interrupts,
                ..turn
            })
            &&& after == (CodexActor {
                active: after.active,
                next_rpc_id: if interrupts {
                    (before.next_rpc_id + 1) as u64
                } else {
                    before.next_rpc_id
                },
                ..before
            })
            &&& if interrupts {
                step matches MessageStep::Write(message) && message.model() == call_model(
                    Some(before.next_rpc_id),
                    "turn/interrupt"@,
                    interrupt_params(before.thread_id@, turn_id),
                )
            } else {
                step is Nothing
            }
        },
    }
}

/// Why a message of the app server ends the session.
pub open spec fn message_fault(before: CodexActor, message: JsonModel, bytes: usize) -> Option<
    ProviderError,
> {
    if server_request(message) {
        None
    } else {
        match answers(message) {
            Some(id) => if before.active is Some && id == before.active->0.start_rpc_id && id_in(
                message,
                "turn"@,
            ) is None {
                Some(ProviderError::CodexProtocolError)
            } else {
                None
            },
            None => if message.text_at("method"@) is None {
                Some(ProviderError::CodexProtocolError)
            } else if before.active is Some && before.active->0.turn_id is None && relevant(
                before.thread_id@,
                message,
            ) && (before.active->0.early_events@.len() >= MAX_EARLY_NOTIFICATIONS
                || before.active->0.early_bytes + bytes > MAX_PROVIDER_FRAME_BYTES) {
                Some(ProviderError::CodexProtocolError)
            } else {
                None
            },
        }
    }
}

/// Whether a message that does not end the session leads to a step.
pub open spec fn message_leads(
    before: CodexActor,
    value: Json,
    bytes: usize,
    after: CodexActor,
    step: MessageStep,
) -> bool {
    let message = value.model();
    if server_request(message) {
        &&& after == before
        &&& step matches MessageStep::Write(answer) && answer.model() == answer_model(message)
    } else if before.active is None {
        after == before && step is Nothing
    } else {
        let turn = before.active->0;
        match answers(message) {
            Some(id) => if id == turn.start_rpc_id {
                turn_started(before, id_in(message, "turn"@)->0, after, step)
            } else {
                after == before && step is Nothing
            },
            None => if turn.turn_id is None && relevant(before.thread_id@, message) {
                &&& step is Nothing
                &&& after.active matches Some(next)
                &&& next.early_events@ == turn.early_events@.push(value)
                &&& next == (ActiveTurn {
                    early_events: next.early_events,
                    early_bytes: (turn.early_bytes + bytes) as usize,
                    ..turn
                })
                &&& after == (CodexActor { active: after.active, ..before })
            } else {
                let effect = note_effect(before.thread_id@, opt_text(turn.turn_id), message);
                match effect {
                    NoteEffect::Completed(status) => turn_finished(
                        before,
                        completion(turn.collected(), status),
                        after,
                        step,
                    ),
                    _ => {
                        &&& step is Nothing
                        &&& after.active matches Some(next)
                        &&& next.collected() == collect(turn.collected(), effect)
                        &&& next == (ActiveTurn {
                            final_messages: next.final_messages,
                            fallback_message: next.fallback_message,
                            ..turn
                        })
                        &&& after == (CodexActor { active: after.active, ..before })
                    },
                }
            },
        }
    }
}

/// Why a request for a turn is refused.
pub open spec fn handle_fault(actor: CodexActor, request: SessionRequest, now: u64) -> Option<
    ProviderError,
> {
    if actor.active is Some {
        Some(ProviderError::SessionBusy)
    } else if actor.state is Closed {
        Some(ProviderError::ProviderNotReady)
    } else if request.deadline <= now {
        Some(ProviderError::RequestTimeout)
    } else {
        None
    }
}

impl CodexActor {
    /// A turn runs exactly where the state says so.
    pub open spec fn wf(self) -> bool {
        &&& self.active matches Some(turn) ==> turn.wf() && turn.start_rpc_id < self.next_rpc_id && (
        turn.interrupt_rpc_id matches Some(id) ==> id < self.next_rpc_id)
        &&& match self.state {
            ActorState::Idle | ActorState::Closed => self.active is None,
            ActorState::Running => self.active matches Some(turn) && turn.cancel_deadline is None,
            ActorState::Cancelling => self.active matches Some(turn) && turn.cancel_deadline
                is Some,
        }
    }

    /// There is a number for another request.
    pub open spec fn can_call(self) -> bool {
        self.next_rpc_id < u64::MAX
    }

    /// The sessions of a thread that has been selected. The first two requests selected it.
    pub fn new(thread_id: String, rpc_timeout: u64) -> (actor: CodexActor)
        ensures
            actor.wf(),
            actor == (CodexActor {
                state: ActorState::Idle,
                thread_id,
                next_rpc_id: 3,
                active: None,
                rpc_timeout,
            }),
    {
        CodexActor { state: ActorState::Idle, thread_id, next_rpc_id: 3, active: None, rpc_timeout }
    }

    pub fn is_ready(&self) -> (ready: bool)
        ensures
            ready == self.state is Idle,
    {
        self.state == ActorState::Idle
    }

    /// By when something must have happened.
    pub fn actor_deadlines(&self) -> (deadlines: ActorDeadlines)
        ensures
            deadlines == (match self.active {
                None => ActorDeadlines { request: None, start: None, cancel: None },
                Some(turn) => ActorDeadlines {
                    request: if turn.cancel_deadline is None {
                        Some(turn.deadline)
                    } else {
                        None
                    },
                    start: if turn.turn_id is None && turn.cancel_deadline is None {
                        Some(turn.start_rpc_deadline)
                    } else {
                        None
                    },
                    cancel: turn.cancel_deadline,
                },
            }),
    {
        match &self.active {
            None => ActorDeadlines { request: None, start: None, cancel: None },
            Some(turn) => {
                let open = turn.cancel_deadline.is_none();
                ActorDeadlines {
                    request: if open {
                        Some(turn.deadline)
                    } else {
                        None
                    },
                    start: if open && turn.turn_id.is_none() {
                        Some(turn.start_rpc_deadline)
                    } else {
                        None
                    },
                    cancel: turn.cancel_deadline,
                }
            },
        }
    }

    /// A turn is asked for.
    pub fn handle(&mut self, request: SessionRequest, now: u64) -> (step: HandleStep)
        requires
            old(self).wf(),
            old(self).can_call(),
        ensures
            final(self).wf(),
            match handle_fault(*old(self), request, now) {
                Some(fault) => {
                    &&& *final(self) == *old(self)
                    &&& step == HandleStep::Refuse(SessionResult::Failure { error: fault })
                },
                None => {
                    &&& step matches HandleStep::Start(message) && message.model() == call_model(
                        Some(old(self).next_rpc_id),
                        "turn/start"@,
                        turn_params(old(self).thread_id@, request.content@),
                    )
                    &&& *final(self) == (CodexActor {
                        state: ActorState::Running,
                        next_rpc_id: (old(self).next_rpc_id + 1) as u64,
                        active: final(self).active,
                        ..*old(self)
                    })
                    &&& final(self).active matches Some(turn)
                    &&& turn.collected() == (Collected { finals: Seq::empty(), fallback: None })
                    &&& turn.early_events@.len() == 0
                    &&& turn == (ActiveTurn {
                        request_id: request.request_id,
                        unanswered: true,
                        turn_id: None,
                        start_rpc_id: old(self).next_rpc_id,
                        start_rpc_deadline: later(now, old(self).rpc_timeout),
                        deadline: request.deadline,
                        cancel_deadline: None,
                        interrupt_rpc_id: None,
                        interrupt_sent: false,
                        final_messages: turn.final_messages,
                        fallback_message: None,
                        early_events: turn.early_events,
                        early_bytes: 0,
                        terminal_reason: TerminalReason::TurnEnded,
                    })
                },
            },
    {
        if self.active.is_some() {
            return HandleStep::Refuse(SessionResult::failure(ProviderError::SessionBusy));
        }
        if self.state == ActorState::Closed {
            return HandleStep::Refuse(SessionResult::failure(ProviderError::ProviderNotReady));
        }
        if request.deadline <= now {
            return HandleStep::Refuse(SessionResult::failure(ProviderError::RequestTimeout));
        }
        let rpc_id = self.next_rpc_id;
        self.next_rpc_id = self.next_rpc_id + 1;
        let message = turn_message(rpc_id, self.thread_id.as_str(), request.content.as_str());
        let turn = ActiveTurn {
            request_id: request.request_id,
            unanswered: true,
            turn_id: None,
            start_rpc_id: rpc_id,
            start_rpc_deadline: after(now, self.rpc_timeout),
            deadline: request.deadline,
            cancel_deadline: None,
            interrupt_rpc_id: None,
            interrupt_sent: false,
            final_messages: Vec::new(),
            fallback_message: None,
            early_events: Vec::new(),
            early_bytes: 0,
            terminal_reason: TerminalReason::TurnEnded,
        };
        assert(turn.collected().finals =~= Seq::empty());
        self.active = Some(turn);
        self.state = ActorState::Running;
        HandleStep::Start(message)
    }

    /// The message that starts a turn could not be written: no turn runs, and its request
    /// is answered.
    pub fn start_failed(&mut self) -> (result: SessionResult)
        requires
            old(self).wf(),
            old(self).state is Running,
        ensures
            final(self).wf(),
            result == (SessionResult::Failure { error: ProviderError::ProviderDisconnected }),
            *final(self) == (CodexActor { state: ActorState::Idle, active: None, ..*old(self) }),
    {
        self.active = None;
        self.state = ActorState::Idle;
        SessionResult::failure(ProviderError::ProviderDisconnected)
    }

    /// The turn is cancelled, with an answer and a reason: it has a time to end, and is
    /// interrupted if it has an identifier.
    fn cancel_turn(&mut self, error: ProviderError, reason: TerminalReason, now: u64) -> (step:
        CancelStep)
        requires
            old(self).wf(),
            old(self).can_call(),
            old(self).state is Running,
        ensures
            final(self).wf(),
            cancelled(*old(self), error, reason, now, *final(self), step),
    {
        let mut turn = match self.active.take() {
            Some(turn) => turn,
            None => {
                return CancelStep { result: None, interrupt: None };
            },
        };
        let result = if turn.unanswered {
            Some(SessionResult::failure(error))
        } else {
            None
        };
        turn.unanswered = false;
        turn.terminal_reason = reason;
        turn.cancel_deadline = Some(after(now, PROVIDER_TERMINAL_GRACE_MS));
        self.state = ActorState::Cancelling;
        let mut interrupt: Option<Json> = None;
        if let Some(turn_id) = &turn.turn_id {
            let rpc_id = self.next_rpc_id;
            self.next_rpc_id = self.next_rpc_id + 1;
            interrupt = Some(
                interrupt_message(rpc_id, self.thread_id.as_str(), turn_id.as_str()),
            );
            turn.interrupt_rpc_id = Some(rpc_id);
            turn.interrupt_sent = true;
        }
        self.active = Some(turn);
        CancelStep { result, interrupt }
    }

    /// The turn of a request is to be cancelled. A turn is cancelled once.
    pub fn cancel(&mut self, request_id: &str, reason: CancelReason, now: u64) -> (step: Result<
        CancelStep,
        ProviderError,
    >)
        requires
            old(self).wf(),
            old(self).can_call(),
        ensures
            final(self).wf(),
            if !(old(self).active matches Some(turn) && turn.request_id@ == request_id@) {
                &&& step == Err::<CancelStep, ProviderError>(ProviderError::ProviderNotReady)
                &&& *final(self) == *old(self)
            } else if old(self).active->0.cancel_deadline is Some {
                &&& step == Ok::<CancelStep, ProviderError>(
                    CancelStep { result: None, interrupt: None },
                )
                &&& *final(self) == *old(self)
            } else {
                step matches Ok(step) && cancelled(
                    *old(self),
                    cancel_error(reason),
                    cancelled_because(reason),
                    now,
                    *final(self),
                    step,
                )
            },
    {
        let open = match &self.active {
            Some(turn) => {
                if !same_text(turn.request_id.as_str(), request_id) {
                    return Err(ProviderError::ProviderNotReady);
                }
                turn.cancel_deadline.is_none()
            },
            None => {
                return Err(ProviderError::ProviderNotReady);
            },
        };
        if !open {
            return Ok(CancelStep { result: None, interrupt: None });
        }
        Ok(self.cancel_turn(error_of_cancel(reason), cancel_terminal_reason(reason), now))
    }

    /// The time of the request is over.
    pub fn handle_request_timeout(&mut self, now: u64) -> (step: CancelStep)
        requires
            old(self).wf(),
            old(self).can_call(),
            old(self).state is Running,
        ensures
            final(self).wf(),
            cancelled(
                *old(self),
                ProviderError::RequestTimeout,
                TerminalReason::RequestTimeout,
                now,
                *final(self),
                step,
            ),
    {
        self.cancel_turn(ProviderError::RequestTimeout, TerminalReason::RequestTimeout, now)
    }

    fn finish_active(&mut self, turn: ActiveTurn, result: SessionResult) -> (step: MessageStep)
        requires
            old(self).active is None,
        ensures
            *final(self) == (CodexActor { state: ActorState::Idle, ..*old(self) }),
            step matches MessageStep::Finished(given, evidence) && settles(
                turn.unanswered,
                result.model(),
                given,
            ) && evidence.request_id@ == turn.request_id@ && evidence.reason
                == turn.terminal_reason && !evidence.child_reaped,
    {
        self.state = ActorState::Idle;
        let given = if turn.unanswered {
            Some(result)
        } else {
            None
        };
        MessageStep::Finished(
            given,
            TerminalEvidence {
                request_id: turn.request_id,
                reason: turn.terminal_reason,
                child_reaped: false,
            },
        )
    }

    fn turn_has_started(&mut self, turn: ActiveTurn, turn_id: String) -> (step: MessageStep)
        requires
            old(self).active is None,
            (CodexActor { active: Some(turn), ..*old(self) }).wf(),
            old(self).can_call(),
        ensures
            final(self).wf(),
            turn_started(
                CodexActor { active: Some(turn), ..*old(self) },
                turn_id@,
                *final(self),
                step,
            ),
    {
        let ghost given = turn;
        let mut turn = turn;
        turn.turn_id = Some(turn_id);
        let ghost named = turn;
        assert(named.collected() == given.collected());
        if let Some(result) = turn.replay_early(self.thread_id.as_str()) {
            return self.finish_active(turn, result);
        }
        let mut step = MessageStep::Nothing;
        if turn.cancel_deadline.is_some() && !turn.interrupt_sent {
            if let Some(id) = &turn.turn_id {
                let rpc_id = self.next_rpc_id;
                self.next_rpc_id = self.next_rpc_id + 1;
                step = MessageStep::Write(
                    interrupt_message(rpc_id, self.thread_id.as_str(), id.as_str()),
                );
                turn.interrupt_rpc_id = Some(rpc_id);
                turn.interrupt_sent = true;
            }
        }
        self.active = Some(turn);
        step
    }

    /// A message of the app server.
    pub fn process_message(&mut self, value: Json, bytes: usize) -> (step: Result<
        MessageStep,
        ProviderError,
    >)
        requires
            old(self).wf(),
            old(self).can_call(),
        ensures
            final(self).wf(),
            match message_fault(*old(self), value.model(), bytes) {
                Some(fault) => step == Err::<MessageStep, ProviderError>(fault) && *final(self)
                    == *old(self),
                None => step matches Ok(step) && message_leads(
                    *old(self),
                    value,
                    bytes,
                    *final(self),
                    step,
                ),
            },
    {
        if is_server_request(&value) {
            return match answer_server_request(&value) {
                Ok(answer) => Ok(MessageStep::Write(answer)),
                Err(error) => Err(error),
            };
        }
        if let Some(id) = response_id(&value) {
            let ours = match &self.active {
                Some(turn) => id == turn.start_rpc_id,
                None => false,
            };
            if !ours {
                return Ok(MessageStep::Nothing);
            }
            let turn_id = match response_thing(&value, "turn") {
                Some(turn_id) => turn_id,
                None => {
                    return Err(ProviderError::CodexProtocolError);
                },
            };
            return match self.active.take() {
                Some(turn) => {
                    assert(old(self).active == Some(turn));
                    assert(CodexActor { active: Some(turn), ..*self } == *old(self));
                    Ok(self.turn_has_started(turn, turn_id))
                },
                None => Ok(MessageStep::Nothing),
            };
        }
        if value.text_at("method").is_none() {
            return Err(ProviderError::CodexProtocolError);
        }
        let waits = match &self.active {
            Some(turn) => turn.turn_id.is_none(),
            None => {
                return Ok(MessageStep::Nothing);
            },
        };
        let early = waits && is_relevant_notification(self.thread_id.as_str(), &value);
        if early {
            let full = match &self.active {
                Some(turn) => turn.early_events.len() >= MAX_EARLY_NOTIFICATIONS || bytes
                    > MAX_PROVIDER_FRAME_BYTES || turn.early_bytes > MAX_PROVIDER_FRAME_BYTES
                    - bytes,
                None => false,
            };
            if full {
                return Err(ProviderError::CodexProtocolError);
            }
            if let Some(mut turn) = self.active.take() {
                turn.early_bytes = turn.early_bytes + bytes;
                turn.early_events.push(value);
                self.active = Some(turn);
            }
            return Ok(MessageStep::Nothing);
        }
        match self.active.take() {
            Some(mut turn) => {
                let ghost given = turn;
                match turn.apply_notification(self.thread_id.as_str(), &value) {
                    Some(result) => Ok(self.finish_active(turn, result)),
                    None => {
                        self.active = Some(turn);
                        Ok(MessageStep::Nothing)
                    },
                }
            },
            None => Ok(MessageStep::Nothing),
        }
    }

    /// The app server has ended, for a reason: the turn that ran is answered, and its end
    /// shown.
    pub fn finish(&mut self, end: HostEnd, reaped: bool) -> (step: FinishStep)
        requires
            old(self).wf(),
        ensures
            final(self).wf(),
            *final(self) == (CodexActor { state: ActorState::Closed, active: None, ..*old(self) }),
            match old(self).active {
                None => step.result is None && step.evidence is None,
                Some(turn) => {
                    &&& settles(
                        turn.unanswered,
                        ResultModel::Failure(visible_error(fatal_error(end))),
                        step.result,
                    )
                    &&& step.evidence matches Some(evidence)
                    &&& evidence.request_id@ == turn.request_id@
                    &&& evidence.child_reaped == reaped
                    &&& evidence.reason == if turn.cancel_deadline is Some {
                        turn.terminal_reason
                    } else if fatal_error(end) is RequestTimeout {
                        TerminalReason::RequestTimeout
                    } else {
                        TerminalReason::SessionEnded
                    }
                },
            },
    {
        let fatal_error = end.error(ProviderError::CodexProtocolError);
        self.state = ActorState::Closed;
        match self.active.take() {
            None => FinishStep { result: None, evidence: None },
            Some(turn) => {
                let visible = match fatal_error {
                    ProviderError::RequestTimeout => ProviderError::RequestTimeout,
                    ProviderError::CodexProtocolError => ProviderError::CodexProtocolError,
                    _ => ProviderError::ProviderDisconnected,
                };
                let result = if turn.unanswered {
                    Some(SessionResult::failure(visible))
                } else {
                    None
                };
                let reason = if turn.cancel_deadline.is_some() {
                    turn.terminal_reason
                } else if fatal_error == ProviderError::RequestTimeout {
                    TerminalReason::RequestTimeout
                } else {
                    TerminalReason::SessionEnded
                };
                FinishStep {
                    result,
                    evidence: Some(
                        TerminalEvidence {
                            request_id: turn.request_id,
                            reason,
                            child_reaped: reaped,
                        },
                    ),
                }
            },
        }
    }
}

/// The error that ends the session: what is no message, and a turn that is not acknowledged
/// in time, break the protocol; a turn that does not end in time after it was cancelled has
/// run out of time; anything else is the loss of the app server.
pub open spec fn fatal_error(end: HostEnd) -> ProviderError {
    end_error(end, ProviderError::CodexProtocolError)
}

/// What a request is answered whose app server has ended.
pub open spec fn visible_error(fatal: ProviderError) -> ProviderError {
    match fatal {
        ProviderError::RequestTimeout => ProviderError::RequestTimeout,
        ProviderError::CodexProtocolError => ProviderError::CodexProtocolError,
        _ => ProviderError::ProviderDisconnected,
    }
}

/// Whether the turn that runs has been cancelled, with an answer and a reason.
pub open spec fn cancelled(
    before: CodexActor,
    error: ProviderError,
    reason: TerminalReason,
    now: u64,
    after: CodexActor,
    step: CancelStep,
) -> bool {
    let turn = before.active->0;
    let interrupts = turn.turn_id is Some;
    &&& after == (CodexActor {
        state: ActorState::Cancelling,
        active: Some(
            ActiveTurn {
                unanswered: false,
                terminal_reason: reason,
                cancel_deadline: Some(later(now, PROVIDER_TERMINAL_GRACE_MS)),
                interrupt_rpc_id: if interrupts {
                    Some(before.next_rpc_id)
                } else {
                    turn.interrupt_rpc_id
                },
                interrupt_sent: interrupts || turn.interrupt_sent,
                ..turn
            },
        ),
        next_rpc_id: if interrupts {
            (before.next_rpc_id + 1) as u64
        } else {
            before.next_rpc_id
        },
        ..before
    })
    &&& settles(turn.unanswered, ResultModel::Failure(error), step.result)
    &&& if interrupts {
        step.interrupt matches Some(message) && message.model() == call_model(
            Some(before.next_rpc_id),
            "turn/interrupt"@,
            interrupt_params(before.thread_id@, turn.turn_id->0@),
        )
    } else {
        step.interrupt is None
    }
}

/// A request is answered once: what was answered is not when its turn ends, and no message
/// makes it unanswered again.
pub proof fn requests_are_answered_once(
    before: CodexActor,
    value: Json,
    bytes: usize,
    after: CodexActor,
    step: MessageStep,
)
    requires
        before.wf(),
        before.active matches Some(turn) && !turn.unanswered,
        message_leads(before, value, bytes, after, step),
    ensures
        step matches MessageStep::Finished(result, _) ==> result is None,
        after.active matches Some(turn) ==> !turn.unanswered && turn.request_id@
            == before.active->0.request_id@,
{
}

/// No two requests to the app server are made under the same number: the numbers grow.
pub proof fn request_numbers_grow(
    before: CodexActor,
    value: Json,
    bytes: usize,
    after: CodexActor,
    step: MessageStep,
)
    requires
        before.wf(),
        before.can_call(),
        message_leads(before, value, bytes, after, step),
    ensures
        after.next_rpc_id >= before.next_rpc_id,
        after.next_rpc_id > before.next_rpc_id ==> (step matches MessageStep::Write(message)
            && message.model() == call_model(
            Some(before.next_rpc_id),
            "turn/interrupt"@,
            interrupt_params(before.thread_id@, id_in(value.model(), "turn"@)->0),
        )),
{
}

/// Only what speaks of the thread and the turn changes what the turn comes to.
pub proof fn other_turns_do_not_count(
    thread_id: Seq<char>,
    turn_id: Seq<char>,
    value: JsonModel,
)
    ensures
        !(note_effect(thread_id, Some(turn_id), value) is Nothing) ==> value.at("params"@).text_at(
            "threadId"@,
        ) == Some(thread_id) && (value.at("params"@).text_at("turnId"@) == Some(turn_id)
            || value.at("params"@).at("turn"@).text_at("id"@) == Some(turn_id)),
{
}

} // verus!
