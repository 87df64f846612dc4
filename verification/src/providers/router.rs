//! A provider between the router's fences: what runs is read from the router before a turn
//! and again after it, and a turn counts as ended only once it was seen to end.

use vstd::prelude::*;

use crate::ids::Uuid;
use crate::protocol::{
    opt_name, TaskDispatch, TaskExecutionEvidence, TaskFence, WorkspaceName,
};
use crate::providers::inbox::{
    begin_fault, begun, confirms, tells, Active, InboxState, InboxTerminalAction, PendingStop,
    ProviderInbox,
};
use crate::providers::{
    ProviderError, SessionRequest, SessionResult, TerminalEvidence, TerminalReason,
};
use crate::tasks::PauseReason;
use crate::text::same_text;

verus! {

/// How long the end of a turn is waited for.
pub const TERMINAL_OBSERVATION_TIMEOUT_MS: u64 = 6_000;

/// What the router says runs in a session.
#[derive(Clone, Copy, Debug, PartialEq, Eq, Structural)]
pub struct ExecutionBarrier {
    pub session_id: Uuid,
    pub current: Option<TaskFence>,
    /// What is to be seen to stop.
    pub stop_pending: Option<TaskFence>,
}

/// What ran when a turn began.
#[derive(Clone, Copy, Debug, PartialEq, Eq, Structural)]
pub struct BarrierLease {
    pub session_id: Uuid,
    pub task: Option<TaskFence>,
}

/// What the router is told of a turn that has ended.
#[derive(Clone, Copy, Debug, PartialEq, Eq, Structural)]
pub enum StopReport {
    /// Nothing runs any more, as the router knows.
    Nothing,
    Stopped {
        fence: TaskFence,
        session_id: Uuid,
        evidence: TaskExecutionEvidence,
        reason: PauseReason,
    },
}

/// Why an attempt at a task paused when a turn ended.
pub open spec fn paused_because(reason: TerminalReason) -> PauseReason {
    match reason {
        TerminalReason::TurnEnded => PauseReason::TurnEnded,
        TerminalReason::SessionEnded => PauseReason::SessionEnded,
        TerminalReason::HostError => PauseReason::HostError,
        TerminalReason::OperatorInterrupt => PauseReason::OperatorInterrupt,
        TerminalReason::RequestTimeout => PauseReason::RequestTimeout,
        TerminalReason::RequestCancelled => PauseReason::RequestCancelled,
    }
}

pub fn pause_reason(reason: TerminalReason) -> (pause: PauseReason)
    ensures
        pause == paused_because(reason),
{
    match reason {
        TerminalReason::TurnEnded => PauseReason::TurnEnded,
        TerminalReason::SessionEnded => PauseReason::SessionEnded,
        TerminalReason::HostError => PauseReason::HostError,
        TerminalReason::OperatorInterrupt => PauseReason::OperatorInterrupt,
        TerminalReason::RequestTimeout => PauseReason::RequestTimeout,
        TerminalReason::RequestCancelled => PauseReason::RequestCancelled,
    }
}

/// Whether what runs is what was asked for: an attempt at the task, or none.
pub open spec fn dispatches(dispatch: Option<TaskDispatch>, fence: Option<TaskFence>) -> bool {
    match (dispatch, fence) {
        (Some(dispatch), Some(fence)) => dispatch.id == fence.task_id,
        (None, None) => true,
        _ => false,
    }
}

pub fn matching_dispatch(dispatch: Option<TaskDispatch>, fence: Option<TaskFence>) -> (yes: bool)
    ensures
        yes == dispatches(dispatch, fence),
{
    match (dispatch, fence) {
        (Some(dispatch), Some(fence)) => dispatch.id == fence.task_id,
        (None, None) => true,
        _ => false,
    }
}

fn same_task(a: Option<TaskFence>, b: Option<TaskFence>) -> (same: bool)
    ensures
        same == (a == b),
{
    match (a, b) {
        (Some(a), Some(b)) => a == b,
        (None, None) => true,
        _ => false,
    }
}

/// Binds the evidence of a provider to one connection to the router and one workspace.
pub struct RouterClientLifecycle {
    pub workspace: WorkspaceName,
    pub lease: Option<BarrierLease>,
    /// Whether the router is told when the provider takes work.
    pub explicit_readiness: bool,
}

/// Why a turn cannot take up what runs: another turn has, the router does not say, the
/// session is another, or something is still to stop.
pub open spec fn acquire_fault(
    lease: Option<BarrierLease>,
    session: Uuid,
    barrier: Option<ExecutionBarrier>,
) -> Option<ProviderError> {
    match barrier {
        None => Some(ProviderError::RouterLifecycleUnavailable),
        Some(barrier) => if barrier.session_id != session || barrier.stop_pending is Some {
            Some(ProviderError::ExecutionFenceChanged)
        } else if lease is Some {
            Some(ProviderError::SessionBusy)
        } else {
            None
        },
    }
}

/// What the router is to be told of the end of a turn, from what it says runs: nothing but
/// the attempt that ran when the turn began may run, in the same session.
pub open spec fn stop_report(
    lease: BarrierLease,
    session: Uuid,
    barrier: Option<ExecutionBarrier>,
    evidence: TerminalEvidence,
) -> Result<StopReport, ProviderError> {
    match barrier {
        None => Err(ProviderError::RouterLifecycleUnavailable),
        Some(barrier) => if session != lease.session_id || barrier.session_id != lease.session_id {
            Err(ProviderError::ExecutionFenceChanged)
        } else if lease.task is Some && (barrier.current == lease.task || barrier.stop_pending
            == lease.task) {
            if barrier.current is Some && barrier.stop_pending is Some && barrier.current
                != barrier.stop_pending {
                Err(ProviderError::ExecutionFenceChanged)
            } else {
                Ok(
                    StopReport::Stopped {
                        fence: lease.task->0,
                        session_id: lease.session_id,
                        evidence: if evidence.child_reaped {
                            TaskExecutionEvidence::ProviderClosed
                        } else {
                            TaskExecutionEvidence::ProviderTerminal
                        },
                        reason: paused_because(evidence.reason),
                    },
                )
            }
        } else if barrier.current is None && barrier.stop_pending is None {
            Ok(StopReport::Nothing)
        } else {
            Err(ProviderError::ExecutionFenceChanged)
        },
    }
}

impl RouterClientLifecycle {
    pub fn new(workspace: WorkspaceName) -> (lifecycle: RouterClientLifecycle)
        ensures
            lifecycle == (RouterClientLifecycle {
                workspace,
                lease: None,
                explicit_readiness: true,
            }),
    {
        Self::new_with_explicit_readiness(workspace, true)
    }

    pub fn new_with_explicit_readiness(workspace: WorkspaceName, explicit_readiness: bool) -> (lifecycle:
        RouterClientLifecycle)
        ensures
            lifecycle == (RouterClientLifecycle { workspace, lease: None, explicit_readiness }),
    {
        RouterClientLifecycle { workspace, lease: None, explicit_readiness }
    }

    pub fn workspace(&self) -> (workspace: &WorkspaceName)
        ensures
            *workspace == self.workspace,
    {
        &self.workspace
    }

    /// Whether the router is told when the provider takes work.
    pub fn tells_readiness(&self) -> (tells: bool)
        ensures
            tells == self.explicit_readiness,
    {
        self.explicit_readiness
    }

    /// Before the router is asked what runs: no turn must have taken it up, and the client
    /// must be in a session.
    pub fn begin_acquire(&self, session: Option<Uuid>) -> (began: Result<Uuid, ProviderError>)
        ensures
            began == if self.lease is Some {
                Err::<Uuid, ProviderError>(ProviderError::SessionBusy)
            } else {
                match session {
                    Some(session) => Ok(session),
                    None => Err(ProviderError::RouterLifecycleUnavailable),
                }
            },
    {
        if self.lease.is_some() {
            return Err(ProviderError::SessionBusy);
        }
        match session {
            Some(session) => Ok(session),
            None => Err(ProviderError::RouterLifecycleUnavailable),
        }
    }

    /// The router said what runs, or did not: a turn takes it up.
    pub fn acquire_barrier(&mut self, session: Uuid, barrier: Option<ExecutionBarrier>) -> (task: Result<
        Option<TaskFence>,
        ProviderError,
    >)
        ensures
            match acquire_fault(old(self).lease, session, barrier) {
                Some(fault) => task == Err::<Option<TaskFence>, ProviderError>(fault) && *final(
                    self) == *old(self),
                None => task == Ok::<Option<TaskFence>, ProviderError>(barrier->0.current)
                    && *final(self) == (RouterClientLifecycle {
                    lease: Some(BarrierLease { session_id: session, task: barrier->0.current }),
                    ..*old(self)
                }),
            },
    {
        match barrier {
            None => Err(ProviderError::RouterLifecycleUnavailable),
            Some(barrier) => {
                if barrier.session_id != session || barrier.stop_pending.is_some() {
                    return Err(ProviderError::ExecutionFenceChanged);
                }
                if self.lease.is_some() {
                    return Err(ProviderError::SessionBusy);
                }
                self.lease = Some(BarrierLease { session_id: session, task: barrier.current });
                Ok(barrier.current)
            },
        }
    }

    /// A turn that took up what runs did not begin.
    pub fn abandon_unowned_barrier(&mut self, task: Option<TaskFence>)
        ensures
            *final(self) == if old(self).lease matches Some(lease) && lease.task == task {
                RouterClientLifecycle { lease: None, ..*old(self) }
            } else {
                *old(self)
            },
    {
        let ours = match &self.lease {
            Some(lease) => same_task(lease.task, task),
            None => false,
        };
        if ours {
            self.lease = None;
        }
    }

    /// Before the router is asked again what runs: the turn that ends is the one that took
    /// it up, and the client is in a session.
    pub fn begin_finish(&self, task: Option<TaskFence>, session: Option<Uuid>) -> (lease: Result<
        BarrierLease,
        ProviderError,
    >)
        ensures
            lease == (match self.lease {
                None => Err::<BarrierLease, ProviderError>(ProviderError::ExecutionFenceChanged),
                Some(lease) => if lease.task != task {
                    Err(ProviderError::ExecutionFenceChanged)
                } else if session is None {
                    Err(ProviderError::RouterLifecycleUnavailable)
                } else {
                    Ok(lease)
                },
            }),
    {
        match self.lease {
            None => Err(ProviderError::ExecutionFenceChanged),
            Some(lease) => {
                if !same_task(lease.task, task) {
                    return Err(ProviderError::ExecutionFenceChanged);
                }
                if session.is_none() {
                    return Err(ProviderError::RouterLifecycleUnavailable);
                }
                Ok(lease)
            },
        }
    }

    /// The router was told what it was to be: the turn has ended.
    pub fn finish_execution(&mut self, lease: BarrierLease) -> (finished: Result<(), ProviderError>)
        ensures
            if old(self).lease == Some(lease) {
                &&& finished == Ok::<(), ProviderError>(())
                &&& *final(self) == (RouterClientLifecycle { lease: None, ..*old(self) })
            } else {
                &&& finished == Err::<(), ProviderError>(ProviderError::ExecutionFenceChanged)
                &&& *final(self) == *old(self)
            },
    {
        let ours = match &self.lease {
            Some(current) => *current == lease,
            None => false,
        };
        if !ours {
            return Err(ProviderError::ExecutionFenceChanged);
        }
        self.lease = None;
        Ok(())
    }
}

/// What the router is to be told of the end of a turn.
pub fn decide_stop(
    lease: BarrierLease,
    session: Uuid,
    barrier: Option<ExecutionBarrier>,
    evidence: &TerminalEvidence,
) -> (report: Result<StopReport, ProviderError>)
    ensures
        report == stop_report(lease, session, barrier, *evidence),
{
    let barrier = match barrier {
        None => {
            return Err(ProviderError::RouterLifecycleUnavailable);
        },
        Some(barrier) => barrier,
    };
    if session != lease.session_id || barrier.session_id != lease.session_id {
        return Err(ProviderError::ExecutionFenceChanged);
    }
    if let Some(fence) = lease.task {
        if same_task(barrier.current, lease.task) || same_task(barrier.stop_pending, lease.task) {
            if barrier.current.is_some() && barrier.stop_pending.is_some() && !same_task(
                barrier.current,
                barrier.stop_pending,
            ) {
                return Err(ProviderError::ExecutionFenceChanged);
            }
            return Ok(
                StopReport::Stopped {
                    fence,
                    session_id: lease.session_id,
                    evidence: if evidence.child_reaped {
                        TaskExecutionEvidence::ProviderClosed
                    } else {
                        TaskExecutionEvidence::ProviderTerminal
                    },
                    reason: pause_reason(evidence.reason),
                },
            );
        }
    }
    if barrier.current.is_none() && barrier.stop_pending.is_none() {
        Ok(StopReport::Nothing)
    } else {
        Err(ProviderError::ExecutionFenceChanged)
    }
}

/// Whether a provider between the router's fences takes work: it does, and none is in its
/// inbox.
pub open spec fn takes_work(provider_ready: bool, inbox: InboxState) -> bool {
    provider_ready && inbox is Idle
}

/// Whether a provider between the router's fences takes work.
pub fn ready(provider_ready: bool, inbox: &ProviderInbox) -> (yes: bool)
    ensures
        yes == takes_work(provider_ready, inbox.at()),
{
    provider_ready && inbox.is_idle()
}

/// What is to be done next in a turn.
#[derive(Clone, Copy, Debug, PartialEq, Eq, Structural)]
pub enum TurnPhase {
    /// The router is to be told that no work is taken.
    Unready,
    /// What runs is to be taken up.
    Barrier,
    /// It is to be given up again, and the router told whether work is taken.
    Abandon(ProviderError),
    /// The provider is to be given the work.
    Run,
    /// The end of the work is to be waited for.
    Terminal,
    /// The router is to be told that what ran has stopped.
    Stop,
    /// The work was cancelled: the router is to be told that it has ended, and whether work
    /// is taken again.
    TellIdle,
    /// The router is to be told whether work is taken again.
    TellReady,
    Refused(ProviderError),
    Returned,
}

/// What happened in a turn.
#[derive(PartialEq)]
pub enum TurnEvent {
    Done,
    /// The router could not be asked or told, for a reason of its own.
    Failed(ProviderError),
    /// The router could not be told whether work is taken.
    Untold,
    /// The end of the work was not seen in time, or can no longer be seen.
    Unseen,
    /// What was taken up, and the time.
    Acquired(Option<TaskFence>, u64),
    Answered(SessionResult),
    Ended(TerminalEvidence),
}

/// One piece of work between the router's fences.
pub struct ManagedTurn {
    pub request: SessionRequest,
    pub phase: TurnPhase,
    /// The attempt that runs.
    pub fence: Option<TaskFence>,
    pub result: Option<SessionResult>,
    /// What the router is to be told of the end.
    pub action: Option<InboxTerminalAction>,
}

/// Why work is refused at once: it is for another workspace, its time is over, or the
/// provider takes none.
pub open spec fn turn_fault(
    workspace: Seq<char>,
    request: SessionRequest,
    provider_ready: bool,
    now: u64,
) -> Option<ProviderError> {
    if opt_name(request.workspace) != Some(workspace) {
        Some(ProviderError::ExecutionFenceChanged)
    } else if request.deadline <= now {
        Some(ProviderError::RequestTimeout)
    } else if !provider_ready {
        Some(ProviderError::SessionBusy)
    } else {
        None
    }
}

/// Why the work does not begin although it was taken up what runs.
pub open spec fn acquired_fault(
    request: SessionRequest,
    inbox: InboxState,
    fence: Option<TaskFence>,
    now: u64,
) -> Option<ProviderError> {
    if request.deadline <= now {
        Some(ProviderError::RequestTimeout)
    } else if !dispatches(request.task, fence) {
        Some(ProviderError::ExecutionFenceChanged)
    } else {
        begin_fault(inbox, request)
    }
}

/// Whether evidence is of the end of the work that an inbox holds as the request's.
pub open spec fn ends_work(
    request: SessionRequest,
    inbox: InboxState,
    evidence: TerminalEvidence,
) -> bool {
    &&& inbox matches InboxState::Active(active)
    &&& active.request_id@ == evidence.request_id@
    &&& !active.unbound()
}

impl ManagedTurn {
    /// Once the provider has answered there is an answer, and once the work was seen to
    /// end, what the router is to be told.
    pub open spec fn wf(self) -> bool {
        &&& (self.phase is Terminal || self.phase is Stop || self.phase is TellIdle || self.phase
            is TellReady || self.phase is Returned) ==> self.result is Some
        &&& (self.phase is Stop || self.phase is TellIdle || self.phase is TellReady)
            ==> self.action is Some
    }
}

/// The phase that an event leads to. An event that the phase does not wait for changes
/// nothing.
pub open spec fn turn_next(turn: ManagedTurn, inbox: InboxState, event: TurnEvent) -> TurnPhase {
    match (turn.phase, event) {
        (TurnPhase::Unready, TurnEvent::Done) => TurnPhase::Barrier,
        (TurnPhase::Unready, TurnEvent::Untold) => TurnPhase::Refused(
            ProviderError::RouterLifecycleUnavailable,
        ),
        (TurnPhase::Barrier, TurnEvent::Acquired(fence, now)) => match acquired_fault(
            turn.request,
            inbox,
            fence,
            now,
        ) {
            Some(fault) => TurnPhase::Abandon(fault),
            None => TurnPhase::Run,
        },
        (TurnPhase::Barrier, TurnEvent::Failed(error)) => TurnPhase::Refused(error),
        (TurnPhase::Abandon(fault), TurnEvent::Done) => TurnPhase::Refused(fault),
        (TurnPhase::Abandon(fault), TurnEvent::Untold) => TurnPhase::Refused(fault),
        (TurnPhase::Run, TurnEvent::Answered(_)) => TurnPhase::Terminal,
        (TurnPhase::Terminal, TurnEvent::Ended(evidence)) => if evidence.request_id@
            != turn.request.request_id@ {
            TurnPhase::Terminal
        } else if ends_work(turn.request, inbox, evidence) {
            TurnPhase::Stop
        } else {
            TurnPhase::Refused(ProviderError::ExecutionFenceChanged)
        },
        (TurnPhase::Terminal, TurnEvent::Unseen) => TurnPhase::Refused(
            ProviderError::RouterLifecycleUnavailable,
        ),
        (TurnPhase::Stop, TurnEvent::Done) => if turn.action->0.cancelled {
            TurnPhase::TellIdle
        } else {
            TurnPhase::TellReady
        },
        (TurnPhase::Stop, TurnEvent::Failed(error)) => TurnPhase::Refused(error),
        (TurnPhase::TellIdle | TurnPhase::TellReady, TurnEvent::Done) => if confirms(
            inbox,
            turn.action->0.workspace@,
            turn.action->0.evidence.request_id@,
            turn.action->0.fence,
        ) {
            TurnPhase::Returned
        } else {
            TurnPhase::Refused(ProviderError::ExecutionFenceChanged)
        },
        (TurnPhase::TellIdle | TurnPhase::TellReady, TurnEvent::Untold) => TurnPhase::Refused(
            ProviderError::RouterLifecycleUnavailable,
        ),
        _ => turn.phase,
    }
}

/// Whether an event leaves an inbox as it is to.
pub open spec fn inbox_follows(
    turn: ManagedTurn,
    event: TurnEvent,
    before: InboxState,
    after: InboxState,
) -> bool {
    let next = turn_next(turn, before, event);
    match (turn.phase, event) {
        (TurnPhase::Barrier, TurnEvent::Acquired(fence, _)) => if next is Run {
            &&& after matches InboxState::Active(active)
            &&& begun(Active { fence: None, ..active }, turn.request)
            &&& active.fence == fence
        } else {
            after == before
        },
        (TurnPhase::Run, TurnEvent::Answered(_)) => match before {
            InboxState::Active(active) => after == if active.request_id@ == turn.request.request_id@ {
                InboxState::Active(Active { result_settled: true, ..active })
            } else {
                before
            },
            InboxState::StopPending(pending) => after == if pending.active.request_id@
                == turn.request.request_id@ {
                InboxState::StopPending(
                    PendingStop {
                        active: Active { result_settled: true, ..pending.active },
                        ..pending
                    },
                )
            } else {
                before
            },
            _ => after == before,
        },
        (TurnPhase::Terminal, TurnEvent::Ended(evidence)) => if evidence.request_id@
            == turn.request.request_id@ && (before matches InboxState::Active(active)
            && active.request_id@ == evidence.request_id@) {
            after == InboxState::StopPending(
                PendingStop {
                    active: before->Active_0,
                    evidence,
                    action_issued: !before->Active_0.unbound(),
                },
            )
        } else {
            after == before
        },
        (TurnPhase::TellIdle | TurnPhase::TellReady, TurnEvent::Done) => if next is Returned {
            after is Idle
        } else {
            after == before
        },
        _ => after == before,
    }
}

impl ManagedTurn {
    /// The turn of some work, refused at once where it is.
    pub fn new(workspace: &WorkspaceName, request: SessionRequest, provider_ready: bool, now: u64) -> (turn:
        ManagedTurn)
        ensures
            turn.wf(),
            turn.request == request,
            turn.fence is None,
            turn.result is None,
            turn.action is None,
            turn.phase == (match turn_fault(workspace@, request, provider_ready, now) {
                Some(fault) => TurnPhase::Refused(fault),
                None => TurnPhase::Unready,
            }),
    {
        let ours = crate::protocol::is_named(&request.workspace, workspace);
        let phase = if !ours {
            TurnPhase::Refused(ProviderError::ExecutionFenceChanged)
        } else if request.deadline <= now {
            TurnPhase::Refused(ProviderError::RequestTimeout)
        } else if !provider_ready {
            TurnPhase::Refused(ProviderError::SessionBusy)
        } else {
            TurnPhase::Unready
        };
        ManagedTurn { request, phase, fence: None, result: None, action: None }
    }

    fn acquired(&mut self, inbox: &mut ProviderInbox, fence: Option<TaskFence>, now: u64)
        requires
            old(self).wf(),
            old(self).phase is Barrier,
            old(inbox).wf(),
        ensures
            final(inbox).wf(),
            ({
                let event = TurnEvent::Acquired(fence, now);
                &&& inbox_follows(*old(self), event, old(inbox).at(), final(inbox).at())
                &&& *final(self) == (ManagedTurn {
                    phase: turn_next(*old(self), old(inbox).at(), event),
                    fence,
                    ..*old(self)
                })
            }),
    {
        self.fence = fence;
        if self.request.deadline <= now {
            self.phase = TurnPhase::Abandon(ProviderError::RequestTimeout);
            return ;
        }
        if !matching_dispatch(self.request.task, fence) {
            self.phase = TurnPhase::Abandon(ProviderError::ExecutionFenceChanged);
            return ;
        }
        if let Err(fault) = inbox.begin(&self.request) {
            self.phase = TurnPhase::Abandon(fault);
            return ;
        }
        if let Some(bound) = fence {
            // What runs is an attempt at the task of the work that has just begun.
            assert(crate::providers::inbox::bind_fault(
                inbox.at(),
                self.request.request_id@,
                bound,
            ) is None);
            let _ = inbox.bind_task_fence(self.request.request_id.as_str(), bound);
        }
        self.phase = TurnPhase::Run;
    }

    fn ended(&mut self, inbox: &mut ProviderInbox, evidence: TerminalEvidence)
        requires
            old(self).wf(),
            old(self).phase is Terminal,
            old(inbox).wf(),
        ensures
            final(self).wf(),
            final(inbox).wf(),
            ({
                let event = TurnEvent::Ended(evidence);
                let next = turn_next(*old(self), old(inbox).at(), event);
                &&& inbox_follows(*old(self), event, old(inbox).at(), final(inbox).at())
                &&& *final(self) == (ManagedTurn {
                    phase: next,
                    action: final(self).action,
                    ..*old(self)
                })
                &&& if next is Stop {
                    final(self).action matches Some(action) && tells(
                        action,
                        old(inbox).at()->Active_0,
                        evidence,
                    )
                } else {
                    final(self).action == old(self).action
                }
            }),
    {
        if !same_text(evidence.request_id.as_str(), self.request.request_id.as_str()) {
            return ;
        }
        match inbox.observe_terminal(evidence) {
            Some(action) => {
                self.action = Some(action);
                self.phase = TurnPhase::Stop;
            },
            None => {
                self.phase = TurnPhase::Refused(ProviderError::ExecutionFenceChanged);
            },
        }
    }

    /// Something happened in the turn: what is to be done next.
    pub fn step(&mut self, inbox: &mut ProviderInbox, event: TurnEvent) -> (phase: TurnPhase)
        requires
            old(self).wf(),
            old(inbox).wf(),
        ensures
            final(self).wf(),
            final(inbox).wf(),
            phase == turn_next(*old(self), old(inbox).at(), event),
            inbox_follows(*old(self), event, old(inbox).at(), final(inbox).at()),
            *final(self) == (ManagedTurn {
                phase,
                fence: match (old(self).phase, event) {
                    (TurnPhase::Barrier, TurnEvent::Acquired(fence, _)) => fence,
                    _ => old(self).fence,
                },
                result: match (old(self).phase, event) {
                    (TurnPhase::Run, TurnEvent::Answered(result)) => Some(result),
                    _ => old(self).result,
                },
                action: final(self).action,
                ..*old(self)
            }),
            match (old(self).phase, event) {
                (TurnPhase::Terminal, TurnEvent::Ended(evidence)) => if phase is Stop {
                    final(self).action matches Some(action) && tells(
                        action,
                        old(inbox).at()->Active_0,
                        evidence,
                    )
                } else {
                    final(self).action == old(self).action
                },
                _ => final(self).action == old(self).action,
            },
    {
        match event {
            TurnEvent::Done => match self.phase {
                TurnPhase::Unready => {
                    self.phase = TurnPhase::Barrier;
                },
                TurnPhase::Abandon(fault) => {
                    self.phase = TurnPhase::Refused(fault);
                },
                TurnPhase::Stop => {
                    let cancelled = match &self.action {
                        Some(action) => action.cancelled,
                        None => false,
                    };
                    self.phase = if cancelled {
                        TurnPhase::TellIdle
                    } else {
                        TurnPhase::TellReady
                    };
                },
                TurnPhase::TellIdle | TurnPhase::TellReady => {
                    let stopped = match &self.action {
                        Some(action) => inbox.confirm_stopped(
                            &action.workspace,
                            action.evidence.request_id.as_str(),
                            action.fence.as_ref(),
                        ),
                        None => false,
                    };
                    self.phase = if stopped {
                        TurnPhase::Returned
                    } else {
                        TurnPhase::Refused(ProviderError::ExecutionFenceChanged)
                    };
                },
                _ => {},
            },
            TurnEvent::Failed(error) => match self.phase {
                TurnPhase::Barrier | TurnPhase::Stop => {
                    self.phase = TurnPhase::Refused(error);
                },
                _ => {},
            },
            TurnEvent::Untold => match self.phase {
                TurnPhase::Unready | TurnPhase::TellIdle | TurnPhase::TellReady => {
                    self.phase = TurnPhase::Refused(ProviderError::RouterLifecycleUnavailable);
                },
                TurnPhase::Abandon(fault) => {
                    self.phase = TurnPhase::Refused(fault);
                },
                _ => {},
            },
            TurnEvent::Unseen => if let TurnPhase::Terminal = self.phase {
                self.phase = TurnPhase::Refused(ProviderError::RouterLifecycleUnavailable);
            },
            TurnEvent::Acquired(fence, now) => if let TurnPhase::Barrier = self.phase {
                self.acquired(inbox, fence, now);
            },
            TurnEvent::Answered(result) => if let TurnPhase::Run = self.phase {
                inbox.result_settled(self.request.request_id.as_str());
                self.result = Some(result);
                self.phase = TurnPhase::Terminal;
            },
            TurnEvent::Ended(evidence) => if let TurnPhase::Terminal = self.phase {
                self.ended(inbox, evidence);
            },
        }
        self.phase
    }

    /// What the work is answered, once the turn is over.
    pub fn into_result(self) -> (result: Option<SessionResult>)
        requires
            self.wf(),
        ensures
            match self.phase {
                TurnPhase::Refused(error) => result == Some(SessionResult::Failure { error }),
                TurnPhase::Returned => result == self.result && result is Some,
                _ => result is None,
            },
    {
        match self.phase {
            TurnPhase::Refused(error) => Some(SessionResult::failure(error)),
            TurnPhase::Returned => self.result,
            _ => None,
        }
    }
}

/// A provider's answer is given only after the work was seen to end, the router was told,
/// and the inbox confirmed exactly that work.
pub proof fn answers_follow_the_end(turn: ManagedTurn, inbox: InboxState, event: TurnEvent)
    requires
        turn.wf(),
        !(turn.phase is Returned),
        turn_next(turn, inbox, event) is Returned,
    ensures
        turn.phase is TellIdle || turn.phase is TellReady,
        inbox is StopPending,
        turn.action is Some,
        inbox->StopPending_0.active.request_id@ == turn.action->0.evidence.request_id@,
        inbox->StopPending_0.active.fence == turn.action->0.fence,
{
}

/// A provider's answer alone is no sign that the work has stopped: where its end is not seen
/// in time, the work is refused, the router is told of no stop, and no further work is taken
/// since the inbox still holds the work.
pub proof fn unseen_ends_are_refused(turn: ManagedTurn, before: InboxState, after: InboxState)
    requires
        turn.wf(),
        turn.phase is Terminal,
        !(before is Idle),
        inbox_follows(turn, TurnEvent::Unseen, before, after),
    ensures
        turn_next(turn, before, TurnEvent::Unseen) == TurnPhase::Refused(
            ProviderError::RouterLifecycleUnavailable,
        ),
        after == before,
        forall|provider_ready: bool| !(#[trigger] takes_work(provider_ready, after)),
        forall|inbox: InboxState, event: TurnEvent|
            #![trigger turn_next(turn, inbox, event)]
            turn_next(turn, inbox, event) is Stop ==> event is Ended,
{
}

/// What was taken up from the router is let go only by the turn that took it up.
pub proof fn the_lease_is_the_turns(
    lease: BarrierLease,
    session: Uuid,
    barrier: ExecutionBarrier,
    evidence: TerminalEvidence,
)
    requires
        stop_report(lease, session, Some(barrier), evidence) is Ok,
    ensures
        session == lease.session_id,
        barrier.session_id == lease.session_id,
        barrier.current is None || barrier.current == lease.task,
        barrier.stop_pending is None || barrier.stop_pending == lease.task,
        stop_report(lease, session, Some(barrier), evidence)->Ok_0 is Stopped <==> (
        barrier.current is Some || barrier.stop_pending is Some),
{
}

} // verus!
