//! The inbox of a provider: one piece of work at a time, and none before the last has been
//! seen to stop.

use vstd::prelude::*;

use crate::protocol::{opt_name, TaskDispatch, TaskFence, WorkspaceName};
use crate::providers::{CancelReason, ProviderError, SessionRequest, TerminalEvidence};
use crate::text::same_text;

verus! {

#[derive(Clone, Copy, Debug, PartialEq, Eq, Structural)]
pub enum InboxPhase {
    Idle,
    Running,
    Cancelling,
    StopPending,
    Closed,
}

/// The work that runs.
#[derive(PartialEq)]
pub struct Active {
    pub workspace: WorkspaceName,
    pub request_id: String,
    pub task: Option<TaskDispatch>,
    /// The attempt at the task that the work is, once it is known.
    pub fence: Option<TaskFence>,
    pub result_settled: bool,
    pub cancel_reason: Option<CancelReason>,
}

/// Work that has ended, until the router knows.
#[derive(PartialEq)]
pub struct PendingStop {
    pub active: Active,
    pub evidence: TerminalEvidence,
    /// Whether the router is being told.
    pub action_issued: bool,
}

#[derive(PartialEq)]
pub enum InboxState {
    Idle,
    Active(Active),
    StopPending(PendingStop),
    Closed,
}

/// What the router is to be told of work that has ended.
#[derive(Debug, PartialEq)]
pub struct InboxTerminalAction {
    pub workspace: WorkspaceName,
    pub evidence: TerminalEvidence,
    pub fence: Option<TaskFence>,
    pub cancelled: bool,
}

impl Active {
    /// An attempt is one at the task that the work is for.
    pub open spec fn wf(self) -> bool {
        self.fence matches Some(fence) ==> (self.task matches Some(task) && task.id
            == fence.task_id)
    }

    /// Whether the attempt that the work is is still to become known.
    pub open spec fn unbound(self) -> bool {
        self.task is Some && self.fence is None
    }

    /// Whether the work can be the given attempt: it is the request's, at its task, and
    /// not another already.
    pub open spec fn binds(self, request_id: Seq<char>, fence: TaskFence) -> bool {
        &&& self.request_id@ == request_id
        &&& self.task matches Some(task) && task.id == fence.task_id
        &&& self.fence matches Some(current) ==> current == fence
    }

    /// Whether a cancellation speaks of the attempt that the work is, or of none where the
    /// work is for no task.
    pub open spec fn cancels(self, fence: Option<TaskFence>) -> bool {
        match (self.task, self.fence, fence) {
            (Some(task), Some(bound), Some(cancelled)) => task.id == cancelled.task_id && bound
                == cancelled,
            (None, None, None) => true,
            _ => false,
        }
    }
}

impl PendingStop {
    /// The evidence is of the work, and the router is being told as soon as it can be.
    pub open spec fn wf(self) -> bool {
        &&& self.active.wf()
        &&& self.evidence.request_id@ == self.active.request_id@
        &&& self.action_issued == !self.active.unbound()
    }
}

impl InboxState {
    pub open spec fn wf(self) -> bool {
        match self {
            InboxState::Active(active) => active.wf(),
            InboxState::StopPending(pending) => pending.wf(),
            _ => true,
        }
    }

    /// The work that runs, or has ended without the router knowing.
    pub open spec fn work(self) -> Option<Active> {
        match self {
            InboxState::Active(active) => Some(active),
            InboxState::StopPending(pending) => Some(pending.active),
            _ => None,
        }
    }

    pub open spec fn phase(self) -> InboxPhase {
        match self {
            InboxState::Idle => InboxPhase::Idle,
            InboxState::Active(active) => if active.cancel_reason is Some {
                InboxPhase::Cancelling
            } else {
                InboxPhase::Running
            },
            InboxState::StopPending(_) => InboxPhase::StopPending,
            InboxState::Closed => InboxPhase::Closed,
        }
    }
}

/// Whether the router is to be told this of some work that has ended.
pub open spec fn tells(action: InboxTerminalAction, active: Active, evidence: TerminalEvidence) -> bool {
    &&& action.workspace@ == active.workspace@
    &&& action.evidence.same(evidence)
    &&& action.fence == active.fence
    &&& action.cancelled == active.cancel_reason is Some
}

/// Why work cannot begin: it needs a workspace, and an inbox that is open and idle.
pub open spec fn begin_fault(state: InboxState, request: SessionRequest) -> Option<ProviderError> {
    if request.workspace is None {
        Some(ProviderError::ExecutionFenceChanged)
    } else {
        match state {
            InboxState::Idle => None,
            InboxState::Closed => Some(ProviderError::ProviderNotReady),
            _ => Some(ProviderError::SessionBusy),
        }
    }
}

/// Whether work is the one that a request has begun.
pub open spec fn begun(active: Active, request: SessionRequest) -> bool {
    &&& Some(active.workspace@) == opt_name(request.workspace)
    &&& active.request_id@ == request.request_id@
    &&& active.task == request.task
    &&& active.fence is None
    &&& !active.result_settled
    &&& active.cancel_reason is None
}

/// Why work cannot be told which attempt it is.
pub open spec fn bind_fault(state: InboxState, request_id: Seq<char>, fence: TaskFence) -> Option<
    ProviderError,
> {
    match state.work() {
        None => Some(ProviderError::ProviderNotReady),
        Some(active) => if active.binds(request_id, fence) {
            None
        } else {
            Some(ProviderError::ExecutionFenceChanged)
        },
    }
}

/// Why work cannot be cancelled.
pub open spec fn cancel_fault(
    state: InboxState,
    workspace: Seq<char>,
    request_id: Seq<char>,
    fence: Option<TaskFence>,
) -> Option<ProviderError> {
    match state {
        InboxState::StopPending(_) => None,
        InboxState::Active(active) => if active.workspace@ != workspace || active.request_id@
            != request_id || !active.cancels(fence) {
            Some(ProviderError::ExecutionFenceChanged)
        } else {
            None
        },
        _ => Some(ProviderError::ProviderNotReady),
    }
}

/// Whether it is confirmed that the work of an inbox has stopped: exactly that work, after
/// the router was told.
pub open spec fn confirms(
    state: InboxState,
    workspace: Seq<char>,
    request_id: Seq<char>,
    fence: Option<TaskFence>,
) -> bool {
    &&& state matches InboxState::StopPending(pending)
    &&& pending.active.workspace@ == workspace
    &&& pending.active.request_id@ == request_id
    &&& pending.active.fence == fence
    &&& !(pending.active.task is Some && fence is None)
    &&& pending.action_issued
}

/// The inbox of a provider.
pub struct ProviderInbox {
    state: InboxState,
}

fn fence_of(fence: Option<&TaskFence>) -> (copy: Option<TaskFence>)
    ensures
        copy == (match fence {
            Some(fence) => Some(*fence),
            None => None,
        }),
{
    match fence {
        Some(fence) => Some(*fence),
        None => None,
    }
}

fn same_fence(a: Option<TaskFence>, b: Option<TaskFence>) -> (same: bool)
    ensures
        same == (a == b),
{
    match (a, b) {
        (Some(a), Some(b)) => a == b,
        (None, None) => true,
        _ => false,
    }
}

fn validate_fence(active: &Active, request_id: &str, fence: &TaskFence) -> (checked: Result<
    (),
    ProviderError,
>)
    ensures
        checked == if active.binds(request_id@, *fence) {
            Ok::<(), ProviderError>(())
        } else {
            Err(ProviderError::ExecutionFenceChanged)
        },
{
    let ours = same_text(active.request_id.as_str(), request_id) && match &active.task {
        Some(task) => task.id == fence.task_id,
        None => false,
    } && match &active.fence {
        Some(current) => *current == *fence,
        None => true,
    };
    if ours {
        Ok(())
    } else {
        Err(ProviderError::ExecutionFenceChanged)
    }
}

fn validate_cancel_fence(active: &Active, fence: Option<TaskFence>) -> (checked: Result<
    (),
    ProviderError,
>)
    ensures
        checked == if active.cancels(fence) {
            Ok::<(), ProviderError>(())
        } else {
            Err(ProviderError::ExecutionFenceChanged)
        },
{
    let ours = match (&active.task, &active.fence, fence) {
        (Some(task), Some(bound), Some(cancelled)) => task.id == cancelled.task_id && *bound
            == cancelled,
        (None, None, None) => true,
        _ => false,
    };
    if ours {
        Ok(())
    } else {
        Err(ProviderError::ExecutionFenceChanged)
    }
}

fn take_terminal_action(pending: &mut PendingStop) -> (action: Option<InboxTerminalAction>)
    ensures
        if old(pending).action_issued || old(pending).active.unbound() {
            action is None && *final(pending) == *old(pending)
        } else {
            &&& action matches Some(action) && tells(
                action,
                old(pending).active,
                old(pending).evidence,
            )
            &&& *final(pending) == (PendingStop { action_issued: true, ..*old(pending) })
        },
{
    if pending.action_issued || (pending.active.task.is_some() && pending.active.fence.is_none()) {
        return None;
    }
    pending.action_issued = true;
    Some(
        InboxTerminalAction {
            workspace: pending.active.workspace.copy(),
            evidence: pending.evidence.copy(),
            fence: pending.active.fence,
            cancelled: pending.active.cancel_reason.is_some(),
        },
    )
}

impl ProviderInbox {
    pub closed spec fn at(self) -> InboxState {
        self.state
    }

    pub open spec fn wf(self) -> bool {
        self.at().wf()
    }

    pub fn new() -> (inbox: ProviderInbox)
        ensures
            inbox.wf(),
            inbox.at() is Idle,
    {
        ProviderInbox { state: InboxState::Idle }
    }

    pub fn is_idle(&self) -> (idle: bool)
        ensures
            idle == self.at() is Idle,
    {
        match &self.state {
            InboxState::Idle => true,
            _ => false,
        }
    }

    pub fn phase(&self) -> (phase: InboxPhase)
        ensures
            phase == self.at().phase(),
    {
        match &self.state {
            InboxState::Idle => InboxPhase::Idle,
            InboxState::Active(active) => if active.cancel_reason.is_some() {
                InboxPhase::Cancelling
            } else {
                InboxPhase::Running
            },
            InboxState::StopPending(_) => InboxPhase::StopPending,
            InboxState::Closed => InboxPhase::Closed,
        }
    }

    /// Work begins.
    pub fn begin(&mut self, request: &SessionRequest) -> (began: Result<(), ProviderError>)
        requires
            old(self).wf(),
        ensures
            final(self).wf(),
            match begin_fault(old(self).at(), *request) {
                Some(fault) => began == Err::<(), ProviderError>(fault) && final(self).at() == old(
                    self,
                ).at(),
                None => began == Ok::<(), ProviderError>(()) && (
                final(self).at() matches InboxState::Active(active) && begun(active, *request)),
            },
    {
        let workspace = match &request.workspace {
            Some(workspace) => workspace.copy(),
            None => {
                return Err(ProviderError::ExecutionFenceChanged);
            },
        };
        match &self.state {
            InboxState::Idle => {
                self.state = InboxState::Active(
                    Active {
                        workspace,
                        request_id: request.request_id.as_str().to_owned(),
                        task: request.task,
                        fence: None,
                        result_settled: false,
                        cancel_reason: None,
                    },
                );
                Ok(())
            },
            InboxState::Closed => Err(ProviderError::ProviderNotReady),
            _ => Err(ProviderError::SessionBusy),
        }
    }

    /// It becomes known which attempt the work is. Where the work has ended already, the
    /// router can be told now.
    pub fn bind_task_fence(&mut self, request_id: &str, fence: TaskFence) -> (action: Result<
        Option<InboxTerminalAction>,
        ProviderError,
    >)
        requires
            old(self).wf(),
        ensures
            final(self).wf(),
            match bind_fault(old(self).at(), request_id@, fence) {
                Some(fault) => action == Err::<Option<InboxTerminalAction>, ProviderError>(fault)
                    && final(self).at() == old(self).at(),
                None => match old(self).at() {
                    InboxState::StopPending(pending) => {
                        let active = Active { fence: Some(fence), ..pending.active };
                        &&& final(self).at() == InboxState::StopPending(
                            PendingStop { active, action_issued: true, ..pending },
                        )
                        &&& if pending.action_issued {
                            action == Ok::<Option<InboxTerminalAction>, ProviderError>(None)
                        } else {
                            action matches Ok(Some(action)) && tells(
                                action,
                                active,
                                pending.evidence,
                            )
                        }
                    },
                    InboxState::Active(active) => {
                        &&& action == Ok::<Option<InboxTerminalAction>, ProviderError>(None)
                        &&& final(self).at() == InboxState::Active(
                            Active { fence: Some(fence), ..active },
                        )
                    },
                    _ => false,
                },
            },
    {
        match &mut self.state {
            InboxState::Active(active) => {
                if let Err(fault) = validate_fence(active, request_id, &fence) {
                    return Err(fault);
                }
                active.fence = Some(fence);
                Ok(None)
            },
            InboxState::StopPending(pending) => {
                if let Err(fault) = validate_fence(&pending.active, request_id, &fence) {
                    return Err(fault);
                }
                pending.active.fence = Some(fence);
                Ok(take_terminal_action(pending))
            },
            _ => Err(ProviderError::ProviderNotReady),
        }
    }

    /// The result of the work is settled. Whether it was not before: a result is settled
    /// once.
    pub fn result_settled(&mut self, request_id: &str) -> (first: bool)
        requires
            old(self).wf(),
        ensures
            final(self).wf(),
            first == (old(self).at().work() matches Some(active) && active.request_id@ == request_id@
                && !active.result_settled),
            if !first {
                final(self).at() == old(self).at()
            } else {
                match old(self).at() {
                    InboxState::Active(active) => final(self).at() == InboxState::Active(
                        Active { result_settled: true, ..active },
                    ),
                    InboxState::StopPending(pending) => final(self).at()
                        == InboxState::StopPending(
                        PendingStop {
                            active: Active { result_settled: true, ..pending.active },
                            ..pending
                        },
                    ),
                    _ => false,
                }
            },
    {
        match &mut self.state {
            InboxState::Active(active) => {
                if !same_text(active.request_id.as_str(), request_id) || active.result_settled {
                    return false;
                }
                active.result_settled = true;
                true
            },
            InboxState::StopPending(pending) => {
                if !same_text(pending.active.request_id.as_str(), request_id)
                    || pending.active.result_settled {
                    return false;
                }
                pending.active.result_settled = true;
                true
            },
            _ => false,
        }
    }

    /// The work is to be cancelled. Whether the provider is to be told: it is once, and not
    /// when the work has ended.
    pub fn request_cancel(
        &mut self,
        workspace: &WorkspaceName,
        request_id: &str,
        fence: Option<&TaskFence>,
        reason: CancelReason,
    ) -> (first: Result<bool, ProviderError>)
        requires
            old(self).wf(),
        ensures
            final(self).wf(),
            ({
                let of = match fence {
                    Some(fence) => Some(*fence),
                    None => None,
                };
                match cancel_fault(old(self).at(), workspace@, request_id@, of) {
                    Some(fault) => first == Err::<bool, ProviderError>(fault) && final(self).at()
                        == old(self).at(),
                    None => if old(self).at() matches InboxState::Active(active)
                        && active.cancel_reason is None {
                        &&& first == Ok::<bool, ProviderError>(true)
                        &&& final(self).at() == InboxState::Active(
                            Active {
                                cancel_reason: Some(reason),
                                ..old(self).at()->Active_0
                            },
                        )
                    } else {
                        first == Ok::<bool, ProviderError>(false) && final(self).at() == old(
                            self,
                        ).at()
                    },
                }
            }),
    {
        let of = fence_of(fence);
        match &mut self.state {
            InboxState::Active(active) => {
                if !active.workspace.same(workspace) || !same_text(
                    active.request_id.as_str(),
                    request_id,
                ) {
                    return Err(ProviderError::ExecutionFenceChanged);
                }
                if let Err(fault) = validate_cancel_fence(active, of) {
                    return Err(fault);
                }
                if active.cancel_reason.is_some() {
                    return Ok(false);
                }
                active.cancel_reason = Some(reason);
                Ok(true)
            },
            InboxState::StopPending(_) => Ok(false),
            _ => Err(ProviderError::ProviderNotReady),
        }
    }

    /// Whether the work of a request is being cancelled.
    pub fn acknowledge_cancel(&self, request_id: &str) -> (cancelling: bool)
        ensures
            cancelling == (self.at() matches InboxState::Active(active) && active.request_id@
                == request_id@ && active.cancel_reason is Some),
    {
        match &self.state {
            InboxState::Active(active) => same_text(active.request_id.as_str(), request_id)
                && active.cancel_reason.is_some(),
            _ => false,
        }
    }

    /// The provider was seen to have ended the work. What the router is to be told, where
    /// that is known.
    pub fn observe_terminal(&mut self, evidence: TerminalEvidence) -> (action: Option<
        InboxTerminalAction,
    >)
        requires
            old(self).wf(),
        ensures
            final(self).wf(),
            if old(self).at() matches InboxState::Active(active) && active.request_id@
                == evidence.request_id@ {
                let active = old(self).at()->Active_0;
                &&& final(self).at() == InboxState::StopPending(
                    PendingStop { active, evidence, action_issued: !active.unbound() },
                )
                &&& if active.unbound() {
                    action is None
                } else {
                    action matches Some(action) && tells(action, active, evidence)
                }
            } else {
                action is None && final(self).at() == old(self).at()
            },
    {
        let ours = match &self.state {
            InboxState::Active(active) => same_text(
                active.request_id.as_str(),
                evidence.request_id.as_str(),
            ),
            _ => false,
        };
        if !ours {
            return None;
        }
        let mut state = InboxState::Idle;
        std::mem::swap(&mut state, &mut self.state);
        match state {
            InboxState::Active(active) => {
                let mut pending = PendingStop { active, evidence, action_issued: false };
                let action = take_terminal_action(&mut pending);
                self.state = InboxState::StopPending(pending);
                action
            },
            _ => None,
        }
    }

    /// The router knows that the work has stopped. Whether that was the work of the inbox;
    /// if so, other work may begin.
    pub fn confirm_stopped(
        &mut self,
        workspace: &WorkspaceName,
        request_id: &str,
        fence: Option<&TaskFence>,
    ) -> (confirmed: bool)
        requires
            old(self).wf(),
        ensures
            final(self).wf(),
            confirmed == confirms(
                old(self).at(),
                workspace@,
                request_id@,
                match fence {
                    Some(fence) => Some(*fence),
                    None => None,
                },
            ),
            if confirmed {
                final(self).at() is Idle
            } else {
                final(self).at() == old(self).at()
            },
    {
        let of = fence_of(fence);
        let ours = match &self.state {
            InboxState::StopPending(pending) => pending.active.workspace.same(workspace)
                && same_text(pending.active.request_id.as_str(), request_id) && same_fence(
                pending.active.fence,
                of,
            ) && !(pending.active.task.is_some() && of.is_none()) && pending.action_issued,
            _ => false,
        };
        if ours {
            self.state = InboxState::Idle;
        }
        ours
    }

    /// Closes the inbox, while no work runs.
    pub fn close(&mut self) -> (closed: Result<(), ProviderError>)
        requires
            old(self).wf(),
        ensures
            final(self).wf(),
            match old(self).at() {
                InboxState::Idle | InboxState::Closed => closed == Ok::<(), ProviderError>(())
                    && final(self).at() is Closed,
                _ => closed == Err::<(), ProviderError>(ProviderError::SessionBusy) && final(
                    self).at() == old(self).at(),
            },
    {
        match &self.state {
            InboxState::Idle => {
                self.state = InboxState::Closed;
                Ok(())
            },
            InboxState::Closed => Ok(()),
            _ => Err(ProviderError::SessionBusy),
        }
    }
}

/// While work runs, or has ended without the router knowing, no other work begins.
pub proof fn one_piece_of_work_at_a_time(state: InboxState, request: SessionRequest)
    requires
        begin_fault(state, request) is None,
    ensures
        state is Idle,
        state.work() is None,
{
}

/// Work for a task is confirmed as stopped only as the attempt that it was bound to, and
/// only after it was seen to end.
pub proof fn stops_are_confirmed_exactly(
    state: InboxState,
    workspace: Seq<char>,
    request_id: Seq<char>,
    fence: Option<TaskFence>,
)
    requires
        state.wf(),
        confirms(state, workspace, request_id, fence),
    ensures
        state is StopPending,
        state->StopPending_0.evidence.request_id@ == request_id,
        state.work()->0.task matches Some(task) ==> (fence matches Some(fence) && fence.task_id
            == task.id),
        state.work()->0.task is None ==> fence is None,
{
}

} // verus!
