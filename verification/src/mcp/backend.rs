//! The state of a backend between the router and the client of the tools: what each event
//! does to it, and what is to be done about it.

use vstd::prelude::*;

use crate::credentials::CredentialFile;
use crate::ids::Uuid;
use crate::mcp::notify::{
    ClaudeChannelMeta, ClaudeChannelNotification, McpNotificationSink, OmpAttemptRef,
    OmpServerNotification, OmpTaskRef, OmpWorkTask,
};
use crate::mcp::{BackendError, McpRole};
use crate::protocol::{
    is_named, opt_name, same_names, AgentRegistration, RouterErrorCode, TaskDispatch, TaskFence,
    WorkspaceEvent, WorkspaceName,
};
use crate::providers::TerminalEvidence;
use crate::tasks::TaskAttempt;
use crate::text::{copy_option, decimal, decimal_text, opt_text, same_text};

verus! {

/// As what a client connects to the router.
#[allow(inconsistent_fields)]
pub enum ClientRole {
    Primary {
        agent: AgentRegistration,
        credential: CredentialFile,
        delegation_token: Option<String>,
    },
    Delegate {
        owner_id: String,
        delegation_token: String,
    },
    Operator {
        credential: CredentialFile,
    },
}

/// How a client connects to the router.
pub struct ClientConfig {
    pub router_url: String,
    pub role: ClientRole,
    pub ca_file: Option<String>,
}

/// As what a backend connects to the router.
#[allow(inconsistent_fields)]
pub enum ConnectionRoleSpec {
    Primary {
        agent: AgentRegistration,
        credential: CredentialFile,
        delegation_token: Option<String>,
    },
    Delegate {
        owner_id: String,
        delegation_token: String,
    },
}

/// How a backend connects to the router.
pub struct ConnectionSpec {
    pub router_url: String,
    pub role: ConnectionRoleSpec,
    pub ca_file: Option<String>,
}

/// Whether a configuration is one for the server of a role and an agent: a delegate's
/// server connects as the delegate of that agent, every other as the agent itself.
pub open spec fn config_fits(role: McpRole, agent_id: Seq<char>, config: ClientConfig) -> bool {
    match config.role {
        ClientRole::Primary { agent, .. } => !(role is Delegate) && agent.agent_id@ == agent_id,
        ClientRole::Delegate { owner_id, .. } => role is Delegate && owner_id@ == agent_id,
        ClientRole::Operator { .. } => false,
    }
}

impl ConnectionSpec {
    /// Whether connecting like this is connecting with a configuration.
    pub open spec fn connects_with(self, config: ClientConfig) -> bool {
        &&& self.router_url@ == config.router_url@
        &&& opt_text(self.ca_file) == opt_text(config.ca_file)
        &&& match (self.role, config.role) {
            (
                ConnectionRoleSpec::Primary { agent, credential, delegation_token },
                ClientRole::Primary { agent: other, credential: key, delegation_token: token },
            ) => other.same(agent) && key.same(credential) && opt_text(token) == opt_text(
                delegation_token,
            ),
            (
                ConnectionRoleSpec::Delegate { owner_id, delegation_token },
                ClientRole::Delegate { owner_id: owner, delegation_token: token },
            ) => owner@ == owner_id@ && token@ == delegation_token@,
            _ => false,
        }
    }

    /// How the backend of a role and an agent connects.
    pub fn from_config(mcp_role: McpRole, agent_id: &str, config: ClientConfig) -> (spec_: Result<
        ConnectionSpec,
        BackendError,
    >)
        ensures
            match spec_ {
                Ok(connection) => config_fits(mcp_role, agent_id@, config)
                    && connection.connects_with(config),
                Err(error) => !config_fits(mcp_role, agent_id@, config) && error
                    == BackendError::InvalidState,
            },
    {
        let ClientConfig { router_url, role, ca_file } = config;
        let delegate = mcp_role == McpRole::Delegate;
        match role {
            ClientRole::Primary { agent, credential, delegation_token } => {
                if delegate || !same_text(agent.agent_id.as_str(), agent_id) {
                    return Err(BackendError::InvalidState);
                }
                Ok(
                    ConnectionSpec {
                        router_url,
                        role: ConnectionRoleSpec::Primary { agent, credential, delegation_token },
                        ca_file,
                    },
                )
            },
            ClientRole::Delegate { owner_id, delegation_token } => {
                if !delegate || !same_text(owner_id.as_str(), agent_id) {
                    return Err(BackendError::InvalidState);
                }
                Ok(
                    ConnectionSpec {
                        router_url,
                        role: ConnectionRoleSpec::Delegate { owner_id, delegation_token },
                        ca_file,
                    },
                )
            },
            ClientRole::Operator { .. } => Err(BackendError::InvalidState),
        }
    }

    /// The configuration to connect with.
    pub fn client_config(&self) -> (config: ClientConfig)
        ensures
            self.connects_with(config),
    {
        let role = match &self.role {
            ConnectionRoleSpec::Primary { agent, credential, delegation_token } => {
                ClientRole::Primary {
                    agent: agent.copy(),
                    credential: credential.copy(),
                    delegation_token: copy_option(delegation_token),
                }
            },
            ConnectionRoleSpec::Delegate { owner_id, delegation_token } => ClientRole::Delegate {
                owner_id: owner_id.as_str().to_owned(),
                delegation_token: delegation_token.as_str().to_owned(),
            },
        };
        ClientConfig {
            router_url: self.router_url.as_str().to_owned(),
            role,
            ca_file: copy_option(&self.ca_file),
        }
    }
}

/// Work that the router delivered. Times are milliseconds of one clock.
#[derive(PartialEq)]
pub struct InboundRequest {
    pub workspace: WorkspaceName,
    pub request_id: String,
    pub from: String,
    pub content: String,
    pub deadline: u64,
    pub task: Option<TaskDispatch>,
}

impl InboundRequest {
    /// Whether two requests are the same.
    pub open spec fn same(self, other: InboundRequest) -> bool {
        &&& self.workspace@ == other.workspace@
        &&& self.request_id@ == other.request_id@
        &&& self.from@ == other.from@
        &&& self.content@ == other.content@
        &&& self.deadline == other.deadline
        &&& self.task == other.task
    }

    /// Another copy of this request.
    pub fn copy(&self) -> (copy: InboundRequest)
        ensures
            copy.same(*self),
    {
        InboundRequest {
            workspace: self.workspace.copy(),
            request_id: self.request_id.as_str().to_owned(),
            from: self.from.as_str().to_owned(),
            content: self.content.as_str().to_owned(),
            deadline: self.deadline,
            task: self.task,
        }
    }
}

/// The task that the host runs for this backend.
#[derive(PartialEq)]
pub struct OmpTaskLease {
    pub workspace: WorkspaceName,
    pub fence: TaskFence,
    pub session_id: Uuid,
    pub work_request_id: String,
}

/// What a backend knows.
pub struct RouterBackendState {
    pub role: McpRole,
    /// Where notifications go, once the client has connected.
    pub notifications: Option<McpNotificationSink>,
    pub membership: Option<WorkspaceName>,
    /// The last event of the workspace that arrived.
    pub latest_cursor: i64,
    /// The last event of the workspace that the host has read.
    pub acknowledged_cursor: i64,
    /// The call that waits for work.
    pub waiter: Option<Uuid>,
    /// The work that is to be answered.
    pub pending: Option<InboundRequest>,
    pub omp_ready: bool,
    pub task_lease: Option<OmpTaskLease>,
    pub closed: bool,
}

/// Whether work is the one that a workspace and a request name.
pub open spec fn is_request(
    pending: Option<InboundRequest>,
    workspace: Seq<char>,
    request_id: Seq<char>,
) -> bool {
    pending matches Some(pending) && pending.workspace@ == workspace && pending.request_id@
        == request_id
}

fn names_request(
    pending: &Option<InboundRequest>,
    workspace: &WorkspaceName,
    request_id: &str,
) -> (yes: bool)
    ensures
        yes == is_request(*pending, workspace@, request_id@),
{
    match pending {
        Some(pending) => pending.workspace.same(workspace) && same_text(
            pending.request_id.as_str(),
            request_id,
        ),
        None => false,
    }
}

/// The milliseconds that are left until a deadline, at least one.
pub open spec fn left_until(deadline: u64, now: u64) -> u64 {
    if deadline > now {
        (deadline - now) as u64
    } else {
        1
    }
}

/// The milliseconds that are left until a deadline, at least one.
pub fn remaining_millis(deadline: u64, now: u64) -> (left: u64)
    ensures
        left == left_until(deadline, now),
        left >= 1,
{
    if deadline > now {
        deadline - now
    } else {
        1
    }
}

/// Whether a cancellation speaks of the task of some work, or of none where that has none.
pub open spec fn cancels_task(dispatch: Option<TaskDispatch>, fence: Option<TaskFence>) -> bool {
    match (dispatch, fence) {
        (Some(dispatch), Some(fence)) => dispatch.id == fence.task_id,
        (None, None) => true,
        _ => false,
    }
}

pub fn matching_cancel_task(dispatch: Option<&TaskDispatch>, fence: Option<&TaskFence>) -> (yes:
    bool)
    ensures
        yes == cancels_task(
            match dispatch {
                Some(dispatch) => Some(*dispatch),
                None => None,
            },
            match fence {
                Some(fence) => Some(*fence),
                None => None,
            },
        ),
{
    match (dispatch, fence) {
        (Some(dispatch), Some(fence)) => dispatch.id == fence.task_id,
        (None, None) => true,
        _ => false,
    }
}

/// What a change of membership leads to.
#[derive(Debug, PartialEq)]
pub struct MembershipEffects {
    /// The waiting call, and what it is told.
    pub waiter: Option<(Uuid, BackendError)>,
    /// The work that is answered with a code.
    pub rejected: Option<(String, RouterErrorCode)>,
    /// The router is told that the client takes no work.
    pub unready: bool,
}

/// What an event of the workspace leads to.
#[derive(Debug, PartialEq)]
pub enum EventEffect {
    Nothing,
    Acknowledge(WorkspaceName, i64),
    Notify(OmpServerNotification),
}

/// What delivered work leads to.
#[derive(PartialEq)]
pub enum DeliveryAction {
    /// The waiting call is given the work, and the router told that no more is taken.
    Wait(Uuid, InboundRequest),
    Claude(ClaudeChannelNotification),
    Omp(OmpServerNotification),
    /// The work is answered with a code.
    Reject(String, RouterErrorCode),
}

/// What work is answered that could not be handed on: a call that no longer waits has
/// cancelled it, a push that failed is the host's error, and work that was not taken is
/// answered why.
pub open spec fn undelivered(action: DeliveryAction) -> RouterErrorCode {
    match action {
        DeliveryAction::Wait(_, _) => RouterErrorCode::RequestCancelled,
        DeliveryAction::Claude(_) => RouterErrorCode::ProviderError,
        DeliveryAction::Omp(_) => RouterErrorCode::ProviderError,
        DeliveryAction::Reject(_, code) => code,
    }
}

impl DeliveryAction {
    /// What the work is answered where it cannot be handed on.
    pub fn undelivered_code(&self) -> (code: RouterErrorCode)
        ensures
            code == undelivered(*self),
    {
        match self {
            DeliveryAction::Wait(_, _) => RouterErrorCode::RequestCancelled,
            DeliveryAction::Claude(_) => RouterErrorCode::ProviderError,
            DeliveryAction::Omp(_) => RouterErrorCode::ProviderError,
            DeliveryAction::Reject(_, code) => *code,
        }
    }
}

/// Why delivered work is not taken: it is for another workspace, other work is to be
/// answered first, or nobody is there to take it.
pub open spec fn delivery_fault(state: RouterBackendState, workspace: Seq<char>) -> Option<
    RouterErrorCode,
> {
    if opt_name(state.membership) != Some(workspace) {
        Some(RouterErrorCode::WorkspaceMismatch)
    } else if state.pending is Some {
        Some(RouterErrorCode::SessionBusy)
    } else {
        match state.role {
            McpRole::CodexCli => if state.waiter is Some {
                None
            } else {
                Some(RouterErrorCode::ProviderNotReady)
            },
            McpRole::ClaudeChannel => if state.notifications is Some {
                None
            } else {
                Some(RouterErrorCode::ProviderNotReady)
            },
            McpRole::Omp => if state.omp_ready && state.notifications is Some {
                None
            } else {
                Some(RouterErrorCode::ProviderNotReady)
            },
            McpRole::Delegate => Some(RouterErrorCode::ReplyForbidden),
        }
    }
}

/// Whether a notification pushes some work into a channel.
pub open spec fn pushes(
    notification: ClaudeChannelNotification,
    request: InboundRequest,
    now: u64,
) -> bool {
    &&& notification.content@ == request.content@
    &&& notification.meta.request_id@ == request.request_id@
    &&& notification.meta.from@ == request.from@
    &&& notification.meta.timeout_ms@ == decimal_text(left_until(request.deadline, now) as nat)
}

/// Whether a notification hands some work to the host.
pub open spec fn hands_over(
    notification: OmpServerNotification,
    request: InboundRequest,
    now: u64,
) -> bool {
    &&& notification matches OmpServerNotification::Work {
        workspace,
        request_id,
        from,
        content,
        timeout_ms,
        task,
    }
    &&& workspace@ == request.workspace@
    &&& request_id@ == request.request_id@
    &&& from@ == request.from@
    &&& content@ == request.content@
    &&& timeout_ms == left_until(request.deadline, now)
    &&& task == match request.task {
        Some(task) => Some(
            OmpWorkTask { id: task.id, expected_version: task.expected_version },
        ),
        None => None,
    }
}

/// Whether an action is the one for delivered work.
pub open spec fn delivers(
    state: RouterBackendState,
    request: InboundRequest,
    now: u64,
    action: DeliveryAction,
) -> bool {
    match delivery_fault(state, request.workspace@) {
        Some(fault) => action matches DeliveryAction::Reject(request_id, code) && request_id@
            == request.request_id@ && code == fault,
        None => match state.role {
            McpRole::CodexCli => action matches DeliveryAction::Wait(waiter, given) && Some(waiter)
                == state.waiter && given.same(request),
            McpRole::ClaudeChannel => action matches DeliveryAction::Claude(notification) && pushes(
                notification,
                request,
                now,
            ),
            _ => action matches DeliveryAction::Omp(notification) && hands_over(
                notification,
                request,
                now,
            ),
        },
    }
}

/// What the cancellation of work leads to.
#[derive(Debug, PartialEq)]
pub enum CancelEffect {
    /// It speaks of no work that is to be answered.
    Ignored,
    Cancelled(Option<OmpServerNotification>),
}

/// A change of a task's attempt.
pub struct TaskAttemptEvent {
    pub workspace: WorkspaceName,
    pub task_id: i64,
    pub attempt: Option<TaskAttempt>,
    pub closed_attempt_id: Option<Uuid>,
    pub current: Option<TaskFence>,
    pub stop_pending: Option<TaskFence>,
}

impl TaskAttemptEvent {
    /// The attempt that has begun, if it is one of the task that the event speaks of.
    pub open spec fn begun(self) -> Option<TaskFence> {
        match (self.current, self.attempt) {
            (Some(fence), Some(attempt)) => if fence.task_id == self.task_id && fence.attempt_id
                == attempt.id {
                Some(fence)
            } else {
                None
            },
            _ => None,
        }
    }
}

/// Whether a lease is of a workspace and an attempt.
pub open spec fn leases(lease: Option<OmpTaskLease>, workspace: Seq<char>, fence: TaskFence) -> bool {
    lease matches Some(lease) && lease.workspace@ == workspace && lease.fence == fence
}

/// What the host's word leads to.
#[derive(Debug, PartialEq)]
pub enum OmpStep {
    Done,
    /// The work is answered with a code.
    Reply(String, RouterErrorCode),
    Acknowledge(WorkspaceName, i64),
    /// The router is told that the execution of this attempt has stopped.
    Stopped(TaskFence, TerminalEvidence),
}

/// What closing leads to.
#[derive(Debug, PartialEq)]
pub struct CloseEffects {
    /// The waiting call, and what it is told.
    pub waiter: Option<(Uuid, BackendError)>,
    /// The work that is answered with a code.
    pub rejected: Option<(String, RouterErrorCode)>,
    /// The router is told that the client takes no work.
    pub unready: bool,
}

/// A call that waits no longer, and what it is told.
pub open spec fn given_up(waiter: Option<Uuid>, error: BackendError) -> Option<
    (Uuid, BackendError),
> {
    match waiter {
        Some(id) => Some((id, error)),
        None => None,
    }
}

/// Work that is no longer taken is answered as disconnected.
pub open spec fn disconnected(pending: Option<InboundRequest>) -> Option<
    (String, RouterErrorCode),
> {
    match pending {
        Some(pending) => Some((pending.request_id, RouterErrorCode::ProviderDisconnected)),
        None => None,
    }
}

pub(crate) fn give_up(waiter: Option<Uuid>, error: BackendError) -> (told: Option<
    (Uuid, BackendError),
>)
    ensures
        told == given_up(waiter, error),
{
    match waiter {
        Some(id) => Some((id, error)),
        None => None,
    }
}

pub(crate) fn disconnect(pending: Option<InboundRequest>) -> (told: Option<
    (String, RouterErrorCode),
>)
    ensures
        told == disconnected(pending),
{
    match pending {
        Some(pending) => Some((pending.request_id, RouterErrorCode::ProviderDisconnected)),
        None => None,
    }
}

impl RouterBackendState {
    /// The host has read no more than what has arrived.
    pub open spec fn wf(self) -> bool {
        self.acknowledged_cursor <= self.latest_cursor
    }

    pub fn new(role: McpRole) -> (state: RouterBackendState)
        ensures
            state.wf(),
            state == (RouterBackendState {
                role,
                notifications: None,
                membership: None,
                latest_cursor: 0,
                acknowledged_cursor: 0,
                waiter: None,
                pending: None,
                omp_ready: false,
                task_lease: None,
                closed: false,
            }),
    {
        RouterBackendState {
            role,
            notifications: None,
            membership: None,
            latest_cursor: 0,
            acknowledged_cursor: 0,
            waiter: None,
            pending: None,
            omp_ready: false,
            task_lease: None,
            closed: false,
        }
    }

    /// Whether the router is to be told that the client takes no work: only a client that
    /// pulls its work, which takes some only while it waits.
    pub fn role_readiness(&self) -> (unready: bool)
        ensures
            unready == (self.role is CodexCli),
    {
        self.role.can_wait()
    }

    /// The client has joined a workspace.
    pub fn joined(&mut self, workspace: WorkspaceName, cursor: i64)
        ensures
            *final(self) == (RouterBackendState {
                membership: Some(workspace),
                latest_cursor: cursor,
                acknowledged_cursor: cursor,
                ..*old(self)
            }),
            final(self).wf(),
    {
        self.membership = Some(workspace);
        self.latest_cursor = cursor;
        self.acknowledged_cursor = cursor;
    }

    /// The client has joined the workspace that the server was started for, or another.
    pub fn joined_initial(
        &mut self,
        expected: &WorkspaceName,
        workspace: WorkspaceName,
        cursor: i64,
    ) -> (checked: Result<(), BackendError>)
        ensures
            if workspace@ == expected@ {
                &&& checked == Ok::<(), BackendError>(())
                &&& *final(self) == (RouterBackendState {
                    membership: Some(workspace),
                    latest_cursor: cursor,
                    acknowledged_cursor: cursor,
                    ..*old(self)
                })
            } else {
                &&& checked == Err::<(), BackendError>(
                    BackendError::Router(RouterErrorCode::WorkspaceMismatch),
                )
                &&& *final(self) == *old(self)
            },
            old(self).wf() ==> final(self).wf(),
    {
        if !workspace.same(expected) {
            return Err(BackendError::Router(RouterErrorCode::WorkspaceMismatch));
        }
        self.joined(workspace, cursor);
        Ok(())
    }

    /// The router's events have ended: the waiting call, which is returned, is told that
    /// the backend is not available.
    pub fn handle_event_stream_closed(&mut self) -> (waiter: Option<(Uuid, BackendError)>)
        ensures
            waiter == given_up(old(self).waiter, BackendError::Unavailable),
            *final(self) == (RouterBackendState {
                membership: None,
                pending: None,
                omp_ready: false,
                task_lease: None,
                waiter: None,
                ..*old(self)
            }),
            old(self).wf() ==> final(self).wf(),
    {
        self.membership = None;
        self.pending = None;
        self.omp_ready = false;
        self.task_lease = None;
        give_up(self.waiter.take(), BackendError::Unavailable)
    }

    /// The client is a member of another workspace, or of none. Where that is a change,
    /// nothing of the last workspace is kept.
    pub fn handle_membership_changed(&mut self, workspace: Option<WorkspaceName>, cursor: i64) -> (effects:
        MembershipEffects)
        ensures
            final(self).membership == workspace,
            final(self).latest_cursor == cursor,
            final(self).acknowledged_cursor == cursor,
            final(self).wf(),
            ({
                let changed = opt_name(old(self).membership) != opt_name(workspace);
                let kept = RouterBackendState {
                    membership: workspace,
                    latest_cursor: cursor,
                    acknowledged_cursor: cursor,
                    ..*old(self)
                };
                &&& *final(self) == if changed {
                    RouterBackendState { task_lease: None, waiter: None, pending: None, ..kept }
                } else {
                    kept
                }
                &&& effects.waiter == if changed {
                    given_up(
                        old(self).waiter,
                        BackendError::Router(RouterErrorCode::WorkspaceMismatch),
                    )
                } else {
                    None
                }
                &&& effects.rejected == if changed {
                    disconnected(old(self).pending)
                } else {
                    None
                }
            }),
            effects.unready == (workspace is None && old(self).role is CodexCli),
    {
        let changed = !same_names(&self.membership, &workspace);
        let unready = workspace.is_none() && self.role_readiness();
        self.membership = workspace;
        self.latest_cursor = cursor;
        self.acknowledged_cursor = cursor;
        if changed {
            self.task_lease = None;
            let waiter = give_up(
                self.waiter.take(),
                BackendError::Router(RouterErrorCode::WorkspaceMismatch),
            );
            let rejected = disconnect(self.pending.take());
            MembershipEffects { waiter, rejected, unready }
        } else {
            MembershipEffects { waiter: None, rejected: None, unready }
        }
    }

    /// Something happened in the workspace. The host reads it itself; for every other
    /// client it is acknowledged at once.
    pub fn handle_workspace_event(&mut self, event: &WorkspaceEvent) -> (effect: EventEffect)
        ensures
            ({
                let ours = opt_name(old(self).membership) == Some(event.workspace@);
                &&& *final(self) == (RouterBackendState {
                    latest_cursor: if ours && event.seq > old(self).latest_cursor {
                        event.seq
                    } else {
                        old(self).latest_cursor
                    },
                    ..*old(self)
                })
                &&& if !ours {
                    effect is Nothing
                } else if !(old(self).role is Omp) {
                    effect matches EventEffect::Acknowledge(workspace, seq) && workspace@
                        == event.workspace@ && seq == event.seq
                } else if old(self).notifications is None {
                    effect is Nothing
                } else {
                    effect matches EventEffect::Notify(OmpServerNotification::Unread {
                        workspace,
                        cursor,
                        count,
                    }) && workspace@ == event.workspace@ && cursor == event.seq && count == 1
                }
            }),
            old(self).wf() ==> final(self).wf(),
    {
        if !is_named(&self.membership, &event.workspace) {
            return EventEffect::Nothing;
        }
        if event.seq > self.latest_cursor {
            self.latest_cursor = event.seq;
        }
        if self.role != McpRole::Omp {
            return EventEffect::Acknowledge(event.workspace.copy(), event.seq);
        }
        match self.notifications {
            None => EventEffect::Nothing,
            Some(_) => EventEffect::Notify(
                OmpServerNotification::Unread {
                    workspace: event.workspace.as_str().to_owned(),
                    cursor: event.seq,
                    count: 1,
                },
            ),
        }
    }

    /// The router delivered work.
    pub fn handle_delivery(&mut self, request: InboundRequest, now: u64) -> (action: DeliveryAction)
        ensures
            delivers(*old(self), request, now, action),
            *final(self) == match delivery_fault(*old(self), request.workspace@) {
                Some(_) => *old(self),
                None => RouterBackendState {
                    pending: Some(request),
                    waiter: if old(self).role is CodexCli {
                        None
                    } else {
                        old(self).waiter
                    },
                    ..*old(self)
                },
            },
            old(self).wf() ==> final(self).wf(),
    {
        if !is_named(&self.membership, &request.workspace) {
            return DeliveryAction::Reject(request.request_id, RouterErrorCode::WorkspaceMismatch);
        }
        if self.pending.is_some() {
            return DeliveryAction::Reject(request.request_id, RouterErrorCode::SessionBusy);
        }
        match self.role {
            McpRole::CodexCli => match self.waiter {
                Some(waiter) => {
                    let given = request.copy();
                    self.waiter = None;
                    self.pending = Some(request);
                    DeliveryAction::Wait(waiter, given)
                },
                None => DeliveryAction::Reject(
                    request.request_id,
                    RouterErrorCode::ProviderNotReady,
                ),
            },
            McpRole::ClaudeChannel => {
                if self.notifications.is_none() {
                    return DeliveryAction::Reject(
                        request.request_id,
                        RouterErrorCode::ProviderNotReady,
                    );
                }
                let left = remaining_millis(request.deadline, now);
                let notification = ClaudeChannelNotification {
                    content: request.content.as_str().to_owned(),
                    meta: ClaudeChannelMeta {
                        request_id: request.request_id.as_str().to_owned(),
                        from: request.from.as_str().to_owned(),
                        timeout_ms: decimal(left),
                    },
                };
                self.pending = Some(request);
                DeliveryAction::Claude(notification)
            },
            McpRole::Omp => {
                if !self.omp_ready || self.notifications.is_none() {
                    return DeliveryAction::Reject(
                        request.request_id,
                        RouterErrorCode::ProviderNotReady,
                    );
                }
                let task = match &request.task {
                    Some(task) => Some(
                        OmpWorkTask { id: task.id, expected_version: task.expected_version },
                    ),
                    None => None,
                };
                let notification = OmpServerNotification::Work {
                    workspace: request.workspace.as_str().to_owned(),
                    request_id: request.request_id.as_str().to_owned(),
                    from: request.from.as_str().to_owned(),
                    content: request.content.as_str().to_owned(),
                    timeout_ms: remaining_millis(request.deadline, now),
                    task,
                };
                self.pending = Some(request);
                DeliveryAction::Omp(notification)
            },
            McpRole::Delegate => DeliveryAction::Reject(
                request.request_id,
                RouterErrorCode::ReplyForbidden,
            ),
        }
    }

    /// Work that was taken could not be handed on: it is no longer to be answered.
    pub fn reject_pending_delivery(&mut self, workspace: &WorkspaceName, request_id: &str)
        ensures
            *final(self) == if is_request(old(self).pending, workspace@, request_id@) {
                RouterBackendState { pending: None, ..*old(self) }
            } else {
                *old(self)
            },
            old(self).wf() ==> final(self).wf(),
    {
        if names_request(&self.pending, workspace, request_id) {
            self.pending = None;
        }
    }

    /// The router cancelled work. Only the work that is to be answered is, and only for the
    /// same task.
    pub fn handle_work_cancelled(
        &mut self,
        workspace: &WorkspaceName,
        request_id: String,
        task: Option<TaskFence>,
    ) -> (effect: CancelEffect)
        ensures
            ({
                let ours = is_request(old(self).pending, workspace@, request_id@) && cancels_task(
                    old(self).pending->0.task,
                    task,
                );
                &&& *final(self) == if ours {
                    RouterBackendState { pending: None, ..*old(self) }
                } else {
                    *old(self)
                }
                &&& if !ours {
                    effect is Ignored
                } else if old(self).role is Omp && old(self).notifications is Some {
                    effect matches CancelEffect::Cancelled(
                        Some(OmpServerNotification::Cancel {
                            workspace: told,
                            request_id: id,
                            task: of,
                        }),
                    ) && told@ == workspace@ && id == request_id && of == (match task {
                        Some(fence) => Some(
                            OmpTaskRef { task_id: fence.task_id, attempt_id: fence.attempt_id },
                        ),
                        None => None,
                    })
                } else {
                    effect == CancelEffect::Cancelled(None)
                }
            }),
            old(self).wf() ==> final(self).wf(),
    {
        let ours = names_request(&self.pending, workspace, request_id.as_str())
            && match &self.pending {
            Some(pending) => matching_cancel_task(pending.task.as_ref(), task.as_ref()),
            None => false,
        };
        if !ours {
            return CancelEffect::Ignored;
        }
        self.pending = None;
        if self.role == McpRole::Omp && self.notifications.is_some() {
            let of = match task {
                Some(fence) => Some(
                    OmpTaskRef { task_id: fence.task_id, attempt_id: fence.attempt_id },
                ),
                None => None,
            };
            return CancelEffect::Cancelled(
                Some(
                    OmpServerNotification::Cancel {
                        workspace: workspace.as_str().to_owned(),
                        request_id,
                        task: of,
                    },
                ),
            );
        }
        CancelEffect::Cancelled(None)
    }

    /// Whether a change of an attempt asks for the router's word on what runs: where an
    /// attempt has begun that is not leased yet.
    pub fn asks_barrier(&self, event: &TaskAttemptEvent) -> (asks: bool)
        ensures
            asks == (self.role is Omp && event.begun() is Some && !leases(
                self.task_lease,
                event.workspace@,
                event.begun()->0,
            )),
    {
        if self.role != McpRole::Omp {
            return false;
        }
        match (&event.current, &event.attempt) {
            (Some(fence), Some(attempt)) => {
                let held = match &self.task_lease {
                    Some(lease) => lease.workspace.same(&event.workspace) && lease.fence == *fence,
                    None => false,
                };
                !held && fence.task_id == event.task_id && fence.attempt_id == attempt.id
            },
            _ => false,
        }
    }

    /// A task's attempt has changed. `bound` is the router's word on what runs, where it
    /// was asked and gave one: an attempt is leased only where the router says that it is
    /// the one that runs. Where none runs and none is to stop, the lease of the task ends.
    pub fn handle_task_attempt(&mut self, event: TaskAttemptEvent, bound: Option<TaskFence>) -> (told:
        Option<OmpServerNotification>)
        ensures
            ({
                let takes = event.begun() is Some && bound == Some(event.begun()->0);
                let ends = event.current is None && event.stop_pending is None && (old(
                    self,
                ).task_lease matches Some(lease) && lease.fence.task_id == event.task_id);
                if !(old(self).role is Omp) {
                    *final(self) == *old(self) && told is None
                } else {
                    &&& *final(self) == (RouterBackendState {
                        task_lease: final(self).task_lease,
                        ..*old(self)
                    })
                    &&& if takes {
                        final(self).task_lease matches Some(lease) && lease.workspace@
                            == event.workspace@ && lease.fence == event.begun()->0
                            && lease.session_id == event.attempt->0.session_id
                            && lease.work_request_id@ == event.attempt->0.work_request_id@
                    } else if ends {
                        final(self).task_lease is None
                    } else {
                        final(self).task_lease == old(self).task_lease
                    }
                    &&& if old(self).notifications is None {
                        told is None
                    } else {
                        told matches Some(OmpServerNotification::TaskAttempt {
                            workspace,
                            task_id,
                            attempt,
                            closed_attempt_id,
                        }) && workspace@ == event.workspace@ && task_id == event.task_id && attempt
                            == (match event.attempt {
                            Some(attempt) => Some(
                                OmpAttemptRef { id: attempt.id, session_id: attempt.session_id },
                            ),
                            None => None,
                        }) && closed_attempt_id == event.closed_attempt_id
                    }
                }
            }),
            old(self).wf() ==> final(self).wf(),
    {
        if self.role != McpRole::Omp {
            return None;
        }
        if let (Some(fence), Some(attempt)) = (&event.current, &event.attempt) {
            if fence.task_id == event.task_id && fence.attempt_id == attempt.id {
                if let Some(bound) = bound {
                    if bound == *fence {
                        self.task_lease = Some(
                            OmpTaskLease {
                                workspace: event.workspace.copy(),
                                fence: bound,
                                session_id: attempt.session_id,
                                work_request_id: attempt.work_request_id.as_str().to_owned(),
                            },
                        );
                    }
                }
            }
        }
        if event.current.is_none() && event.stop_pending.is_none() {
            let ends = match &self.task_lease {
                Some(lease) => lease.fence.task_id == event.task_id,
                None => false,
            };
            if ends {
                self.task_lease = None;
            }
        }
        match self.notifications {
            None => None,
            Some(_) => {
                let attempt = match &event.attempt {
                    Some(attempt) => Some(
                        OmpAttemptRef { id: attempt.id, session_id: attempt.session_id },
                    ),
                    None => None,
                };
                Some(
                    OmpServerNotification::TaskAttempt {
                        workspace: event.workspace.as_str().to_owned(),
                        task_id: event.task_id,
                        attempt,
                        closed_attempt_id: event.closed_attempt_id,
                    },
                )
            },
        }
    }
}

} // verus!
