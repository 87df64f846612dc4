//! Waiting for work, answering it, and what the host reports of it.

use vstd::prelude::*;

use crate::ids::Uuid;
use crate::json::{
    field, integer, integer_model, object, Json, JsonModel,
};
use crate::mcp::args::AgentReplyArgs;
use crate::mcp::backend::{
    delivery_fault, disconnect, disconnected, give_up, given_up, is_request, left_until,
    remaining_millis, CloseEffects, InboundRequest, OmpStep, OmpTaskLease, RouterBackendState,
};
use crate::mcp::notify::{
    McpNotificationSink, OmpHostNotification, OmpTaskTerminal, OmpTerminalReason,
    OmpWorkFinishedError,
};
use crate::mcp::{BackendError, McpRole};
use crate::protocol::server::ServerMessage;
use crate::protocol::{
    is_named, opt_name, same_names, workspace_name, RouterErrorCode, TaskDispatch, TaskFence,
    WorkspaceName,
};
use crate::providers::{TerminalEvidence, TerminalReason};
use crate::text::same_text;

verus! {

/// Whether the server of a role may be started for a workspace: a delegate has its
/// owner's, and the host joins its own.
pub open spec fn may_start_in(role: McpRole, initial: Option<WorkspaceName>) -> bool {
    initial is Some ==> !(role is Delegate || role is Omp)
}

pub fn check_initial_workspace(role: McpRole, initial: &Option<WorkspaceName>) -> (checked: Result<
    (),
    BackendError,
>)
    ensures
        checked == if may_start_in(role, *initial) {
            Ok::<(), BackendError>(())
        } else {
            Err(BackendError::InvalidState)
        },
{
    if initial.is_some() && (role == McpRole::Delegate || role == McpRole::Omp) {
        return Err(BackendError::InvalidState);
    }
    Ok(())
}

impl RouterBackendState {
    /// Whether calls are still taken.
    pub fn ensure_open(&self) -> (open: Result<(), BackendError>)
        ensures
            open == if self.closed {
                Err::<(), BackendError>(BackendError::Unavailable)
            } else {
                Ok(())
            },
    {
        if self.closed {
            Err(BackendError::Unavailable)
        } else {
            Ok(())
        }
    }

    /// The client has connected. Whether the router is connected to at once: a delegate's
    /// server waits for the first call.
    pub fn connected(&mut self, notifications: McpNotificationSink) -> (connects: Result<
        bool,
        BackendError,
    >)
        ensures
            if old(self).closed {
                &&& connects == Err::<bool, BackendError>(BackendError::Unavailable)
                &&& *final(self) == *old(self)
            } else {
                &&& connects == Ok::<bool, BackendError>(!(old(self).role is Delegate))
                &&& *final(self) == (RouterBackendState {
                    notifications: Some(notifications),
                    ..*old(self)
                })
            },
            old(self).wf() ==> final(self).wf(),
    {
        if self.closed {
            return Err(BackendError::Unavailable);
        }
        self.notifications = Some(notifications);
        Ok(self.role != McpRole::Delegate)
    }

    /// Closes the backend, once.
    pub fn close(&mut self) -> (effects: Option<CloseEffects>)
        ensures
            if old(self).closed {
                effects is None && *final(self) == *old(self)
            } else {
                &&& *final(self) == (RouterBackendState {
                    closed: true,
                    notifications: None,
                    task_lease: None,
                    waiter: None,
                    pending: None,
                    ..*old(self)
                })
                &&& effects == Some(
                    CloseEffects {
                        waiter: given_up(old(self).waiter, BackendError::Unavailable),
                        rejected: disconnected(old(self).pending),
                        unready: old(self).role is CodexCli,
                    },
                )
            },
            final(self).closed,
            old(self).wf() ==> final(self).wf(),
    {
        if self.closed {
            return None;
        }
        self.closed = true;
        self.notifications = None;
        self.task_lease = None;
        let waiter = give_up(self.waiter.take(), BackendError::Unavailable);
        let rejected = disconnect(self.pending.take());
        Some(CloseEffects { waiter, rejected, unready: self.role_readiness() })
    }
}

/// Why a call cannot wait for work.
pub open spec fn wait_fault(state: RouterBackendState) -> Option<BackendError> {
    if state.membership is None {
        Some(BackendError::Router(RouterErrorCode::WorkspaceRequired))
    } else if state.pending is Some {
        Some(BackendError::ReplyPending)
    } else if state.waiter is Some {
        Some(BackendError::WaitBusy)
    } else {
        None
    }
}

/// The value of a task that work is for.
pub open spec fn dispatch_model(task: Option<TaskDispatch>) -> JsonModel {
    match task {
        None => JsonModel::Null,
        Some(task) => JsonModel::Object(
            seq![
                ("id"@, integer_model(task.id)),
                ("expectedVersion"@, integer_model(task.expected_version)),
            ],
        ),
    }
}

fn dispatch_value(task: &Option<TaskDispatch>) -> (value: Json)
    ensures
        value.model() == dispatch_model(*task),
{
    match task {
        None => Json::Null,
        Some(task) => {
            let value = object(
                vec![
                    field("id", integer(task.id)),
                    field("expectedVersion", integer(task.expected_version)),
                ],
            );
            assert(value.model()->Object_0 =~= dispatch_model(Some(*task))->Object_0);
            value
        },
    }
}

/// What a call that waited in vain is answered.
pub open spec fn wait_timeout_model() -> JsonModel {
    JsonModel::Object(
        seq![("request"@, JsonModel::Null), ("error"@, JsonModel::Text("wait_timeout"@))],
    )
}

/// What a call that waited in vain is answered.
pub fn wait_timeout_value() -> (value: Json)
    ensures
        value.model() == wait_timeout_model(),
{
    let value = object(
        vec![field("request", Json::Null), field("error", Json::of_text("wait_timeout"))],
    );
    assert(value.model()->Object_0 =~= wait_timeout_model()->Object_0);
    value
}

/// The work that a call which waited is given.
pub open spec fn delivered_members(request: InboundRequest, now: u64) -> Seq<
    (Seq<char>, JsonModel),
> {
    seq![
        ("workspace"@, JsonModel::Text(request.workspace@)),
        ("requestId"@, JsonModel::Text(request.request_id@)),
        ("from"@, JsonModel::Text(request.from@)),
        ("content"@, JsonModel::Text(request.content@)),
        ("timeoutMs"@, JsonModel::Unsigned(left_until(request.deadline, now))),
        ("task"@, dispatch_model(request.task)),
    ]
}

/// What a call that waited for work is answered.
pub fn delivered_value(request: &InboundRequest, now: u64) -> (value: Json)
    ensures
        value.model() == JsonModel::Object(
            seq![("request"@, JsonModel::Object(delivered_members(*request, now)))],
        ),
{
    let work = object(
        vec![
            field("workspace", Json::of_text(request.workspace.as_str())),
            field("requestId", Json::of_text(request.request_id.as_str())),
            field("from", Json::of_text(request.from.as_str())),
            field("content", Json::of_text(request.content.as_str())),
            field("timeoutMs", Json::Unsigned(remaining_millis(request.deadline, now))),
            field("task", dispatch_value(&request.task)),
        ],
    );
    assert(work.model()->Object_0 =~= delivered_members(*request, now));
    let value = object(vec![field("request", work)]);
    assert(value.model()->Object_0 =~= seq![
        ("request"@, JsonModel::Object(delivered_members(*request, now))),
    ]);
    value
}

/// What an answer to work is answered.
pub fn replied_value(request_id: &str) -> (value: Json)
    ensures
        value.model() == JsonModel::Object(
            seq![("ok"@, JsonModel::Bool(true)), ("requestId"@, JsonModel::Text(request_id@))],
        ),
{
    let value = object(
        vec![field("ok", Json::Bool(true)), field("requestId", Json::of_text(request_id))],
    );
    assert(value.model()->Object_0 =~= seq![
        ("ok"@, JsonModel::Bool(true)),
        ("requestId"@, JsonModel::Text(request_id@)),
    ]);
    value
}

/// Why work cannot be answered like this: an answer has text, and only the work of the
/// workspace that the client is in, before its deadline, is to be answered.
pub open spec fn reply_fault(
    state: RouterBackendState,
    request_id: Seq<char>,
    text: Seq<char>,
    now: u64,
) -> Option<BackendError> {
    if text.len() == 0 {
        Some(BackendError::Router(RouterErrorCode::InvalidMessage))
    } else {
        match state.pending {
            None => Some(BackendError::NotFound),
            Some(pending) => if pending.request_id@ != request_id || opt_name(state.membership)
                != Some(pending.workspace@) || pending.deadline <= now {
                Some(BackendError::NotFound)
            } else {
                None
            },
        }
    }
}

/// The code that unfinished work is answered with.
pub open spec fn finished_code(error: OmpWorkFinishedError) -> RouterErrorCode {
    match error {
        OmpWorkFinishedError::SessionBusy => RouterErrorCode::SessionBusy,
        OmpWorkFinishedError::ReplyMissing => RouterErrorCode::ReplyMissing,
    }
}

/// Whether the host's report is of the leased attempt.
pub open spec fn reports_lease(lease: Option<OmpTaskLease>, terminal: OmpTaskTerminal) -> bool {
    &&& lease matches Some(lease)
    &&& lease.workspace@ == terminal.workspace@
    &&& lease.fence.task_id == terminal.task_id
    &&& lease.fence.attempt_id == terminal.attempt_id
    &&& lease.session_id == terminal.session_id
}

/// Why the host's word is refused.
pub open spec fn host_word_fault(state: RouterBackendState, word: OmpHostNotification) -> Option<
    BackendError,
> {
    if !(state.role is Omp) {
        Some(BackendError::InvalidState)
    } else {
        match word {
            OmpHostNotification::HostState(_) => None,
            OmpHostNotification::WorkFinished(finished) => if state.pending matches Some(pending)
                && pending.request_id@ == finished.request_id@ {
                None
            } else {
                Some(BackendError::NotFound)
            },
            OmpHostNotification::TaskTerminal(terminal) => if !workspace_name(
                terminal.workspace@,
            ) {
                Some(BackendError::Router(RouterErrorCode::InvalidMessage))
            } else if !reports_lease(state.task_lease, terminal) {
                Some(BackendError::InvalidState)
            } else {
                None
            },
            OmpHostNotification::Consumed(consumed) => if !workspace_name(consumed.workspace@) {
                Some(BackendError::Router(RouterErrorCode::InvalidMessage))
            } else if opt_name(state.membership) != Some(consumed.workspace@) || !(
            state.acknowledged_cursor <= consumed.cursor <= state.latest_cursor) {
                Some(BackendError::InvalidState)
            } else {
                None
            },
        }
    }
}

/// What the host's word makes of the state.
pub open spec fn after_host_word(state: RouterBackendState, word: OmpHostNotification) -> RouterBackendState {
    match word {
        OmpHostNotification::HostState(host) => RouterBackendState {
            omp_ready: host.ready,
            ..state
        },
        OmpHostNotification::WorkFinished(_) => RouterBackendState { pending: None, ..state },
        OmpHostNotification::TaskTerminal(_) => state,
        OmpHostNotification::Consumed(consumed) => RouterBackendState {
            acknowledged_cursor: consumed.cursor,
            ..state
        },
    }
}

/// Whether a step is the one that the host's word leads to.
pub open spec fn host_word_leads(
    state: RouterBackendState,
    word: OmpHostNotification,
    step: OmpStep,
) -> bool {
    match word {
        OmpHostNotification::HostState(_) => step is Done,
        OmpHostNotification::WorkFinished(finished) => step matches OmpStep::Reply(request_id, code)
            && request_id@ == finished.request_id@ && code == finished_code(finished.error),
        OmpHostNotification::TaskTerminal(terminal) => step matches OmpStep::Stopped(
            fence,
            evidence,
        ) && fence == state.task_lease->0.fence && evidence.request_id@
            == state.task_lease->0.work_request_id@ && evidence.reason == host_reason(
            terminal.reason,
        ) && !evidence.child_reaped,
        OmpHostNotification::Consumed(consumed) => step matches OmpStep::Acknowledge(
            workspace,
            cursor,
        ) && workspace@ == consumed.workspace@ && cursor == consumed.cursor,
    }
}

/// Why the host says that a turn ended.
pub open spec fn host_reason(reason: OmpTerminalReason) -> TerminalReason {
    match reason {
        OmpTerminalReason::TurnEnded => TerminalReason::TurnEnded,
        OmpTerminalReason::SessionEnded => TerminalReason::SessionEnded,
        OmpTerminalReason::HostError => TerminalReason::HostError,
    }
}

/// How a wait for work ended.
#[derive(PartialEq)]
pub enum WaitEnd {
    /// The router could not be told that work is taken.
    Untold(BackendError),
    Cancelled,
    /// The time is over. The router could not be told that no more work is taken, where
    /// there is an error.
    TimedOut(Option<BackendError>),
    /// There is nobody left who could give any work.
    Lost,
    /// The call is told that it waits no longer.
    GivenUp(BackendError),
    /// Some work, and the time.
    Delivered(InboundRequest, u64),
}

/// What a call that waited is answered.
pub open spec fn wait_answer(end: WaitEnd) -> Result<JsonModel, BackendError> {
    match end {
        WaitEnd::Untold(error) => Err(error),
        WaitEnd::Cancelled => Err(BackendError::Cancelled),
        WaitEnd::TimedOut(Some(error)) => Err(error),
        WaitEnd::TimedOut(None) => Ok(wait_timeout_model()),
        WaitEnd::Lost => Err(BackendError::Unavailable),
        WaitEnd::GivenUp(error) => Err(error),
        WaitEnd::Delivered(request, now) => Ok(
            JsonModel::Object(
                seq![("request"@, JsonModel::Object(delivered_members(request, now)))],
            ),
        ),
    }
}

/// What a call that waited is answered.
pub fn wait_outcome(end: &WaitEnd) -> (outcome: Result<Json, BackendError>)
    ensures
        (match outcome {
            Ok(value) => Ok(value.model()),
            Err(error) => Err(error),
        }) == wait_answer(*end),
{
    match end {
        WaitEnd::Untold(error) => Err(*error),
        WaitEnd::Cancelled => Err(BackendError::Cancelled),
        WaitEnd::TimedOut(Some(error)) => Err(*error),
        WaitEnd::TimedOut(None) => Ok(wait_timeout_value()),
        WaitEnd::Lost => Err(BackendError::Unavailable),
        WaitEnd::GivenUp(error) => Err(*error),
        WaitEnd::Delivered(request, now) => Ok(delivered_value(request, *now)),
    }
}

impl RouterBackendState {
    /// A call begins to wait for work.
    pub fn begin_wait(&mut self, id: Uuid) -> (began: Result<(), BackendError>)
        ensures
            match wait_fault(*old(self)) {
                Some(fault) => began == Err::<(), BackendError>(fault) && *final(self) == *old(self),
                None => began == Ok::<(), BackendError>(()) && *final(self) == (
                RouterBackendState { waiter: Some(id), ..*old(self) }),
            },
            old(self).wf() ==> final(self).wf(),
    {
        if self.membership.is_none() {
            return Err(BackendError::Router(RouterErrorCode::WorkspaceRequired));
        }
        if self.pending.is_some() {
            return Err(BackendError::ReplyPending);
        }
        if self.waiter.is_some() {
            return Err(BackendError::WaitBusy);
        }
        self.waiter = Some(id);
        Ok(())
    }

    /// A call waits no longer: its time is over, or it was given up. Whether it still
    /// waited, in which case the router is told that no work is taken.
    pub fn end_wait(&mut self, id: Uuid) -> (removed: bool)
        ensures
            removed == (old(self).waiter == Some(id)),
            *final(self) == if removed {
                RouterBackendState { waiter: None, ..*old(self) }
            } else {
                *old(self)
            },
            old(self).wf() ==> final(self).wf(),
    {
        match self.waiter {
            Some(waiter) => {
                if waiter == id {
                    self.waiter = None;
                    return true;
                }
                false
            },
            None => false,
        }
    }

    /// Whether work can be answered like this, and of which workspace it is.
    pub fn begin_reply(&self, args: &AgentReplyArgs, now: u64) -> (workspace: Result<
        WorkspaceName,
        BackendError,
    >)
        ensures
            match reply_fault(*self, args.request_id@, args.text@, now) {
                Some(fault) => workspace == Err::<WorkspaceName, BackendError>(fault),
                None => workspace matches Ok(workspace) && workspace@
                    == self.pending->0.workspace@,
            },
    {
        if args.text.as_str().unicode_len() == 0 {
            return Err(BackendError::Router(RouterErrorCode::InvalidMessage));
        }
        match &self.pending {
            None => Err(BackendError::NotFound),
            Some(pending) => {
                if !same_text(pending.request_id.as_str(), args.request_id.as_str()) || !is_named(
                    &self.membership,
                    &pending.workspace,
                ) || pending.deadline <= now {
                    return Err(BackendError::NotFound);
                }
                Ok(pending.workspace.copy())
            },
        }
    }

    /// The router took the answer to work. The work is to be answered no longer; where it
    /// was not to be any more already, the answer was not found to be owed.
    pub fn finish_reply(&mut self, workspace: &WorkspaceName, request_id: &str) -> (finished: Result<
        (),
        BackendError,
    >)
        ensures
            if is_request(old(self).pending, workspace@, request_id@) {
                &&& finished == Ok::<(), BackendError>(())
                &&& *final(self) == (RouterBackendState { pending: None, ..*old(self) })
            } else {
                &&& finished == Err::<(), BackendError>(BackendError::NotFound)
                &&& *final(self) == *old(self)
            },
            old(self).wf() ==> final(self).wf(),
    {
        let ours = match &self.pending {
            Some(pending) => pending.workspace.same(workspace) && same_text(
                pending.request_id.as_str(),
                request_id,
            ),
            None => false,
        };
        if !ours {
            return Err(BackendError::NotFound);
        }
        self.pending = None;
        Ok(())
    }

    /// The work that a request names was not done: it is answered with a code.
    fn fail_pending_work(&mut self, request_id: &str) -> (failed: Result<String, BackendError>)
        ensures
            if old(self).pending matches Some(pending) && pending.request_id@ == request_id@ {
                &&& failed matches Ok(id) && id@ == request_id@
                &&& *final(self) == (RouterBackendState { pending: None, ..*old(self) })
            } else {
                &&& failed == Err::<String, BackendError>(BackendError::NotFound)
                &&& *final(self) == *old(self)
            },
    {
        let ours = match &self.pending {
            Some(pending) => same_text(pending.request_id.as_str(), request_id),
            None => false,
        };
        if !ours {
            return Err(BackendError::NotFound);
        }
        match self.pending.take() {
            Some(pending) => Ok(pending.request_id),
            None => Err(BackendError::NotFound),
        }
    }

    /// The host reports that the execution of a task has ended.
    fn finish_omp_task(&self, terminal: OmpTaskTerminal) -> (step: Result<OmpStep, BackendError>)
        requires
            self.role is Omp,
        ensures
            match host_word_fault(*self, OmpHostNotification::TaskTerminal(terminal)) {
                Some(fault) => step == Err::<OmpStep, BackendError>(fault),
                None => step matches Ok(step) && host_word_leads(
                    *self,
                    OmpHostNotification::TaskTerminal(terminal),
                    step,
                ),
            },
    {
        let workspace = match WorkspaceName::parse(terminal.workspace) {
            Ok(workspace) => workspace,
            Err(code) => {
                return Err(BackendError::Router(code));
            },
        };
        match &self.task_lease {
            None => Err(BackendError::InvalidState),
            Some(lease) => {
                if !lease.workspace.same(&workspace) || lease.fence.task_id != terminal.task_id
                    || lease.fence.attempt_id != terminal.attempt_id || lease.session_id
                    != terminal.session_id {
                    return Err(BackendError::InvalidState);
                }
                Ok(
                    OmpStep::Stopped(
                        lease.fence,
                        TerminalEvidence {
                            request_id: lease.work_request_id.as_str().to_owned(),
                            reason: match terminal.reason {
                                OmpTerminalReason::TurnEnded => TerminalReason::TurnEnded,
                                OmpTerminalReason::SessionEnded => TerminalReason::SessionEnded,
                                OmpTerminalReason::HostError => TerminalReason::HostError,
                            },
                            child_reaped: false,
                        },
                    ),
                )
            },
        }
    }

    /// The host told something.
    pub fn handle_omp_notification(&mut self, word: OmpHostNotification) -> (step: Result<
        OmpStep,
        BackendError,
    >)
        ensures
            match host_word_fault(*old(self), word) {
                Some(fault) => step == Err::<OmpStep, BackendError>(fault) && *final(self) == *old(self),
                None => (step matches Ok(step) && host_word_leads(*old(self), word, step)) && *final(self) == after_host_word(*old(self), word),
            },
            old(self).wf() ==> final(self).wf(),
            final(self).acknowledged_cursor >= old(self).acknowledged_cursor,
    {
        if self.role != McpRole::Omp {
            return Err(BackendError::InvalidState);
        }
        match word {
            OmpHostNotification::HostState(host) => {
                self.omp_ready = host.ready;
                Ok(OmpStep::Done)
            },
            OmpHostNotification::WorkFinished(finished) => {
                let code = match finished.error {
                    OmpWorkFinishedError::SessionBusy => RouterErrorCode::SessionBusy,
                    OmpWorkFinishedError::ReplyMissing => RouterErrorCode::ReplyMissing,
                };
                match self.fail_pending_work(finished.request_id.as_str()) {
                    Ok(request_id) => Ok(OmpStep::Reply(request_id, code)),
                    Err(error) => Err(error),
                }
            },
            OmpHostNotification::TaskTerminal(terminal) => self.finish_omp_task(terminal),
            OmpHostNotification::Consumed(consumed) => {
                let workspace = match WorkspaceName::parse(consumed.workspace) {
                    Ok(workspace) => workspace,
                    Err(code) => {
                        return Err(BackendError::Router(code));
                    },
                };
                if !is_named(&self.membership, &workspace) || consumed.cursor
                    < self.acknowledged_cursor || consumed.cursor > self.latest_cursor {
                    return Err(BackendError::InvalidState);
                }
                self.acknowledged_cursor = consumed.cursor;
                Ok(OmpStep::Acknowledge(workspace, consumed.cursor))
            },
        }
    }

    /// The router knows that the execution of an attempt has stopped: its lease ends.
    pub fn omp_task_stopped(&mut self, fence: TaskFence)
        ensures
            *final(self) == if old(self).task_lease matches Some(lease) && lease.fence == fence {
                RouterBackendState { task_lease: None, ..*old(self) }
            } else {
                *old(self)
            },
            old(self).wf() ==> final(self).wf(),
    {
        let ours = match &self.task_lease {
            Some(lease) => lease.fence == fence,
            None => false,
        };
        if ours {
            self.task_lease = None;
        }
    }
}

/// The requests whose results are awaited.
pub struct PendingResults {
    ids: Vec<String>,
}

impl PendingResults {
    #[verifier::type_invariant]
    spec fn distinct(self) -> bool {
        forall|i: int, j: int|
            0 <= i < j < self.ids@.len() ==> #[trigger] self.ids@[i]@ != #[trigger] self.ids@[j]@
    }

    /// The requests whose results are awaited.
    pub closed spec fn awaited(self) -> Set<Seq<char>> {
        Set::new(|id: Seq<char>| exists|i: int| 0 <= i < self.ids@.len() && #[trigger] self.ids@[i]@ == id)
    }

    pub fn new() -> (results: PendingResults)
        ensures
            results.awaited() == Set::<Seq<char>>::empty(),
    {
        let results = PendingResults { ids: Vec::new() };
        assert(results.awaited() =~= Set::<Seq<char>>::empty());
        results
    }

    fn place(&self, id: &str) -> (place: Option<usize>)
        ensures
            match place {
                Some(place) => place < self.ids@.len() && self.ids@[place as int]@ == id@,
                None => forall|i: int| 0 <= i < self.ids@.len() ==> #[trigger] self.ids@[i]@ != id@,
            },
    {
        let mut i: usize = 0;
        while i < self.ids.len()
            invariant
                i <= self.ids@.len(),
                forall|j: int| 0 <= j < i ==> #[trigger] self.ids@[j]@ != id@,
            decreases self.ids.len() - i,
        {
            if same_text(self.ids[i].as_str(), id) {
                return Some(i);
            }
            i += 1;
        }
        None
    }

    /// A request is made whose result is awaited. No two of the same identifier are.
    pub fn register(&mut self, id: &str) -> (registered: Result<(), BackendError>)
        ensures
            registered == if old(self).awaited().contains(id@) {
                Err::<(), BackendError>(BackendError::Conflict)
            } else {
                Ok(())
            },
            final(self).awaited() == old(self).awaited().insert(id@),
    {
        proof {
            use_type_invariant(&*self);
        }
        match self.place(id) {
            Some(place) => {
                assert(self.ids@[place as int]@ == id@);
                assert(self.awaited() =~= old(self).awaited().insert(id@));
                Err(BackendError::Conflict)
            },
            None => {
                let mut ids: Vec<String> = Vec::new();
                std::mem::swap(&mut ids, &mut self.ids);
                let ghost before = ids@;
                ids.push(id.to_owned());
                self.ids = ids;
                proof {
                    assert(self.ids@ == before.push(self.ids@.last()));
                    assert forall|other: Seq<char>| old(self).awaited().insert(id@).contains(other)
                        implies self.awaited().contains(other) by {
                        if other == id@ {
                            assert(self.ids@[before.len() as int]@ == id@);
                        } else {
                            let i = choose|i: int|
                                0 <= i < before.len() && #[trigger] before[i]@ == other;
                            assert(self.ids@[i]@ == other);
                        }
                    }
                    assert forall|other: Seq<char>| self.awaited().contains(other) implies old(self).awaited().insert(id@).contains(other) by {
                        let i = choose|i: int|
                            0 <= i < self.ids@.len() && #[trigger] self.ids@[i]@ == other;
                        if i < before.len() {
                            assert(before[i]@ == other);
                        }
                    }
                    assert(self.awaited() =~= old(self).awaited().insert(id@));
                }
                Ok(())
            },
        }
    }

    /// The result of a request is here, or no longer awaited. Whether it was.
    pub fn settle(&mut self, id: &str) -> (awaited: bool)
        ensures
            awaited == old(self).awaited().contains(id@),
            final(self).awaited() == old(self).awaited().remove(id@),
    {
        proof {
            use_type_invariant(&*self);
        }
        match self.place(id) {
            None => {
                assert(self.awaited() =~= old(self).awaited().remove(id@));
                false
            },
            Some(place) => {
                let mut ids: Vec<String> = Vec::new();
                std::mem::swap(&mut ids, &mut self.ids);
                let ghost before = ids@;
                assert(before[place as int]@ == id@);
                ids.remove(place);
                assert(ids@ == before.remove(place as int));
                assert(forall|i: int| 0 <= i < place ==> #[trigger] ids@[i] == before[i]);
                assert(forall|i: int|
                    place <= i < ids@.len() ==> #[trigger] ids@[i] == before[i + 1]);
                self.ids = ids;
                proof {
                    let place = place as int;
                    assert forall|other: Seq<char>| old(self).awaited().remove(id@).contains(other)
                        implies self.awaited().contains(other) by {
                        let i = choose|i: int|
                            0 <= i < before.len() && #[trigger] before[i]@ == other;
                        if i < place {
                            assert(self.ids@[i]@ == other);
                        } else {
                            assert(self.ids@[i - 1]@ == other);
                        }
                    }
                    assert forall|other: Seq<char>| self.awaited().contains(other) implies old(self).awaited().remove(id@).contains(other) by {
                        let i = choose|i: int|
                            0 <= i < self.ids@.len() && #[trigger] self.ids@[i]@ == other;
                        if i < place {
                            assert(before[i]@ == other);
                        } else {
                            assert(before[i + 1]@ == other);
                        }
                    }
                    assert(self.awaited() =~= old(self).awaited().remove(id@));
                }
                true
            },
        }
    }

    /// No result is awaited any more.
    pub fn clear(&mut self)
        ensures
            final(self).awaited() == Set::<Seq<char>>::empty(),
    {
        self.ids = Vec::new();
        assert(self.awaited() =~= Set::<Seq<char>>::empty());
    }
}

/// The result of a request that was sent to an agent.
#[derive(Debug, PartialEq)]
pub struct AgentSendResult {
    pub workspace: Option<WorkspaceName>,
    pub request_id: String,
    pub from: String,
    pub ok: bool,
    pub content: Option<String>,
    pub error: Option<RouterErrorCode>,
}

/// How waiting for a result ended.
#[derive(Debug)]
pub enum RoutedEnd {
    Cancelled,
    TimedOut,
    /// The result can no longer come.
    Dropped,
    Result(AgentSendResult),
}

/// The content of a result, empty where it has none.
pub open spec fn content_or_empty(content: Option<String>) -> Seq<char> {
    match content {
        Some(content) => content@,
        None => Seq::empty(),
    }
}

/// Why a request that was sent to an agent failed, from how waiting for its result ended.
/// A result of another workspace than the client is in is none.
pub open spec fn routed_fault(membership: Option<Seq<char>>, end: RoutedEnd) -> Option<BackendError> {
    match end {
        RoutedEnd::Cancelled => Some(BackendError::Cancelled),
        RoutedEnd::TimedOut => Some(BackendError::Router(RouterErrorCode::RequestTimeout)),
        RoutedEnd::Dropped => Some(BackendError::Unavailable),
        RoutedEnd::Result(result) => if membership is Some && opt_name(result.workspace)
            != membership {
            Some(BackendError::InvalidState)
        } else if result.ok {
            None
        } else {
            Some(
                BackendError::Router(
                    match result.error {
                        Some(code) => code,
                        None => RouterErrorCode::ProviderError,
                    },
                ),
            )
        },
    }
}

/// The value of a result.
pub open spec fn result_model(result: AgentSendResult) -> JsonModel {
    JsonModel::Object(
        seq![
            ("requestId"@, JsonModel::Text(result.request_id@)),
            ("from"@, JsonModel::Text(result.from@)),
            ("ok"@, JsonModel::Bool(true)),
            ("content"@, JsonModel::Text(content_or_empty(result.content))),
        ],
    )
}

/// What a request that was sent to an agent is answered.
pub fn routed_outcome(membership: &Option<WorkspaceName>, end: RoutedEnd) -> (outcome: Result<
    Json,
    BackendError,
>)
    ensures
        match routed_fault(opt_name(*membership), end) {
            Some(fault) => outcome == Err::<Json, BackendError>(fault),
            None => end is Result && (outcome matches Ok(value) && value.model() == result_model(
                end->Result_0,
            )),
        },
{
    match end {
        RoutedEnd::Cancelled => Err(BackendError::Cancelled),
        RoutedEnd::TimedOut => Err(BackendError::Router(RouterErrorCode::RequestTimeout)),
        RoutedEnd::Dropped => Err(BackendError::Unavailable),
        RoutedEnd::Result(result) => {
            if membership.is_some() && !same_names(&result.workspace, membership) {
                return Err(BackendError::InvalidState);
            }
            if !result.ok {
                return Err(
                    BackendError::Router(
                        match result.error {
                            Some(code) => code,
                            None => RouterErrorCode::ProviderError,
                        },
                    ),
                );
            }
            let content = match &result.content {
                Some(content) => Json::of_text(content.as_str()),
                None => Json::Text(String::new()),
            };
            assert(content.model()->Text_0 =~= content_or_empty(result.content));
            let value = object(
                vec![
                    field("requestId", Json::of_text(result.request_id.as_str())),
                    field("from", Json::of_text(result.from.as_str())),
                    field("ok", Json::Bool(true)),
                    field("content", content),
                ],
            );
            assert(value.model()->Object_0 =~= result_model(result)->Object_0);
            Ok(value)
        },
    }
}

/// The failure that an unexpected answer of the router is: its own code where it is an
/// error.
pub open spec fn answer_failure(message: ServerMessage) -> BackendError {
    match message {
        ServerMessage::Error { code, .. } => BackendError::Router(code),
        _ => BackendError::InvalidState,
    }
}

pub fn server_message_error(message: &ServerMessage) -> (error: BackendError)
    ensures
        error == answer_failure(*message),
{
    match message {
        ServerMessage::Error { code, .. } => BackendError::Router(*code),
        _ => BackendError::InvalidState,
    }
}

/// A client takes one piece of work at a time, of the workspace it is in, and a delegate
/// takes none.
pub proof fn work_is_taken_one_at_a_time(state: RouterBackendState, workspace: Seq<char>)
    ensures
        state.pending is Some ==> delivery_fault(state, workspace) is Some,
        delivery_fault(state, workspace) is None ==> opt_name(state.membership) == Some(workspace),
        state.role is Delegate ==> delivery_fault(state, workspace) is Some,
{
}

/// While work is to be answered nobody waits for more, and what is answered is the work
/// that was taken.
pub proof fn waiting_and_owing_exclude_each_other(
    state: RouterBackendState,
    request_id: Seq<char>,
    text: Seq<char>,
    now: u64,
)
    ensures
        state.pending is Some ==> wait_fault(state) is Some,
        reply_fault(state, request_id, text, now) is None ==> (state.pending matches Some(pending)
            && pending.request_id@ == request_id && opt_name(state.membership) == Some(
            pending.workspace@,
        )),
{
}

} // verus!
