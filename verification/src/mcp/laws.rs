//! What holds of a backend as a whole: how work goes from the router to the client and back.

use vstd::prelude::*;

use crate::ids::Uuid;
use crate::json::{Json, JsonModel};
use crate::mcp::answer::{
    answer_effect, answer_kind, tool_answer, AnswerEffect, AnswerKind, ToolAnswer,
};
use crate::mcp::args::{AgentReplyArgs, McpCall};
use crate::mcp::backend::{
    CancelEffect, CloseEffects, DeliveryAction, EventEffect, InboundRequest, MembershipEffects,
    OmpStep, RouterBackendState, TaskAttemptEvent,
};
use crate::mcp::dispatch::{dispatch_with, Dispatched};
use crate::mcp::notify::{
    parse_omp_host_notification, McpNotificationSink, Notification, NotificationError,
    OmpHostNotification, OmpServerNotification,
};
use crate::mcp::output::{
    admit_call, finish_call, CallAdmission, CallStep, RpcError, ToolResult,
};
use crate::mcp::transport::{
    serve_outcome, GuardedSinkError, McpRuntimeError, OutputGuard, Progress, ServiceEnd,
    TransportHealth,
};
use crate::mcp::work::{
    check_initial_workspace, routed_outcome, wait_outcome, PendingResults, RoutedEnd, WaitEnd,
};
use crate::mcp::{BackendError, McpRole};
use crate::protocol::client::ClientMessage;
use crate::protocol::server::ServerMessage;
use crate::protocol::{
    opt_name, workspace_name, RouterErrorCode, TaskFence, WorkspaceEvent, WorkspaceName,
};
use crate::tasks::TaskState;
use crate::text::decimal_text;

verus! {

/// Work goes from the router to a call that waits, and its answer back: the call that waits is
/// the one that is given the work, exactly as it came; the answer is taken for that work in its
/// own workspace; and once the router took it, the client can wait again and nothing is owed.
pub proof fn work_is_waited_for_and_answered(
    one: &mut RouterBackendState,
    two: &mut RouterBackendState,
    three: &mut RouterBackendState,
    four: &mut RouterBackendState,
    id: Uuid,
    next: Uuid,
    request: InboundRequest,
    args: AgentReplyArgs,
    workspace: WorkspaceName,
    request_id: &str,
    received: u64,
    replied: u64,
    began: Result<(), BackendError>,
    action: DeliveryAction,
    reply: Result<WorkspaceName, BackendError>,
    finished: Result<(), BackendError>,
    again: Result<(), BackendError>,
)
    requires
        old(one).role is CodexCli,
        opt_name(old(one).membership) == Some(request.workspace@),
        old(one).pending is None,
        old(one).waiter is None,
        call_ensures(RouterBackendState::begin_wait, (one, id), began),
        *old(two) == *final(one),
        call_ensures(RouterBackendState::handle_delivery, (two, request, received), action),
        args.request_id@ == request.request_id@,
        args.text@.len() > 0,
        replied < request.deadline,
        call_ensures(RouterBackendState::begin_reply, (&*final(two), &args, replied), reply),
        *old(three) == *final(two),
        workspace@ == request.workspace@,
        request_id@ == request.request_id@,
        call_ensures(RouterBackendState::finish_reply, (three, &workspace, request_id), finished),
        *old(four) == *final(three),
        call_ensures(RouterBackendState::begin_wait, (four, next), again),
    ensures
        began is Ok,
        action matches DeliveryAction::Wait(waiter, given) && waiter == id && given.same(request),
        reply matches Ok(of) && of@ == request.workspace@,
        finished is Ok,
        final(three).pending is None,
        again is Ok,
        final(four).waiter == Some(next),
{
}

/// Who may wait for work: a client in a workspace that owes no answer and waits with no other
/// call.
pub proof fn waits_begin_when_nothing_is_owed(
    state: &mut RouterBackendState,
    id: Uuid,
    began: Result<(), BackendError>,
)
    requires
        call_ensures(RouterBackendState::begin_wait, (state, id), began),
    ensures
        began is Ok <==> old(state).membership is Some && old(state).pending is None && old(state).waiter is None,
        began is Ok ==> final(state).waiter == Some(id),
        began is Err ==> *final(state) == *old(state),
        old(state).membership is None ==> began == Err::<(), _>(
            BackendError::Router(RouterErrorCode::WorkspaceRequired),
        ),
        old(state).membership is Some && old(state).pending is Some ==> began == Err::<(), _>(
            BackendError::ReplyPending,
        ),
        old(state).membership is Some && old(state).pending is None && old(state).waiter is Some
            ==> began == Err::<(), _>(BackendError::WaitBusy),
{
}

/// Which work is taken, by whom: work of another workspace and work beside other work is
/// refused, a delegate takes none, and everyone else only while they can be given it. What is
/// taken is what came.
pub proof fn work_is_taken_by_who_is_ready(
    state: &mut RouterBackendState,
    request: InboundRequest,
    now: u64,
    action: DeliveryAction,
)
    requires
        call_ensures(RouterBackendState::handle_delivery, (state, request, now), action),
    ensures
        ({
            let here = opt_name(old(state).membership) == Some(request.workspace@);
            let free = old(state).pending is None;
            let told = old(state).notifications is Some;
            &&& action is Wait <==> here && free && old(state).role is CodexCli && old(state).waiter is Some
            &&& action is Claude <==> here && free && old(state).role is ClaudeChannel && told
            &&& action is Omp <==> here && free && old(state).role is Omp && told && old(state).omp_ready
            &&& action is Reject <==> final(state).pending == old(state).pending || !free
            &&& action is Reject ==> *final(state) == *old(state)
            &&& !(action is Reject) ==> final(state).pending == Some(request)
            &&& action matches DeliveryAction::Reject(id, code) ==> id@ == request.request_id@
                && code == if !here {
                RouterErrorCode::WorkspaceMismatch
            } else if !free {
                RouterErrorCode::SessionBusy
            } else if old(state).role is Delegate {
                RouterErrorCode::ReplyForbidden
            } else {
                RouterErrorCode::ProviderNotReady
            }
        }),
{
}

/// What the client of a channel and the host are told of work: its text, who it is from, and
/// how long there is to answer, at least a millisecond.
pub proof fn work_is_told_as_it_came(
    state: &mut RouterBackendState,
    request: InboundRequest,
    now: u64,
    action: DeliveryAction,
)
    requires
        call_ensures(RouterBackendState::handle_delivery, (state, request, now), action),
    ensures
        action matches DeliveryAction::Claude(note) ==> note.content@ == request.content@
            && note.meta.request_id@ == request.request_id@ && note.meta.from@ == request.from@
            && note.meta.timeout_ms@ == decimal_text(
            (if request.deadline > now {
                request.deadline - now
            } else {
                1
            }) as nat,
        ),
        action matches DeliveryAction::Omp(OmpServerNotification::Work {
            workspace,
            request_id,
            from,
            content,
            timeout_ms,
            task,
        }) ==> workspace@ == request.workspace@ && request_id@ == request.request_id@ && from@
            == request.from@ && content@ == request.content@ && timeout_ms == (
        if request.deadline > now {
            request.deadline - now
        } else {
            1
        }) && (task is Some <==> request.task is Some) && (task is Some ==> task->0.id
            == request.task->0.id && task->0.expected_version
            == request.task->0.expected_version),
        action is Omp ==> action->Omp_0 is Work,
{
}

/// Work that the router cancelled is owed no more: only the work that is owed can be, in its
/// workspace and for its task, and an answer to it is no longer taken.
pub proof fn cancelled_work_is_not_answered(
    one: &mut RouterBackendState,
    two: &mut RouterBackendState,
    pending: InboundRequest,
    workspace: WorkspaceName,
    request_id: String,
    task: Option<TaskFence>,
    effect: CancelEffect,
    args: AgentReplyArgs,
    now: u64,
    reply: Result<WorkspaceName, BackendError>,
    id: &str,
    finished: Result<(), BackendError>,
)
    requires
        old(one).pending == Some(pending),
        call_ensures(
            RouterBackendState::handle_work_cancelled,
            (one, &workspace, request_id, task),
            effect,
        ),
        args.text@.len() > 0,
        call_ensures(RouterBackendState::begin_reply, (&*final(one), &args, now), reply),
        *old(two) == *final(one),
        call_ensures(RouterBackendState::finish_reply, (two, &workspace, id), finished),
    ensures
        effect is Cancelled <==> pending.workspace@ == workspace@ && pending.request_id@
            == request_id@ && (match (pending.task, task) {
            (Some(dispatch), Some(fence)) => dispatch.id == fence.task_id,
            (None, None) => true,
            _ => false,
        }),
        effect is Cancelled ==> final(one).pending is None && reply == Err::<WorkspaceName, _>(
            BackendError::NotFound,
        ) && finished == Err::<(), _>(BackendError::NotFound),
        effect is Ignored ==> *final(one) == *old(one),
        effect matches CancelEffect::Cancelled(told) ==> (told is Some <==> old(one).role is Omp
            && old(one).notifications is Some),
{
}

/// An answer is taken before the deadline of the work, for exactly the work that is owed, in
/// the workspace that the client is in, and only with text.
pub proof fn answers_are_taken_for_the_work_that_is_owed(
    state: RouterBackendState,
    args: AgentReplyArgs,
    now: u64,
    reply: Result<WorkspaceName, BackendError>,
)
    requires
        call_ensures(RouterBackendState::begin_reply, (&state, &args, now), reply),
    ensures
        reply is Ok <==> args.text@.len() > 0 && (state.pending matches Some(pending)
            && pending.request_id@ == args.request_id@ && now < pending.deadline && opt_name(
            state.membership,
        ) == Some(pending.workspace@)),
        args.text@.len() == 0 ==> reply == Err::<WorkspaceName, _>(
            BackendError::Router(RouterErrorCode::InvalidMessage),
        ),
        args.text@.len() > 0 && reply is Err ==> reply == Err::<WorkspaceName, _>(
            BackendError::NotFound,
        ),
{
}

/// Whoever leaves a workspace leaves everything of it behind: the call that waits is told that
/// the workspace has changed, and the work that is owed is answered as disconnected. A member
/// who stays loses nothing.
pub proof fn leaving_a_workspace_leaves_its_work(
    state: &mut RouterBackendState,
    workspace: Option<WorkspaceName>,
    cursor: i64,
    effects: MembershipEffects,
)
    requires
        call_ensures(
            RouterBackendState::handle_membership_changed,
            (state, workspace, cursor),
            effects,
        ),
    ensures
        opt_name(final(state).membership) == opt_name(workspace),
        final(state).latest_cursor == cursor && final(state).acknowledged_cursor == cursor,
        opt_name(workspace) != opt_name(old(state).membership) ==> {
            &&& final(state).pending is None && final(state).waiter is None && final(state).task_lease is None
            &&& effects.waiter is Some <==> old(state).waiter is Some
            &&& effects.waiter matches Some((id, error)) ==> Some(id) == old(state).waiter && error
                == BackendError::Router(RouterErrorCode::WorkspaceMismatch)
            &&& effects.rejected is Some <==> old(state).pending is Some
            &&& effects.rejected matches Some((id, code)) ==> id@ == old(state).pending->0.request_id@ && code == RouterErrorCode::ProviderDisconnected
        },
        opt_name(workspace) == opt_name(old(state).membership) ==> {
            &&& final(state).pending == old(state).pending && final(state).waiter == old(state).waiter && final(state).task_lease == old(state).task_lease
            &&& effects.waiter is None && effects.rejected is None
        },
        effects.unready <==> workspace is None && old(state).role is CodexCli,
{
}

/// What happens in the workspace is read by the host itself, and acknowledged at once for
/// everyone else; nothing of another workspace counts, and the last event is never forgotten.
pub proof fn events_are_read_or_acknowledged(
    state: &mut RouterBackendState,
    event: WorkspaceEvent,
    effect: EventEffect,
)
    requires
        call_ensures(RouterBackendState::handle_workspace_event, (state, &event), effect),
    ensures
        ({
            let here = opt_name(old(state).membership) == Some(event.workspace@);
            &&& effect is Acknowledge <==> here && !(old(state).role is Omp)
            &&& effect is Notify <==> here && old(state).role is Omp && old(state).notifications is Some
            &&& effect matches EventEffect::Acknowledge(of, seq) ==> of@ == event.workspace@ && seq
                == event.seq
            &&& here ==> final(state).latest_cursor >= event.seq
            &&& final(state).latest_cursor >= old(state).latest_cursor
            &&& final(state).latest_cursor == event.seq || final(state).latest_cursor == old(state).latest_cursor
            &&& !here ==> *final(state) == *old(state)
            &&& final(state).acknowledged_cursor == old(state).acknowledged_cursor
        }),
{
}

/// The host may read on as far as anything has arrived, and never back; what it has read is
/// acknowledged in its workspace. Work that it did not do is answered with its reason, once.
pub proof fn hosts_are_believed_within_bounds(
    state: &mut RouterBackendState,
    word: OmpHostNotification,
    step: Result<OmpStep, BackendError>,
)
    requires
        call_ensures(RouterBackendState::handle_omp_notification, (state, word), step),
    ensures
        !(old(state).role is Omp) ==> step == Err::<OmpStep, _>(BackendError::InvalidState),
        step is Err ==> *final(state) == *old(state),
        old(state).role is Omp ==> match word {
            OmpHostNotification::HostState(host) => step is Ok && final(state).omp_ready
                == host.ready,
            OmpHostNotification::WorkFinished(finished) => {
                &&& step is Ok <==> (old(state).pending matches Some(pending) && pending.request_id@
                    == finished.request_id@)
                &&& step is Err ==> step == Err::<OmpStep, _>(BackendError::NotFound)
                &&& step is Ok ==> final(state).pending is None && (step->Ok_0 matches OmpStep::Reply(
                    id,
                    code,
                ) && id@ == finished.request_id@ && (code is SessionBusy
                    <==> finished.error is SessionBusy) && (code is ReplyMissing
                    <==> finished.error is ReplyMissing))
            },
            OmpHostNotification::TaskTerminal(terminal) => {
                &&& step is Ok ==> (old(state).task_lease matches Some(lease) && lease.workspace@
                    == terminal.workspace@ && lease.fence.task_id == terminal.task_id
                    && lease.fence.attempt_id == terminal.attempt_id && lease.session_id
                    == terminal.session_id)
                &&& step is Ok ==> (step->Ok_0 matches OmpStep::Stopped(fence, evidence) && fence
                    == old(state).task_lease->0.fence && evidence.request_id@ == old(state).task_lease->0.work_request_id@ && !evidence.child_reaped && (evidence.reason
                    is TurnEnded <==> terminal.reason is TurnEnded) && (evidence.reason
                    is SessionEnded <==> terminal.reason is SessionEnded) && (evidence.reason
                    is HostError <==> terminal.reason is HostError))
                &&& *final(state) == *old(state)
            },
            OmpHostNotification::Consumed(consumed) => {
                &&& step is Ok ==> opt_name(old(state).membership) == Some(consumed.workspace@)
                    && old(state).acknowledged_cursor <= consumed.cursor <= old(state).latest_cursor && final(state).acknowledged_cursor == consumed.cursor && (
                step->Ok_0 matches OmpStep::Acknowledge(of, cursor) && of@ == consumed.workspace@
                    && cursor == consumed.cursor)
                &&& step is Err ==> final(state).acknowledged_cursor == old(state).acknowledged_cursor
                &&& opt_name(old(state).membership) == Some(consumed.workspace@)
                    && crate::protocol::workspace_name(consumed.workspace@)
                    && old(state).acknowledged_cursor <= consumed.cursor <= old(state).latest_cursor
                    ==> step is Ok
                &&& !crate::protocol::workspace_name(consumed.workspace@) ==> step == Err::<
                    OmpStep,
                    _,
                >(BackendError::Router(RouterErrorCode::InvalidMessage))
            },
        },
{
}

/// What a call that waited is answered: the work that it was given, that there was none in
/// time, or why it waited in vain.
pub proof fn waits_are_answered_by_how_they_ended(
    end: WaitEnd,
    outcome: Result<Json, BackendError>,
)
    requires
        call_ensures(wait_outcome, (&end,), outcome),
    ensures
        end matches WaitEnd::Delivered(request, now) ==> {
            &&& outcome matches Ok(value)
            &&& value.model().at("request"@) is Object
            &&& value.model() matches JsonModel::Object(members) && members.len() == 1
                && members[0].0 == "request"@ && (members[0].1 matches JsonModel::Object(told)
                && told.len() == 6 && told[0] == ("workspace"@, JsonModel::Text(request.workspace@))
                && told[1] == ("requestId"@, JsonModel::Text(request.request_id@)) && told[2] == (
                "from"@,
                JsonModel::Text(request.from@),
            ) && told[3] == ("content"@, JsonModel::Text(request.content@)) && told[4].0
                == "timeoutMs"@ && told[5].0 == "task"@ && (told[5].1 is Null
                <==> request.task is None))
        },
        end is TimedOut && end->TimedOut_0 is None ==> (outcome matches Ok(value) && (
        value.model() matches JsonModel::Object(members) && members == seq![
            ("request"@, JsonModel::Null),
            ("error"@, JsonModel::Text("wait_timeout"@)),
        ])),
        end is TimedOut && end->TimedOut_0 is Some ==> outcome == Err::<Json, _>(
            end->TimedOut_0->0,
        ),
        end is Cancelled ==> outcome == Err::<Json, _>(BackendError::Cancelled),
        end is Lost ==> outcome == Err::<Json, _>(BackendError::Unavailable),
        end matches WaitEnd::GivenUp(error) ==> outcome == Err::<Json, _>(error),
        end matches WaitEnd::Untold(error) ==> outcome == Err::<Json, _>(error),
{
    match end {
        WaitEnd::Delivered(request, now) => {
            let value = outcome->Ok_0;
            let members = value.model()->Object_0;
            crate::json::member_exists(members, "request"@);
        },
        _ => {},
    }
}

/// What a request that was sent to an agent is answered: its result, in the workspace that the
/// client is in; a failed one with its code, or as the provider's error where it has none.
pub proof fn results_are_answered_as_they_came(
    membership: Option<WorkspaceName>,
    end: RoutedEnd,
    outcome: Result<Json, BackendError>,
)
    requires
        call_ensures(routed_outcome, (&membership, end), outcome),
    ensures
        outcome is Ok <==> (end matches RoutedEnd::Result(result) && result.ok && (membership is None
            || opt_name(result.workspace) == opt_name(membership))),
        outcome is Ok ==> (end matches RoutedEnd::Result(result) && (outcome->Ok_0.model() matches
            JsonModel::Object(members) && members == seq![
            ("requestId"@, JsonModel::Text(result.request_id@)),
            ("from"@, JsonModel::Text(result.from@)),
            ("ok"@, JsonModel::Bool(true)),
            (
                "content"@,
                JsonModel::Text(
                    match result.content {
                        Some(content) => content@,
                        None => Seq::empty(),
                    },
                ),
            ),
        ])),
        end is Cancelled ==> outcome == Err::<Json, _>(BackendError::Cancelled),
        end is TimedOut ==> outcome == Err::<Json, _>(
            BackendError::Router(RouterErrorCode::RequestTimeout),
        ),
        end is Dropped ==> outcome == Err::<Json, _>(BackendError::Unavailable),
        (end matches RoutedEnd::Result(result) && membership is Some && opt_name(result.workspace)
            != opt_name(membership)) ==> outcome == Err::<Json, _>(BackendError::InvalidState),
        (end matches RoutedEnd::Result(result) && membership is None && !result.ok) ==> outcome
            == Err::<Json, _>(
            BackendError::Router(
                match end->Result_0.error {
                    Some(code) => code,
                    None => RouterErrorCode::ProviderError,
                },
            ),
        ),
{
}

/// An attempt is leased only where it is the one that the router says runs, of the task that
/// the event speaks of; its lease ends where none runs and none is to stop.
pub proof fn attempts_are_leased_when_they_run(
    state: &mut RouterBackendState,
    event: TaskAttemptEvent,
    bound: Option<TaskFence>,
    told: Option<OmpServerNotification>,
)
    requires
        call_ensures(RouterBackendState::handle_task_attempt, (state, event, bound), told),
    ensures
        !(old(state).role is Omp) ==> *final(state) == *old(state) && told is None,
        final(state).task_lease != old(state).task_lease && final(state).task_lease is Some ==> (
        bound matches Some(fence) && event.current == Some(fence) && fence.task_id == event.task_id
            && (event.attempt matches Some(attempt) && attempt.id == fence.attempt_id && final(state).task_lease->0.session_id == attempt.session_id && final(state).task_lease->0.work_request_id@ == attempt.work_request_id@) && final(state).task_lease->0.fence == fence && final(state).task_lease->0.workspace@
            == event.workspace@),
        final(state).task_lease is None && old(state).task_lease is Some ==> event.current is None
            && event.stop_pending is None && old(state).task_lease->0.fence.task_id
            == event.task_id,
        old(state).role is Omp && event.current is None && event.stop_pending is None && (old(state).task_lease matches Some(lease) && lease.fence.task_id == event.task_id) ==> final(state).task_lease is None,
        told is Some <==> old(state).role is Omp && old(state).notifications is Some,
{
}

/// A backend is closed once: then the call that waits is told that it is gone, the work that is
/// owed is answered as disconnected, and no call is taken any more.
pub proof fn closed_backends_stay_closed(
    one: &mut RouterBackendState,
    two: &mut RouterBackendState,
    effects: Option<CloseEffects>,
    more: Option<CloseEffects>,
    open: Result<(), BackendError>,
)
    requires
        call_ensures(RouterBackendState::close, (one,), effects),
        *old(two) == *final(one),
        call_ensures(RouterBackendState::close, (two,), more),
        call_ensures(RouterBackendState::ensure_open, (&*final(one),), open),
    ensures
        effects is Some <==> !old(one).closed,
        effects matches Some(effects) ==> {
            &&& effects.waiter == (match old(one).waiter {
                Some(id) => Some((id, BackendError::Unavailable)),
                None => None,
            })
            &&& effects.rejected is Some <==> old(one).pending is Some
            &&& effects.rejected matches Some((id, code)) ==> id@ == old(one).pending->0.request_id@
                && code == RouterErrorCode::ProviderDisconnected
            &&& effects.unready <==> old(one).role is CodexCli
        },
        more is None,
        *final(two) == *final(one),
        open == Err::<(), _>(BackendError::Unavailable),
{
}

/// A call that waits no longer frees the place for another one, and no call ends the wait of
/// another.
pub proof fn waits_are_ended_by_their_own_call(
    state: &mut RouterBackendState,
    id: Uuid,
    removed: bool,
)
    requires
        call_ensures(RouterBackendState::end_wait, (state, id), removed),
    ensures
        removed <==> old(state).waiter == Some(id),
        removed ==> final(state).waiter is None && final(state).pending == old(state).pending
            && final(state).membership == old(state).membership,
        !removed ==> *final(state) == *old(state),
{
}

/// A result is awaited once under an identifier, is settled once, and may then be awaited
/// again.
pub proof fn results_are_settled_once(
    one: &mut PendingResults,
    two: &mut PendingResults,
    three: &mut PendingResults,
    four: &mut PendingResults,
    id: &str,
    first: Result<(), BackendError>,
    second: Result<(), BackendError>,
    settled: bool,
    again: bool,
)
    requires
        !old(one).awaited().contains(id@),
        call_ensures(PendingResults::register, (one, id), first),
        *old(two) == *final(one),
        call_ensures(PendingResults::register, (two, id), second),
        *old(three) == *final(two),
        call_ensures(PendingResults::settle, (three, id), settled),
        *old(four) == *final(three),
        call_ensures(PendingResults::settle, (four, id), again),
    ensures
        first is Ok,
        second == Err::<(), _>(BackendError::Conflict),
        settled,
        !again,
        final(four).awaited() =~= old(one).awaited(),
{
}

/// A request that is handed on to another agent goes to that agent with its text, and its
/// result is awaited under the identifier that the router was asked under, for the time that
/// was given: a minute where none was, and at most ten.
pub proof fn requests_are_handed_on_as_given(
    agent_id: &str,
    call: McpCall,
    request: String,
    fresh: Uuid,
    dispatched: Result<Dispatched, BackendError>,
)
    requires
        call_ensures(dispatch_with, (agent_id, call, request, fresh), dispatched),
    ensures
        call matches McpCall::AgentSend(args) ==> {
            &&& dispatched is Err <==> args.target@ == agent_id@
            &&& args.target@ == agent_id@ ==> dispatched == Err::<Dispatched, _>(
                BackendError::Conflict,
            )
            &&& dispatched is Ok ==> (dispatched->Ok_0 matches Dispatched::Route(
                ClientMessage::Send { request_id, to, content, timeout_ms },
                id,
                millis,
            ) && request_id@ == request@ && id@ == request@ && to@ == args.target@ && content@
                == args.content@ && timeout_ms == args.timeout_ms && millis == awaited_for(
                args.timeout_ms,
            ))
        },
        call matches McpCall::TaskRequest(args) ==> {
            &&& dispatched is Ok <==> workspace_name(args.workspace@)
            &&& dispatched is Ok ==> (dispatched->Ok_0 matches Dispatched::Route(
                ClientMessage::TaskRequest {
                    request_id,
                    workspace,
                    task_id,
                    expected_version,
                    message,
                    timeout_ms,
                },
                id,
                millis,
            ) && request_id@ == request@ && id@ == request@ && workspace@ == args.workspace@
                && task_id == args.task_id && expected_version == args.expected_version
                && message == args.message && timeout_ms == args.timeout_ms && millis
                == awaited_for(args.timeout_ms))
        },
        call matches McpCall::AgentWait(args) ==> dispatched == Ok::<_, BackendError>(
            Dispatched::Wait(args),
        ),
        call matches McpCall::AgentReply(args) ==> dispatched == Ok::<_, BackendError>(
            Dispatched::Reply(args),
        ),
        dispatched is Err ==> dispatched == Err::<Dispatched, _>(BackendError::Conflict)
            || dispatched == Err::<Dispatched, _>(
            BackendError::Router(RouterErrorCode::InvalidMessage),
        ),
{
}

/// For how many milliseconds a result is awaited.
pub open spec fn awaited_for(timeout: Option<u64>) -> u64 {
    match timeout {
        None => 60_000,
        Some(millis) => if millis == 0 {
            1
        } else if millis <= 600_000 {
            millis
        } else {
            600_000
        },
    }
}

/// What the calls on the agents and on the workspace ask of the router, each for itself.
pub proof fn workspace_calls_ask_for_themselves(
    agent_id: &str,
    call: McpCall,
    request: String,
    fresh: Uuid,
    dispatched: Result<Dispatched, BackendError>,
)
    requires
        call_ensures(dispatch_with, (agent_id, call, request, fresh), dispatched),
    ensures
        call is AgentList ==> (dispatched matches Ok(
            Dispatched::Ask(ClientMessage::List { request_id }),
        ) && request_id@ == request@),
        call matches McpCall::WorkspaceList(args) ==> (dispatched matches Ok(
            Dispatched::Ask(ClientMessage::WorkspaceList { request_id, after, limit }),
        ) && request_id@ == request@ && after == args.after && limit == args.limit),
        call matches McpCall::WorkspaceJoin(args) ==> (dispatched is Ok <==> workspace_name(
            args.name@,
        )) && (dispatched is Ok ==> (dispatched->Ok_0 matches Dispatched::Ask(
            ClientMessage::WorkspaceJoin { request_id, name },
        ) && request_id@ == request@ && name@ == args.name@)),
        call is WorkspaceLeave ==> (dispatched matches Ok(
            Dispatched::Ask(ClientMessage::WorkspaceLeave { request_id }),
        ) && request_id@ == request@),
        call is WorkspaceMembers ==> (dispatched matches Ok(
            Dispatched::Ask(ClientMessage::WorkspaceMembers { request_id }),
        ) && request_id@ == request@),
        call matches McpCall::WorkspacePost(args) ==> (dispatched matches Ok(
            Dispatched::Ask(ClientMessage::WorkspacePost { request_id, content }),
        ) && request_id@ == request@ && content@ == args.content@),
        call matches McpCall::WorkspaceHistory(args) ==> (dispatched matches Ok(
            Dispatched::Ask(ClientMessage::WorkspaceHistory { request_id, after, limit }),
        ) && request_id@ == request@ && after == args.after && limit == args.limit),
{
}

/// The operation that a change is made under: the one that the call names, else a new one.
pub open spec fn made_under(named: Option<Uuid>, fresh: Uuid, operation: Uuid) -> bool {
    &&& named is Some ==> operation == named->0
    &&& named is None ==> operation == fresh
}

/// What the calls on tasks ask of the router: each its own change, of the task and the version
/// that the call names, under the operation that it names.
pub proof fn task_calls_ask_for_themselves(
    agent_id: &str,
    call: McpCall,
    request: String,
    fresh: Uuid,
    dispatched: Result<Dispatched, BackendError>,
)
    requires
        call_ensures(dispatch_with, (agent_id, call, request, fresh), dispatched),
    ensures
        call matches McpCall::TaskGet(args) ==> (dispatched is Ok <==> workspace_name(
            args.workspace@,
        )) && (dispatched is Ok ==> (dispatched->Ok_0 matches Dispatched::Ask(
            ClientMessage::TaskGet { request_id, workspace, task_id },
        ) && request_id@ == request@ && workspace@ == args.workspace@ && task_id == args.task_id)),
        call matches McpCall::TaskHistory(args) ==> (dispatched is Ok <==> workspace_name(
            args.workspace@,
        )) && (dispatched is Ok ==> (dispatched->Ok_0 matches Dispatched::Ask(
            ClientMessage::TaskHistory { request_id, workspace, task_id, after, limit },
        ) && request_id@ == request@ && workspace@ == args.workspace@ && task_id == args.task_id
            && after == args.after && limit == args.limit)),
        call matches McpCall::TaskCreate(args) ==> (dispatched is Ok <==> workspace_name(
            args.workspace@,
        )) && (dispatched is Ok ==> (dispatched->Ok_0 matches Dispatched::Ask(
            ClientMessage::TaskCreate { request_id, workspace, operation_id, title, description },
        ) && request_id@ == request@ && workspace@ == args.workspace@ && made_under(
            args.operation_id,
            fresh,
            operation_id,
        ) && title@ == args.title@ && description == args.description)),
        call matches McpCall::TaskEdit(args) ==> (dispatched is Ok <==> workspace_name(
            args.workspace@,
        )) && (dispatched is Ok ==> (dispatched->Ok_0 matches Dispatched::Ask(
            ClientMessage::TaskEdit {
                request_id,
                workspace,
                operation_id,
                task_id,
                expected_version,
                title,
                description,
            },
        ) && request_id@ == request@ && workspace@ == args.workspace@ && made_under(
            args.operation_id,
            fresh,
            operation_id,
        ) && task_id == args.task_id && expected_version == args.expected_version && title
            == args.title && description == args.description)),
        call matches McpCall::TaskAssign(args) ==> (dispatched is Ok <==> workspace_name(
            args.workspace@,
        )) && (dispatched is Ok ==> (dispatched->Ok_0 matches Dispatched::Ask(
            ClientMessage::TaskAssign {
                request_id,
                workspace,
                operation_id,
                task_id,
                expected_version,
                agent_id: assigned,
            },
        ) && request_id@ == request@ && workspace@ == args.workspace@ && made_under(
            args.operation_id,
            fresh,
            operation_id,
        ) && task_id == args.task_id && expected_version == args.expected_version && assigned
            == args.agent_id)),
        call matches McpCall::TaskNote(args) ==> (dispatched is Ok <==> workspace_name(
            args.workspace@,
        )) && (dispatched is Ok ==> (dispatched->Ok_0 matches Dispatched::Ask(
            ClientMessage::TaskNote { request_id, workspace, operation_id, task_id, text },
        ) && request_id@ == request@ && workspace@ == args.workspace@ && made_under(
            args.operation_id,
            fresh,
            operation_id,
        ) && task_id == args.task_id && text@ == args.text@)),
        call matches McpCall::TaskBegin(args) ==> (dispatched is Ok <==> workspace_name(
            args.workspace@,
        )) && (dispatched is Ok ==> (dispatched->Ok_0 matches Dispatched::Ask(
            ClientMessage::TaskBegin {
                request_id,
                workspace,
                operation_id,
                task_id,
                work_request_id,
                expected_version,
                last_checkpoint_id,
                resume_note,
            },
        ) && request_id@ == request@ && workspace@ == args.workspace@ && made_under(
            args.operation_id,
            fresh,
            operation_id,
        ) && task_id == args.task_id && work_request_id == args.work_request_id
            && expected_version == args.expected_version && last_checkpoint_id
            == args.last_checkpoint_id && resume_note == args.resume_note)),
{
}

/// What the calls on attempts ask of the router: a checkpoint, a pause for its reason or a
/// completion, of the attempt that the call names and with what it hands over; a cancellation
/// cancels and a reopening reopens.
pub proof fn attempt_calls_ask_for_themselves(
    agent_id: &str,
    call: McpCall,
    request: String,
    fresh: Uuid,
    dispatched: Result<Dispatched, BackendError>,
)
    requires
        call_ensures(dispatch_with, (agent_id, call, request, fresh), dispatched),
    ensures
        call matches McpCall::TaskCheckpoint(args) ==> (dispatched is Ok <==> workspace_name(
            args.workspace@,
        )) && (dispatched is Ok ==> (dispatched->Ok_0 matches Dispatched::Ask(
            ClientMessage::TaskCheckpoint {
                request_id,
                workspace,
                operation_id,
                task_id,
                attempt_id,
                expected_version,
                checkpoint,
            },
        ) && request_id@ == request@ && workspace@ == args.workspace@ && made_under(
            args.operation_id,
            fresh,
            operation_id,
        ) && task_id == args.task_id && attempt_id == args.attempt_id && expected_version
            == args.expected_version && checkpoint.summary == args.checkpoint.summary
            && checkpoint.next_steps == args.checkpoint.next_steps && checkpoint.artifacts
            == args.checkpoint.artifacts && checkpoint.risks == args.checkpoint.risks)),
        call matches McpCall::TaskPause(args) ==> (dispatched is Ok <==> workspace_name(
            args.workspace@,
        )) && (dispatched is Ok ==> (dispatched->Ok_0 matches Dispatched::Ask(
            ClientMessage::TaskPause {
                request_id,
                workspace,
                operation_id,
                task_id,
                attempt_id,
                expected_version,
                checkpoint,
                reason,
            },
        ) && request_id@ == request@ && workspace@ == args.workspace@ && made_under(
            args.operation_id,
            fresh,
            operation_id,
        ) && task_id == args.task_id && attempt_id == args.attempt_id && expected_version
            == args.expected_version && checkpoint.summary == args.checkpoint.summary
            && checkpoint.next_steps == args.checkpoint.next_steps && checkpoint.artifacts
            == args.checkpoint.artifacts && checkpoint.risks == args.checkpoint.risks && (reason
            is Paused <==> args.reason is Paused) && (reason is Blocked
            <==> args.reason is Blocked))),
        call matches McpCall::TaskComplete(args) ==> (dispatched is Ok <==> workspace_name(
            args.workspace@,
        )) && (dispatched is Ok ==> (dispatched->Ok_0 matches Dispatched::Ask(
            ClientMessage::TaskComplete {
                request_id,
                workspace,
                operation_id,
                task_id,
                attempt_id,
                expected_version,
                result,
            },
        ) && request_id@ == request@ && workspace@ == args.workspace@ && made_under(
            args.operation_id,
            fresh,
            operation_id,
        ) && task_id == args.task_id && attempt_id == args.attempt_id && expected_version
            == args.expected_version && result.summary == args.result.summary
            && result.next_steps == args.result.next_steps && result.artifacts
            == args.result.artifacts && result.risks == args.result.risks)),
        call matches McpCall::TaskCancel(args) ==> (dispatched is Ok <==> workspace_name(
            args.workspace@,
        )) && (dispatched is Ok ==> (dispatched->Ok_0 matches Dispatched::Ask(
            ClientMessage::TaskCancel {
                request_id,
                workspace,
                operation_id,
                task_id,
                expected_version,
                note,
            },
        ) && request_id@ == request@ && workspace@ == args.workspace@ && made_under(
            args.operation_id,
            fresh,
            operation_id,
        ) && task_id == args.task_id && expected_version == args.expected_version && note
            == args.note)),
        call matches McpCall::TaskReopen(args) ==> (dispatched is Ok <==> workspace_name(
            args.workspace@,
        )) && (dispatched is Ok ==> (dispatched->Ok_0 matches Dispatched::Ask(
            ClientMessage::TaskReopen {
                request_id,
                workspace,
                operation_id,
                task_id,
                expected_version,
                note,
            },
        ) && request_id@ == request@ && workspace@ == args.workspace@ && made_under(
            args.operation_id,
            fresh,
            operation_id,
        ) && task_id == args.task_id && expected_version == args.expected_version && note
            == args.note)),
{
}

/// What the calls on external trackers ask of the router: of the tracker, the issue and the
/// kind of publication that the call names. A link is replaced only where the call says so.
pub proof fn tracker_calls_ask_for_themselves(
    agent_id: &str,
    call: McpCall,
    request: String,
    fresh: Uuid,
    dispatched: Result<Dispatched, BackendError>,
)
    requires
        call_ensures(dispatch_with, (agent_id, call, request, fresh), dispatched),
    ensures
        call matches McpCall::IntegrationList(args) ==> (dispatched is Ok <==> workspace_name(
            args.workspace@,
        )) && (dispatched is Ok ==> (dispatched->Ok_0 matches Dispatched::Ask(
            ClientMessage::IntegrationList { request_id, workspace },
        ) && request_id@ == request@ && workspace@ == args.workspace@)),
        call matches McpCall::TaskImport(args) ==> (dispatched is Ok <==> workspace_name(
            args.workspace@,
        )) && (dispatched is Ok ==> (dispatched->Ok_0 matches Dispatched::Ask(
            ClientMessage::TaskImport { request_id, workspace, provider, external_id, operation_id },
        ) && request_id@ == request@ && workspace@ == args.workspace@ && made_under(
            args.operation_id,
            fresh,
            operation_id,
        ) && external_id@ == args.external_id@ && (provider is Github
            <==> args.provider is Github) && (provider is Linear <==> args.provider is Linear))),
        call matches McpCall::TaskLink(args) ==> (dispatched is Ok <==> workspace_name(
            args.workspace@,
        )) && (dispatched is Ok ==> (dispatched->Ok_0 matches Dispatched::Ask(
            ClientMessage::TaskLink {
                request_id,
                workspace,
                operation_id,
                task_id,
                expected_version,
                provider,
                external_id,
                replace,
            },
        ) && request_id@ == request@ && workspace@ == args.workspace@ && made_under(
            args.operation_id,
            fresh,
            operation_id,
        ) && task_id == args.task_id && expected_version == args.expected_version && external_id@
            == args.external_id@ && (provider is Github <==> args.provider is Github) && (replace
            <==> args.replace is Some && args.replace->0))),
        call matches McpCall::TaskPublish(args) ==> (dispatched is Ok <==> workspace_name(
            args.workspace@,
        )) && (dispatched is Ok ==> (dispatched->Ok_0 matches Dispatched::Ask(
            ClientMessage::TaskPublish {
                request_id,
                workspace,
                operation_id,
                task_id,
                expected_version,
                provider,
                kind,
                report_id,
            },
        ) && request_id@ == request@ && workspace@ == args.workspace@ && made_under(
            args.operation_id,
            fresh,
            operation_id,
        ) && task_id == args.task_id && expected_version == args.expected_version && (provider
            is Github <==> args.provider is Github) && (kind is Issue <==> args.kind is Issue) && (
        kind is Report <==> args.kind is Report) && report_id == args.report_id)),
        call matches McpCall::TaskExternalStatus(args) ==> (dispatched is Ok <==> workspace_name(
            args.workspace@,
        )) && (dispatched is Ok ==> (dispatched->Ok_0 matches Dispatched::Ask(
            ClientMessage::TaskExternalStatus { request_id, workspace, operation_id },
        ) && request_id@ == request@ && workspace@ == args.workspace@ && operation_id
            == args.operation_id)),
{
}

/// A list of tasks is asked for with the states that the call names, each by its own name and
/// in their order; a name of no state is refused.
pub proof fn lists_ask_for_the_states_named(
    agent_id: &str,
    call: McpCall,
    request: String,
    fresh: Uuid,
    dispatched: Result<Dispatched, BackendError>,
)
    requires
        call_ensures(dispatch_with, (agent_id, call, request, fresh), dispatched),
        call is TaskList,
    ensures
        ({
            let args = call->TaskList_0;
            &&& dispatched is Ok <==> workspace_name(args.workspace@) && (args.states is Some
                ==> forall|i: int|
                0 <= i < args.states->0@.len() ==> names_a_state(#[trigger] args.states->0@[i]@))
            &&& dispatched is Ok ==> (dispatched->Ok_0 matches Dispatched::Ask(
                ClientMessage::TaskList {
                    request_id,
                    workspace,
                    states,
                    assigned_agent_id,
                    after,
                    limit,
                },
            ) && request_id@ == request@ && workspace@ == args.workspace@ && assigned_agent_id
                == args.assigned_agent_id && after == args.after && limit == args.limit && (states
                is Some <==> args.states is Some) && (states is Some ==> states->0@.len()
                == args.states->0@.len() && forall|i: int|
                0 <= i < states->0@.len() ==> state_name(#[trigger] states->0@[i])
                    == args.states->0@[i]@))
        }),
{
    let args = call->TaskList_0;
    state_names_are_read_back();
    if args.states is Some {
        assert forall|i: int| 0 <= i < args.states->0@.len() implies names_a_state(
            #[trigger] args.states->0@[i]@,
        ) == (crate::mcp::dispatch::state_of(args.states->0@[i]@) is Some) by {}
        if !crate::mcp::dispatch::all_states(args.states) {
            let i = choose|i: int|
                0 <= i < args.states->0@.len() && crate::mcp::dispatch::state_of(
                    #[trigger] args.states->0@[i]@,
                ) is None;
            assert(!names_a_state(args.states->0@[i]@));
        }
    }
    if dispatched is Ok {
        match dispatched->Ok_0 {
            Dispatched::Ask(ClientMessage::TaskList { states, .. }) => {
                if args.states is Some {
                    assert forall|i: int| 0 <= i < states->0@.len() implies state_name(
                        #[trigger] states->0@[i],
                    ) == args.states->0@[i]@ by {
                        assert(crate::mcp::dispatch::state_of(args.states->0@[i]@) == Some(
                            states->0@[i],
                        ));
                    }
                }
            },
            _ => {},
        }
    }
}

/// The name of a state.
pub open spec fn state_name(state: TaskState) -> Seq<char> {
    match state {
        TaskState::Todo => "todo"@,
        TaskState::InProgress => "in_progress"@,
        TaskState::Blocked => "blocked"@,
        TaskState::Paused => "paused"@,
        TaskState::Done => "done"@,
        TaskState::Cancelled => "cancelled"@,
    }
}

pub open spec fn names_a_state(text: Seq<char>) -> bool {
    exists|state: TaskState| #[trigger] state_name(state) == text
}

/// Every state is read back from its name, and no other text is read.
proof fn state_names_are_read_back()
    ensures
        forall|text: Seq<char>| #![trigger crate::mcp::dispatch::state_of(text)]
            match crate::mcp::dispatch::state_of(text) {
                Some(state) => state_name(state) == text && names_a_state(text),
                None => !names_a_state(text),
            },
{
    assert forall|text: Seq<char>| #![trigger crate::mcp::dispatch::state_of(text)]
        match crate::mcp::dispatch::state_of(text) {
            Some(state) => state_name(state) == text && names_a_state(text),
            None => !names_a_state(text),
        } by {
        match crate::mcp::dispatch::state_of(text) {
            Some(state) => {
                assert(state_name(state) == text);
            },
            None => {
                if names_a_state(text) {
                    let state = choose|state: TaskState| #[trigger] state_name(state) == text;
                }
            },
        }
    }
}

/// Whether the router's answer is the one that a call waits for.
pub open spec fn is_awaited(call: McpCall, response: ServerMessage) -> bool {
    ||| (call is AgentList || call is WorkspaceMembers) && response is Agents
    ||| call is WorkspaceList && response is Workspaces
    ||| call is WorkspaceJoin && response is WorkspaceJoined
    ||| call is WorkspaceLeave && response is WorkspaceLeft
    ||| call is WorkspacePost && response is WorkspacePosted
    ||| call is WorkspaceHistory && response is WorkspaceHistory
    ||| call is TaskList && response is Tasks
    ||| call is TaskGet && response is Task
    ||| call is TaskHistory && response is TaskHistory
    ||| (call is TaskCreate || call is TaskEdit || call is TaskAssign || call is TaskNote
        || call is TaskBegin || call is TaskCheckpoint || call is TaskPause || call is TaskComplete
        || call is TaskCancel || call is TaskReopen) && response is TaskMutated
    ||| call is IntegrationList && response is Integrations
    ||| (call is TaskImport || call is TaskLink || call is TaskPublish)
        && response is ExternalOperation
    ||| call is TaskExternalStatus && response is ExternalStatus
}

/// A call is answered at once exactly where the router is asked and nothing is handed on; it
/// succeeds exactly with the answer that it waits for, and fails with the router's own code or
/// as being out of order with any other.
pub proof fn calls_are_answered_by_what_they_asked(
    agent_id: &str,
    call: McpCall,
    request: String,
    fresh: Uuid,
    dispatched: Result<Dispatched, BackendError>,
    kind: Option<AnswerKind>,
    response: ServerMessage,
    answer: Result<ToolAnswer, BackendError>,
)
    requires
        call_ensures(dispatch_with, (agent_id, call, request, fresh), dispatched),
        call_ensures(answer_kind, (&call,), kind),
        kind is Some ==> call_ensures(tool_answer, (kind->0, agent_id, response), answer),
    ensures
        dispatched is Ok ==> (kind is Some <==> dispatched->Ok_0 is Ask),
        kind is None <==> call is AgentSend || call is TaskRequest || call is AgentWait
            || call is AgentReply,
        kind is Some ==> (answer is Ok <==> is_awaited(call, response)),
        kind is Some && answer is Err ==> answer == Err::<ToolAnswer, _>(
            match response {
                ServerMessage::Error { code, .. } => BackendError::Router(code),
                _ => BackendError::InvalidState,
            },
        ),
{
}

/// What a call is answered with is what the router answered: agents as they came, without the
/// one that asks where others are asked for; pages with where the next one begins; and what was
/// joined, left, posted or looked up by name.
pub proof fn answers_hold_what_the_router_said(
    agent_id: &str,
    call: McpCall,
    kind: Option<AnswerKind>,
    response: ServerMessage,
    answer: Result<ToolAnswer, BackendError>,
)
    requires
        call_ensures(answer_kind, (&call,), kind),
        kind is Some,
        call_ensures(tool_answer, (kind->0, agent_id, response), answer),
        answer is Ok,
    ensures
        call is WorkspaceMembers ==> (response matches ServerMessage::Agents { agents, .. } && answer
            == Ok::<_, BackendError>(ToolAnswer::Agents(agents))),
        call is AgentList ==> (response matches ServerMessage::Agents { agents, .. } && (answer
            matches Ok(ToolAnswer::Agents(others)) && (forall|k: int|
            0 <= k < others@.len() ==> (#[trigger] others@[k]).agent_id@ != agent_id@
                && agents@.contains(others@[k])) && (forall|k: int|
            0 <= k < agents@.len() && (#[trigger] agents@[k]).agent_id@ != agent_id@
                ==> others@.contains(agents@[k])))),
        call is WorkspaceList ==> (response matches ServerMessage::Workspaces {
            workspaces,
            next_cursor,
            has_more,
            ..
        } && answer == Ok::<_, BackendError>(
            ToolAnswer::Workspaces(workspaces, next_cursor, has_more),
        )),
        call is WorkspaceJoin ==> (response matches ServerMessage::WorkspaceJoined {
            workspace,
            cursor,
            ..
        } && (answer matches Ok(ToolAnswer::Value(value)) && value.model() == JsonModel::Object(
            seq![
                ("workspace"@, JsonModel::Text(workspace@)),
                ("cursor"@, crate::json::integer_model(cursor)),
            ],
        ))),
        call is WorkspacePost ==> (response matches ServerMessage::WorkspacePosted {
            workspace,
            seq,
            ..
        } && (answer matches Ok(ToolAnswer::Value(value)) && value.model() == JsonModel::Object(
            seq![
                ("workspace"@, JsonModel::Text(workspace@)),
                ("seq"@, crate::json::integer_model(seq)),
            ],
        ))),
        call is WorkspaceLeave ==> (response matches ServerMessage::WorkspaceLeft {
            workspace,
            ..
        } && (answer matches Ok(ToolAnswer::Value(value)) && value.model() == JsonModel::Object(
            seq![
                (
                    "workspace"@,
                    if workspace is Some {
                        JsonModel::Text(workspace->0@)
                    } else {
                        JsonModel::Null
                    },
                ),
            ],
        ))),
        call is TaskGet ==> (response matches ServerMessage::Task { task, .. } && answer == Ok::<
            _,
            BackendError,
        >(ToolAnswer::Task(task))),
        call is TaskHistory ==> (response matches ServerMessage::TaskHistory { page, .. } && answer
            == Ok::<_, BackendError>(ToolAnswer::TaskHistory(page))),
        call is WorkspaceHistory ==> (response matches ServerMessage::WorkspaceHistory { page, .. }
            && answer == Ok::<_, BackendError>(ToolAnswer::History(page))),
        call is TaskList ==> (response matches ServerMessage::Tasks {
            tasks,
            next_cursor,
            has_more,
            ..
        } && answer == Ok::<_, BackendError>(ToolAnswer::Tasks(tasks, next_cursor, has_more))),
        response matches ServerMessage::TaskMutated { result, .. } ==> answer == Ok::<
            _,
            BackendError,
        >(ToolAnswer::Mutation(result)),
        response matches ServerMessage::ExternalOperation { operation, .. } ==> answer == Ok::<
            _,
            BackendError,
        >(ToolAnswer::Value(operation)),
        call is TaskExternalStatus ==> (response matches ServerMessage::ExternalStatus {
            operation,
            resolution,
            ..
        } && (answer matches Ok(ToolAnswer::Value(value)) && value.model() == JsonModel::Object(
            seq![
                ("operation"@, operation.model()),
                (
                    "resolution"@,
                    if resolution is Some {
                        resolution->0.model()
                    } else {
                        JsonModel::Null
                    },
                ),
            ],
        ))),
{
    match (call, response) {
        (McpCall::AgentList(_), ServerMessage::Agents { agents, .. }) => {
            let others = answer->Ok_0->Agents_0;
            let keeps = |agent: crate::protocol::AgentDescriptor| agent.agent_id@ != agent_id@;
            assert forall|k: int| 0 <= k < others@.len() implies (
            #[trigger] others@[k]).agent_id@ != agent_id@ && agents@.contains(others@[k]) by {
                agents@.lemma_filter_pred(keeps, k);
                assert(agents@.filter(keeps).contains(others@[k]));
                agents@.lemma_filter_contains_rev(keeps, others@[k]);
            }
            assert forall|k: int|
                0 <= k < agents@.len() && (#[trigger] agents@[k]).agent_id@ != agent_id@ implies
                others@.contains(agents@[k]) by {
                agents@.lemma_filter_contains(keeps, k);
            }
        },
        (
            McpCall::TaskExternalStatus(_),
            ServerMessage::ExternalStatus { operation, resolution, .. },
        ) => {
            let told = if resolution is Some {
                resolution->0.model()
            } else {
                JsonModel::Null
            };
            assert(crate::mcp::answer::status_model(operation.model(), resolution)->Object_0
                =~= seq![("operation"@, operation.model()), ("resolution"@, told)]);
        },
        _ => {},
    }
}

/// Whoever joined is in that workspace, and whoever left is in none; no other call and no other
/// answer of the router changes where the client is.
pub proof fn only_joining_and_leaving_move_the_client(
    call: McpCall,
    kind: Option<AnswerKind>,
    response: ServerMessage,
    effect: AnswerEffect,
)
    requires
        call_ensures(answer_kind, (&call,), kind),
        kind is Some,
        call_ensures(answer_effect, (kind->0, &response), effect),
    ensures
        effect is Join <==> call is WorkspaceJoin && response is WorkspaceJoined,
        effect is Leave <==> call is WorkspaceLeave && response is WorkspaceLeft,
        effect matches AnswerEffect::Join(name, at) ==> (response matches
            ServerMessage::WorkspaceJoined { workspace, cursor, .. } && name@ == workspace@ && at
            == cursor),
{
}

/// Every call that is admitted gives its place back when it ends, and at most so many run at
/// once: whoever comes beyond is told that the server is busy, and takes no place.
pub proof fn places_are_given_back(
    one: &mut CallAdmission,
    two: &mut CallAdmission,
    role: McpRole,
    name: &str,
    decoded: Option<McpCall>,
    step: CallStep,
    outcome: Option<Result<Json, BackendError>>,
    answer: Result<ToolResult, RpcError>,
)
    requires
        call_ensures(admit_call, (role, name, decoded, true, false, one), step),
        step is Dispatch,
        *old(two) == *final(one),
        call_ensures(finish_call, (name, outcome, two), answer),
    ensures
        old(one).active() < 32,
        decoded is Some && step == CallStep::Dispatch(decoded->0),
        final(one).active() == old(one).active() + 1,
        final(two).active() == old(one).active(),
{
}

/// A call is made only for a connected server, not as the continuation of another one, and only
/// where there is a place for it.
pub proof fn calls_are_made_in_order(
    admission: &mut CallAdmission,
    role: McpRole,
    name: &str,
    decoded: Option<McpCall>,
    connected: bool,
    continued: bool,
    step: CallStep,
)
    requires
        call_ensures(admit_call, (role, name, decoded, connected, continued, admission), step),
    ensures
        step is Dispatch ==> connected && !continued && old(admission).active() < 32 && decoded
            is Some,
        step is Answer ==> connected && !continued && old(admission).active() >= 32,
        !(step is Dispatch) ==> final(admission).active() == old(admission).active(),
        !connected ==> (step matches CallStep::Refuse(rpc) && rpc.kind is Internal && rpc.message@
            == "backend_initialization_failed"@),
        connected && continued ==> (step matches CallStep::Refuse(rpc) && rpc.kind is InvalidParams
            && rpc.message@ == "unsupported_tool_continuation"@),
        step matches CallStep::Answer(answer) ==> answer.is_error && answer.text@
            == "tool failed: "@ + "server_busy"@,
{
}

/// What a call is answered that ended: its value as it is, with a line that names the tool, or
/// a failure with its code; a cancelled call is answered as cancelled.
pub proof fn ended_calls_are_answered_with_their_outcome(
    admission: &mut CallAdmission,
    name: &str,
    outcome: Option<Result<Json, BackendError>>,
    answer: Result<ToolResult, RpcError>,
)
    requires
        old(admission).active() > 0,
        call_ensures(finish_call, (name, outcome, admission), answer),
    ensures
        answer matches Ok(result) && !result.is_error ==> (outcome matches Some(Ok(value))
            && answer->Ok_0.structured == value && answer->Ok_0.text@ == name@ + " succeeded"@),
        answer matches Ok(result) && result.is_error ==> exists|code: Seq<char>|
            #![trigger fails_with(answer->Ok_0, code)]
            fails_with(answer->Ok_0, code) && (match outcome {
                None => code == "cancelled"@,
                Some(Err(error)) => code == crate::mcp::backend_code(error),
                Some(Ok(_)) => code == "response_too_large"@,
            }),
        answer matches Err(rpc) ==> rpc.kind is Internal,
{
    match (answer, outcome) {
        (Ok(result), None) => {
            assert(fails_with(result, "cancelled"@));
        },
        (Ok(result), Some(Err(error))) => {
            assert(fails_with(result, crate::mcp::backend_code(error)));
        },
        (Ok(result), Some(Ok(_))) => {
            if result.is_error {
                assert(fails_with(result, "response_too_large"@));
            }
        },
        _ => {},
    }
}

/// An answer that says that a call failed, with a code.
pub open spec fn fails_with(result: ToolResult, code: Seq<char>) -> bool {
    &&& result.is_error
    &&& result.text@ == "tool failed: "@ + code
    &&& result.structured.model() == JsonModel::Object(
        seq![("ok"@, JsonModel::Bool(false)), ("error"@, JsonModel::Text(code))],
    )
}

/// Under which code a failure is reported: its own, and the router's where it is the router's.
pub proof fn failures_are_reported_under_their_code(error: BackendError, code: &'static str)
    requires
        call_ensures(BackendError::code, (error,), code),
    ensures
        error is InvalidState ==> code@ == "invalid_state"@,
        error is NotFound ==> code@ == "not_found"@,
        error is Conflict ==> code@ == "conflict"@,
        error is Unavailable ==> code@ == "backend_unavailable"@,
        error is Cancelled ==> code@ == "cancelled"@,
        error is Failed ==> code@ == "backend_failed"@,
        error is WaitBusy ==> code@ == "wait_busy"@,
        error is ReplyPending ==> code@ == "reply_pending"@,
        error is RequestNotClaimed ==> code@ == "request_not_claimed"@,
        error matches BackendError::Router(router) ==> code@ == crate::protocol::code_text(router),
{
}

/// How serving ended: it ended well only where every frame was one and left in time, the
/// service finished and the backend was closed. What was wrong with the frames comes first.
pub proof fn serving_ends_well_where_everything_did(
    health: TransportHealth,
    service: ServiceEnd,
    backend_closed: bool,
    outcome: Result<(), McpRuntimeError>,
)
    requires
        call_ensures(serve_outcome, (health, service, backend_closed), outcome),
    ensures
        outcome is Ok <==> !health.input_failed && !health.output_timed_out && service is Finished
            && backend_closed,
        health.input_failed <==> outcome == Err::<(), _>(McpRuntimeError::InvalidInput),
        outcome == Err::<(), _>(McpRuntimeError::OutputTimeout) <==> health.output_timed_out
            && !health.input_failed,
        outcome == Err::<(), _>(McpRuntimeError::BackendClose) ==> service is Finished
            && !backend_closed,
        outcome == Err::<(), _>(McpRuntimeError::Initialization) ==> service is NotInitialized,
        outcome == Err::<(), _>(McpRuntimeError::Service) ==> service is Failed,
{
}

/// The deadline of a frame runs from when it is begun until all of it has left: room alone does
/// not end it, the flush does, and a frame that is late is remembered.
pub proof fn deadlines_run_until_frames_have_left(
    one: &mut OutputGuard,
    two: &mut OutputGuard,
    three: &mut OutputGuard,
    four: &mut OutputGuard,
    passed: bool,
    size: usize,
    room: Progress,
    flush: Progress,
    checked: Result<(), GuardedSinkError>,
    ready: Option<Result<(), GuardedSinkError>>,
    sent: Result<(), GuardedSinkError>,
    flushed: Option<Result<(), GuardedSinkError>>,
)
    requires
        call_ensures(OutputGuard::poll_deadline, (one, passed), checked),
        *old(two) == *final(one),
        call_ensures(OutputGuard::poll_ready, (two, room), ready),
        *old(three) == *final(two),
        call_ensures(OutputGuard::start_send, (three, Some(size)), sent),
        *old(four) == *final(three),
        call_ensures(OutputGuard::poll_flush, (four, flush), flushed),
    ensures
        checked is Ok <==> !passed,
        passed ==> checked == Err::<(), _>(GuardedSinkError::Timeout) && final(four).timed_out,
        final(one).armed,
        room is Done ==> ready == Some(Ok::<(), GuardedSinkError>(())) && final(two).armed,
        room is Pending ==> ready is None && final(two).armed,
        room is Failed ==> ready == Some(Err::<(), _>(GuardedSinkError::WriteFailed)) && !final(two).armed,
        sent is Ok <==> size <= 1_048_576,
        sent is Err ==> sent == Err::<(), _>(GuardedSinkError::OutputTooLarge),
        room is Done && sent is Ok ==> final(three).armed,
        flush is Pending ==> flushed is None && final(four).armed == final(three).armed,
        flush is Done ==> flushed == Some(Ok::<(), GuardedSinkError>(())) && !final(four).armed,
        flush is Failed ==> flushed == Some(Err::<(), _>(GuardedSinkError::WriteFailed)) && !final(four).armed,
        old(one).timed_out ==> final(four).timed_out,
        !old(one).timed_out && !passed ==> !final(four).timed_out,
{
}

/// Who may do what: only who pulls work may wait for it, and everyone but a delegate may answer
/// it. No server is started for a workspace whose role has its own.
pub proof fn roles_may_do_their_own(
    role: McpRole,
    waits: bool,
    replies: bool,
    initial: Option<WorkspaceName>,
    checked: Result<(), BackendError>,
)
    requires
        call_ensures(McpRole::can_wait, (role,), waits),
        call_ensures(McpRole::can_reply, (role,), replies),
        call_ensures(check_initial_workspace, (role, &initial), checked),
    ensures
        waits <==> role is CodexCli,
        !replies <==> role is Delegate,
        checked is Err <==> initial is Some && (role is Delegate || role is Omp),
        checked is Err ==> checked == Err::<(), _>(BackendError::InvalidState),
{
}

/// Under which method and with what the host is told of work, of events, of cancellations and
/// of attempts: everything under its own name, and only to the host.
pub proof fn hosts_are_told_under_names_of_their_own(
    sink: McpNotificationSink,
    note: OmpServerNotification,
    sent: Result<Notification, NotificationError>,
)
    requires
        call_ensures(McpNotificationSink::send_omp, (&sink, note), sent),
    ensures
        !(sink.role is Omp) ==> sent == Err::<Notification, _>(NotificationError::WrongRole),
        sent is Ok ==> sent->Ok_0.method@ == "notifications/agent_session_router/"@ + (
        if note is Work {
            "work"@
        } else if note is Unread {
            "unread"@
        } else if note is Cancel {
            "cancel"@
        } else {
            "task_attempt"@
        }),
        sent is Ok ==> (sent->Ok_0.params.model() matches JsonModel::Object(members) && members.len()
            >= 3 && members[0] == ("v"@, JsonModel::Unsigned(1)) && members[1].0 == "workspace"@),
        sent is Ok ==> (note matches OmpServerNotification::Work {
            workspace,
            request_id,
            from,
            content,
            timeout_ms,
            task,
        } ==> (sent->Ok_0.params.model() matches JsonModel::Object(members) && members[1].1
            == JsonModel::Text(workspace@) && members[2] == (
            "requestId"@,
            JsonModel::Text(request_id@),
        ) && members[3] == ("from"@, JsonModel::Text(from@)) && members[4] == (
            "content"@,
            JsonModel::Text(content@),
        ) && members[5] == ("timeoutMs"@, JsonModel::Unsigned(timeout_ms)) && (members.len() == 7
            <==> task is Some) && (task is Some ==> members[6].0 == "task"@))),
        sent is Ok ==> (note matches OmpServerNotification::Unread { workspace, cursor, count }
            ==> (sent->Ok_0.params.model() matches JsonModel::Object(members) && members.len() == 4
            && members[1].1 == JsonModel::Text(workspace@) && members[2] == (
            "cursor"@,
            crate::json::integer_model(cursor),
        ) && members[3] == ("count"@, JsonModel::Unsigned(count as u64)))),
        sent is Ok ==> (note matches OmpServerNotification::Cancel { workspace, request_id, task }
            ==> (sent->Ok_0.params.model() matches JsonModel::Object(members) && members[1].1
            == JsonModel::Text(workspace@) && members[2] == (
            "requestId"@,
            JsonModel::Text(request_id@),
        ) && (members.len() == 4 <==> task is Some))),
        sent is Ok ==> (note matches OmpServerNotification::TaskAttempt {
            workspace,
            task_id,
            attempt,
            closed_attempt_id,
        } ==> (sent->Ok_0.params.model() matches JsonModel::Object(members) && members.len() == 5
            && members[1].1 == JsonModel::Text(workspace@) && members[2] == (
            "taskId"@,
            crate::json::integer_model(task_id),
        ) && members[3].0 == "attempt"@ && (members[3].1 is Null <==> attempt is None)
            && members[4].0 == "closedAttemptId"@ && (members[4].1 is Null
            <==> closed_attempt_id is None))),
{
}

/// What the host tells is taken under its own method only, in version one, and where it names
/// what it speaks of.
pub proof fn host_words_travel_under_their_own_method(
    method: &str,
    has_params: bool,
    decoded: Option<OmpHostNotification>,
    taken: Result<OmpHostNotification, NotificationError>,
)
    requires
        call_ensures(parse_omp_host_notification, (method, has_params, decoded), taken),
    ensures
        taken is Ok ==> has_params && decoded == Some(taken->Ok_0) && method@
            == "notifications/agent_session_router/"@ + (match taken->Ok_0 {
            OmpHostNotification::HostState(_) => "host_state"@,
            OmpHostNotification::WorkFinished(_) => "work_finished"@,
            OmpHostNotification::TaskTerminal(_) => "task_terminal"@,
            OmpHostNotification::Consumed(_) => "consumed"@,
        }),
        taken matches Ok(OmpHostNotification::HostState(host)) ==> host.v == 1,
        taken matches Ok(OmpHostNotification::WorkFinished(work)) ==> work.v == 1
            && work.request_id@.len() > 0,
        taken matches Ok(OmpHostNotification::TaskTerminal(end)) ==> end.v == 1
            && end.workspace@.len() > 0 && end.task_id > 0,
        taken matches Ok(OmpHostNotification::Consumed(read)) ==> read.v == 1
            && read.workspace@.len() > 0 && read.cursor >= 0,
        !has_params ==> taken == Err::<OmpHostNotification, _>(NotificationError::InvalidPayload),
        (decoded matches Some(OmpHostNotification::HostState(host)) && host.v == 1) && has_params
            && method@ == "notifications/agent_session_router/"@ + "host_state"@ ==> taken == Ok::<
            _,
            NotificationError,
        >(decoded->0),
        (decoded matches Some(OmpHostNotification::Consumed(read)) && read.v == 1 && read.cursor
            >= 0 && read.workspace@.len() > 0) && has_params && method@
            == "notifications/agent_session_router/"@ + "consumed"@ ==> taken == Ok::<
            _,
            NotificationError,
        >(decoded->0),
{
    reveal_strlit("notifications/agent_session_router/");
    reveal_strlit("host_state");
    reveal_strlit("work_finished");
    reveal_strlit("task_terminal");
    reveal_strlit("consumed");
    reveal_strlit("notifications/agent_session_router/host_state");
    reveal_strlit("notifications/agent_session_router/work_finished");
    reveal_strlit("notifications/agent_session_router/task_terminal");
    reveal_strlit("notifications/agent_session_router/consumed");
    assert("notifications/agent_session_router/"@ + "host_state"@
        =~= "notifications/agent_session_router/host_state"@);
    assert("notifications/agent_session_router/"@ + "work_finished"@
        =~= "notifications/agent_session_router/work_finished"@);
    assert("notifications/agent_session_router/"@ + "task_terminal"@
        =~= "notifications/agent_session_router/task_terminal"@);
    assert("notifications/agent_session_router/"@ + "consumed"@
        =~= "notifications/agent_session_router/consumed"@);
}

/// The host is told of nothing that has no workspace, of no request without a name or a sender,
/// and of no task without a number.
pub proof fn hosts_are_told_of_what_has_a_name(
    note: OmpServerNotification,
    sent: Result<Notification, NotificationError>,
)
    requires
        call_ensures(OmpServerNotification::into_notification, (note,), sent),
        sent is Ok,
    ensures
        note is Work ==> note->Work_workspace@.len() > 0 && note->Work_request_id@.len() > 0
            && note->from@.len() > 0 && note->timeout_ms > 0,
        note is Unread ==> note->Unread_workspace@.len() > 0 && note->cursor >= 0,
        note is Cancel ==> note->Cancel_workspace@.len() > 0 && note->Cancel_request_id@.len() > 0,
        note is TaskAttempt ==> note->TaskAttempt_workspace@.len() > 0 && note->task_id > 0,
{
}

} // verus!
