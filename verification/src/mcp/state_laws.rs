//! What holds of a backend's dealings with the router: how it connects, what it hands on and takes
//! back, and what its calls are answered.

use vstd::prelude::*;

use crate::ids::Uuid;
use crate::json::{integer_model, models, Json, JsonModel};
use crate::mcp::answer::{agents_value, tasks_value, workspaces_value};
use crate::mcp::args::ExternalProvider;
use crate::mcp::backend::{
    matching_cancel_task, remaining_millis, ClientConfig, ClientRole, ConnectionSpec,
    DeliveryAction, InboundRequest, RouterBackendState, TaskAttemptEvent,
};
use crate::mcp::dispatch::{
    check_accepted, external_provider, other_agents, parse_task_state, parse_workspace, take_agents,
    take_posted, take_workspaces,
};
use crate::mcp::work::{
    delivered_value, replied_value, server_message_error, wait_timeout_value,
};
use crate::mcp::{map_client_error, BackendError, ClientError, McpRole};
use crate::protocol::server::ServerMessage;
use crate::protocol::{
    AgentDescriptor, RouterErrorCode, TaskDispatch, TaskFence, WorkspaceName, WorkspaceSummary,
};
use crate::tasks::TaskState;

verus! {

/// A delegate's server connects as the delegate of its agent, every other as the agent, and none
/// as an operator; and it connects again as it did.
pub proof fn servers_connect_as_their_agent(
    role: McpRole,
    agent_id: &str,
    config: ClientConfig,
    connection: Result<ConnectionSpec, BackendError>,
    again: ClientConfig,
)
    requires
        call_ensures(ConnectionSpec::from_config, (role, agent_id, config), connection),
        connection matches Ok(own) ==> call_ensures(ConnectionSpec::client_config, (&own,), again),
    ensures
        config.role is Operator ==> connection == Err::<ConnectionSpec, _>(
            BackendError::InvalidState,
        ),
        role is Delegate ==> (connection is Ok <==> (config.role matches ClientRole::Delegate {
            owner_id,
            delegation_token,
        } && owner_id@ == agent_id@)),
        !(role is Delegate) ==> (connection is Ok <==> (config.role matches ClientRole::Primary {
            agent,
            credential,
            delegation_token,
        } && agent.agent_id@ == agent_id@)),
        connection is Err ==> connection->Err_0 is InvalidState,
        connection is Ok ==> again.router_url@ == config.router_url@ && crate::text::opt_text(
            again.ca_file,
        ) == crate::text::opt_text(config.ca_file),
        connection is Ok && config.role is Delegate ==> again.role is Delegate,
        connection is Ok && config.role is Primary ==> again.role is Primary,
{
}

/// A server that was started for a workspace goes on in that workspace only.
pub proof fn servers_stay_in_their_workspace(
    state: &mut RouterBackendState,
    expected: WorkspaceName,
    workspace: WorkspaceName,
    cursor: i64,
    checked: Result<(), BackendError>,
)
    requires
        call_ensures(
            RouterBackendState::joined_initial,
            (state, &expected, workspace, cursor),
            checked,
        ),
    ensures
        checked is Ok <==> workspace@ == expected@,
        checked is Ok ==> final(state).membership == Some(workspace) && final(state).latest_cursor
            == cursor && final(state).acknowledged_cursor == cursor,
        checked is Err ==> checked->Err_0 == BackendError::Router(
            RouterErrorCode::WorkspaceMismatch,
        ) && *final(state) == *old(state),
{
}

/// When the router's events have ended, the waiting call is told so and nothing is held any more.
pub proof fn ended_streams_leave_nothing(
    state: &mut RouterBackendState,
    waiter: Option<(Uuid, BackendError)>,
)
    requires
        call_ensures(RouterBackendState::handle_event_stream_closed, (state,), waiter),
    ensures
        old(state).waiter is None ==> waiter is None,
        old(state).waiter is Some ==> waiter == Some(
            (old(state).waiter->0, BackendError::Unavailable),
        ),
        final(state).membership is None && final(state).pending is None && final(state).task_lease
            is None && final(state).waiter is None && !final(state).omp_ready,
        final(state).role == old(state).role && final(state).closed == old(state).closed,
{
}

/// Work that could not be handed on is no longer owed, and no other.
pub proof fn undelivered_work_is_not_owed(
    state: &mut RouterBackendState,
    workspace: WorkspaceName,
    request_id: &str,
    action: DeliveryAction,
    code: RouterErrorCode,
)
    requires
        call_ensures(
            RouterBackendState::reject_pending_delivery,
            (state, &workspace, request_id),
            (),
        ),
        call_ensures(DeliveryAction::undelivered_code, (&action,), code),
    ensures
        (old(state).pending matches Some(own) && own.workspace@ == workspace@ && own.request_id@
            == request_id@) ==> final(state).pending is None,
        (old(state).pending matches Some(own) && (own.workspace@ != workspace@ || own.request_id@
            != request_id@)) ==> *final(state) == *old(state),
        final(state).membership == old(state).membership && final(state).waiter
            == old(state).waiter && final(state).task_lease == old(state).task_lease,
        action is Wait ==> code is RequestCancelled,
        action is Claude || action is Omp ==> code is ProviderError,
        (action matches DeliveryAction::Reject(id, own)) ==> code == action->Reject_1,
{
}

/// The lease of an attempt ends when the router knows that the attempt has stopped; a barrier is
/// asked for only by a host that has not leased what has begun.
pub proof fn leases_end_with_their_attempt(
    state: &mut RouterBackendState,
    fence: TaskFence,
    other: RouterBackendState,
    event: TaskAttemptEvent,
    asks: bool,
    unready: bool,
)
    requires
        call_ensures(RouterBackendState::omp_task_stopped, (state, fence), ()),
        call_ensures(RouterBackendState::asks_barrier, (&other, &event), asks),
        call_ensures(RouterBackendState::role_readiness, (&other,), unready),
    ensures
        (old(state).task_lease matches Some(lease) && lease.fence == fence) ==> final(state).task_lease is None,
        (old(state).task_lease matches Some(lease) && lease.fence != fence) ==> *final(state)
            == *old(state),
        final(state).pending == old(state).pending,
        asks ==> other.role is Omp && event.attempt is Some && event.current is Some
            && event.current->0.task_id == event.task_id && event.current->0.attempt_id
            == event.attempt->0.id,
        other.role is Omp && event.attempt is Some && event.current is Some
            && event.current->0.task_id == event.task_id && event.current->0.attempt_id
            == event.attempt->0.id && other.task_lease is None ==> asks,
        (other.task_lease matches Some(lease) && event.current == Some(lease.fence)
            && lease.workspace@ == event.workspace@) ==> !asks,
        unready <==> other.role is CodexCli,
{
}

/// What work has left is at least a millisecond; a cancellation is of the work's own task.
pub proof fn work_has_time_left(
    deadline: u64,
    now: u64,
    left: u64,
    dispatch: TaskDispatch,
    fence: TaskFence,
    both: bool,
    neither: bool,
    one: bool,
    another: bool,
)
    requires
        call_ensures(remaining_millis, (deadline, now), left),
        call_ensures(matching_cancel_task, (Some(&dispatch), Some(&fence)), both),
        call_ensures(matching_cancel_task, (None, None), neither),
        call_ensures(matching_cancel_task, (Some(&dispatch), None), one),
        call_ensures(matching_cancel_task, (None, Some(&fence)), another),
    ensures
        deadline > now ==> left == deadline - now,
        deadline <= now ==> left == 1,
        both <==> dispatch.id == fence.task_id,
        neither,
        !one && !another,
{
}

/// What a call that waited, or answered, is told.
pub proof fn waiting_calls_are_told(
    request: InboundRequest,
    now: u64,
    value: Json,
    timeout: Json,
    request_id: &str,
    replied: Json,
)
    requires
        call_ensures(delivered_value, (&request, now), value),
        call_ensures(wait_timeout_value, (), timeout),
        call_ensures(replied_value, (request_id,), replied),
        request.deadline > now,
    ensures
        value.model() is Object && value.model()->Object_0.len() == 1 && value.model()->Object_0[0].0
            == "request"@,
        value.model()->Object_0[0].1->Object_0.len() == 6,
        value.model()->Object_0[0].1->Object_0[0] == (
            "workspace"@,
            JsonModel::Text(request.workspace@),
        ),
        value.model()->Object_0[0].1->Object_0[1] == (
            "requestId"@,
            JsonModel::Text(request.request_id@),
        ),
        value.model()->Object_0[0].1->Object_0[2] == ("from"@, JsonModel::Text(request.from@)),
        value.model()->Object_0[0].1->Object_0[3] == ("content"@, JsonModel::Text(request.content@)),
        value.model()->Object_0[0].1->Object_0[4] == (
            "timeoutMs"@,
            JsonModel::Unsigned((request.deadline - now) as u64),
        ),
        value.model()->Object_0[0].1->Object_0[5].0 == "task"@,
        request.task is None <==> value.model()->Object_0[0].1->Object_0[5].1 is Null,
        request.task is Some ==> value.model()->Object_0[0].1->Object_0[5].1->Object_0[0] == (
            "id"@,
            integer_model(request.task->0.id),
        ) && value.model()->Object_0[0].1->Object_0[5].1->Object_0[1] == (
            "expectedVersion"@,
            integer_model(request.task->0.expected_version),
        ),
        timeout.model()->Object_0[0] == ("request"@, JsonModel::Null),
        timeout.model()->Object_0[1] == ("error"@, JsonModel::Text("wait_timeout"@)),
        replied.model()->Object_0[0] == ("ok"@, JsonModel::Bool(true)),
        replied.model()->Object_0[1] == ("requestId"@, JsonModel::Text(request_id@)),
{
}

/// What the router answers is taken where it is what was asked for; an error keeps its code, and
/// anything else is out of order.
pub proof fn answers_are_taken_as_asked(
    response: ServerMessage,
    agents: Result<Vec<AgentDescriptor>, BackendError>,
    page: Result<(Vec<WorkspaceSummary>, Option<String>, bool), BackendError>,
    posted: Result<(WorkspaceName, i64), BackendError>,
    accepted: Result<(), BackendError>,
    failure: BackendError,
)
    requires
        call_ensures(take_agents, (response,), agents),
        call_ensures(take_workspaces, (response,), page),
        call_ensures(take_posted, (response,), posted),
        call_ensures(check_accepted, (&response,), accepted),
        call_ensures(server_message_error, (&response,), failure),
    ensures
        agents is Ok <==> response is Agents,
        page is Ok <==> response is Workspaces,
        posted is Ok <==> response is WorkspacePosted,
        accepted is Ok <==> response is Accepted,
        response is Agents ==> agents->Ok_0 == response->agents,
        response is WorkspacePosted ==> posted->Ok_0 == (
            response->WorkspacePosted_workspace,
            response->seq,
        ),
        response is Workspaces ==> page->Ok_0 == (
            response->workspaces,
            response->Workspaces_next_cursor,
            response->Workspaces_has_more,
        ),
        response is Error ==> failure == BackendError::Router(response->code),
        !(response is Error) ==> failure is InvalidState,
        agents is Err ==> agents->Err_0 == failure,
        page is Err ==> page->Err_0 == failure,
        posted is Err ==> posted->Err_0 == failure,
        accepted is Err ==> accepted->Err_0 == failure,
{
}

/// An agent is told of the others, never of itself.
pub proof fn agents_are_told_of_the_others(
    agents: Vec<AgentDescriptor>,
    id: &str,
    others: Vec<AgentDescriptor>,
    agent: AgentDescriptor,
)
    requires
        call_ensures(other_agents, (agents, id), others),
    ensures
        others@.contains(agent) <==> agents@.contains(agent) && agent.agent_id@ != id@,
{
    let pred = |a: AgentDescriptor| a.agent_id@ != id@;
    filtering_keeps_what_passes(agents@, pred, agent);
}

proof fn filtering_keeps_what_passes<T>(list: Seq<T>, pred: spec_fn(T) -> bool, item: T)
    ensures
        list.filter(pred).contains(item) <==> list.contains(item) && pred(item),
    decreases list.len(),
{
    reveal(Seq::filter);
    if list.len() > 0 {
        let rest = list.drop_last();
        filtering_keeps_what_passes(rest, pred, item);
        let whole = list.filter(pred);
        let kept = rest.filter(pred);
        assert(list[list.len() - 1] == list.last());
        if list.contains(item) {
            let k = list.index_of(item);
            if k < rest.len() {
                assert(rest[k] == item);
            }
        }
        if rest.contains(item) {
            let k = rest.index_of(item);
            assert(list[k] == item);
        }
        if kept.contains(item) {
            let k = kept.index_of(item);
            assert(whole[k] == item);
        }
        if whole.contains(item) {
            let k = whole.index_of(item);
            if k < kept.len() {
                assert(kept[k] == item);
            }
        }
        if pred(list.last()) {
            assert(whole[whole.len() - 1] == list.last());
        }
    }
}

/// What a call names: a workspace by its name, a state and a tracker by theirs.
pub proof fn calls_name_what_there_is(
    value: &str,
    state: Result<TaskState, BackendError>,
    text: String,
    name: Result<WorkspaceName, BackendError>,
    tracker: ExternalProvider,
    named: crate::tasks::ExternalProvider,
)
    requires
        call_ensures(parse_task_state, (value,), state),
        call_ensures(parse_workspace, (text,), name),
        call_ensures(external_provider, (tracker,), named),
    ensures
        state == Ok::<_, BackendError>(TaskState::Todo) <==> value@ == "todo"@,
        state == Ok::<_, BackendError>(TaskState::InProgress) <==> value@ == "in_progress"@,
        state == Ok::<_, BackendError>(TaskState::Blocked) <==> value@ == "blocked"@,
        state == Ok::<_, BackendError>(TaskState::Paused) <==> value@ == "paused"@,
        state == Ok::<_, BackendError>(TaskState::Done) <==> value@ == "done"@,
        state == Ok::<_, BackendError>(TaskState::Cancelled) <==> value@ == "cancelled"@,
        state is Err ==> state->Err_0 == BackendError::Router(RouterErrorCode::InvalidMessage),
        name is Ok ==> name->Ok_0@ == text@,
        name is Ok <==> crate::protocol::workspace_name(text@),
        name is Err ==> name->Err_0 == BackendError::Router(RouterErrorCode::InvalidMessage),
        tracker is Github <==> named is Github,
        tracker is Linear <==> named is Linear,
{
    reveal_strlit("todo");
    reveal_strlit("in_progress");
    reveal_strlit("blocked");
    reveal_strlit("paused");
    reveal_strlit("done");
    reveal_strlit("cancelled");
    assert("todo"@.len() == 4 && "done"@.len() == 4 && "todo"@[0] != "done"@[0]);
    assert("in_progress"@.len() == 11 && "blocked"@.len() == 7);
    assert("paused"@.len() == 6 && "cancelled"@.len() == 9);
}

/// The failure of a client: the router's refusals keep their code.
pub proof fn client_failures_are_passed_on(error: ClientError, failure: BackendError)
    requires
        call_ensures(map_client_error, (error,), failure),
    ensures
        (error matches ClientError::Router(code)) ==> failure == BackendError::Router(
            error->Router_0,
        ),
        !(error is Router) ==> failure is Unavailable,
{
}

/// Lists are answered with their items in order, and pages with where the next one begins.
pub proof fn lists_are_answered_in_order(
    agents: Vec<Json>,
    a: Json,
    workspaces: Vec<Json>,
    next: Option<String>,
    more: bool,
    b: Json,
    tasks: Vec<Json>,
    cursor: i64,
    c: Json,
)
    requires
        call_ensures(agents_value, (agents,), a),
        call_ensures(workspaces_value, (workspaces, next, more), b),
        call_ensures(tasks_value, (tasks, cursor, more), c),
    ensures
        a.model()->Object_0[0] == ("agents"@, JsonModel::Array(models(agents@))),
        b.model()->Object_0[0] == ("workspaces"@, JsonModel::Array(models(workspaces@))),
        b.model()->Object_0[1].0 == "nextCursor"@,
        next is None ==> b.model()->Object_0[1].1 is Null,
        next is Some ==> b.model()->Object_0[1].1 == JsonModel::Text(next->0@),
        b.model()->Object_0[2] == ("hasMore"@, JsonModel::Bool(more)),
        c.model()->Object_0[0] == ("tasks"@, JsonModel::Array(models(tasks@))),
        c.model()->Object_0[1] == ("nextCursor"@, integer_model(cursor)),
        c.model()->Object_0[2] == ("hasMore"@, JsonModel::Bool(more)),
{
}

} // verus!
