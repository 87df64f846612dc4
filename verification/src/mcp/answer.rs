//! What the calls of tools are answered with, once the router has answered.

use vstd::prelude::*;

use crate::json::{array_model, field, integer, integer_model, models, object, Json, JsonModel};
use crate::mcp::args::McpCall;
use crate::mcp::dispatch::{other_agents, take_agents, take_posted, take_workspaces, without_agent};
use crate::mcp::work::{answer_failure, server_message_error};
use crate::mcp::BackendError;
use crate::protocol::server::ServerMessage;
use crate::protocol::{
    AgentDescriptor, HistoryPage, TaskHistoryPage, WorkspaceName, WorkspaceSummary,
};
use crate::tasks::{TaskDetail, TaskMutationResult, TaskSummary};
use crate::text::opt_text;

verus! {

/// What a call is answered with.
#[derive(Clone, Copy, Debug, PartialEq, Eq, Structural)]
pub enum AnswerKind {
    /// The agents of the workspace but the one that asks.
    OtherAgents,
    Agents,
    Workspaces,
    Joined,
    Left,
    Posted,
    History,
    Tasks,
    Task,
    TaskHistory,
    Mutation,
    Integrations,
    Operation,
    Status,
}

/// What a call is answered with, if the router answers it at once.
pub open spec fn kind_of(call: McpCall) -> Option<AnswerKind> {
    match call {
        McpCall::AgentList(_) => Some(AnswerKind::OtherAgents),
        McpCall::WorkspaceList(_) => Some(AnswerKind::Workspaces),
        McpCall::WorkspaceJoin(_) => Some(AnswerKind::Joined),
        McpCall::WorkspaceLeave(_) => Some(AnswerKind::Left),
        McpCall::WorkspaceMembers(_) => Some(AnswerKind::Agents),
        McpCall::WorkspacePost(_) => Some(AnswerKind::Posted),
        McpCall::WorkspaceHistory(_) => Some(AnswerKind::History),
        McpCall::TaskList(_) => Some(AnswerKind::Tasks),
        McpCall::TaskGet(_) => Some(AnswerKind::Task),
        McpCall::TaskHistory(_) => Some(AnswerKind::TaskHistory),
        McpCall::TaskCreate(_) => Some(AnswerKind::Mutation),
        McpCall::TaskEdit(_) => Some(AnswerKind::Mutation),
        McpCall::TaskAssign(_) => Some(AnswerKind::Mutation),
        McpCall::TaskNote(_) => Some(AnswerKind::Mutation),
        McpCall::TaskBegin(_) => Some(AnswerKind::Mutation),
        McpCall::TaskCheckpoint(_) => Some(AnswerKind::Mutation),
        McpCall::TaskPause(_) => Some(AnswerKind::Mutation),
        McpCall::TaskComplete(_) => Some(AnswerKind::Mutation),
        McpCall::TaskCancel(_) => Some(AnswerKind::Mutation),
        McpCall::TaskReopen(_) => Some(AnswerKind::Mutation),
        McpCall::IntegrationList(_) => Some(AnswerKind::Integrations),
        McpCall::TaskImport(_) => Some(AnswerKind::Operation),
        McpCall::TaskLink(_) => Some(AnswerKind::Operation),
        McpCall::TaskPublish(_) => Some(AnswerKind::Operation),
        McpCall::TaskExternalStatus(_) => Some(AnswerKind::Status),
        McpCall::AgentSend(_) => None,
        McpCall::TaskRequest(_) => None,
        McpCall::AgentWait(_) => None,
        McpCall::AgentReply(_) => None,
    }
}

/// What a call is answered with, if the router answers it at once.
pub fn answer_kind(call: &McpCall) -> (kind: Option<AnswerKind>)
    ensures
        kind == kind_of(*call),
{
    match call {
        McpCall::AgentList(_) => Some(AnswerKind::OtherAgents),
        McpCall::WorkspaceList(_) => Some(AnswerKind::Workspaces),
        McpCall::WorkspaceJoin(_) => Some(AnswerKind::Joined),
        McpCall::WorkspaceLeave(_) => Some(AnswerKind::Left),
        McpCall::WorkspaceMembers(_) => Some(AnswerKind::Agents),
        McpCall::WorkspacePost(_) => Some(AnswerKind::Posted),
        McpCall::WorkspaceHistory(_) => Some(AnswerKind::History),
        McpCall::TaskList(_) => Some(AnswerKind::Tasks),
        McpCall::TaskGet(_) => Some(AnswerKind::Task),
        McpCall::TaskHistory(_) => Some(AnswerKind::TaskHistory),
        McpCall::TaskCreate(_)
        | McpCall::TaskEdit(_)
        | McpCall::TaskAssign(_)
        | McpCall::TaskNote(_)
        | McpCall::TaskBegin(_)
        | McpCall::TaskCheckpoint(_)
        | McpCall::TaskPause(_)
        | McpCall::TaskComplete(_)
        | McpCall::TaskCancel(_)
        | McpCall::TaskReopen(_) => Some(AnswerKind::Mutation),
        McpCall::IntegrationList(_) => Some(AnswerKind::Integrations),
        McpCall::TaskImport(_) | McpCall::TaskLink(_) | McpCall::TaskPublish(_) => Some(
            AnswerKind::Operation,
        ),
        McpCall::TaskExternalStatus(_) => Some(AnswerKind::Status),
        McpCall::AgentSend(_)
        | McpCall::TaskRequest(_)
        | McpCall::AgentWait(_)
        | McpCall::AgentReply(_) => None,
    }
}

/// What the router's answer changes before the call is answered.
pub enum AnswerEffect {
    Nothing,
    /// The client is in that workspace, up to that cursor.
    Join(WorkspaceName, i64),
    /// The client is in no workspace.
    Leave,
}

/// What the router's answer changes: joining and leaving count where they were asked for.
pub fn answer_effect(kind: AnswerKind, response: &ServerMessage) -> (effect: AnswerEffect)
    ensures
        match (kind, *response) {
            (AnswerKind::Joined, ServerMessage::WorkspaceJoined { workspace, cursor, .. }) => effect
                matches AnswerEffect::Join(name, at) && name@ == workspace@ && at == cursor,
            (AnswerKind::Left, ServerMessage::WorkspaceLeft { .. }) => effect is Leave,
            _ => effect is Nothing,
        },
{
    match (kind, response) {
        (AnswerKind::Joined, ServerMessage::WorkspaceJoined { workspace, cursor, .. }) => {
            AnswerEffect::Join(workspace.copy(), *cursor)
        },
        (AnswerKind::Left, ServerMessage::WorkspaceLeft { .. }) => AnswerEffect::Leave,
        _ => AnswerEffect::Nothing,
    }
}

/// What a call is answered with: a value, or what is to be put into one.
pub enum ToolAnswer {
    Value(Json),
    Agents(Vec<AgentDescriptor>),
    Workspaces(Vec<WorkspaceSummary>, Option<String>, bool),
    Tasks(Vec<TaskSummary>, i64, bool),
    History(HistoryPage),
    Task(TaskDetail),
    TaskHistory(TaskHistoryPage),
    Mutation(TaskMutationResult),
}

/// A workspace and a number that goes with it.
pub open spec fn placed_model(workspace: Seq<char>, key: Seq<char>, number: i64) -> JsonModel {
    JsonModel::Object(
        seq![("workspace"@, JsonModel::Text(workspace)), (key, integer_model(number))],
    )
}

fn placed(workspace: &WorkspaceName, key: &str, number: i64) -> (value: Json)
    ensures
        value.model() == placed_model(workspace@, key@, number),
{
    let value = object(
        vec![field("workspace", Json::of_text(workspace.as_str())), field(key, integer(number))],
    );
    assert(value.model()->Object_0 =~= placed_model(workspace@, key@, number)->Object_0);
    value
}

/// The workspace that was left, if there was one.
pub open spec fn left_model(workspace: Option<WorkspaceName>) -> JsonModel {
    JsonModel::Object(
        seq![
            (
                "workspace"@,
                match workspace {
                    Some(workspace) => JsonModel::Text(workspace@),
                    None => JsonModel::Null,
                },
            ),
        ],
    )
}

fn left_value(workspace: &Option<WorkspaceName>) -> (value: Json)
    ensures
        value.model() == left_model(*workspace),
{
    let name = match workspace {
        Some(workspace) => Json::of_text(workspace.as_str()),
        None => Json::Null,
    };
    let value = object(vec![field("workspace", name)]);
    assert(value.model()->Object_0 =~= left_model(*workspace)->Object_0);
    value
}

/// An operation with what it was resolved to, if it was.
pub open spec fn status_model(operation: JsonModel, resolution: Option<Json>) -> JsonModel {
    JsonModel::Object(
        seq![
            ("operation"@, operation),
            (
                "resolution"@,
                match resolution {
                    Some(resolution) => resolution.model(),
                    None => JsonModel::Null,
                },
            ),
        ],
    )
}

fn status_value(operation: Json, resolution: Option<Json>) -> (value: Json)
    ensures
        value.model() == status_model(operation.model(), resolution),
{
    let resolved = match resolution {
        Some(resolution) => resolution,
        None => Json::Null,
    };
    let value = object(vec![field("operation", operation), field("resolution", resolved)]);
    assert(value.model()->Object_0 =~= status_model(operation.model(), resolution)->Object_0);
    value
}

/// A list under a key.
pub open spec fn listed_model(key: Seq<char>, items: Seq<JsonModel>) -> JsonModel {
    JsonModel::Object(seq![(key, JsonModel::Array(items))])
}

fn listed(key: &str, items: Vec<Json>) -> (value: Json)
    ensures
        value.model() == listed_model(key@, models(items@)),
{
    proof {
        array_model(items);
    }
    let value = object(vec![field(key, Json::Array(items))]);
    assert(value.model()->Object_0 =~= listed_model(key@, models(items@))->Object_0);
    value
}

/// A page of a list: where the next one begins, and whether there is one.
pub open spec fn paged_model(key: Seq<char>, items: Seq<JsonModel>, next: JsonModel, more: bool) -> JsonModel {
    JsonModel::Object(
        seq![
            (key, JsonModel::Array(items)),
            ("nextCursor"@, next),
            ("hasMore"@, JsonModel::Bool(more)),
        ],
    )
}

fn paged(key: &str, items: Vec<Json>, next: Json, more: bool) -> (value: Json)
    ensures
        value.model() == paged_model(key@, models(items@), next.model(), more),
{
    proof {
        array_model(items);
    }
    let value = object(
        vec![
            field(key, Json::Array(items)),
            field("nextCursor", next),
            field("hasMore", Json::Bool(more)),
        ],
    );
    assert(value.model()->Object_0 =~= paged_model(
        key@,
        models(items@),
        next.model(),
        more,
    )->Object_0);
    value
}

/// The value that lists agents, each by its own value.
pub fn agents_value(agents: Vec<Json>) -> (value: Json)
    ensures
        value.model() == listed_model("agents"@, models(agents@)),
{
    listed("agents", agents)
}

/// The value of a page of workspaces, each by its own value.
pub fn workspaces_value(workspaces: Vec<Json>, next: Option<String>, more: bool) -> (value: Json)
    ensures
        value.model() == paged_model(
            "workspaces"@,
            models(workspaces@),
            match opt_text(next) {
                Some(next) => JsonModel::Text(next),
                None => JsonModel::Null,
            },
            more,
        ),
{
    let next = match next {
        Some(next) => Json::Text(next),
        None => Json::Null,
    };
    paged("workspaces", workspaces, next, more)
}

/// The value of a page of tasks, each by its own value.
pub fn tasks_value(tasks: Vec<Json>, next: i64, more: bool) -> (value: Json)
    ensures
        value.model() == paged_model("tasks"@, models(tasks@), integer_model(next), more),
{
    paged("tasks", tasks, integer(next), more)
}

/// Whether a call of a kind is answered so: every kind has its own answer of the router, and
/// any other is a failure.
pub open spec fn answers(
    kind: AnswerKind,
    agent_id: Seq<char>,
    response: ServerMessage,
    answer: Result<ToolAnswer, BackendError>,
) -> bool {
    match (kind, response) {
        (AnswerKind::OtherAgents, ServerMessage::Agents { agents, .. }) => answer matches Ok(
            ToolAnswer::Agents(list),
        ) && list@ == without_agent(agents@, agent_id),
        (AnswerKind::Agents, ServerMessage::Agents { agents, .. }) => answer == Ok::<_, BackendError>(
            ToolAnswer::Agents(agents),
        ),
        (AnswerKind::Workspaces, ServerMessage::Workspaces { workspaces, next_cursor, has_more, .. }) =>
            answer == Ok::<_, BackendError>(
            ToolAnswer::Workspaces(workspaces, next_cursor, has_more),
        ),
        (AnswerKind::Joined, ServerMessage::WorkspaceJoined { workspace, cursor, .. }) => answer
            matches Ok(ToolAnswer::Value(value)) && value.model() == placed_model(
            workspace@,
            "cursor"@,
            cursor,
        ),
        (AnswerKind::Left, ServerMessage::WorkspaceLeft { workspace, .. }) => answer matches Ok(
            ToolAnswer::Value(value),
        ) && value.model() == left_model(workspace),
        (AnswerKind::Posted, ServerMessage::WorkspacePosted { workspace, seq, .. }) => answer
            matches Ok(ToolAnswer::Value(value)) && value.model() == placed_model(
            workspace@,
            "seq"@,
            seq,
        ),
        (AnswerKind::History, ServerMessage::WorkspaceHistory { page, .. }) => answer == Ok::<
            _,
            BackendError,
        >(ToolAnswer::History(page)),
        (AnswerKind::Tasks, ServerMessage::Tasks { tasks, next_cursor, has_more, .. }) => answer
            == Ok::<_, BackendError>(ToolAnswer::Tasks(tasks, next_cursor, has_more)),
        (AnswerKind::Task, ServerMessage::Task { task, .. }) => answer == Ok::<_, BackendError>(
            ToolAnswer::Task(task),
        ),
        (AnswerKind::TaskHistory, ServerMessage::TaskHistory { page, .. }) => answer == Ok::<
            _,
            BackendError,
        >(ToolAnswer::TaskHistory(page)),
        (AnswerKind::Mutation, ServerMessage::TaskMutated { result, .. }) => answer == Ok::<
            _,
            BackendError,
        >(ToolAnswer::Mutation(result)),
        (AnswerKind::Integrations, ServerMessage::Integrations { integrations, .. }) => answer
            matches Ok(ToolAnswer::Value(value)) && value.model() == listed_model(
            "integrations"@,
            models(integrations@),
        ),
        (AnswerKind::Operation, ServerMessage::ExternalOperation { operation, .. }) => answer
            == Ok::<_, BackendError>(ToolAnswer::Value(operation)),
        (AnswerKind::Status, ServerMessage::ExternalStatus { operation, resolution, .. }) => answer
            matches Ok(ToolAnswer::Value(value)) && value.model() == status_model(
            operation.model(),
            resolution,
        ),
        _ => answer == Err::<ToolAnswer, _>(answer_failure(response)),
    }
}

/// What a call of an agent is answered with, once the router has answered.
pub fn tool_answer(kind: AnswerKind, agent_id: &str, response: ServerMessage) -> (answer: Result<
    ToolAnswer,
    BackendError,
>)
    ensures
        answers(kind, agent_id@, response, answer),
{
    match kind {
        AnswerKind::OtherAgents => match take_agents(response) {
            Ok(agents) => Ok(ToolAnswer::Agents(other_agents(agents, agent_id))),
            Err(error) => Err(error),
        },
        AnswerKind::Agents => match take_agents(response) {
            Ok(agents) => Ok(ToolAnswer::Agents(agents)),
            Err(error) => Err(error),
        },
        AnswerKind::Workspaces => match take_workspaces(response) {
            Ok((list, next, more)) => Ok(ToolAnswer::Workspaces(list, next, more)),
            Err(error) => Err(error),
        },
        AnswerKind::Posted => match take_posted(response) {
            Ok((workspace, seq)) => Ok(ToolAnswer::Value(placed(&workspace, "seq", seq))),
            Err(error) => Err(error),
        },
        AnswerKind::Joined => match response {
            ServerMessage::WorkspaceJoined { workspace, cursor, .. } => Ok(
                ToolAnswer::Value(placed(&workspace, "cursor", cursor)),
            ),
            _ => Err(server_message_error(&response)),
        },
        AnswerKind::Left => match response {
            ServerMessage::WorkspaceLeft { workspace, .. } => Ok(
                ToolAnswer::Value(left_value(&workspace)),
            ),
            _ => Err(server_message_error(&response)),
        },
        AnswerKind::History => match response {
            ServerMessage::WorkspaceHistory { page, .. } => Ok(ToolAnswer::History(page)),
            _ => Err(server_message_error(&response)),
        },
        AnswerKind::Tasks => match response {
            ServerMessage::Tasks { tasks, next_cursor, has_more, .. } => Ok(
                ToolAnswer::Tasks(tasks, next_cursor, has_more),
            ),
            _ => Err(server_message_error(&response)),
        },
        AnswerKind::Task => match response {
            ServerMessage::Task { task, .. } => Ok(ToolAnswer::Task(task)),
            _ => Err(server_message_error(&response)),
        },
        AnswerKind::TaskHistory => match response {
            ServerMessage::TaskHistory { page, .. } => Ok(ToolAnswer::TaskHistory(page)),
            _ => Err(server_message_error(&response)),
        },
        AnswerKind::Mutation => match response {
            ServerMessage::TaskMutated { result, .. } => Ok(ToolAnswer::Mutation(result)),
            _ => Err(server_message_error(&response)),
        },
        AnswerKind::Integrations => match response {
            ServerMessage::Integrations { integrations, .. } => Ok(
                ToolAnswer::Value(listed("integrations", integrations)),
            ),
            _ => Err(server_message_error(&response)),
        },
        AnswerKind::Operation => match response {
            ServerMessage::ExternalOperation { operation, .. } => Ok(ToolAnswer::Value(operation)),
            _ => Err(server_message_error(&response)),
        },
        AnswerKind::Status => match response {
            ServerMessage::ExternalStatus { operation, resolution, .. } => Ok(
                ToolAnswer::Value(status_value(operation, resolution)),
            ),
            _ => Err(server_message_error(&response)),
        },
    }
}

} // verus!
