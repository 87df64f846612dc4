//! What holds of the tools: who is offered which, under which name, and how a call is refused or
//! answered.

use vstd::prelude::*;

use crate::json::{encoded_json, Json, JsonModel};
use crate::mcp::args::McpCall;
use crate::mcp::catalog::{
    catalog, enabled_tool_names, get_tool, tool_visible, validate_tool_call, wait_time, CatalogError,
    ToolEntry,
};
use crate::mcp::notify::{
    check_notification_frame, ClaudeChannelNotification, McpNotificationSink, Notification,
    NotificationError,
};
use crate::mcp::output::{
    bounded_tool_error, bounded_tool_result, catalog_error, check_frame, output_error, OutputError,
    RpcError, ToolResult,
};
use crate::mcp::{
    experimental_capability, instructions, HintClass, McpRole, ToolHints, RULES_TEXT,
};
use crate::text::{kebab_case, respelled, u64_of};

verus! {

/// Every role is offered the same twenty-seven tools first; behind them the one that pulls its
/// work may wait for it, and every one but a delegate may answer.
pub proof fn roles_are_offered_their_tools(
    role: McpRole,
    tools: Vec<ToolEntry>,
    delegate: Vec<ToolEntry>,
    i: int,
)
    requires
        call_ensures(catalog, (role,), tools),
        call_ensures(catalog, (McpRole::Delegate,), delegate),
    ensures
        delegate@.len() == 27,
        role is CodexCli ==> tools@.len() == 29 && tools@[27].name@ == "agent_wait"@
            && tools@[28].name@ == "agent_reply"@,
        role is ClaudeChannel || role is Omp ==> tools@.len() == 28 && tools@[27].name@
            == "agent_reply"@,
        0 <= i < 27 ==> tools@[i].name@ == delegate@[i].name@ && tools@[i].description@
            == delegate@[i].description@ && tools@[i].hints == delegate@[i].hints,
{
    use_models(role, tools);
    use_models(McpRole::Delegate, delegate);
}

/// The tools are those of the catalog, entry by entry.
proof fn use_models(role: McpRole, tools: Vec<ToolEntry>)
    requires
        call_ensures(catalog, (role,), tools),
    ensures
        tools@.len() == crate::mcp::catalog::catalog_models(role).len(),
        forall|i: int|
            0 <= i < tools@.len() ==> (#[trigger] tools@[i]).model()
                == crate::mcp::catalog::catalog_models(role)[i],
{
    assert forall|i: int| 0 <= i < tools@.len() implies (#[trigger] tools@[i]).model()
        == crate::mcp::catalog::catalog_models(role)[i] by {
        assert(crate::mcp::catalog::tool_models(tools@)[i] == tools@[i].model());
    }
}

/// What reads is hinted to read only, what adds to add, what takes away to take away, and what
/// reaches a tracker to reach beyond.
pub proof fn tools_are_hinted_by_what_they_do(tools: Vec<ToolEntry>)
    requires
        call_ensures(catalog, (McpRole::CodexCli,), tools),
    ensures
        tools@[0].name@ == "agent_list"@ && tools@[0].hints is ReadOnly,
        tools@[1].name@ == "agent_send"@ && tools@[1].hints is Additive,
        tools@[2].name@ == "workspace_list"@ && tools@[2].hints is ReadOnly,
        tools@[3].name@ == "workspace_join"@ && tools@[3].hints is Additive,
        tools@[4].name@ == "workspace_leave"@ && tools@[4].hints is Destructive,
        tools@[5].name@ == "workspace_members"@ && tools@[5].hints is ReadOnly,
        tools@[6].name@ == "workspace_post"@ && tools@[6].hints is Additive,
        tools@[7].name@ == "workspace_history"@ && tools@[7].hints is ReadOnly,
        tools@[8].name@ == "task_list"@ && tools@[8].hints is ReadOnly,
        tools@[9].name@ == "task_get"@ && tools@[9].hints is ReadOnly,
        tools@[10].name@ == "task_history"@ && tools@[10].hints is ReadOnly,
        tools@[11].name@ == "task_create"@ && tools@[11].hints is Additive,
        tools@[12].name@ == "task_edit"@ && tools@[12].hints is Destructive,
        tools@[13].name@ == "task_assign"@ && tools@[13].hints is Destructive,
        tools@[14].name@ == "task_note"@ && tools@[14].hints is Additive,
        tools@[15].name@ == "task_begin"@ && tools@[15].hints is Destructive,
        tools@[16].name@ == "task_checkpoint"@ && tools@[16].hints is Additive,
        tools@[17].name@ == "task_pause"@ && tools@[17].hints is Destructive,
        tools@[18].name@ == "task_complete"@ && tools@[18].hints is Destructive,
        tools@[19].name@ == "task_cancel"@ && tools@[19].hints is Destructive,
        tools@[20].name@ == "task_reopen"@ && tools@[20].hints is Destructive,
        tools@[21].name@ == "task_request"@ && tools@[21].hints is OpenWorldAdditive,
        tools@[22].name@ == "integration_list"@ && tools@[22].hints is ReadOnly,
        tools@[23].name@ == "task_import"@ && tools@[23].hints is OpenWorldAdditive,
        tools@[24].name@ == "task_link"@ && tools@[24].hints is OpenWorldDestructive,
        tools@[25].name@ == "task_publish"@ && tools@[25].hints is OpenWorldAdditive,
        tools@[26].name@ == "task_external_status"@ && tools@[26].hints is ReadOnly,
        tools@[27].hints is Additive && tools@[28].hints is Additive,
{
    use_models(McpRole::CodexCli, tools);
    let models = crate::mcp::catalog::catalog_models(McpRole::CodexCli);
    assert forall|k: int| 0 <= k < 29 implies (#[trigger] tools@[k]).name@ == models[k].name
        && tools@[k].hints == models[k].hints by {
        assert(tools@[k].model() == models[k]);
    }
}

/// What a hint stands for.
pub proof fn hints_stand_for_what_is_done(class: HintClass, hints: ToolHints)
    requires
        call_ensures(HintClass::hints, (class,), hints),
    ensures
        hints.read_only <==> class is ReadOnly,
        hints.idempotent <==> hints.read_only,
        hints.destructive <==> class is Destructive || class is OpenWorldDestructive,
        hints.open_world <==> class is OpenWorldAdditive || class is OpenWorldDestructive,
        !(hints.read_only && (hints.destructive || hints.open_world)),
{
}

/// A role's client knows its tools by their names, and in a channel by names of the server's own.
pub proof fn tools_are_known_by_name(
    role: McpRole,
    tools: Vec<ToolEntry>,
    names: Vec<String>,
    i: int,
    name: &str,
    visible: bool,
    tool: Option<ToolEntry>,
)
    requires
        call_ensures(catalog, (role,), tools),
        call_ensures(enabled_tool_names, (role,), names),
        0 <= i < tools@.len(),
        name@ == tools@[i].name@,
        call_ensures(tool_visible, (role, name), visible),
        call_ensures(get_tool, (role, name), tool),
    ensures
        names@.len() == tools@.len(),
        role is ClaudeChannel ==> names@[i]@ == "mcp__agent_session_router__"@ + tools@[i].name@,
        !(role is ClaudeChannel) ==> names@[i]@ == tools@[i].name@,
        visible,
        tool is Some && tool->0.name@ == name@,
{
    use_models(role, tools);
    assert(tools@[i].model() == crate::mcp::catalog::catalog_models(role)[i]);
    assert(crate::mcp::catalog::catalog_models(role)[i].name == name@);
}

/// A call is made where the role is offered its tool and it is that tool's; a wait has a
/// millisecond to a minute, half a minute where nothing is said.
pub proof fn calls_are_of_their_tool(
    role: McpRole,
    name: &str,
    call: McpCall,
    made: Result<McpCall, CatalogError>,
    undecoded: Result<McpCall, CatalogError>,
    visible: bool,
    own: &'static str,
    wait: u64,
)
    requires
        call_ensures(validate_tool_call, (role, name, Some(call)), made),
        call_ensures(validate_tool_call, (role, name, None), undecoded),
        call_ensures(tool_visible, (role, name), visible),
        call_ensures(McpCall::name, (&call,), own),
        call matches McpCall::AgentWait(args) ==> call_ensures(wait_time, (args.wait_ms,), wait),
    ensures
        !visible ==> made == Err::<McpCall, _>(CatalogError::ToolNotAvailable),
        visible ==> undecoded == Err::<McpCall, _>(CatalogError::InvalidArguments),
        visible && own@ != name@ ==> made == Err::<McpCall, _>(CatalogError::InvalidArguments),
        visible && own@ == name@ && !(call is AgentWait) ==> made == Ok::<_, CatalogError>(call),
        visible && own@ == name@ && call is AgentWait && 1 <= wait <= 60_000 ==> made == Ok::<
            _,
            CatalogError,
        >(call),
        visible && own@ == name@ && call is AgentWait && !(1 <= wait <= 60_000) ==> made == Err::<
            McpCall,
            _,
        >(CatalogError::InvalidWait),
        (call matches McpCall::AgentWait(args) && args.wait_ms is None) ==> wait == 30_000,
        (call matches McpCall::AgentWait(args) && args.wait_ms is Some) ==> Some(wait)
            == call->AgentWait_0.wait_ms,
{
}

/// The name of a call's tool.
pub proof fn calls_name_their_tool(call: McpCall, own: &'static str)
    requires
        call_ensures(McpCall::name, (&call,), own),
    ensures
        call is AgentList ==> own@ == "agent_list"@,
        call is AgentSend ==> own@ == "agent_send"@,
        call is WorkspaceList ==> own@ == "workspace_list"@,
        call is WorkspaceJoin ==> own@ == "workspace_join"@,
        call is WorkspaceLeave ==> own@ == "workspace_leave"@,
        call is WorkspaceMembers ==> own@ == "workspace_members"@,
        call is WorkspacePost ==> own@ == "workspace_post"@,
        call is WorkspaceHistory ==> own@ == "workspace_history"@,
        call is TaskList ==> own@ == "task_list"@,
        call is TaskGet ==> own@ == "task_get"@,
        call is TaskHistory ==> own@ == "task_history"@,
        call is TaskCreate ==> own@ == "task_create"@,
        call is TaskEdit ==> own@ == "task_edit"@,
        call is TaskAssign ==> own@ == "task_assign"@,
        call is TaskNote ==> own@ == "task_note"@,
        call is TaskBegin ==> own@ == "task_begin"@,
        call is TaskCheckpoint ==> own@ == "task_checkpoint"@,
        call is TaskPause ==> own@ == "task_pause"@,
        call is TaskComplete ==> own@ == "task_complete"@,
        call is TaskCancel ==> own@ == "task_cancel"@,
        call is TaskReopen ==> own@ == "task_reopen"@,
        call is TaskRequest ==> own@ == "task_request"@,
        call is IntegrationList ==> own@ == "integration_list"@,
        call is TaskImport ==> own@ == "task_import"@,
        call is TaskLink ==> own@ == "task_link"@,
        call is TaskPublish ==> own@ == "task_publish"@,
        call is TaskExternalStatus ==> own@ == "task_external_status"@,
        call is AgentWait ==> own@ == "agent_wait"@,
        call is AgentReply ==> own@ == "agent_reply"@,
{
}

/// Answers fit into a frame of a mebibyte; a result leaves a kibibyte of it.
pub proof fn answers_fit_into_a_frame(
    bytes: Option<&Vec<u8>>,
    checked: Result<(), OutputError>,
    note: Result<(), NotificationError>,
    name: &str,
    value: Json,
    result: Result<ToolResult, OutputError>,
    code: &str,
    failure: Result<ToolResult, OutputError>,
)
    requires
        call_ensures(check_frame, (bytes,), checked),
        call_ensures(check_notification_frame, (bytes,), note),
        call_ensures(bounded_tool_result, (name, value), result),
        call_ensures(bounded_tool_error, (code,), failure),
    ensures
        bytes is None ==> checked == Err::<(), _>(OutputError::EncodeFailed) && note == Err::<
            (),
            _,
        >(NotificationError::InvalidPayload),
        (bytes matches Some(own) && own@.len() > 1_048_576) ==> checked == Err::<(), _>(
            OutputError::TooLarge,
        ) && note == Err::<(), _>(NotificationError::TooLarge),
        (bytes matches Some(own) && own@.len() <= 1_048_576) ==> checked is Ok && note is Ok,
        encoded_json(value.model()).len() > 1_047_552 ==> result == Err::<ToolResult, _>(
            OutputError::TooLarge,
        ),
        result matches Ok(own) ==> own.text@ == name@ + " succeeded"@ && own.structured == value
            && !own.is_error,
        failure matches Ok(own) ==> own.text@ == "tool failed: "@ + code@ && own.is_error,
        failure matches Ok(own) ==> own.structured.model() is Object
            && own.structured.model()->Object_0.len() == 2
            && own.structured.model()->Object_0[0] == ("ok"@, JsonModel::Bool(false))
            && own.structured.model()->Object_0[1] == ("error"@, JsonModel::Text(code@)),
{
}

/// How a refused call, and an answer that cannot be given, are reported.
pub proof fn refusals_are_reported(
    error: CatalogError,
    rpc: RpcError,
    output: OutputError,
    internal: RpcError,
)
    requires
        call_ensures(catalog_error, (error,), rpc),
        call_ensures(output_error, (output,), internal),
    ensures
        error is ToolNotAvailable ==> rpc.kind is MethodNotFound && rpc.message@
            == "tool_not_available"@,
        error is InvalidArguments ==> rpc.kind is InvalidParams && rpc.message@
            == "invalid_tool_arguments"@,
        error is InvalidWait ==> rpc.kind is InvalidParams && rpc.message@ == "invalid_wait_ms"@,
        internal.kind is Internal,
        output is EncodeFailed ==> internal.message@ == "result_encode_failed"@,
        output is TooLarge ==> internal.message@ == "result_too_large"@,
{
    assert(rpc.model().message == rpc.message@);
    assert(internal.model().message == internal.message@);
}

/// Work is pushed into a channel only where there is one, with its request, its sender and its
/// time.
pub proof fn work_is_pushed_into_channels(
    sink: McpNotificationSink,
    note: ClaudeChannelNotification,
    sent: Result<Notification, NotificationError>,
)
    requires
        call_ensures(McpNotificationSink::send_claude, (&sink, note), sent),
    ensures
        !(sink.role is ClaudeChannel) ==> sent == Err::<Notification, _>(
            NotificationError::WrongRole,
        ),
        sink.role is ClaudeChannel && (note.meta.request_id@.len() == 0 || note.meta.from@.len()
            == 0 || u64_of(note.meta.timeout_ms@) is None || u64_of(note.meta.timeout_ms@) == Some(
            0u64,
        )) ==> sent == Err::<Notification, _>(NotificationError::InvalidPayload),
        sent matches Ok(own) ==> own.method@ == respelled("notifications_claude_channel"@, '/'),
        sent matches Ok(own) ==> own.params.model() is Object
            && own.params.model()->Object_0.len() == 2 && own.params.model()->Object_0[0] == (
            "content"@,
            JsonModel::Text(note.content@),
        ) && own.params.model()->Object_0[1].0 == "meta"@
            && own.params.model()->Object_0[1].1->Object_0[0] == (
            "request_id"@,
            JsonModel::Text(note.meta.request_id@),
        ) && own.params.model()->Object_0[1].1->Object_0[1] == (
            "from"@,
            JsonModel::Text(note.meta.from@),
        ) && own.params.model()->Object_0[1].1->Object_0[2] == (
            "timeout_ms"@,
            JsonModel::Text(note.meta.timeout_ms@),
        ),
{
}

/// How a role introduces itself, and which alone declares a channel.
pub proof fn roles_introduce_themselves(
    role: McpRole,
    name: String,
    agent_id: &str,
    text: String,
    capability: Option<String>,
)
    requires
        call_ensures(McpRole::as_str, (role,), name),
        call_ensures(instructions, (role, agent_id), text),
        call_ensures(experimental_capability, (role,), capability),
    ensures
        role is Delegate ==> name@ == "delegate"@,
        role is CodexCli ==> name@ == "codex-cli"@,
        role is ClaudeChannel ==> name@ == kebab_case("claude_channel"@),
        role is Omp ==> name@ == "omp"@,
        text@ == "Role: "@ + name@ + ". Agent: "@ + agent_id@ + RULES_TEXT@,
        capability is Some <==> role is ClaudeChannel,
        capability is Some ==> capability->0@ == respelled("claude_channel"@, '/'),
{
}

} // verus!
