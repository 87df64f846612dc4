//! What holds of the messages of the protocol: which names, texts and numbers they may bear, what
//! each kind of message has to meet, and what is refused before anything of it is read.

use vstd::prelude::*;

use crate::json::{json_text_length, parsed_json, JsonModel};
use crate::protocol::client::{
    check_client_frame, parse_client_message, validate_client_message, ClientMessage,
};
use crate::protocol::fields::{client_fields, server_fields};
use crate::protocol::server::{
    check_server_frame, parse_server_message, validate_event_page, validate_server_message,
    validate_workspace_event, ServerMessage,
};
use crate::protocol::{
    actor_id, agent_id, bearer, external_id, is_agent_id, is_request_id, is_workspace_name,
    normalize_timeout_ms, operator_subject, request_id, shared_content, valid_actor_id,
    valid_agent_client, valid_bearer, valid_shared_content, validate_page, workspace_name,
    AgentClient, AgentSide, RouterErrorCode, WorkspaceEvent, WorkspaceName,
};
use crate::tasks::{is_positive_safe, is_safe_cursor, TaskTextVerdicts};
use crate::text::byte_length;

verus! {

/// What may stand first in a name, and what may stand behind.
pub open spec fn letter_or_digit(c: char) -> bool {
    ('a' <= c <= 'z') || ('A' <= c <= 'Z') || ('0' <= c <= '9')
}

/// Names of workspaces have one to sixty-four characters, identifiers of requests up to a hundred
/// and twenty-eight; they begin with a letter or a digit, and only an identifier holds a colon.
pub proof fn names_are_short_and_plain(value: &str, workspace: bool, request: bool, i: int)
    requires
        call_ensures(is_workspace_name, (value,), workspace),
        call_ensures(is_request_id, (value,), request),
    ensures
        workspace ==> 1 <= value@.len() <= 64,
        request ==> 1 <= value@.len() <= 128,
        value@.len() == 0 ==> !workspace && !request,
        (workspace || request) ==> letter_or_digit(value@[0]),
        workspace && 0 <= i < value@.len() ==> letter_or_digit(value@[i]) || value@[i] == '.'
            || value@[i] == '_' || value@[i] == '-',
        request && 0 <= i < value@.len() ==> letter_or_digit(value@[i]) || value@[i] == '.'
            || value@[i] == '_' || value@[i] == '-' || value@[i] == ':',
        1 <= value@.len() <= 64 && (forall|j: int|
            0 <= j < value@.len() ==> letter_or_digit(#[trigger] value@[j])) ==> workspace
            && request,
        1 <= value@.len() <= 128 && letter_or_digit(value@[0]) && (forall|j: int|
            1 <= j < value@.len() ==> #[trigger] value@[j] == ':' || value@[j] == '-' || value@[j]
                == '.' || value@[j] == '_' || letter_or_digit(value@[j])) ==> request,
{
}

/// Identifiers of agents are those of requests but for the namespaces of operators and of the
/// system, which name actors too.
pub proof fn agents_are_no_operators(value: &str, agent: bool, request: bool, actor: bool)
    requires
        call_ensures(is_agent_id, (value,), agent),
        call_ensures(is_request_id, (value,), request),
        call_ensures(valid_actor_id, (value,), actor),
    ensures
        agent <==> request && !"operator:"@.is_prefix_of(value@) && !"system:"@.is_prefix_of(
            value@,
        ),
        actor ==> 1 <= value@.len() <= 128,
        actor && !("operator:"@.is_prefix_of(value@)) && !("system:"@.is_prefix_of(value@))
            ==> agent,
{
}

/// Tokens have forty-three characters; a shared text is no empty one and has at most sixty-four
/// kibibytes, or twice as many as a JSON string.
pub proof fn tokens_and_texts_are_bounded(value: &str, token: bool, shared: bool)
    requires
        call_ensures(valid_bearer, (value,), token),
        call_ensures(valid_shared_content, (value,), shared),
    ensures
        token ==> value@.len() == 43,
        value@.len() == 43 && (forall|j: int|
            0 <= j < value@.len() ==> letter_or_digit(#[trigger] value@[j]) || value@[j] == '-'
                || value@[j] == '_') <==> token,
        shared <==> value@.len() > 0 && byte_length(value@) <= 65_536 && json_text_length(value@)
            <= 131_072,
{
    if token {
        assert forall|j: int| 0 <= j < value@.len() implies letter_or_digit(#[trigger] value@[j])
            || value@[j] == '-' || value@[j] == '_' by {}
    }
}

/// A request has a minute where nothing is said, and a millisecond to ten minutes otherwise.
pub proof fn timeouts_are_bounded(value: Option<u64>, ms: u64)
    requires
        call_ensures(normalize_timeout_ms, (value,), ms),
    ensures
        value is None ==> ms == 60_000,
        value == Some(0u64) ==> ms == 1,
        (value matches Some(own) && 1 <= own <= 600_000) ==> ms == value->0,
        (value matches Some(own) && own > 600_000) ==> ms == 600_000,
{
}

/// A page begins at a cursor that is not negative, the first where none is said, and has fifty
/// entries where nothing is said, and one to a hundred otherwise.
pub proof fn pages_are_bounded(
    after: Option<i64>,
    limit: Option<u16>,
    page: Result<(i64, u16), RouterErrorCode>,
)
    requires
        call_ensures(validate_page, (after, limit), page),
    ensures
        page is Ok <==> (after is None || after->0 >= 0) && (limit is None || 1 <= limit->0 <= 100),
        page matches Ok(own) ==> (after is None ==> own.0 == 0) && (after is Some ==> own.0
            == after->0) && (limit is None ==> own.1 == 50) && (limit is Some ==> own.1 == limit->0),
        page is Err ==> page->Err_0 is InvalidMessage,
{
}

/// Numbers of tasks and of versions are positive, and like cursors no greater than what JSON
/// readers keep exact.
pub proof fn numbers_are_kept_exact(value: i64, positive: bool, cursor: bool)
    requires
        call_ensures(is_positive_safe, (value,), positive),
        call_ensures(is_safe_cursor, (value,), cursor),
    ensures
        positive <==> 1 <= value <= 9_007_199_254_740_991,
        cursor <==> 0 <= value <= 9_007_199_254_740_991,
{
}

/// Every client is of one side.
pub proof fn clients_are_of_one_side(client: AgentClient, a: bool, b: bool, c: bool)
    requires
        call_ensures(valid_agent_client, (AgentSide::Claude, client), a),
        call_ensures(valid_agent_client, (AgentSide::Codex, client), b),
        call_ensures(valid_agent_client, (AgentSide::Generic, client), c),
    ensures
        a <==> client is ClaudeCode || client is ClaudeSdk,
        b <==> client is CodexCli || client is CodexAppServer,
        c <==> client is Omp || client is Generic,
        a || b || c,
{
}

/// A text that is no name of a workspace is refused, and a name is kept as it is.
pub proof fn workspace_names_are_kept(
    value: String,
    name: Result<WorkspaceName, RouterErrorCode>,
    spelled: &str,
    valid: bool,
)
    requires
        call_ensures(WorkspaceName::parse, (value,), name),
        spelled@ == value@,
        call_ensures(is_workspace_name, (spelled,), valid),
    ensures
        name is Ok <==> valid,
        name is Ok ==> name->Ok_0@ == value@,
        name is Err ==> name->Err_0 is InvalidMessage,
{
}

/// A message whose identifier is none is refused, whatever else it bears; those that open a
/// session, and what tells of readiness, bear none.
pub proof fn requests_bear_identifiers(
    message: ClientMessage,
    verdicts: TaskTextVerdicts,
    grants: usize,
    verdict: Result<(), RouterErrorCode>,
    id: Option<&str>,
    valid: bool,
)
    requires
        call_ensures(validate_client_message, (&message, verdicts, grants), verdict),
        call_ensures(ClientMessage::request_id, (&message,), id),
        id is Some ==> call_ensures(is_request_id, (id->0,), valid),
    ensures
        id is Some && !valid ==> verdict == Err::<(), _>(RouterErrorCode::InvalidMessage),
        verdict is Err ==> verdict->Err_0 is InvalidMessage,
        id is None <==> message is Register || message is RegisterDelegate || message
            is RegisterOperator || message is Readiness,
        (message matches ClientMessage::Ping { request_id: own }) ==> id->0@
            == message->Ping_request_id@,
        (message is Ping || message is List || message is WorkspaceCreate || message
            is WorkspaceJoin || message is WorkspaceLeave || message is WorkspaceMembers || message
            is WorkspaceUnsubscribe || message is IntegrationList || message is IntegrationCheck
            || message is IntegrationReload || message is TaskExternalStatus || message
            is RouterShutdown || message is CredentialRevoke) && valid ==> verdict is Ok,
        message is Readiness ==> verdict is Ok,
{
}

/// Who may open a session: an agent by its identifier, a token and a client of its side, a
/// delegate by its owner's, an operator by a token.
pub proof fn sessions_are_opened_in_order(
    message: ClientMessage,
    verdicts: TaskTextVerdicts,
    grants: usize,
    verdict: Result<(), RouterErrorCode>,
)
    requires
        call_ensures(validate_client_message, (&message, verdicts, grants), verdict),
    ensures
        (message matches ClientMessage::RegisterDelegate { owner_id, delegation_token, .. } && {
            agent_id(owner_id@) && bearer(delegation_token@)
        }) ==> verdict is Ok,
        (message matches ClientMessage::RegisterDelegate { owner_id, delegation_token, .. } && {
            !agent_id(owner_id@) || !bearer(delegation_token@)
        }) ==> verdict is Err,
        (message matches ClientMessage::RegisterOperator { token, .. } && bearer(token@))
            ==> verdict is Ok,
        (message matches ClientMessage::RegisterOperator { token, .. } && !bearer(token@))
            ==> verdict is Err,
        (message matches ClientMessage::Register { agent, token, delegation_token, .. } && (
        !agent_id(agent.agent_id@) || !bearer(token@) || (delegation_token is Some && !bearer(
            delegation_token->0@,
        )))) ==> verdict is Err,
        (message matches ClientMessage::Register { agent, .. } && agent.side is Codex && !(
        agent.client is CodexCli) && !(agent.client is CodexAppServer)) ==> verdict is Err,
        (message matches ClientMessage::Register { agent, .. } && (agent.activity matches Some(text)
            && byte_length(text@) > 256)) ==> verdict is Err,
        (message matches ClientMessage::Register { agent, token, delegation_token, .. }
            && agent_id(agent.agent_id@) && bearer(token@) && delegation_token is None
            && agent.side is Codex && agent.client is CodexCli && agent.activity is None)
            ==> verdict is Ok,
{
}

/// What may be sent: a shared text to an agent, in a time of the range; and an answer is either
/// a text or an error, as it says.
pub proof fn work_is_sent_in_order(
    message: ClientMessage,
    verdicts: TaskTextVerdicts,
    grants: usize,
    verdict: Result<(), RouterErrorCode>,
    id: Option<&str>,
)
    requires
        call_ensures(validate_client_message, (&message, verdicts, grants), verdict),
        call_ensures(ClientMessage::request_id, (&message,), id),
        id is Some && request_id(id->0@),
    ensures
        (message matches ClientMessage::Send { to, content, timeout_ms, .. } && agent_id(to@)
            && shared_content(content@) && (timeout_ms is None || 1 <= timeout_ms->0 <= 600_000))
            ==> verdict is Ok,
        (message matches ClientMessage::Send { to, content, timeout_ms, .. } && (!agent_id(to@)
            || !shared_content(content@) || timeout_ms == Some(0u64) || (timeout_ms is Some
            && timeout_ms->0 > 600_000))) ==> verdict is Err,
        (message matches ClientMessage::Reply { ok, content, error, .. } && ok) ==> (verdict is Ok
            <==> (message->Reply_content is Some && shared_content(message->Reply_content->0@)
            && message->Reply_error is None)),
        (message matches ClientMessage::Reply { ok, content, error, .. } && !ok) ==> (verdict is Ok
            <==> message->Reply_content is None && message->Reply_error is Some),
        (message matches ClientMessage::WorkspacePost { content, .. } && shared_content(content@))
            ==> verdict is Ok,
        (message matches ClientMessage::WorkspacePost { content, .. } && !shared_content(content@))
            ==> verdict is Err,
        (message matches ClientMessage::WorkIdle { work_request_id, task, .. } && request_id(
            work_request_id@,
        ) && task is None) ==> verdict is Ok,
        (message matches ClientMessage::WorkIdle { work_request_id, task, .. } && (!request_id(
            work_request_id@,
        ) || (task is Some && task->0.task_id < 1))) ==> verdict is Err,
        (message matches ClientMessage::TaskExecutionStopped { task_id, reason, .. } && (task_id < 1
            || reason is Paused || reason is Blocked)) ==> verdict is Err,
        (message matches ClientMessage::TaskExecutionStopped { task_id, reason, .. } && 1 <= task_id
            <= 9_007_199_254_740_991 && !(reason is Paused) && !(reason is Blocked)) ==> verdict
            is Ok,
{
}

/// For whom a credential may be issued.
pub proof fn credentials_are_issued_in_order(
    message: ClientMessage,
    verdicts: TaskTextVerdicts,
    grants: usize,
    verdict: Result<(), RouterErrorCode>,
    id: Option<&str>,
)
    requires
        call_ensures(validate_client_message, (&message, verdicts, grants), verdict),
        call_ensures(ClientMessage::request_id, (&message,), id),
        id is Some && request_id(id->0@),
    ensures
        (message matches ClientMessage::CredentialIssue { role, workspaces, .. } && role is Agent
            && workspaces@.len() == 0) ==> verdict is Err,
        (message matches ClientMessage::CredentialIssue { role, subject, .. } && role is Agent
            && !agent_id(subject@)) ==> verdict is Err,
        (message matches ClientMessage::CredentialIssue { role, agent_side, agent_client, .. }
            && role is Agent && (agent_side is None || agent_client is None)) ==> verdict is Err,
        (message matches ClientMessage::CredentialIssue { role, agent_side, agent_client, .. }
            && role is Operator && (agent_side is Some || agent_client is Some)) ==> verdict
            is Err,
        (message matches ClientMessage::CredentialIssue { role, subject, .. } && role is Operator
            && (!operator_subject(subject@) || "system:"@.is_prefix_of(subject@))) ==> verdict
            is Err,
        (message matches ClientMessage::CredentialIssue { workspaces, .. } && workspaces@.len()
            > grants) ==> verdict is Err,
        (message matches ClientMessage::CredentialIssue { workspaces, .. } && (exists|i: int, j: int|
            0 <= i < j < workspaces@.len() && (#[trigger] workspaces@[i])@ == (
            #[trigger] workspaces@[j])@)) ==> verdict is Err,
        (message matches ClientMessage::CredentialIssue {
            role,
            subject,
            agent_side,
            agent_client,
            workspaces,
            ..
        } && role is Agent && agent_id(subject@) && agent_side == Some(AgentSide::Generic)
            && agent_client == Some(AgentClient::Omp) && workspaces@.len() == 1 && grants >= 1)
            ==> verdict is Ok,
        (message matches ClientMessage::CredentialIssue {
            role,
            subject,
            agent_side,
            agent_client,
            workspaces,
            ..
        } && role is Operator && operator_subject(subject@) && !"system:"@.is_prefix_of(subject@)
            && agent_side is None && agent_client is None && workspaces@.len() == 0) ==> verdict
            is Ok,
        (message matches ClientMessage::CredentialList { limit, .. } && limit is Some && (limit->0
            < 1 || limit->0 > 100)) ==> verdict is Err,
        (message matches ClientMessage::CredentialList { limit, .. } && (limit is None || 1
            <= limit->0 <= 100)) ==> verdict is Ok,
{
}

/// What may be listed and read: from a cursor and in a number of the range, and tasks in states
/// of which none is named twice.
pub proof fn lists_are_asked_for_in_order(
    message: ClientMessage,
    verdicts: TaskTextVerdicts,
    grants: usize,
    verdict: Result<(), RouterErrorCode>,
    id: Option<&str>,
)
    requires
        call_ensures(validate_client_message, (&message, verdicts, grants), verdict),
        call_ensures(ClientMessage::request_id, (&message,), id),
        id is Some && request_id(id->0@),
    ensures
        (message matches ClientMessage::WorkspaceList { after, limit, .. } && (after is Some
            && !workspace_name(after->0@))) ==> verdict is Err,
        (message matches ClientMessage::WorkspaceList { after, limit, .. } && after is None && limit
            is None) ==> verdict is Ok,
        (message matches ClientMessage::WorkspaceHistory { after, limit, .. } && (after is Some
            && after->0 < 0 || limit == Some(0u16) || limit is Some && limit->0 > 100)) ==> verdict
            is Err,
        (message matches ClientMessage::WorkspaceHistory { after, limit, .. } && (after is None || 0
            <= after->0 <= 9_007_199_254_740_991) && (limit is None || 1 <= limit->0 <= 100))
            ==> verdict is Ok,
        (message matches ClientMessage::WorkspaceSubscribe { after, .. } && after < 0) ==> verdict
            is Err,
        (message matches ClientMessage::WorkspaceSubscribe { after, .. } && 0 <= after
            <= 9_007_199_254_740_991) ==> verdict is Ok,
        (message matches ClientMessage::TaskList { states, .. } && (states matches Some(list)
            && list@.len() == 0)) ==> verdict is Err,
        (message matches ClientMessage::TaskList { states, .. } && (states matches Some(list)
            && list@.len() == 2 && list@[0] == list@[1])) ==> verdict is Err,
        (message matches ClientMessage::TaskList { states, assigned_agent_id, after, limit, .. } && (
        states matches Some(list) && list@.len() == 1) && assigned_agent_id is None && after
            is None && limit is None) ==> verdict is Ok,
        (message matches ClientMessage::TaskList { assigned_agent_id, .. } && assigned_agent_id
            is Some && !agent_id(assigned_agent_id->0@)) ==> verdict is Err,
        (message matches ClientMessage::TaskGet { task_id, .. } && 1 <= task_id
            <= 9_007_199_254_740_991) ==> verdict is Ok,
        (message matches ClientMessage::TaskGet { task_id, .. } && task_id < 1) ==> verdict is Err,
        (message matches ClientMessage::TaskHistory { task_id, after, limit, .. } && (task_id < 1 || (
        after is Some && after->0 < 0) || limit == Some(0u16))) ==> verdict is Err,
        (message matches ClientMessage::TaskHistory { task_id, after, limit, .. } && task_id == 1
            && after is None && limit is None) ==> verdict is Ok,
{
}

/// What may be done to a task: to one that has a number, from a version, with texts that the
/// task store takes.
pub proof fn tasks_are_changed_in_order(
    message: ClientMessage,
    verdicts: TaskTextVerdicts,
    grants: usize,
    verdict: Result<(), RouterErrorCode>,
    id: Option<&str>,
)
    requires
        call_ensures(validate_client_message, (&message, verdicts, grants), verdict),
        call_ensures(ClientMessage::request_id, (&message,), id),
        id is Some && request_id(id->0@),
    ensures
        message is TaskCreate ==> (verdict is Ok <==> verdicts.title && verdicts.description),
        (message matches ClientMessage::TaskEdit { task_id, expected_version, title, description, .. }
            && title is None && description is None) ==> verdict is Err,
        (message matches ClientMessage::TaskEdit { task_id, expected_version, title, description, .. }
            && task_id == 1 && expected_version == 1 && title is Some && description is None)
            ==> (verdict is Ok <==> verdicts.title),
        (message matches ClientMessage::TaskEdit { task_id, expected_version, title, description, .. }
            && task_id == 1 && expected_version == 1 && title is None && description is Some)
            ==> (verdict is Ok <==> verdicts.description),
        (message matches ClientMessage::TaskEdit { task_id, expected_version, .. } && (task_id < 1
            || expected_version < 1)) ==> verdict is Err,
        (message matches ClientMessage::TaskAssign { task_id, expected_version, agent_id: own, .. }
            && (task_id < 1 || expected_version < 1 || (own is Some && !agent_id(own->0@))))
            ==> verdict is Err,
        (message matches ClientMessage::TaskAssign { task_id, expected_version, agent_id: own, .. }
            && task_id == 1 && expected_version == 1 && own is None) ==> verdict is Ok,
        (message matches ClientMessage::TaskNote { task_id, .. } && task_id >= 1 && task_id
            <= 9_007_199_254_740_991) ==> (verdict is Ok <==> verdicts.note),
        (message matches ClientMessage::TaskNote { task_id, .. } && task_id < 1) ==> verdict is Err,
        (message matches ClientMessage::TaskBegin { task_id, work_request_id, expected_version, .. }
            && task_id == 1 && expected_version == 1 && request_id(work_request_id@)) ==> (verdict
            is Ok <==> verdicts.handoff_note),
        (message matches ClientMessage::TaskBegin { task_id, work_request_id, expected_version, .. }
            && (task_id < 1 || expected_version < 1 || !request_id(work_request_id@))) ==> verdict
            is Err,
        (message matches ClientMessage::TaskRequest {
            task_id,
            expected_version,
            message: text,
            timeout_ms,
            ..
        } && (task_id < 1 || expected_version < 1 || (text is Some && !shared_content(text->0@))
            || timeout_ms == Some(0u64) || timeout_ms == Some(600_001u64))) ==> verdict is Err,
        (message matches ClientMessage::TaskRequest {
            task_id,
            expected_version,
            message: text,
            timeout_ms,
            ..
        } && task_id == 1 && expected_version == 1 && text is None && timeout_ms is None)
            ==> verdict is Ok,
{
}

/// An attempt is carried on with a checkpoint that the task store takes, and given up or taken up
/// again with a note that it takes.
pub proof fn attempts_are_handed_over_in_order(
    message: ClientMessage,
    verdicts: TaskTextVerdicts,
    grants: usize,
    verdict: Result<(), RouterErrorCode>,
    id: Option<&str>,
)
    requires
        call_ensures(validate_client_message, (&message, verdicts, grants), verdict),
        call_ensures(ClientMessage::request_id, (&message,), id),
        id is Some && request_id(id->0@),
    ensures
        (message matches ClientMessage::TaskCheckpoint { task_id, expected_version, .. } && task_id
            == 1 && expected_version == 1) ==> (verdict is Ok <==> verdicts.checkpoint),
        (message matches ClientMessage::TaskPause { task_id, expected_version, .. } && task_id == 1
            && expected_version == 1) ==> (verdict is Ok <==> verdicts.checkpoint),
        (message matches ClientMessage::TaskComplete { task_id, expected_version, .. } && task_id == 1
            && expected_version == 1) ==> (verdict is Ok <==> verdicts.checkpoint),
        (message matches ClientMessage::TaskCancel { task_id, expected_version, .. } && task_id == 1
            && expected_version == 1) ==> (verdict is Ok <==> verdicts.handoff_note),
        (message matches ClientMessage::TaskReopen { task_id, expected_version, .. } && task_id == 1
            && expected_version == 1) ==> (verdict is Ok <==> verdicts.handoff_note),
        (message matches ClientMessage::TaskInterrupt { task_id, expected_version, .. } && task_id
            == 1 && expected_version == 1) ==> (verdict is Ok <==> verdicts.handoff_note),
        (message matches ClientMessage::TaskConfirmStopped { task_id, expected_version, .. }
            && task_id == 1 && expected_version == 1) ==> (verdict is Ok <==> verdicts.handoff_note),
        (message matches ClientMessage::TaskCheckpoint { task_id, expected_version, .. } && (task_id
            < 1 || expected_version < 1)) ==> verdict is Err,
        (message matches ClientMessage::TaskPause { task_id, expected_version, .. } && (task_id < 1
            || expected_version < 1)) ==> verdict is Err,
        (message matches ClientMessage::TaskComplete { task_id, expected_version, .. } && (task_id < 1
            || expected_version < 1)) ==> verdict is Err,
        (message matches ClientMessage::TaskCancel { task_id, expected_version, .. } && (task_id < 1
            || expected_version < 1)) ==> verdict is Err,
        (message matches ClientMessage::TaskReopen { task_id, expected_version, .. } && (task_id < 1
            || expected_version < 1)) ==> verdict is Err,
        (message matches ClientMessage::TaskInterrupt { task_id, expected_version, .. } && (task_id
            < 1 || expected_version < 1)) ==> verdict is Err,
        (message matches ClientMessage::TaskConfirmStopped { task_id, expected_version, .. } && (
        task_id < 1 || expected_version < 1)) ==> verdict is Err,
{
}

/// What may be asked of an external tracker: a report is published by its number, an issue
/// without; what was applied is named, what was not is not.
pub proof fn trackers_are_asked_in_order(
    message: ClientMessage,
    verdicts: TaskTextVerdicts,
    grants: usize,
    verdict: Result<(), RouterErrorCode>,
    id: Option<&str>,
)
    requires
        call_ensures(validate_client_message, (&message, verdicts, grants), verdict),
        call_ensures(ClientMessage::request_id, (&message,), id),
        id is Some && request_id(id->0@),
    ensures
        (message matches ClientMessage::TaskPublish { task_id, expected_version, kind, report_id, .. }
            && task_id == 1 && expected_version == 1 && kind is Report) ==> (verdict is Ok
            <==> message->report_id is Some),
        (message matches ClientMessage::TaskPublish { task_id, expected_version, kind, report_id, .. }
            && task_id == 1 && expected_version == 1 && kind is Issue) ==> (verdict is Ok
            <==> message->report_id is None),
        (message matches ClientMessage::TaskPublish { task_id, expected_version, .. } && (task_id < 1
            || expected_version < 1)) ==> verdict is Err,
        (message matches ClientMessage::TaskImport { external_id: own, .. } && own@.len() == 0)
            ==> verdict is Err,
        (message matches ClientMessage::TaskImport { external_id: own, .. } && byte_length(own@)
            > 256) ==> verdict is Err,
        (message matches ClientMessage::TaskImport { external_id: own, .. } && own@.len() > 0
            && byte_length(own@) <= 256) ==> verdict is Ok,
        (message matches ClientMessage::TaskLink { task_id, expected_version, external_id: own, .. }
            && (task_id < 1 || expected_version < 1 || !external_id(own@))) ==> verdict is Err,
        (message matches ClientMessage::TaskLink { task_id, expected_version, external_id: own, .. }
            && task_id == 1 && expected_version == 1 && external_id(own@)) ==> verdict is Ok,
        (message matches ClientMessage::TaskExternalResolve { outcome, external_id: own, .. }
            && outcome is Applied && own is None) ==> verdict is Err,
        (message matches ClientMessage::TaskExternalResolve { outcome, external_id: own, .. }
            && outcome is NotApplied && own is Some && external_id(own->0@)) ==> verdict is Err,
        (message matches ClientMessage::TaskExternalResolve { outcome, external_id: own, .. } && (
        outcome is NotApplied && own is None || outcome is Applied && own is Some && external_id(
            own->0@,
        ))) ==> (verdict is Ok <==> verdicts.handoff_note),
{
}

/// What is refused before a frame is read: one of more than half a mebibyte for its size, one
/// that is no JSON, names no kind or opens a session of another version.
pub proof fn frames_are_refused_before_they_are_read(
    raw: &str,
    client: Result<(), RouterErrorCode>,
    server: Result<(), RouterErrorCode>,
    value: JsonModel,
    kind: Seq<char>,
)
    requires
        call_ensures(check_client_frame, (raw,), client),
        call_ensures(check_server_frame, (raw,), server),
    ensures
        byte_length(raw@) > 524_288 ==> client == Err::<(), _>(RouterErrorCode::MessageTooLarge)
            && server == client,
        byte_length(raw@) <= 524_288 && parsed_json(vstd::utf8::encode_utf8(raw@)) is None
            ==> client == Err::<(), _>(RouterErrorCode::InvalidMessage) && server == client,
        byte_length(raw@) <= 524_288 && parsed_json(vstd::utf8::encode_utf8(raw@)) == Some(value)
            && value.text_at("type"@) is None ==> client == Err::<(), _>(
            RouterErrorCode::InvalidMessage,
        ) && server == client,
        byte_length(raw@) <= 524_288 && parsed_json(vstd::utf8::encode_utf8(raw@)) == Some(value)
            && value.text_at("type"@) == Some(kind) && (kind == "register"@ || kind
            == "register_delegate"@ || kind == "register_operator"@) && value.at(
            "protocolVersion"@,
        ).unsigned() != Some(2u64) ==> client == Err::<(), _>(RouterErrorCode::ProtocolMismatch),
        byte_length(raw@) <= 524_288 && parsed_json(vstd::utf8::encode_utf8(raw@)) == Some(value)
            && value.text_at("type"@) == Some(kind) && (kind == "registered"@ || kind
            == "registered_operator"@) && value.at("protocolVersion"@).unsigned() != Some(2u64)
            ==> server == Err::<(), _>(RouterErrorCode::ProtocolMismatch),
        byte_length(raw@) <= 524_288 && parsed_json(vstd::utf8::encode_utf8(raw@)) == Some(value)
            && value.text_at("type"@) == Some(kind) && client_fields(kind) is None ==> client
            is Err,
        byte_length(raw@) <= 524_288 && parsed_json(vstd::utf8::encode_utf8(raw@)) == Some(value)
            && value.text_at("type"@) == Some(kind) && server_fields(kind) is None ==> server
            is Err,
{
}

/// A frame's message is the one that its fields make, where the frame and the message are in
/// order.
pub proof fn frames_are_read_as_their_message(
    raw: &str,
    frame: Result<(), RouterErrorCode>,
    own: ClientMessage,
    verdicts: TaskTextVerdicts,
    grants: usize,
    verdict: Result<(), RouterErrorCode>,
    message: Result<ClientMessage, RouterErrorCode>,
    none: Result<ClientMessage, RouterErrorCode>,
)
    requires
        call_ensures(check_client_frame, (raw,), frame),
        call_ensures(validate_client_message, (&own, verdicts, grants), verdict),
        call_ensures(parse_client_message, (raw, Some(own), verdicts, grants), message),
        call_ensures(parse_client_message, (raw, None, verdicts, grants), none),
    ensures
        frame is Err ==> message == Err::<ClientMessage, _>(frame->Err_0),
        frame is Ok && verdict is Err ==> message == Err::<ClientMessage, _>(
            RouterErrorCode::InvalidMessage,
        ),
        frame is Ok && verdict is Ok ==> message == Ok::<_, RouterErrorCode>(own),
        frame is Ok ==> none == Err::<ClientMessage, _>(RouterErrorCode::InvalidMessage),
{
}

/// The same holds of the router's frames.
pub proof fn answers_are_read_as_their_message(
    raw: &str,
    frame: Result<(), RouterErrorCode>,
    own: ServerMessage,
    titles: &[bool],
    credential: bool,
    verdict: Result<(), RouterErrorCode>,
    message: Result<ServerMessage, RouterErrorCode>,
    none: Result<ServerMessage, RouterErrorCode>,
)
    requires
        call_ensures(check_server_frame, (raw,), frame),
        call_ensures(validate_server_message, (&own, titles, credential), verdict),
        call_ensures(parse_server_message, (raw, Some(own), titles, credential), message),
        call_ensures(parse_server_message, (raw, None, titles, credential), none),
    ensures
        frame is Err ==> message == Err::<ServerMessage, _>(frame->Err_0),
        frame is Ok && verdict is Err ==> message == Err::<ServerMessage, _>(
            RouterErrorCode::InvalidMessage,
        ),
        frame is Ok && verdict is Ok ==> message == Ok::<_, RouterErrorCode>(own),
        frame is Ok ==> none == Err::<ServerMessage, _>(RouterErrorCode::InvalidMessage),
{
}

/// Which events of a workspace there are, and which pages of them.
pub proof fn events_are_in_order(
    event: WorkspaceEvent,
    verdict: Result<(), RouterErrorCode>,
    events: Vec<WorkspaceEvent>,
    cursor: i64,
    page: Result<(), RouterErrorCode>,
    i: int,
)
    requires
        call_ensures(validate_workspace_event, (&event,), verdict),
        call_ensures(validate_event_page, (&events, cursor), page),
        0 <= i < events@.len(),
        events@[i] == event,
    ensures
        event.seq < 1 || event.created_at < 0 || !actor_id(event.actor_id@) || (event.request_id
            is Some && !request_id(event.request_id->0@)) || (event.task_id is Some
            && event.task_id->0 < 1) || (event.content is Some && byte_length(event.content->0@)
            > 65_536) ==> verdict is Err,
        1 <= event.seq <= 9_007_199_254_740_991 && 0 <= event.created_at <= 9_007_199_254_740_991
            && actor_id(event.actor_id@) && event.request_id is None && event.task_id is None
            && event.content is None ==> verdict is Ok,
        verdict is Err ==> verdict->Err_0 is InvalidMessage && page is Err,
        cursor < 0 ==> page is Err,
        page is Err ==> page->Err_0 is InvalidMessage,
{
}

/// What the router's messages have to meet: an answer bears the identifier of a request, a
/// session is confirmed under the same version, and every number is of its range.
pub proof fn answers_are_in_order(
    message: ServerMessage,
    titles: &[bool],
    credential: bool,
    verdict: Result<(), RouterErrorCode>,
    id: Option<&str>,
)
    requires
        call_ensures(validate_server_message, (&message, titles, credential), verdict),
        call_ensures(ServerMessage::request_id, (&message,), id),
    ensures
        verdict is Err ==> verdict->Err_0 is InvalidMessage,
        id is Some && !request_id(id->0@) ==> verdict is Err,
        message is Registered || message is RegisteredOperator || message is Deliver || message
            is CancelWork || message is TaskAttemptChanged || message is WorkspaceChanged || message
            is WorkspaceEvent ==> id is None,
        message is Pong || message is Accepted || message is Result || message is Task || message
            is TaskMutated || message is RouterStopping || message is WorkspaceHistory ==> id
            is Some,
        (message matches ServerMessage::Registered { protocol_version, .. } && protocol_version
            != 2) ==> verdict is Err,
        (message matches ServerMessage::Registered { agent, .. } && !agent_id(agent.agent_id@))
            ==> verdict is Err,
        (message matches ServerMessage::Registered { cursor, .. } && cursor < 0) ==> verdict
            is Err,
        (message matches ServerMessage::RegisteredOperator { protocol_version, subject, cursor, .. }
            && (protocol_version != 2 || !operator_subject(subject@) || cursor < 0)) ==> verdict
            is Err,
        (message matches ServerMessage::RegisteredOperator { protocol_version, subject, cursor, .. }
            && protocol_version == 2 && operator_subject(subject@) && cursor == 0) ==> verdict
            is Ok,
        (message matches ServerMessage::Deliver { request_id: own, from, content, timeout_ms, task, .. }
            && (!request_id(own@) || !actor_id(from@) || !shared_content(content@) || timeout_ms < 1
            || timeout_ms > 600_000 || (task is Some && (task->0.id < 1 || task->0.expected_version
            < 1)))) ==> verdict is Err,
        (message matches ServerMessage::Deliver { request_id: own, from, content, timeout_ms, task, .. }
            && request_id(own@) && actor_id(from@) && shared_content(content@) && 1 <= timeout_ms
            <= 600_000 && task is None) ==> verdict is Ok,
        (message matches ServerMessage::CancelWork { request_id: own, task, .. } && (!request_id(
            own@,
        ) || (task is Some && task->0.task_id < 1))) ==> verdict is Err,
        (message matches ServerMessage::CancelWork { request_id: own, task, .. } && request_id(own@)
            && task is None) ==> verdict is Ok,
        message is CredentialIssued && !credential ==> verdict is Err,
        message is CredentialIssued && credential && request_id(id->0@) ==> verdict is Ok,
        message is Pong && request_id(id->0@) ==> verdict is Ok,
        (message matches ServerMessage::Error { current_version, .. } && current_version is Some
            && current_version->0 < 1) ==> verdict is Err,
        (message matches ServerMessage::WorkspacePosted { seq, .. } && seq < 1) ==> verdict is Err,
        (message matches ServerMessage::WorkspaceJoined { cursor, .. } && cursor < 0) ==> verdict
            is Err,
        (message matches ServerMessage::WorkspaceChanged { cursor, .. }) ==> (verdict is Ok <==> 0
            <= message->WorkspaceChanged_cursor <= 9_007_199_254_740_991),
{
}

/// The result of work is a text or an error, as it says, and from one who acts.
pub proof fn results_say_what_they_are(
    message: ServerMessage,
    titles: &[bool],
    credential: bool,
    verdict: Result<(), RouterErrorCode>,
    id: Option<&str>,
)
    requires
        call_ensures(validate_server_message, (&message, titles, credential), verdict),
        call_ensures(ServerMessage::request_id, (&message,), id),
        id is Some && request_id(id->0@),
    ensures
        (message matches ServerMessage::Result { ok, content, error, task_id, from, .. } && ok
            && actor_id(from@) && task_id is None) ==> (verdict is Ok <==> message->Result_content
            is Some && shared_content(message->Result_content->0@) && message->error is None),
        (message matches ServerMessage::Result { ok, content, error, task_id, from, .. } && !ok
            && actor_id(from@) && task_id is None) ==> (verdict is Ok <==> message->Result_content
            is None && message->error is Some),
        (message matches ServerMessage::Result { from, task_id, .. } && (!actor_id(from@) || (task_id
            is Some && task_id->0 < 1))) ==> verdict is Err,
        (message matches ServerMessage::Task { task, .. } && (task.summary.id < 1
            || task.summary.version < 1 || task.summary.created_at < 0 || task.summary.updated_at < 0
            || titles@.len() == 0)) ==> verdict is Err,
        (message matches ServerMessage::Task { task, .. } && 1 <= task.summary.id
            <= 9_007_199_254_740_991 && 1 <= task.summary.version <= 9_007_199_254_740_991
            && task.summary.created_at >= 0 && task.summary.updated_at >= 0 && workspace_name(
            task.summary.workspace@,
        ) && task.summary.assigned_agent_id is None && titles@.len() == 1) ==> (verdict is Ok
            <==> titles@[0]),
        (message matches ServerMessage::TaskHistory { page, .. } && (page.task_id < 1
            || page.next_cursor < 0)) ==> verdict is Err,
        (message matches ServerMessage::TaskHistory { page, .. } && page.events@.len() >= 2
            && page.events@[0].seq >= page.events@[1].seq) ==> verdict is Err,
        (message matches ServerMessage::TaskHistory { page, .. } && page.events@.len() >= 1 && (
        page.events@[0].seq > page.next_cursor || page.events@[0].event.task.id != page.task_id
            || page.events@[0].event.task.workspace@ != page.workspace@)) ==> verdict is Err,
        (message matches ServerMessage::TaskHistory { page, .. } && page.events@.len() >= 1 && (
        page.events@[0].seq < 1 || page.events@[0].created_at < 0
            || page.events@[0].event.task.version < 1 || page.events@[0].event.task.created_at < 0
            || page.events@[0].event.task.updated_at < 0 || !actor_id(
            page.events@[0].actor_id@,
        ))) ==> verdict is Err,
        (message matches ServerMessage::Credentials { credentials, .. } && credentials@.len() >= 1 && (
        credentials@[0].created_at < 0 || (credentials@[0].revoked_at is Some
            && credentials@[0].revoked_at->0 < credentials@[0].created_at))) ==> verdict is Err,
{
    if let ServerMessage::TaskHistory { page, .. } = message {
        if page.events@.len() >= 1 && verdict is Ok {
            assert(crate::protocol::server::history_event_ok(page, titles@, 0));
        }
    }
}

} // verus!
