//! The notifications that the server and its host exchange.

use vstd::prelude::*;

use crate::ids::Uuid;
use crate::json::{
    field, integer, integer_model, member_models, object, to_value, uuid_model, uuid_value, Json,
    JsonModel, Member,
};
use crate::mcp::{McpRole, MCP_MAX_FRAME_BYTES};
use crate::text::{concat, parse_u64, respell, respelled, same_text, u64_of};

verus! {

/// What the methods of the notifications between the server and its host begin with.
pub const OMP_NOTIFICATION_PREFIX: &'static str = "notifications/agent_session_router/";

#[derive(Debug, PartialEq)]
pub struct ClaudeChannelMeta {
    pub request_id: String,
    pub from: String,
    pub timeout_ms: String,
}

/// Work, as it is pushed into a channel.
#[derive(Debug, PartialEq)]
pub struct ClaudeChannelNotification {
    pub content: String,
    pub meta: ClaudeChannelMeta,
}

#[derive(Clone, Copy, Debug, PartialEq, Eq, Structural)]
pub struct OmpHostState {
    pub v: u8,
    pub ready: bool,
}

#[derive(Clone, Copy, Debug, PartialEq, Eq, Structural)]
pub enum OmpWorkFinishedError {
    SessionBusy,
    ReplyMissing,
}

#[derive(Debug, PartialEq)]
pub struct OmpWorkFinished {
    pub v: u8,
    pub request_id: String,
    pub error: OmpWorkFinishedError,
}

#[derive(Clone, Copy, Debug, PartialEq, Eq, Structural)]
pub enum OmpTerminalReason {
    TurnEnded,
    SessionEnded,
    HostError,
}

#[derive(Debug, PartialEq)]
pub struct OmpTaskTerminal {
    pub v: u8,
    pub workspace: String,
    pub task_id: i64,
    pub attempt_id: Uuid,
    pub session_id: Uuid,
    pub reason: OmpTerminalReason,
}

#[derive(Debug, PartialEq)]
pub struct OmpConsumed {
    pub v: u8,
    pub workspace: String,
    pub cursor: i64,
}

/// What the host tells the server.
#[derive(Debug, PartialEq)]
pub enum OmpHostNotification {
    HostState(OmpHostState),
    WorkFinished(OmpWorkFinished),
    TaskTerminal(OmpTaskTerminal),
    Consumed(OmpConsumed),
}

#[derive(Clone, Copy, Debug, PartialEq, Eq, Structural)]
pub enum NotificationError {
    WrongRole,
    UnknownMethod,
    InvalidPayload,
    TooLarge,
    Closed,
}

/// The text of such a fault.
pub open spec fn notification_error_text(error: NotificationError) -> Seq<char> {
    match error {
        NotificationError::WrongRole => "notification_wrong_role"@,
        NotificationError::UnknownMethod => "notification_unknown_method"@,
        NotificationError::InvalidPayload => "invalid_notification_payload"@,
        NotificationError::TooLarge => "notification_too_large"@,
        NotificationError::Closed => "notification_channel_closed"@,
    }
}

impl NotificationError {
    pub fn as_str(self) -> (text: &'static str)
        ensures
            text@ == notification_error_text(self),
    {
        match self {
            NotificationError::WrongRole => "notification_wrong_role",
            NotificationError::UnknownMethod => "notification_unknown_method",
            NotificationError::InvalidPayload => "invalid_notification_payload",
            NotificationError::TooLarge => "notification_too_large",
            NotificationError::Closed => "notification_channel_closed",
        }
    }
}

impl OmpHostNotification {
    /// The method that a notification travels under.
    pub open spec fn method_text(self) -> Seq<char> {
        match self {
            OmpHostNotification::HostState(_) => "notifications/agent_session_router/host_state"@,
            OmpHostNotification::WorkFinished(_) => {
                "notifications/agent_session_router/work_finished"@
            },
            OmpHostNotification::TaskTerminal(_) => {
                "notifications/agent_session_router/task_terminal"@
            },
            OmpHostNotification::Consumed(_) => "notifications/agent_session_router/consumed"@,
        }
    }

    /// The rules for what a notification of the host holds: it is of version one, names a
    /// request or a workspace where it speaks of one, and counts as tasks and cursors do.
    pub open spec fn valid(self) -> bool {
        match self {
            OmpHostNotification::HostState(value) => value.v == 1,
            OmpHostNotification::WorkFinished(value) => value.v == 1 && value.request_id@.len() > 0,
            OmpHostNotification::TaskTerminal(value) => value.v == 1 && value.workspace@.len() > 0
                && value.task_id > 0,
            OmpHostNotification::Consumed(value) => value.v == 1 && value.workspace@.len() > 0
                && value.cursor >= 0,
        }
    }

    pub fn method(&self) -> (method: &'static str)
        ensures
            method@ == self.method_text(),
    {
        match self {
            OmpHostNotification::HostState(_) => "notifications/agent_session_router/host_state",
            OmpHostNotification::WorkFinished(_) => {
                "notifications/agent_session_router/work_finished"
            },
            OmpHostNotification::TaskTerminal(_) => {
                "notifications/agent_session_router/task_terminal"
            },
            OmpHostNotification::Consumed(_) => "notifications/agent_session_router/consumed",
        }
    }
}

fn valid_omp_host_notification(notification: &OmpHostNotification) -> (valid: bool)
    ensures
        valid == notification.valid(),
{
    match notification {
        OmpHostNotification::HostState(value) => value.v == 1,
        OmpHostNotification::WorkFinished(value) => value.v == 1 && !is_empty(
            value.request_id.as_str(),
        ),
        OmpHostNotification::TaskTerminal(value) => value.v == 1 && !is_empty(
            value.workspace.as_str(),
        ) && value.task_id > 0,
        OmpHostNotification::Consumed(value) => value.v == 1 && !is_empty(value.workspace.as_str())
            && value.cursor >= 0,
    }
}

fn is_empty(text: &str) -> (empty: bool)
    ensures
        empty == (text@.len() == 0),
{
    text.unicode_len() == 0
}

/// Whether a method is one that the host may use.
pub open spec fn host_method(method: Seq<char>) -> bool {
    ||| method == "notifications/agent_session_router/host_state"@
    ||| method == "notifications/agent_session_router/work_finished"@
    ||| method == "notifications/agent_session_router/task_terminal"@
    ||| method == "notifications/agent_session_router/consumed"@
}

/// Why a notification of the host is refused.
pub open spec fn host_notification_fault(
    method: Seq<char>,
    has_params: bool,
    decoded: Option<OmpHostNotification>,
) -> Option<NotificationError> {
    if !has_params {
        Some(NotificationError::InvalidPayload)
    } else if !host_method(method) {
        Some(NotificationError::UnknownMethod)
    } else {
        match decoded {
            None => Some(NotificationError::InvalidPayload),
            Some(decoded) => if decoded.method_text() == method && decoded.valid() {
                None
            } else {
                Some(NotificationError::InvalidPayload)
            },
        }
    }
}

/// What the host tells. `decoded` is what the notification's parameters are as those of
/// its method, if they are any; parameters of another method count as none.
pub fn parse_omp_host_notification(
    method: &str,
    has_params: bool,
    decoded: Option<OmpHostNotification>,
) -> (notification: Result<OmpHostNotification, NotificationError>)
    ensures
        match host_notification_fault(method@, has_params, decoded) {
            Some(fault) => notification == Err::<OmpHostNotification, NotificationError>(fault),
            None => decoded is Some && notification == Ok::<OmpHostNotification, NotificationError>(
                decoded->0,
            ),
        },
{
    if !has_params {
        return Err(NotificationError::InvalidPayload);
    }
    let known = same_text(method, "notifications/agent_session_router/host_state") || same_text(
        method,
        "notifications/agent_session_router/work_finished",
    ) || same_text(method, "notifications/agent_session_router/task_terminal") || same_text(
        method,
        "notifications/agent_session_router/consumed",
    );
    if !known {
        return Err(NotificationError::UnknownMethod);
    }
    match decoded {
        None => Err(NotificationError::InvalidPayload),
        Some(decoded) => {
            if !same_text(decoded.method(), method) || !valid_omp_host_notification(&decoded) {
                return Err(NotificationError::InvalidPayload);
            }
            Ok(decoded)
        },
    }
}

#[derive(Clone, Copy, Debug, PartialEq, Eq, Structural)]
pub struct OmpWorkTask {
    pub id: i64,
    pub expected_version: i64,
}

#[derive(Clone, Copy, Debug, PartialEq, Eq, Structural)]
pub struct OmpTaskRef {
    pub task_id: i64,
    pub attempt_id: Uuid,
}

#[derive(Clone, Copy, Debug, PartialEq, Eq, Structural)]
pub struct OmpAttemptRef {
    pub id: Uuid,
    pub session_id: Uuid,
}

/// What the server tells the host.
#[derive(Debug, PartialEq)]
#[allow(inconsistent_fields)]
pub enum OmpServerNotification {
    Work {
        workspace: String,
        request_id: String,
        from: String,
        content: String,
        timeout_ms: u64,
        task: Option<OmpWorkTask>,
    },
    Unread {
        workspace: String,
        cursor: i64,
        count: u32,
    },
    Cancel {
        workspace: String,
        request_id: String,
        task: Option<OmpTaskRef>,
    },
    TaskAttempt {
        workspace: String,
        task_id: i64,
        attempt: Option<OmpAttemptRef>,
        closed_attempt_id: Option<Uuid>,
    },
}

/// A notification as it is sent.
#[derive(Debug, PartialEq)]
pub struct Notification {
    pub method: String,
    pub params: Json,
}

/// The member of an object that is left out where there is no value.
pub open spec fn optional_member(key: Seq<char>, value: Option<JsonModel>) -> Seq<
    (Seq<char>, JsonModel),
> {
    match value {
        Some(value) => seq![(key, value)],
        None => Seq::empty(),
    }
}

/// A value that is null where there is none.
pub open spec fn or_null(value: Option<JsonModel>) -> JsonModel {
    match value {
        Some(value) => value,
        None => JsonModel::Null,
    }
}

impl OmpWorkTask {
    pub open spec fn model(self) -> JsonModel {
        JsonModel::Object(
            seq![
                ("id"@, integer_model(self.id)),
                ("expectedVersion"@, integer_model(self.expected_version)),
            ],
        )
    }

    fn value(self) -> (value: Json)
        ensures
            value.model() == self.model(),
    {
        let value = object(
            vec![
                field("id", integer(self.id)),
                field("expectedVersion", integer(self.expected_version)),
            ],
        );
        assert(value.model()->Object_0 =~= self.model()->Object_0);
        value
    }
}

impl OmpTaskRef {
    pub open spec fn model(self) -> JsonModel {
        JsonModel::Object(
            seq![
                ("taskId"@, integer_model(self.task_id)),
                ("attemptId"@, uuid_model(self.attempt_id)),
            ],
        )
    }

    fn value(self) -> (value: Json)
        ensures
            value.model() == self.model(),
    {
        let value = object(
            vec![
                field("taskId", integer(self.task_id)),
                field("attemptId", uuid_value(self.attempt_id)),
            ],
        );
        assert(value.model()->Object_0 =~= self.model()->Object_0);
        value
    }
}

impl OmpAttemptRef {
    pub open spec fn model(self) -> JsonModel {
        JsonModel::Object(
            seq![("id"@, uuid_model(self.id)), ("sessionId"@, uuid_model(self.session_id))],
        )
    }

    fn value(self) -> (value: Json)
        ensures
            value.model() == self.model(),
    {
        let value = object(
            vec![field("id", uuid_value(self.id)), field("sessionId", uuid_value(self.session_id))],
        );
        assert(value.model()->Object_0 =~= self.model()->Object_0);
        value
    }
}

impl OmpServerNotification {
    /// The last part of the method that a notification travels under.
    pub open spec fn suffix(self) -> Seq<char> {
        match self {
            OmpServerNotification::Work { .. } => "work"@,
            OmpServerNotification::Unread { .. } => "unread"@,
            OmpServerNotification::Cancel { .. } => "cancel"@,
            OmpServerNotification::TaskAttempt { .. } => "task_attempt"@,
        }
    }

    /// The rules for what a notification of the server holds.
    pub open spec fn valid(self) -> bool {
        match self {
            OmpServerNotification::Work { workspace, request_id, from, timeout_ms, task, .. } => {
                &&& workspace@.len() > 0
                &&& request_id@.len() > 0
                &&& from@.len() > 0
                &&& timeout_ms > 0
                &&& task matches Some(task) ==> task.id > 0 && task.expected_version > 0
            },
            OmpServerNotification::Unread { workspace, cursor, .. } => {
                &&& workspace@.len() > 0
                &&& cursor >= 0
            },
            OmpServerNotification::Cancel { workspace, request_id, task } => {
                &&& workspace@.len() > 0
                &&& request_id@.len() > 0
                &&& task matches Some(task) ==> task.task_id > 0
            },
            OmpServerNotification::TaskAttempt { workspace, task_id, .. } => {
                &&& workspace@.len() > 0
                &&& task_id > 0
            },
        }
    }

    /// The members of a notification's parameters.
    pub open spec fn params(self) -> Seq<(Seq<char>, JsonModel)> {
        match self {
            OmpServerNotification::Work {
                workspace,
                request_id,
                from,
                content,
                timeout_ms,
                task,
            } => seq![
                ("v"@, JsonModel::Unsigned(1)),
                ("workspace"@, JsonModel::Text(workspace@)),
                ("requestId"@, JsonModel::Text(request_id@)),
                ("from"@, JsonModel::Text(from@)),
                ("content"@, JsonModel::Text(content@)),
                ("timeoutMs"@, JsonModel::Unsigned(timeout_ms)),
            ] + optional_member(
                "task"@,
                match task {
                    Some(task) => Some(task.model()),
                    None => None,
                },
            ),
            OmpServerNotification::Unread { workspace, cursor, count } => seq![
                ("v"@, JsonModel::Unsigned(1)),
                ("workspace"@, JsonModel::Text(workspace@)),
                ("cursor"@, integer_model(cursor)),
                ("count"@, JsonModel::Unsigned(count as u64)),
            ],
            OmpServerNotification::Cancel { workspace, request_id, task } => seq![
                ("v"@, JsonModel::Unsigned(1)),
                ("workspace"@, JsonModel::Text(workspace@)),
                ("requestId"@, JsonModel::Text(request_id@)),
            ] + optional_member(
                "task"@,
                match task {
                    Some(task) => Some(task.model()),
                    None => None,
                },
            ),
            OmpServerNotification::TaskAttempt {
                workspace,
                task_id,
                attempt,
                closed_attempt_id,
            } => seq![
                ("v"@, JsonModel::Unsigned(1)),
                ("workspace"@, JsonModel::Text(workspace@)),
                ("taskId"@, integer_model(task_id)),
                (
                    "attempt"@,
                    or_null(
                        match attempt {
                            Some(attempt) => Some(attempt.model()),
                            None => None,
                        },
                    ),
                ),
                (
                    "closedAttemptId"@,
                    or_null(
                        match closed_attempt_id {
                            Some(id) => Some(uuid_model(id)),
                            None => None,
                        },
                    ),
                ),
            ],
        }
    }
}

/// The JSON text of the notification of a method with parameters.
pub uninterp spec fn encoded_notification(method: Seq<char>, params: JsonModel) -> Option<Seq<u8>>;

/// `rmcp::model::CustomNotification::new` as a server's notification, as
/// `serde_json::to_vec` writes it: a function of the method and the parameters alone.
#[verifier::external_body]
fn encode_notification(method: &str, params: &Json) -> (bytes: Option<Vec<u8>>)
    ensures
        (match bytes {
            Some(bytes) => Some(bytes@),
            None => None,
        }) == encoded_notification(method@, params.model()),
{
    let custom = rmcp::model::CustomNotification::new(method, Some(to_value(params)));
    serde_json::to_vec(&rmcp::model::ServerNotification::CustomNotification(custom)).ok()
}

/// Why a notification cannot be sent, from its bytes.
pub open spec fn notification_frame_fault(bytes: Option<Seq<u8>>) -> Option<NotificationError> {
    match bytes {
        None => Some(NotificationError::InvalidPayload),
        Some(bytes) => if bytes.len() > MCP_MAX_FRAME_BYTES {
            Some(NotificationError::TooLarge)
        } else {
            None
        },
    }
}

/// Whether a result is the notification of a method with parameters, where that can be
/// sent, and why not where it cannot.
pub open spec fn bounded(
    method: Seq<char>,
    params: JsonModel,
    result: Result<Notification, NotificationError>,
) -> bool {
    match notification_frame_fault(encoded_notification(method, params)) {
        Some(fault) => result == Err::<Notification, NotificationError>(fault),
        None => result matches Ok(sent) && sent.method@ == method && sent.params.model() == params,
    }
}

/// Whether a notification can be sent, from its bytes.
pub fn check_notification_frame(bytes: Option<&Vec<u8>>) -> (checked: Result<(), NotificationError>)
    ensures
        checked == (match notification_frame_fault(
            match bytes {
                Some(bytes) => Some(bytes@),
                None => None,
            },
        ) {
            Some(fault) => Err::<(), NotificationError>(fault),
            None => Ok(()),
        }),
{
    match bytes {
        None => Err(NotificationError::InvalidPayload),
        Some(bytes) => if bytes.len() > MCP_MAX_FRAME_BYTES {
            Err(NotificationError::TooLarge)
        } else {
            Ok(())
        },
    }
}

fn bounded_notification(method: String, params: Json) -> (result: Result<
    Notification,
    NotificationError,
>)
    ensures
        bounded(method@, params.model(), result),
{
    let bytes = encode_notification(method.as_str(), &params);
    match check_notification_frame(bytes.as_ref()) {
        Err(fault) => Err(fault),
        Ok(()) => Ok(Notification { method, params }),
    }
}

impl OmpServerNotification {
    fn check(&self) -> (valid: bool)
        ensures
            valid == self.valid(),
    {
        match self {
            OmpServerNotification::Work { workspace, request_id, from, timeout_ms, task, .. } => {
                !is_empty(workspace.as_str()) && !is_empty(request_id.as_str()) && !is_empty(
                    from.as_str(),
                ) && *timeout_ms > 0 && match task {
                    Some(task) => task.id > 0 && task.expected_version > 0,
                    None => true,
                }
            },
            OmpServerNotification::Unread { workspace, cursor, .. } => !is_empty(workspace.as_str())
                && *cursor >= 0,
            OmpServerNotification::Cancel { workspace, request_id, task } => !is_empty(
                workspace.as_str(),
            ) && !is_empty(request_id.as_str()) && match task {
                Some(task) => task.task_id > 0,
                None => true,
            },
            OmpServerNotification::TaskAttempt { workspace, task_id, .. } => !is_empty(
                workspace.as_str(),
            ) && *task_id > 0,
        }
    }

    fn members(&self) -> (members: Vec<Member>)
        ensures
            member_models(members@) == self.params(),
    {
        match self {
            OmpServerNotification::Work {
                workspace,
                request_id,
                from,
                content,
                timeout_ms,
                task,
            } => {
                let mut members = vec![
                    field("v", Json::Unsigned(1)),
                    field("workspace", Json::of_text(workspace.as_str())),
                    field("requestId", Json::of_text(request_id.as_str())),
                    field("from", Json::of_text(from.as_str())),
                    field("content", Json::of_text(content.as_str())),
                    field("timeoutMs", Json::Unsigned(*timeout_ms)),
                ];
                if let Some(task) = task {
                    members.push(field("task", task.value()));
                }
                assert(member_models(members@) =~= self.params());
                members
            },
            OmpServerNotification::Unread { workspace, cursor, count } => {
                let members = vec![
                    field("v", Json::Unsigned(1)),
                    field("workspace", Json::of_text(workspace.as_str())),
                    field("cursor", integer(*cursor)),
                    field("count", Json::Unsigned(*count as u64)),
                ];
                assert(member_models(members@) =~= self.params());
                members
            },
            OmpServerNotification::Cancel { workspace, request_id, task } => {
                let mut members = vec![
                    field("v", Json::Unsigned(1)),
                    field("workspace", Json::of_text(workspace.as_str())),
                    field("requestId", Json::of_text(request_id.as_str())),
                ];
                if let Some(task) = task {
                    members.push(field("task", task.value()));
                }
                assert(member_models(members@) =~= self.params());
                members
            },
            OmpServerNotification::TaskAttempt {
                workspace,
                task_id,
                attempt,
                closed_attempt_id,
            } => {
                let attempt = match attempt {
                    Some(attempt) => attempt.value(),
                    None => Json::Null,
                };
                let closed = match closed_attempt_id {
                    Some(id) => uuid_value(*id),
                    None => Json::Null,
                };
                let members = vec![
                    field("v", Json::Unsigned(1)),
                    field("workspace", Json::of_text(workspace.as_str())),
                    field("taskId", integer(*task_id)),
                    field("attempt", attempt),
                    field("closedAttemptId", closed),
                ];
                assert(member_models(members@) =~= self.params());
                members
            },
        }
    }

    fn suffix_text(&self) -> (text: &'static str)
        ensures
            text@ == self.suffix(),
    {
        match self {
            OmpServerNotification::Work { .. } => "work",
            OmpServerNotification::Unread { .. } => "unread",
            OmpServerNotification::Cancel { .. } => "cancel",
            OmpServerNotification::TaskAttempt { .. } => "task_attempt",
        }
    }

    /// The notification as it is sent.
    pub fn into_notification(self) -> (result: Result<Notification, NotificationError>)
        ensures
            if !self.valid() {
                result == Err::<Notification, NotificationError>(NotificationError::InvalidPayload)
            } else {
                bounded(
                    OMP_NOTIFICATION_PREFIX@ + self.suffix(),
                    JsonModel::Object(self.params()),
                    result,
                )
            },
    {
        if !self.check() {
            return Err(NotificationError::InvalidPayload);
        }
        let method = concat(OMP_NOTIFICATION_PREFIX, self.suffix_text());
        bounded_notification(method, object(self.members()))
    }
}

impl ClaudeChannelNotification {
    /// Work that is pushed names its request and its sender, and its time is a positive
    /// number.
    pub open spec fn valid(self) -> bool {
        &&& self.meta.request_id@.len() > 0
        &&& self.meta.from@.len() > 0
        &&& u64_of(self.meta.timeout_ms@) matches Some(timeout) && timeout > 0
    }

    pub open spec fn params(self) -> JsonModel {
        JsonModel::Object(
            seq![
                ("content"@, JsonModel::Text(self.content@)),
                (
                    "meta"@,
                    JsonModel::Object(
                        seq![
                            ("request_id"@, JsonModel::Text(self.meta.request_id@)),
                            ("from"@, JsonModel::Text(self.meta.from@)),
                            ("timeout_ms"@, JsonModel::Text(self.meta.timeout_ms@)),
                        ],
                    ),
                ),
            ],
        )
    }

    fn value(&self) -> (value: Json)
        ensures
            value.model() == self.params(),
    {
        let meta = object(
            vec![
                field("request_id", Json::of_text(self.meta.request_id.as_str())),
                field("from", Json::of_text(self.meta.from.as_str())),
                field("timeout_ms", Json::of_text(self.meta.timeout_ms.as_str())),
            ],
        );
        assert(meta.model()->Object_0 =~= self.params()->Object_0[1].1->Object_0);
        let value = object(
            vec![field("content", Json::of_text(self.content.as_str())), field("meta", meta)],
        );
        assert(value.model()->Object_0 =~= self.params()->Object_0);
        value
    }
}

/// The method under which work is pushed into a channel.
pub open spec fn channel_method() -> Seq<char> {
    respelled("notifications_claude_channel"@, '/')
}

/// Where the server's notifications go: only to the client of the role that knows them.
#[derive(Clone, Copy, PartialEq, Eq, Structural)]
pub struct McpNotificationSink {
    pub role: McpRole,
}

impl McpNotificationSink {
    pub fn new(role: McpRole) -> (sink: McpNotificationSink)
        ensures
            sink.role == role,
    {
        McpNotificationSink { role }
    }

    pub fn role(&self) -> (role: McpRole)
        ensures
            role == self.role,
    {
        self.role
    }

    /// The notification that pushes work into a channel.
    pub fn send_claude(&self, notification: ClaudeChannelNotification) -> (result: Result<
        Notification,
        NotificationError,
    >)
        ensures
            if !(self.role is ClaudeChannel) {
                result == Err::<Notification, NotificationError>(NotificationError::WrongRole)
            } else if !notification.valid() {
                result == Err::<Notification, NotificationError>(NotificationError::InvalidPayload)
            } else {
                bounded(channel_method(), notification.params(), result)
            },
    {
        if self.role != McpRole::ClaudeChannel {
            return Err(NotificationError::WrongRole);
        }
        let timed = match parse_u64(notification.meta.timeout_ms.as_str()) {
            Some(timeout) => timeout > 0,
            None => false,
        };
        if is_empty(notification.meta.request_id.as_str()) || is_empty(
            notification.meta.from.as_str(),
        ) || !timed {
            return Err(NotificationError::InvalidPayload);
        }
        bounded_notification(respell("notifications_claude_channel", '/'), notification.value())
    }

    /// The notification that tells the host something.
    pub fn send_omp(&self, notification: OmpServerNotification) -> (result: Result<
        Notification,
        NotificationError,
    >)
        ensures
            if !(self.role is Omp) {
                result == Err::<Notification, NotificationError>(NotificationError::WrongRole)
            } else if !notification.valid() {
                result == Err::<Notification, NotificationError>(NotificationError::InvalidPayload)
            } else {
                bounded(
                    OMP_NOTIFICATION_PREFIX@ + notification.suffix(),
                    JsonModel::Object(notification.params()),
                    result,
                )
            },
    {
        if self.role != McpRole::Omp {
            return Err(NotificationError::WrongRole);
        }
        notification.into_notification()
    }
}

} // verus!
