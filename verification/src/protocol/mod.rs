//! The messages between sessions and the router: names, limits and error codes.

pub mod client;
pub mod codes;
pub mod field_laws;
pub mod fields;
pub mod laws;
pub mod message_laws;
pub mod server;

pub use codes::{code_text, RouterErrorCode};
use vstd::prelude::*;
use vstd::string::*;
use vstd::utf8::*;

use crate::ids::Uuid;
use crate::json::{encode_text, json_text_length, Json};
use crate::tasks::{TaskAttempt, TaskEvent};
use crate::text::{all_printable, alphanumeric, byte_len, byte_length, copy_option, no_control, opt_text, starts_with};

verus! {

broadcast use {vstd::string::group_string_axioms, vstd::utf8::is_ascii_chars_encode_utf8};

pub const PROTOCOL_VERSION: u8 = 2;

pub const DEFAULT_REQUEST_TIMEOUT_MS: u64 = 60_000;

pub const MAX_REQUEST_TIMEOUT_MS: u64 = 600_000;

pub const MAX_SHARED_CONTENT_BYTES: usize = 65_536;

pub const MAX_JSON_STRING_BYTES: usize = 131_072;

pub const MAX_WEBSOCKET_MESSAGE_BYTES: usize = 524_288;

pub const MAX_RESPONSE_BYTES: usize = 262_144;

pub const MAX_ERROR_BYTES: usize = 256;

pub const MAX_MCP_FRAME_BYTES: usize = 1_048_576;

pub const MAX_WORKSPACE_NAME_BYTES: usize = 64;

pub const MAX_AGENT_ID_BYTES: usize = 128;

pub const DEFAULT_PAGE_LIMIT: u16 = 50;

pub const MAX_PAGE_LIMIT: u16 = 100;

/// The longest subject of an operator credential.
pub const MAX_OPERATOR_SUBJECT_BYTES: usize = 119;

/// The length of a bearer token.
pub const BEARER_BYTES: usize = 43;

/// What may stand in a name: ASCII letters and digits anywhere; `.`, `_` and `-`, and
/// where wanted `:`, anywhere but first.
pub open spec fn name_chars(value: Seq<char>, colon: bool) -> bool {
    forall|i: int|
        0 <= i < value.len() ==> (alphanumeric(#[trigger] value[i]) || (i > 0 && (value[i] == '.'
            || value[i] == '_' || value[i] == '-' || (colon && value[i] == ':'))))
}

/// A workspace name.
pub open spec fn workspace_name(value: Seq<char>) -> bool {
    &&& 1 <= value.len() <= MAX_WORKSPACE_NAME_BYTES
    &&& name_chars(value, false)
}

/// A request identifier.
pub open spec fn request_id(value: Seq<char>) -> bool {
    &&& 1 <= value.len() <= MAX_AGENT_ID_BYTES
    &&& name_chars(value, true)
}

/// An identifier of the namespaces that agents cannot take.
pub open spec fn reserved_id(value: Seq<char>) -> bool {
    "operator:"@.is_prefix_of(value) || "system:"@.is_prefix_of(value)
}

/// An agent identifier.
pub open spec fn agent_id(value: Seq<char>) -> bool {
    request_id(value) && !reserved_id(value)
}

/// The identifier of whoever acted: an agent, an operator or the system.
pub open spec fn actor_id(value: Seq<char>) -> bool {
    &&& reserved_id(value) || agent_id(value)
    &&& 1 <= value.len() <= MAX_AGENT_ID_BYTES
    &&& is_ascii_chars(value)
}

/// A bearer token: 43 characters of the URL-safe base64 alphabet.
pub open spec fn bearer(value: Seq<char>) -> bool {
    &&& value.len() == BEARER_BYTES
    &&& forall|i: int|
        0 <= i < value.len() ==> (alphanumeric(#[trigger] value[i]) || value[i] == '-' || value[i]
            == '_')
}

/// A text that sessions may share: not empty, and within the limits on its own length and
/// on its length as a JSON string.
pub open spec fn shared_content(value: Seq<char>) -> bool {
    &&& value.len() > 0
    &&& byte_length(value) <= MAX_SHARED_CONTENT_BYTES
    &&& json_text_length(value) <= MAX_JSON_STRING_BYTES
}

/// What a session says that it is doing: short and without control characters.
pub open spec fn activity_text(value: Seq<char>) -> bool {
    byte_length(value) <= MAX_ERROR_BYTES && no_control(value)
}

/// An external identifier: not empty and short.
pub open spec fn external_id(value: Seq<char>) -> bool {
    value.len() > 0 && byte_length(value) <= MAX_ERROR_BYTES
}

/// An operator's subject.
pub open spec fn operator_subject(value: Seq<char>) -> bool {
    1 <= value.len() <= MAX_OPERATOR_SUBJECT_BYTES && is_ascii_chars(value)
}

pub open spec fn timeout_in_range(value: Option<u64>) -> bool {
    value matches Some(ms) ==> 1 <= ms <= MAX_REQUEST_TIMEOUT_MS
}

pub open spec fn limit_in_range(value: Option<u16>) -> bool {
    value matches Some(limit) ==> 1 <= limit <= MAX_PAGE_LIMIT
}

pub open spec fn cursor_in_range(value: Option<i64>) -> bool {
    value matches Some(cursor) ==> crate::tasks::safe_cursor(cursor)
}

/// Whether a text is an ASCII name of 1 to `max` characters.
fn is_name(value: &str, max: usize, colon: bool) -> (yes: bool)
    ensures
        yes == (1 <= value@.len() <= max && name_chars(value@, colon)),
{
    if !value.is_ascii() {
        proof {
            if name_chars(value@, colon) {
                assert forall|i: int| 0 <= i < value@.len() implies '\0' <= #[trigger] value@[i]
                    <= '\u{7f}' by {}
            }
        }
        return false;
    }
    let bytes = value.as_bytes();
    if bytes.len() == 0 || bytes.len() > max {
        return false;
    }
    let mut i: usize = 0;
    while i < bytes.len()
        invariant
            i <= bytes.len(),
            bytes@.len() == value@.len(),
            is_ascii_chars(value@),
            forall|j: int| 0 <= j < bytes@.len() ==> bytes@[j] == #[trigger] value@[j] as u8,
            forall|j: int|
                0 <= j < i ==> (alphanumeric(#[trigger] value@[j]) || (j > 0 && (value@[j] == '.'
                    || value@[j] == '_' || value@[j] == '-' || (colon && value@[j] == ':')))),
        decreases bytes.len() - i,
    {
        let byte = bytes[i];
        assert(byte == value@[i as int] as u8);
        let plain = (48 <= byte && byte <= 57) || (65 <= byte && byte <= 90) || (97 <= byte && byte
            <= 122);
        let mark = i > 0 && (byte == 46 || byte == 95 || byte == 45 || (colon && byte == 58));
        if !plain && !mark {
            return false;
        }
        i += 1;
    }
    true
}

/// Whether a text is a workspace name.
pub fn is_workspace_name(value: &str) -> (yes: bool)
    ensures
        yes == workspace_name(value@),
{
    is_name(value, MAX_WORKSPACE_NAME_BYTES, false)
}

/// Whether a text is a request identifier.
pub fn is_request_id(value: &str) -> (yes: bool)
    ensures
        yes == request_id(value@),
{
    is_name(value, MAX_AGENT_ID_BYTES, true)
}

fn is_reserved_id(value: &str) -> (yes: bool)
    ensures
        yes == reserved_id(value@),
{
    starts_with(value, "operator:") || starts_with(value, "system:")
}

/// Whether a text is an agent identifier.
pub fn is_agent_id(value: &str) -> (yes: bool)
    ensures
        yes == agent_id(value@),
{
    is_request_id(value) && !is_reserved_id(value)
}

/// Whether a text names whoever acted.
pub fn valid_actor_id(value: &str) -> (yes: bool)
    ensures
        yes == actor_id(value@),
{
    (is_reserved_id(value) || is_agent_id(value)) && value.is_ascii() && byte_len(value) > 0
        && byte_len(value) <= MAX_AGENT_ID_BYTES
}

/// Whether a text is a bearer token.
pub fn valid_bearer(value: &str) -> (yes: bool)
    ensures
        yes == bearer(value@),
{
    if !value.is_ascii() {
        proof {
            if bearer(value@) {
                assert forall|i: int| 0 <= i < value@.len() implies '\0' <= #[trigger] value@[i]
                    <= '\u{7f}' by {}
            }
        }
        return false;
    }
    let bytes = value.as_bytes();
    if bytes.len() != BEARER_BYTES {
        return false;
    }
    let mut i: usize = 0;
    while i < bytes.len()
        invariant
            i <= bytes.len(),
            bytes@.len() == value@.len(),
            is_ascii_chars(value@),
            forall|j: int| 0 <= j < bytes@.len() ==> bytes@[j] == #[trigger] value@[j] as u8,
            forall|j: int|
                0 <= j < i ==> (alphanumeric(#[trigger] value@[j]) || value@[j] == '-' || value@[j]
                    == '_'),
        decreases bytes.len() - i,
    {
        let byte = bytes[i];
        assert(byte == value@[i as int] as u8);
        if !((48 <= byte && byte <= 57) || (65 <= byte && byte <= 90) || (97 <= byte && byte <= 122)
            || byte == 45 || byte == 95) {
            return false;
        }
        i += 1;
    }
    true
}

/// Whether a text may be shared.
pub fn valid_shared_content(value: &str) -> (yes: bool)
    ensures
        yes == shared_content(value@),
{
    !value.is_empty() && byte_len(value) <= MAX_SHARED_CONTENT_BYTES && byte_len(
        encode_text(value).as_str(),
    ) <= MAX_JSON_STRING_BYTES
}

pub(crate) fn valid_activity(value: &Option<String>) -> (yes: bool)
    ensures
        yes == (opt_text(*value) matches Some(text) ==> activity_text(text)),
{
    match value {
        Some(text) => byte_len(text.as_str()) <= MAX_ERROR_BYTES && all_printable(text.as_str()),
        None => true,
    }
}

pub(crate) fn valid_external_id(value: &str) -> (yes: bool)
    ensures
        yes == external_id(value@),
{
    !value.is_empty() && byte_len(value) <= MAX_ERROR_BYTES
}

pub(crate) fn valid_operator_subject(value: &str) -> (yes: bool)
    ensures
        yes == operator_subject(value@),
{
    value.is_ascii() && byte_len(value) > 0 && byte_len(value) <= MAX_OPERATOR_SUBJECT_BYTES
}

pub(crate) fn valid_timeout(value: Option<u64>) -> (yes: bool)
    ensures
        yes == timeout_in_range(value),
{
    match value {
        Some(ms) => 1 <= ms && ms <= MAX_REQUEST_TIMEOUT_MS,
        None => true,
    }
}

pub(crate) fn valid_limit(value: Option<u16>) -> (yes: bool)
    ensures
        yes == limit_in_range(value),
{
    match value {
        Some(limit) => 1 <= limit && limit <= MAX_PAGE_LIMIT,
        None => true,
    }
}

pub(crate) fn valid_cursor(value: Option<i64>) -> (yes: bool)
    ensures
        yes == cursor_in_range(value),
{
    match value {
        Some(cursor) => crate::tasks::is_safe_cursor(cursor),
        None => true,
    }
}

/// The time that a request may take: the default where none is given, and never outside
/// the permitted range.
pub open spec fn normalized_timeout(value: Option<u64>) -> u64 {
    match value {
        None => DEFAULT_REQUEST_TIMEOUT_MS,
        Some(given) => if given < 1 {
            1
        } else if given > MAX_REQUEST_TIMEOUT_MS {
            MAX_REQUEST_TIMEOUT_MS
        } else {
            given
        },
    }
}

/// The time that a request may take.
pub fn normalize_timeout_ms(value: Option<u64>) -> (ms: u64)
    ensures
        ms == normalized_timeout(value),
        timeout_in_range(Some(ms)),
        value is Some && timeout_in_range(value) ==> Some(ms) == value,
{
    match value {
        None => DEFAULT_REQUEST_TIMEOUT_MS,
        Some(given) => if given < 1 {
            1
        } else if given > MAX_REQUEST_TIMEOUT_MS {
            MAX_REQUEST_TIMEOUT_MS
        } else {
            given
        },
    }
}

/// The page that a request asks for, with the defaults filled in.
pub fn validate_page(after: Option<i64>, limit: Option<u16>) -> (page: Result<
    (i64, u16),
    RouterErrorCode,
>)
    ensures
        ({
            let from = match after {
                Some(cursor) => cursor,
                None => 0,
            };
            let size = match limit {
                Some(size) => size,
                None => DEFAULT_PAGE_LIMIT,
            };
            page == if from < 0 || !(1 <= size <= MAX_PAGE_LIMIT) {
                Err::<(i64, u16), RouterErrorCode>(RouterErrorCode::InvalidMessage)
            } else {
                Ok((from, size))
            }
        }),
{
    let from: i64 = match after {
        Some(cursor) => cursor,
        None => 0,
    };
    let size: u16 = match limit {
        Some(size) => size,
        None => DEFAULT_PAGE_LIMIT,
    };
    if from < 0 || !(1 <= size && size <= MAX_PAGE_LIMIT) {
        return Err(RouterErrorCode::InvalidMessage);
    }
    Ok((from, size))
}

/// A workspace name that has been checked.
#[derive(Debug, PartialEq, Eq)]
pub struct WorkspaceName(String);

impl View for WorkspaceName {
    type V = Seq<char>;

    closed spec fn view(&self) -> Seq<char> {
        self.0@
    }
}

impl WorkspaceName {
    #[verifier::type_invariant]
    spec fn checked(self) -> bool {
        workspace_name(self.0@)
    }

    /// The name that a text is, if it is one.
    pub fn parse(value: String) -> (name: Result<WorkspaceName, RouterErrorCode>)
        ensures
            match name {
                Ok(name) => workspace_name(value@) && name@ == value@,
                Err(code) => !workspace_name(value@) && code == RouterErrorCode::InvalidMessage,
            },
    {
        if is_workspace_name(value.as_str()) {
            Ok(WorkspaceName(value))
        } else {
            Err(RouterErrorCode::InvalidMessage)
        }
    }

    pub fn as_str(&self) -> (text: &str)
        ensures
            text@ == self@,
            workspace_name(text@),
    {
        proof {
            use_type_invariant(self);
        }
        self.0.as_str()
    }

    pub fn into_string(self) -> (text: String)
        ensures
            text@ == self@,
            workspace_name(text@),
    {
        proof {
            use_type_invariant(&self);
        }
        self.0
    }

    /// Another copy of this name.
    pub fn copy(&self) -> (name: WorkspaceName)
        ensures
            name@ == self@,
    {
        proof {
            use_type_invariant(self);
        }
        WorkspaceName(self.0.clone())
    }

    /// Whether two names are the same.
    pub fn same(&self, other: &WorkspaceName) -> (same: bool)
        ensures
            same == (self@ == other@),
    {
        crate::text::same_text(self.0.as_str(), other.0.as_str())
    }
}

/// The text of an optional name.
pub open spec fn opt_name(value: Option<WorkspaceName>) -> Option<Seq<char>> {
    match value {
        Some(name) => Some(name@),
        None => None,
    }
}

/// The texts of a list of names.
pub open spec fn names(list: Seq<WorkspaceName>) -> Seq<Seq<char>> {
    Seq::new(list.len(), |i: int| list[i]@)
}

/// Another copy of a list of names.
pub fn copy_names(list: &Vec<WorkspaceName>) -> (copy: Vec<WorkspaceName>)
    ensures
        names(copy@) == names(list@),
{
    let mut copy: Vec<WorkspaceName> = Vec::new();
    let mut i: usize = 0;
    while i < list.len()
        invariant
            i <= list@.len(),
            copy@.len() == i,
            forall|j: int| 0 <= j < i ==> #[trigger] copy@[j]@ == list@[j]@,
        decreases list.len() - i,
    {
        copy.push(list[i].copy());
        i += 1;
    }
    assert(names(copy@) =~= names(list@));
    copy
}

/// Another copy of an optional name.
pub fn copy_name(value: &Option<WorkspaceName>) -> (copy: Option<WorkspaceName>)
    ensures
        opt_name(copy) == opt_name(*value),
{
    match value {
        Some(name) => Some(name.copy()),
        None => None,
    }
}

/// Whether an optional name is the given one.
pub fn is_named(value: &Option<WorkspaceName>, name: &WorkspaceName) -> (yes: bool)
    ensures
        yes == (opt_name(*value) == Some(name@)),
{
    match value {
        Some(value) => value.same(name),
        None => false,
    }
}

/// Whether two lists of names are the same.
pub fn equal_names(a: &Vec<WorkspaceName>, b: &Vec<WorkspaceName>) -> (same: bool)
    ensures
        same == (names(a@) == names(b@)),
{
    if a.len() != b.len() {
        assert(names(a@).len() != names(b@).len());
        return false;
    }
    let mut i: usize = 0;
    while i < a.len()
        invariant
            i <= a@.len(),
            a@.len() == b@.len(),
            forall|j: int| 0 <= j < i ==> (#[trigger] a@[j])@ == b@[j]@,
        decreases a.len() - i,
    {
        if !a[i].same(&b[i]) {
            assert(names(a@)[i as int] != names(b@)[i as int]);
            return false;
        }
        i += 1;
    }
    assert(names(a@) =~= names(b@));
    true
}

/// Whether two optional names are the same.
pub fn same_names(a: &Option<WorkspaceName>, b: &Option<WorkspaceName>) -> (same: bool)
    ensures
        same == (opt_name(*a) == opt_name(*b)),
{
    match (a, b) {
        (Some(a), Some(b)) => a.same(b),
        (None, None) => true,
        _ => false,
    }
}

#[derive(Clone, Copy, Debug, PartialEq, Eq, Structural)]
pub enum AgentSide {
    Claude,
    Codex,
    Generic,
}

#[derive(Clone, Copy, Debug, PartialEq, Eq, Structural)]
pub enum AgentClient {
    Omp,
    ClaudeCode,
    ClaudeSdk,
    CodexCli,
    CodexAppServer,
    Generic,
}

#[derive(Clone, Copy, Debug, PartialEq, Eq, Structural)]
pub enum AgentStatus {
    Idle,
    Busy,
}

#[derive(Clone, Copy, Debug, PartialEq, Eq, Structural)]
pub enum DeliveryMode {
    Push,
    Pull,
}

/// The clients that each side has.
pub open spec fn client_of_side(side: AgentSide, client: AgentClient) -> bool {
    match side {
        AgentSide::Generic => client is Omp || client is Generic,
        AgentSide::Claude => client is ClaudeCode || client is ClaudeSdk,
        AgentSide::Codex => client is CodexCli || client is CodexAppServer,
    }
}

pub fn valid_agent_client(side: AgentSide, client: AgentClient) -> (yes: bool)
    ensures
        yes == client_of_side(side, client),
{
    match (side, client) {
        (AgentSide::Generic, AgentClient::Omp) => true,
        (AgentSide::Generic, AgentClient::Generic) => true,
        (AgentSide::Claude, AgentClient::ClaudeCode) => true,
        (AgentSide::Claude, AgentClient::ClaudeSdk) => true,
        (AgentSide::Codex, AgentClient::CodexCli) => true,
        (AgentSide::Codex, AgentClient::CodexAppServer) => true,
        _ => false,
    }
}

#[derive(Debug, PartialEq)]
pub struct AgentRegistration {
    pub agent_id: String,
    pub side: AgentSide,
    pub client: AgentClient,
    pub activity: Option<String>,
    pub delivery_mode: DeliveryMode,
}

impl AgentRegistration {
    /// Whether two registrations are the same.
    pub open spec fn same(self, other: AgentRegistration) -> bool {
        &&& self.agent_id@ == other.agent_id@
        &&& self.side == other.side
        &&& self.client == other.client
        &&& opt_text(self.activity) == opt_text(other.activity)
        &&& self.delivery_mode == other.delivery_mode
    }

    /// Another copy of this registration.
    pub fn copy(&self) -> (copy: AgentRegistration)
        ensures
            copy.same(*self),
    {
        AgentRegistration {
            agent_id: self.agent_id.as_str().to_owned(),
            side: self.side,
            client: self.client,
            activity: copy_option(&self.activity),
            delivery_mode: self.delivery_mode,
        }
    }
}

#[derive(Debug, PartialEq)]
pub struct AgentDescriptor {
    pub agent_id: String,
    pub side: AgentSide,
    pub client: AgentClient,
    pub activity: Option<String>,
    pub status: AgentStatus,
    pub delivery_mode: DeliveryMode,
    pub ready: bool,
    pub session_id: Uuid,
}

#[derive(Clone, Copy, Debug, PartialEq, Eq, Structural)]
pub struct TaskDispatch {
    pub id: i64,
    pub expected_version: i64,
}

/// One attempt at one task.
#[derive(Clone, Copy, Debug, PartialEq, Eq, Structural)]
pub struct TaskFence {
    pub task_id: i64,
    pub attempt_id: Uuid,
}

#[derive(Debug, PartialEq)]
pub struct CredentialSummary {
    pub claims: crate::credentials::PublicCredentialClaims,
    pub created_at: i64,
    pub revoked_at: Option<i64>,
}

#[derive(Debug, PartialEq)]
pub struct WorkspaceSummary {
    pub name: WorkspaceName,
    pub created_at: i64,
    pub connected_agents: u32,
}

#[derive(Debug, PartialEq)]
pub struct WorkspaceMembership {
    pub workspace: WorkspaceName,
    pub cursor: i64,
}

#[derive(Clone, Copy, Debug, PartialEq, Eq, Structural)]
pub enum WorkspaceEventKind {
    Chat,
    Request,
    Result,
    MemberJoined,
    MemberLeft,
    Task,
    Integration,
}

#[derive(Debug, PartialEq)]
pub struct WorkspaceEvent {
    pub workspace: WorkspaceName,
    pub seq: i64,
    pub kind: WorkspaceEventKind,
    pub actor_id: String,
    pub created_at: i64,
    pub request_id: Option<String>,
    pub target_id: Option<String>,
    pub task_id: Option<i64>,
    pub content: Option<String>,
    pub ok: Option<bool>,
    pub error: Option<RouterErrorCode>,
}

#[derive(Debug, PartialEq)]
pub struct HistoryPage {
    pub workspace: WorkspaceName,
    pub events: Vec<WorkspaceEvent>,
    pub next_cursor: i64,
    pub has_more: bool,
}

#[derive(Debug, PartialEq)]
pub struct TaskHistoryEvent {
    pub seq: i64,
    pub actor_id: String,
    pub created_at: i64,
    pub event: TaskEvent,
    pub attempt: Option<TaskAttempt>,
    pub report: Option<Json>,
}

#[derive(Debug, PartialEq)]
pub struct TaskHistoryPage {
    pub workspace: WorkspaceName,
    pub task_id: i64,
    pub events: Vec<TaskHistoryEvent>,
    pub next_cursor: i64,
    pub has_more: bool,
}

#[derive(Clone, Copy, Debug, PartialEq, Eq, Structural)]
pub enum TaskExecutionEvidence {
    ProviderTerminal,
    ProviderClosed,
    HostIdle,
}

#[derive(Clone, Copy, Debug, PartialEq, Eq, Structural)]
pub enum TaskPauseKind {
    Paused,
    Blocked,
}

#[derive(Clone, Copy, Debug, PartialEq, Eq, Structural)]
pub enum RegistrationRole {
    Agent,
    Delegate,
}

} // verus!
