//! The providers that sessions run on: what they are asked, what they answer, and how they
//! are launched.

use vstd::prelude::*;

use crate::ids::{hyphenated_text, Uuid};
use crate::json::{
    array_model, encode_text, encode_texts, field, json_list, json_quoted, models, object, Json,
    JsonModel,
};
use crate::paths::{absolute, is_absolute, join, joined};
use crate::process::EnvEntry;
use crate::protocol::{copy_name, opt_name, TaskDispatch, WorkspaceName};
use crate::text::{
    alphanumeric, chars_of, concat, concat3, decimal, decimal_text, same_text, starts_with, texts,
};

pub mod bridge;
pub mod codex;
pub mod host_laws;
pub mod inbox;
pub mod laws;
pub mod reap;
pub mod router;
pub mod turn_laws;

verus! {

/// The most bytes that one frame of a provider may hold.
pub const MAX_PROVIDER_FRAME_BYTES: usize = 1_048_576;

/// The most notifications that are kept for a turn that has no identifier yet.
pub const MAX_EARLY_NOTIFICATIONS: usize = 256;

/// The most bytes that the context of a delegate may hold.
pub const MAX_DELEGATE_CONTEXT_BYTES: usize = 65_536;

/// How long a provider is given to end by itself.
pub const PROVIDER_TERMINAL_GRACE_MS: u64 = 5_000;

pub const STDERR_DRAIN_BUFFER_BYTES: usize = 8_192;

/// How long one call of a tool may take.
pub const MCP_TOOL_TIMEOUT_SECONDS: u64 = 605;

/// Work for a session. Times are milliseconds of one clock.
#[derive(PartialEq)]
pub struct SessionRequest {
    pub request_id: String,
    pub workspace: Option<WorkspaceName>,
    pub from: String,
    pub content: String,
    pub deadline: u64,
    pub task: Option<TaskDispatch>,
}

impl SessionRequest {
    /// Whether two requests are the same.
    pub open spec fn same(self, other: SessionRequest) -> bool {
        &&& self.request_id@ == other.request_id@
        &&& opt_name(self.workspace) == opt_name(other.workspace)
        &&& self.from@ == other.from@
        &&& self.content@ == other.content@
        &&& self.deadline == other.deadline
        &&& self.task == other.task
    }

    /// Another copy of this request.
    pub fn copy(&self) -> (copy: SessionRequest)
        ensures
            copy.same(*self),
    {
        SessionRequest {
            request_id: self.request_id.as_str().to_owned(),
            workspace: copy_name(&self.workspace),
            from: self.from.as_str().to_owned(),
            content: self.content.as_str().to_owned(),
            deadline: self.deadline,
            task: self.task,
        }
    }
}

/// Why a provider's process is ended, or has.
#[derive(Clone, Copy, Debug, PartialEq, Eq, Structural)]
pub enum HostEnd {
    /// Nobody is left who could ask for anything, or the provider is to be closed.
    Closed,
    /// The provider is to be closed while it does nothing, and was told so, or could not be.
    ShutDown { told: bool },
    /// A message could not be written.
    Unwritten,
    /// A message is too long to be written.
    TooLong,
    /// A message was read that is refused with an error.
    Refused(ProviderError),
    /// What was read is no message.
    Garbled,
    /// Nothing more can be read.
    ReadOut,
    /// The work was not seen to begin in time.
    StartOverdue,
    /// The work was not seen to end in time after it was cancelled.
    StopOverdue,
    /// The process is gone.
    Exited,
    /// There are no more numbers for requests.
    Exhausted,
}

/// The error that an end comes to. What is no message, and work that does not begin, break
/// the provider's own protocol.
pub open spec fn end_error(end: HostEnd, garbled: ProviderError) -> ProviderError {
    match end {
        HostEnd::Refused(error) => error,
        HostEnd::TooLong | HostEnd::Garbled | HostEnd::StartOverdue => garbled,
        HostEnd::StopOverdue => ProviderError::RequestTimeout,
        _ => ProviderError::ProviderDisconnected,
    }
}

impl HostEnd {
    /// The error that this end comes to.
    pub fn error(self, garbled: ProviderError) -> (error: ProviderError)
        ensures
            error == end_error(self, garbled),
    {
        match self {
            HostEnd::Refused(error) => error,
            HostEnd::TooLong | HostEnd::Garbled | HostEnd::StartOverdue => garbled,
            HostEnd::StopOverdue => ProviderError::RequestTimeout,
            _ => ProviderError::ProviderDisconnected,
        }
    }

    /// Whether the process is left to end by itself first: only one that was told to.
    pub fn is_graceful(self) -> (yes: bool)
        ensures
            yes == (self == (HostEnd::ShutDown { told: true })),
    {
        matches!(self, HostEnd::ShutDown { told: true })
    }
}

/// What a session answered.
#[derive(PartialEq)]
pub enum SessionResult {
    Success { content: String },
    Failure { error: ProviderError },
}

/// What a session answered, as mathematics has it.
pub enum ResultModel {
    Success(Seq<char>),
    Failure(ProviderError),
}

impl SessionResult {
    pub open spec fn model(self) -> ResultModel {
        match self {
            SessionResult::Success { content } => ResultModel::Success(content@),
            SessionResult::Failure { error } => ResultModel::Failure(error),
        }
    }

    pub fn success(content: String) -> (result: SessionResult)
        ensures
            result == (SessionResult::Success { content }),
    {
        SessionResult::Success { content }
    }

    pub fn failure(error: ProviderError) -> (result: SessionResult)
        ensures
            result == (SessionResult::Failure { error }),
    {
        SessionResult::Failure { error }
    }

    /// Why the session failed, if it did.
    pub fn error(&self) -> (error: Option<ProviderError>)
        ensures
            error == (match *self {
                SessionResult::Success { .. } => None::<ProviderError>,
                SessionResult::Failure { error } => Some(error),
            }),
    {
        match self {
            SessionResult::Success { .. } => None,
            SessionResult::Failure { error } => Some(*error),
        }
    }
}

/// Why a provider failed.
#[derive(Clone, Copy, Debug, PartialEq, Eq, Structural)]
pub enum ProviderError {
    ProviderNotReady,
    SessionBusy,
    RequestTimeout,
    ProviderDisconnected,
    CodexInitializeFailed,
    CodexProtocolError,
    CodexTurnInterrupted,
    CodexTurnFailed,
    CodexNoFinalResponse,
    ClaudeInitializeFailed,
    BridgeProtocolError,
    ClaudeProtocolError,
    ClaudeMaxTurns,
    ClaudeMaxBudget,
    ClaudeStructuredOutputError,
    ClaudeExecutionError,
    ClaudeNoResult,
    ClaudeSdkError,
    InvalidLaunchContext,
    RouterLifecycleUnavailable,
    ExecutionFenceChanged,
    LaunchFailed,
}

/// The code that a provider's failure is reported under.
pub open spec fn provider_code(error: ProviderError) -> Seq<char> {
    match error {
        ProviderError::ProviderNotReady => "provider_not_ready"@,
        ProviderError::SessionBusy => "session_busy"@,
        ProviderError::RequestTimeout => "request_timeout"@,
        ProviderError::ProviderDisconnected => "provider_disconnected"@,
        ProviderError::CodexInitializeFailed => "codex_initialize_failed"@,
        ProviderError::CodexProtocolError => "codex_protocol_error"@,
        ProviderError::CodexTurnInterrupted => "codex_turn_interrupted"@,
        ProviderError::CodexTurnFailed => "codex_turn_failed"@,
        ProviderError::CodexNoFinalResponse => "codex_no_final_response"@,
        ProviderError::ClaudeInitializeFailed => "claude_initialize_failed"@,
        ProviderError::BridgeProtocolError => "bridge_protocol_error"@,
        ProviderError::ClaudeProtocolError => "claude_protocol_error"@,
        ProviderError::ClaudeMaxTurns => "claude_max_turns"@,
        ProviderError::ClaudeMaxBudget => "claude_max_budget"@,
        ProviderError::ClaudeStructuredOutputError => "claude_structured_output_error"@,
        ProviderError::ClaudeExecutionError => "claude_execution_error"@,
        ProviderError::ClaudeNoResult => "claude_no_result"@,
        ProviderError::ClaudeSdkError => "claude_sdk_error"@,
        ProviderError::InvalidLaunchContext => "invalid_launch_context"@,
        ProviderError::RouterLifecycleUnavailable => "router_lifecycle_unavailable"@,
        ProviderError::ExecutionFenceChanged => "execution_fence_changed"@,
        ProviderError::LaunchFailed => "provider_launch_failed"@,
    }
}

impl ProviderError {
    pub fn code(self) -> (code: &'static str)
        ensures
            code@ == provider_code(self),
    {
        match self {
            ProviderError::ProviderNotReady => "provider_not_ready",
            ProviderError::SessionBusy => "session_busy",
            ProviderError::RequestTimeout => "request_timeout",
            ProviderError::ProviderDisconnected => "provider_disconnected",
            ProviderError::CodexInitializeFailed => "codex_initialize_failed",
            ProviderError::CodexProtocolError => "codex_protocol_error",
            ProviderError::CodexTurnInterrupted => "codex_turn_interrupted",
            ProviderError::CodexTurnFailed => "codex_turn_failed",
            ProviderError::CodexNoFinalResponse => "codex_no_final_response",
            ProviderError::ClaudeInitializeFailed => "claude_initialize_failed",
            ProviderError::BridgeProtocolError => "bridge_protocol_error",
            ProviderError::ClaudeProtocolError => "claude_protocol_error",
            ProviderError::ClaudeMaxTurns => "claude_max_turns",
            ProviderError::ClaudeMaxBudget => "claude_max_budget",
            ProviderError::ClaudeStructuredOutputError => "claude_structured_output_error",
            ProviderError::ClaudeExecutionError => "claude_execution_error",
            ProviderError::ClaudeNoResult => "claude_no_result",
            ProviderError::ClaudeSdkError => "claude_sdk_error",
            ProviderError::InvalidLaunchContext => "invalid_launch_context",
            ProviderError::RouterLifecycleUnavailable => "router_lifecycle_unavailable",
            ProviderError::ExecutionFenceChanged => "execution_fence_changed",
            ProviderError::LaunchFailed => "provider_launch_failed",
        }
    }
}

/// Why work is cancelled.
#[derive(Clone, Copy, Debug, PartialEq, Eq, Structural)]
pub enum CancelReason {
    RequestTimeout,
    ProviderDisconnected,
    TaskInterrupted,
    RequestCancelled,
}

/// The text of such a reason.
pub open spec fn cancel_text(reason: CancelReason) -> Seq<char> {
    match reason {
        CancelReason::RequestTimeout => "request_timeout"@,
        CancelReason::ProviderDisconnected => "provider_disconnected"@,
        CancelReason::TaskInterrupted => "task_interrupted"@,
        CancelReason::RequestCancelled => "request_cancelled"@,
    }
}

impl CancelReason {
    pub fn as_str(self) -> (text: &'static str)
        ensures
            text@ == cancel_text(self),
    {
        match self {
            CancelReason::RequestTimeout => "request_timeout",
            CancelReason::ProviderDisconnected => "provider_disconnected",
            CancelReason::TaskInterrupted => "task_interrupted",
            CancelReason::RequestCancelled => "request_cancelled",
        }
    }
}

/// How a turn of a provider ended.
#[derive(Clone, Copy, Debug, PartialEq, Eq, Structural)]
pub enum TerminalReason {
    TurnEnded,
    SessionEnded,
    HostError,
    OperatorInterrupt,
    RequestTimeout,
    RequestCancelled,
}

/// What shows that the turn of a request has ended.
#[derive(Debug, PartialEq)]
pub struct TerminalEvidence {
    pub request_id: String,
    pub reason: TerminalReason,
    pub child_reaped: bool,
}

impl TerminalEvidence {
    /// Whether two pieces of evidence are the same.
    pub open spec fn same(self, other: TerminalEvidence) -> bool {
        &&& self.request_id@ == other.request_id@
        &&& self.reason == other.reason
        &&& self.child_reaped == other.child_reaped
    }

    /// Another copy of this evidence.
    pub fn copy(&self) -> (copy: TerminalEvidence)
        ensures
            copy.same(*self),
    {
        TerminalEvidence {
            request_id: self.request_id.as_str().to_owned(),
            reason: self.reason,
            child_reaped: self.child_reaped,
        }
    }
}

/// A number of milliseconds after a time, as far as the clock goes.
pub open spec fn later(now: u64, millis: u64) -> u64 {
    if now + millis <= u64::MAX {
        (now + millis) as u64
    } else {
        u64::MAX
    }
}

/// A number of milliseconds after a time.
pub fn after(now: u64, millis: u64) -> (time: u64)
    ensures
        time == later(now, millis),
{
    now.saturating_add(millis)
}

/// Why a turn ended that was cancelled.
pub open spec fn cancelled_because(reason: CancelReason) -> TerminalReason {
    match reason {
        CancelReason::RequestTimeout => TerminalReason::RequestTimeout,
        CancelReason::ProviderDisconnected => TerminalReason::SessionEnded,
        CancelReason::TaskInterrupted => TerminalReason::OperatorInterrupt,
        CancelReason::RequestCancelled => TerminalReason::RequestCancelled,
    }
}

pub fn cancel_terminal_reason(reason: CancelReason) -> (terminal: TerminalReason)
    ensures
        terminal == cancelled_because(reason),
{
    match reason {
        CancelReason::RequestTimeout => TerminalReason::RequestTimeout,
        CancelReason::ProviderDisconnected => TerminalReason::SessionEnded,
        CancelReason::TaskInterrupted => TerminalReason::OperatorInterrupt,
        CancelReason::RequestCancelled => TerminalReason::RequestCancelled,
    }
}

/// What work is answered that is cancelled.
pub open spec fn cancel_error(reason: CancelReason) -> ProviderError {
    match reason {
        CancelReason::RequestTimeout => ProviderError::RequestTimeout,
        _ => ProviderError::ProviderDisconnected,
    }
}

pub fn error_of_cancel(reason: CancelReason) -> (error: ProviderError)
    ensures
        error == cancel_error(reason),
{
    match reason {
        CancelReason::RequestTimeout => ProviderError::RequestTimeout,
        CancelReason::ProviderDisconnected
        | CancelReason::TaskInterrupted
        | CancelReason::RequestCancelled => ProviderError::ProviderDisconnected,
    }
}

/// The variables of the environment that providers are given by name.
pub open spec fn allowed_name(key: Seq<char>) -> bool {
    ||| key == "HOME"@
    ||| key == "PATH"@
    ||| key == "TMPDIR"@
    ||| key == "TMP"@
    ||| key == "TEMP"@
    ||| key == "USER"@
    ||| key == "LOGNAME"@
    ||| key == "SHELL"@
    ||| key == "LANG"@
    ||| key == "TERM"@
    ||| key == "SSL_CERT_FILE"@
    ||| key == "SSL_CERT_DIR"@
    ||| key == "NODE_EXTRA_CA_CERTS"@
    ||| key == "HTTP_PROXY"@
    ||| key == "HTTPS_PROXY"@
    ||| key == "ALL_PROXY"@
    ||| key == "NO_PROXY"@
    ||| key == "http_proxy"@
    ||| key == "https_proxy"@
    ||| key == "all_proxy"@
    ||| key == "no_proxy"@
    ||| key == "OPENAI_API_KEY"@
    ||| key == "CODEX_API_KEY"@
    ||| key == "ANTHROPIC_API_KEY"@
    ||| key == "CLAUDE_CODE_OAUTH_TOKEN"@
}

/// The variables of the environment that a provider may be given.
pub open spec fn allowed_key(key: Seq<char>) -> bool {
    ||| allowed_name(key)
    ||| "XDG_"@.is_prefix_of(key)
    ||| "LC_"@.is_prefix_of(key)
    ||| "ANTHROPIC_"@.is_prefix_of(key)
    ||| "OPENAI_"@.is_prefix_of(key)
}

/// The variables of the environment that providers are denied by name.
pub open spec fn forbidden_name(key: Seq<char>) -> bool {
    ||| key == "ROUTER_TOKEN"@
    ||| key == "ROUTER_URL"@
    ||| key == "ROUTER_PUBLIC_URL"@
    ||| key == "ASR_CREDENTIAL_FILE"@
    ||| key == "ASR_WORKSPACE"@
    ||| key == "ASR_DATA_DIR"@
    ||| key == "ASR_INTEGRATIONS_FILE"@
    ||| key == "ASR_INTEGRATIONS_DIR"@
    ||| key == "GITHUB_TOKEN"@
    ||| key == "GITHUB_ENTERPRISE_TOKEN"@
    ||| key == "LINEAR_API_KEY"@
    ||| key == "DEBUG"@
    ||| key == "PAGER"@
    ||| key == "CLICOLOR_FORCE"@
    ||| key == "CODEX_CWD"@
    ||| key == "CODEX_THREAD_ID"@
    ||| key == "CLAUDE_RESUME_SESSION_ID"@
}

/// The variables of the environment that no provider may be given: they are the router's
/// own, or let their holder act as another.
pub open spec fn forbidden_key(key: Seq<char>) -> bool {
    ||| forbidden_name(key)
    ||| "ROUTER_TLS_"@.is_prefix_of(key)
    ||| "GATEWAY_"@.is_prefix_of(key)
    ||| "AGENT_ROUTER_"@.is_prefix_of(key)
    ||| "GH_"@.is_prefix_of(key)
}

pub fn allowed_environment_key(key: &str) -> (allowed: bool)
    ensures
        allowed == allowed_key(key@),
{
    let named = same_text(key, "HOME")
        || same_text(key, "PATH")
        || same_text(key, "TMPDIR")
        || same_text(key, "TMP")
        || same_text(key, "TEMP")
        || same_text(key, "USER")
        || same_text(key, "LOGNAME")
        || same_text(key, "SHELL")
        || same_text(key, "LANG")
        || same_text(key, "TERM")
        || same_text(key, "SSL_CERT_FILE")
        || same_text(key, "SSL_CERT_DIR")
        || same_text(key, "NODE_EXTRA_CA_CERTS")
        || same_text(key, "HTTP_PROXY")
        || same_text(key, "HTTPS_PROXY")
        || same_text(key, "ALL_PROXY")
        || same_text(key, "NO_PROXY")
        || same_text(key, "http_proxy")
        || same_text(key, "https_proxy")
        || same_text(key, "all_proxy")
        || same_text(key, "no_proxy")
        || same_text(key, "OPENAI_API_KEY")
        || same_text(key, "CODEX_API_KEY")
        || same_text(key, "ANTHROPIC_API_KEY")
        || same_text(key, "CLAUDE_CODE_OAUTH_TOKEN");
    named || starts_with(key, "XDG_") || starts_with(key, "LC_") || starts_with(key, "ANTHROPIC_")
        || starts_with(key, "OPENAI_")
}

pub fn forbidden_environment_key(key: &str) -> (forbidden: bool)
    ensures
        forbidden == forbidden_key(key@),
{
    let named = same_text(key, "ROUTER_TOKEN")
        || same_text(key, "ROUTER_URL")
        || same_text(key, "ROUTER_PUBLIC_URL")
        || same_text(key, "ASR_CREDENTIAL_FILE")
        || same_text(key, "ASR_WORKSPACE")
        || same_text(key, "ASR_DATA_DIR")
        || same_text(key, "ASR_INTEGRATIONS_FILE")
        || same_text(key, "ASR_INTEGRATIONS_DIR")
        || same_text(key, "GITHUB_TOKEN")
        || same_text(key, "GITHUB_ENTERPRISE_TOKEN")
        || same_text(key, "LINEAR_API_KEY")
        || same_text(key, "DEBUG")
        || same_text(key, "PAGER")
        || same_text(key, "CLICOLOR_FORCE")
        || same_text(key, "CODEX_CWD")
        || same_text(key, "CODEX_THREAD_ID")
        || same_text(key, "CLAUDE_RESUME_SESSION_ID");
    named || starts_with(key, "ROUTER_TLS_") || starts_with(key, "GATEWAY_") || starts_with(
        key,
        "AGENT_ROUTER_",
    ) || starts_with(key, "GH_")
}

/// The variables of the environment that a provider is given.
pub open spec fn provider_key(key: Seq<char>) -> bool {
    allowed_key(key) && !forbidden_key(key)
}

/// The part of an environment that a provider is given.
pub open spec fn provider_environment(source: Seq<EnvEntry>) -> Seq<EnvEntry> {
    source.filter(|entry: EnvEntry| provider_key(entry.key@))
}

/// The part of an environment that a provider is given.
pub fn filtered_provider_environment(source: Vec<EnvEntry>) -> (kept: Vec<EnvEntry>)
    ensures
        kept@ == provider_environment(source@),
{
    let ghost all = source@;
    let ghost keeps = |entry: EnvEntry| provider_key(entry.key@);
    let mut kept: Vec<EnvEntry> = Vec::new();
    for entry in iter: source.into_iter()
        invariant
            iter.seq() == all,
            keeps == (|entry: EnvEntry| provider_key(entry.key@)),
            kept@ == all.take(iter.index() as int).filter(keeps),
    {
        let ghost n = iter.index() as int;
        proof {
            reveal(Seq::filter);
            assert(all.take(n + 1).drop_last() =~= all.take(n));
            assert(all.take(n + 1).last() == entry);
        }
        let key = entry.key.as_str();
        if allowed_environment_key(key) && !forbidden_environment_key(key) {
            kept.push(entry);
        }
    }
    assert(all.take(all.len() as int) =~= all);
    kept
}

/// A provider is never given a variable that none may have, and filtering what it is given
/// changes nothing.
pub proof fn forbidden_variables_are_kept_back(source: Seq<EnvEntry>, entry: EnvEntry)
    ensures
        provider_environment(source).contains(entry) ==> source.contains(entry) && !forbidden_key(
            entry.key@,
        ),
        source.contains(entry) && provider_key(entry.key@) ==> provider_environment(
            source,
        ).contains(entry),
        provider_environment(provider_environment(source)) == provider_environment(source),
{
    let keeps = |entry: EnvEntry| provider_key(entry.key@);
    let kept = provider_environment(source);
    if kept.contains(entry) {
        source.lemma_filter_contains_rev(keeps, entry);
        let i = choose|i: int| 0 <= i < kept.len() && kept[i] == entry;
        source.lemma_filter_pred(keeps, i);
    }
    if source.contains(entry) && keeps(entry) {
        let i = choose|i: int| 0 <= i < source.len() && source[i] == entry;
        source.lemma_filter_contains(keeps, i);
    }
    assert forall|i: int| 0 <= i < kept.len() implies keeps(#[trigger] kept[i]) by {
        source.lemma_filter_pred(keeps, i);
    }
    kept_stays(kept, keeps);
}

/// Filtering what holds of all keeps all.
proof fn kept_stays(list: Seq<EnvEntry>, keeps: spec_fn(EnvEntry) -> bool)
    requires
        forall|i: int| 0 <= i < list.len() ==> keeps(#[trigger] list[i]),
    ensures
        list.filter(keeps) == list,
    decreases list.len(),
{
    reveal(Seq::filter);
    if list.len() > 0 {
        kept_stays(list.drop_last(), keeps);
        assert(list.drop_last().push(list.last()) =~= list);
    }
}

/// What lies behind the name of every directory that a context is written into.
pub const CONTEXT_DIRECTORY_PREFIX: &'static str = "asr-provider-";

/// How often another name is tried for such a directory.
pub const CONTEXT_ATTEMPTS: u8 = 8;

/// The file that holds the context of a delegate, in a directory of its own.
pub struct DelegateContextFile {
    pub directory: String,
    pub file: String,
}

impl DelegateContextFile {
    /// The directory below a root that an identifier names.
    pub open spec fn directory_named(root: Seq<char>, id: u128) -> Seq<char> {
        joined(root, CONTEXT_DIRECTORY_PREFIX@ + hyphenated_text(id))
    }

    /// The directory below a root that an identifier names.
    pub fn candidate(root: &str, id: Uuid) -> (directory: String)
        ensures
            directory@ == Self::directory_named(root@, id.value),
    {
        join(root, concat(CONTEXT_DIRECTORY_PREFIX, id.to_text().as_str()).as_str())
    }

    /// The context file of a directory.
    pub fn in_directory(directory: String) -> (file: DelegateContextFile)
        ensures
            file.directory == directory,
            file.file@ == joined(directory@, "context.json"@),
    {
        let file = join(directory.as_str(), "context.json");
        DelegateContextFile { directory, file }
    }

    pub fn path(&self) -> (path: &str)
        ensures
            path@ == self.file@,
    {
        self.file.as_str()
    }
}

/// Whether the bytes of a context are few enough.
pub fn context_fits(bytes: usize) -> (fits: bool)
    ensures
        fits == (bytes <= MAX_DELEGATE_CONTEXT_BYTES),
{
    bytes <= MAX_DELEGATE_CONTEXT_BYTES
}

/// What reading a context gave: how many bytes, whether they decode to a context, and whether
/// that is a valid one.
#[derive(Clone, Copy, Debug, PartialEq, Eq, Structural)]
pub struct ContextRead {
    pub bytes: usize,
    pub decoded: bool,
    pub valid: bool,
}

/// Refuses a context that cannot be used. There is no reading where its file could not be
/// opened as a private one, or not be read.
pub fn validate_delegate_context(read: Option<ContextRead>) -> (checked: Result<(), ProviderError>)
    ensures
        checked == (match read {
            Some(read) => if read.bytes <= MAX_DELEGATE_CONTEXT_BYTES && read.decoded && read.valid {
                Ok::<(), ProviderError>(())
            } else {
                Err(ProviderError::InvalidLaunchContext)
            },
            None => Err(ProviderError::InvalidLaunchContext),
        }),
{
    match read {
        Some(read) => if context_fits(read.bytes) && read.decoded && read.valid {
            Ok(())
        } else {
            Err(ProviderError::InvalidLaunchContext)
        },
        None => Err(ProviderError::InvalidLaunchContext),
    }
}

/// What is to be done next to write a context.
#[derive(Clone, Copy, Debug, PartialEq, Eq, Structural)]
pub enum ContextAction {
    /// The root's own path is to be found out.
    Canonicalize,
    /// It is to be looked at whether the root is a directory.
    Inspect,
    /// The next directory is to be made, for its owner alone.
    MakeDirectory,
    /// It is to be checked that the directory is private.
    CheckDirectory,
    /// The context is to be written into a new file, and all of it onto the disk.
    Write,
    /// The written context is to be read back and checked.
    Check,
    RemoveDirectory,
    RemoveFile,
    Written,
    Refused(ProviderError),
}

/// How that went.
#[derive(Clone, Copy, Debug, PartialEq, Eq, Structural)]
pub enum ContextEvent {
    Done,
    Failed,
    /// There is a directory of that name already.
    Exists,
    Inspected { symlink: bool, directory: bool },
}

/// Writing a context.
#[derive(Clone, Copy, Debug, PartialEq, Eq, Structural)]
pub struct ContextMachine {
    pub phase: ContextAction,
    /// How many names for the directory were tried in vain.
    pub tried: u8,
    pub payload_fits: bool,
}

/// What is to be done once something has been.
pub open spec fn context_next(m: ContextMachine, event: ContextEvent) -> ContextAction {
    match (m.phase, event) {
        (ContextAction::Canonicalize, ContextEvent::Done) => ContextAction::Inspect,
        (ContextAction::Inspect, ContextEvent::Inspected { symlink, directory }) => if !symlink
            && directory {
            ContextAction::MakeDirectory
        } else {
            refused()
        },
        (ContextAction::MakeDirectory, ContextEvent::Done) => ContextAction::CheckDirectory,
        (ContextAction::MakeDirectory, ContextEvent::Exists) => if m.tried + 1 < CONTEXT_ATTEMPTS {
            ContextAction::MakeDirectory
        } else {
            refused()
        },
        (ContextAction::CheckDirectory, ContextEvent::Done) => if m.payload_fits {
            ContextAction::Write
        } else {
            ContextAction::RemoveDirectory
        },
        (ContextAction::CheckDirectory, ContextEvent::Failed) => ContextAction::RemoveDirectory,
        (ContextAction::Write, ContextEvent::Done) => ContextAction::Check,
        (ContextAction::Write, ContextEvent::Exists) => ContextAction::RemoveDirectory,
        (ContextAction::Write, ContextEvent::Failed) => ContextAction::RemoveFile,
        (ContextAction::Check, ContextEvent::Done) => ContextAction::Written,
        (ContextAction::Check, ContextEvent::Failed) => ContextAction::RemoveFile,
        (ContextAction::RemoveFile, ContextEvent::Done) => ContextAction::RemoveDirectory,
        (ContextAction::RemoveFile, ContextEvent::Failed) => ContextAction::RemoveDirectory,
        (ContextAction::RemoveDirectory, ContextEvent::Done) => refused(),
        (ContextAction::RemoveDirectory, ContextEvent::Failed) => refused(),
        (ContextAction::Written, _) => m.phase,
        (ContextAction::Refused(_), _) => m.phase,
        (_, ContextEvent::Failed) => refused(),
        _ => m.phase,
    }
}

/// The end of every attempt to write a context that did not succeed.
pub open spec fn refused() -> ContextAction {
    ContextAction::Refused(ProviderError::InvalidLaunchContext)
}

impl ContextMachine {
    /// The writing of a context below a root: it must be in order, and the root's path
    /// absolute.
    pub fn new(valid: bool, root: &str, payload: Option<usize>) -> (machine: ContextMachine)
        ensures
            machine == (ContextMachine {
                phase: if valid && absolute(root@) {
                    ContextAction::Canonicalize
                } else {
                    refused()
                },
                tried: 0,
                payload_fits: payload matches Some(bytes) && bytes <= MAX_DELEGATE_CONTEXT_BYTES,
            }),
    {
        let payload_fits = match payload {
            Some(bytes) => context_fits(bytes),
            None => false,
        };
        let phase = if valid && is_absolute(root) {
            ContextAction::Canonicalize
        } else {
            ContextAction::Refused(ProviderError::InvalidLaunchContext)
        };
        ContextMachine { phase, tried: 0, payload_fits }
    }

    /// What is to be done now that something has been. `Exists` for the file says that it
    /// could not be made at all; what the disk did not take is `Failed`.
    pub fn step(&mut self, event: ContextEvent) -> (action: ContextAction)
        requires
            old(self).tried < CONTEXT_ATTEMPTS,
        ensures
            action == context_next(*old(self), event),
            *final(self) == (ContextMachine {
                phase: action,
                tried: if old(self).phase is MakeDirectory && event is Exists && action
                    is MakeDirectory {
                    (old(self).tried + 1) as u8
                } else {
                    old(self).tried
                },
                ..*old(self)
            }),
            final(self).tried < CONTEXT_ATTEMPTS,
    {
        let refused = ContextAction::Refused(ProviderError::InvalidLaunchContext);
        let phase = self.phase;
        let next = match event {
            ContextEvent::Done => match phase {
                ContextAction::Canonicalize => ContextAction::Inspect,
                ContextAction::MakeDirectory => ContextAction::CheckDirectory,
                ContextAction::CheckDirectory => if self.payload_fits {
                    ContextAction::Write
                } else {
                    ContextAction::RemoveDirectory
                },
                ContextAction::Write => ContextAction::Check,
                ContextAction::Check => ContextAction::Written,
                ContextAction::RemoveFile => ContextAction::RemoveDirectory,
                ContextAction::RemoveDirectory => refused,
                _ => phase,
            },
            ContextEvent::Failed => match phase {
                ContextAction::CheckDirectory => ContextAction::RemoveDirectory,
                ContextAction::Write | ContextAction::Check => ContextAction::RemoveFile,
                ContextAction::RemoveFile => ContextAction::RemoveDirectory,
                ContextAction::Written | ContextAction::Refused(_) => phase,
                _ => refused,
            },
            ContextEvent::Exists => match phase {
                ContextAction::MakeDirectory => if self.tried + 1 < CONTEXT_ATTEMPTS {
                    self.tried = self.tried + 1;
                    ContextAction::MakeDirectory
                } else {
                    refused
                },
                ContextAction::Write => ContextAction::RemoveDirectory,
                _ => phase,
            },
            ContextEvent::Inspected { symlink, directory } => match phase {
                ContextAction::Inspect => if !symlink && directory {
                    ContextAction::MakeDirectory
                } else {
                    refused
                },
                _ => phase,
            },
        };
        self.phase = next;
        next
    }
}

/// While it is written, a context is in a directory that was made for it.
pub open spec fn directory_made(phase: ContextAction) -> bool {
    phase is CheckDirectory || phase is Write || phase is Check || phase is RemoveFile
        || phase is RemoveDirectory
}

/// A context that was not written leaves no directory behind: once one was made, the
/// writing ends well or with the directory's removal.
pub proof fn failed_contexts_are_removed(m: ContextMachine, event: ContextEvent)
    requires
        directory_made(m.phase),
    ensures
        directory_made(context_next(m, event)) || context_next(m, event) is Written || m.phase is RemoveDirectory,
{
}

/// How a delegate is launched beside a provider.
pub struct ManagedLaunch {
    pub context: DelegateContextFile,
    pub asr_executable: String,
    pub cwd: String,
    pub environment: Vec<EnvEntry>,
    pub integration_environment: Vec<EnvEntry>,
}

/// Where a delegate may be launched: its program and the directory are given by absolute
/// paths, and the directory is one.
pub open spec fn launchable(executable: Seq<char>, cwd: Seq<char>, cwd_is_directory: bool) -> bool {
    absolute(executable) && absolute(cwd) && cwd_is_directory
}

/// The part of an environment under a key, and the rest.
pub open spec fn under_key(source: Seq<EnvEntry>, key: Seq<char>) -> Seq<EnvEntry> {
    source.filter(|entry: EnvEntry| entry.key@ == key)
}

/// The part of an environment that is not under a key.
pub open spec fn beside_key(source: Seq<EnvEntry>, key: Seq<char>) -> Seq<EnvEntry> {
    source.filter(|entry: EnvEntry| entry.key@ != key)
}

fn split_environment(source: Vec<EnvEntry>, key: &str) -> (parts: (Vec<EnvEntry>, Vec<EnvEntry>))
    ensures
        parts.0@ == under_key(source@, key@),
        parts.1@ == beside_key(source@, key@),
{
    let ghost all = source@;
    let ghost under = |entry: EnvEntry| entry.key@ == key@;
    let ghost beside = |entry: EnvEntry| entry.key@ != key@;
    let mut own: Vec<EnvEntry> = Vec::new();
    let mut rest: Vec<EnvEntry> = Vec::new();
    for entry in iter: source.into_iter()
        invariant
            iter.seq() == all,
            under == (|entry: EnvEntry| entry.key@ == key@),
            beside == (|entry: EnvEntry| entry.key@ != key@),
            own@ == all.take(iter.index() as int).filter(under),
            rest@ == all.take(iter.index() as int).filter(beside),
    {
        let ghost n = iter.index() as int;
        proof {
            reveal(Seq::filter);
            assert(all.take(n + 1).drop_last() =~= all.take(n));
            assert(all.take(n + 1).last() == entry);
        }
        if same_text(entry.key.as_str(), key) {
            own.push(entry);
        } else {
            rest.push(entry);
        }
    }
    assert(all.take(all.len() as int) =~= all);
    (own, rest)
}

/// The settings that a tool server is known by to a client that is configured by keys.
pub const MCP_SERVER_KEY: &'static str = "mcp_servers.agent_session_router";

/// A name that a list of tools may hold.
pub open spec fn plain_tool_name(name: Seq<char>) -> bool {
    name.len() > 0 && forall|i: int|
        0 <= i < name.len() ==> alphanumeric(#[trigger] name[i]) || name[i] == '_'
}

fn is_plain_tool_name(name: &str) -> (plain: bool)
    ensures
        plain == plain_tool_name(name@),
{
    let chars = chars_of(name);
    if chars.len() == 0 {
        return false;
    }
    let mut i: usize = 0;
    while i < chars.len()
        invariant
            i <= chars@.len(),
            chars@ == name@,
            forall|j: int| 0 <= j < i ==> alphanumeric(#[trigger] name@[j]) || name@[j] == '_',
        decreases chars.len() - i,
    {
        let c = chars[i];
        if !('a' <= c && c <= 'z' || 'A' <= c && c <= 'Z' || '0' <= c && c <= '9' || c == '_') {
            assert(!(alphanumeric(name@[i as int]) || name@[i as int] == '_'));
            return false;
        }
        i += 1;
    }
    true
}

/// The tools that a client may be told of: at least one, each with a plain name.
pub open spec fn tools_ok(tools: Seq<String>) -> bool {
    tools.len() > 0 && forall|i: int| 0 <= i < tools.len() ==> plain_tool_name(#[trigger] tools[i]@)
}

fn are_plain_tools(tools: &Vec<String>) -> (ok: bool)
    ensures
        ok == tools_ok(tools@),
{
    if tools.len() == 0 {
        return false;
    }
    let mut i: usize = 0;
    while i < tools.len()
        invariant
            i <= tools@.len(),
            forall|j: int| 0 <= j < i ==> plain_tool_name(#[trigger] tools@[j]@),
        decreases tools.len() - i,
    {
        if !is_plain_tool_name(tools[i].as_str()) {
            return false;
        }
        i += 1;
    }
    true
}

/// The arguments that a delegate's server is started with.
pub open spec fn delegate_texts(context: Seq<char>) -> Seq<Seq<char>> {
    seq!["mcp"@, "delegate"@, "--context-file"@, context]
}

/// The settings, as arguments, by which a client that is configured by keys starts a
/// delegate's server with some tools.
pub open spec fn override_texts(
    executable: Seq<char>,
    context: Seq<char>,
    tools: Seq<Seq<char>>,
) -> Seq<Seq<char>> {
    seq![
        "-c"@,
        MCP_SERVER_KEY@ + ".command="@ + json_quoted(executable),
        "-c"@,
        MCP_SERVER_KEY@ + ".args="@ + json_list(delegate_texts(context)),
        "-c"@,
        MCP_SERVER_KEY@ + ".required=true"@,
        "-c"@,
        MCP_SERVER_KEY@ + ".enabled_tools="@ + json_list(tools),
        "-c"@,
        MCP_SERVER_KEY@ + ".default_tools_approval_mode=\"approve\""@,
        "-c"@,
        MCP_SERVER_KEY@ + ".tool_timeout_sec="@ + decimal_text(MCP_TOOL_TIMEOUT_SECONDS as nat),
    ]
}

/// The value by which a client that is configured by a file starts a delegate's server.
pub open spec fn config_model(executable: Seq<char>, context: Seq<char>) -> JsonModel {
    JsonModel::Object(
        seq![
            ("command"@, JsonModel::Text(executable)),
            (
                "args"@,
                JsonModel::Array(
                    seq![
                        JsonModel::Text("mcp"@),
                        JsonModel::Text("delegate"@),
                        JsonModel::Text("--context-file"@),
                        JsonModel::Text(context),
                    ],
                ),
            ),
            ("env"@, JsonModel::Object(Seq::empty())),
        ],
    )
}

impl ManagedLaunch {
    /// The launch of a delegate whose context has been written. The environment is split:
    /// what names the integrations is kept apart, and of the rest the provider is given
    /// what it may have.
    pub fn new(
        asr_executable: String,
        cwd: String,
        cwd_is_directory: bool,
        context: DelegateContextFile,
        source_environment: Vec<EnvEntry>,
        integrations_key: &str,
    ) -> (launch: Result<ManagedLaunch, ProviderError>)
        ensures
            if launchable(asr_executable@, cwd@, cwd_is_directory) {
                &&& launch matches Ok(launch)
                &&& launch.context == context
                &&& launch.asr_executable == asr_executable
                &&& launch.cwd == cwd
                &&& launch.environment@ == provider_environment(
                    beside_key(source_environment@, integrations_key@),
                )
                &&& launch.integration_environment@ == under_key(
                    source_environment@,
                    integrations_key@,
                )
            } else {
                launch == Err::<ManagedLaunch, ProviderError>(ProviderError::InvalidLaunchContext)
            },
    {
        if !is_absolute(asr_executable.as_str()) || !is_absolute(cwd.as_str()) || !cwd_is_directory {
            return Err(ProviderError::InvalidLaunchContext);
        }
        let (integration_environment, rest) = split_environment(
            source_environment,
            integrations_key,
        );
        let environment = filtered_provider_environment(rest);
        Ok(ManagedLaunch { context, asr_executable, cwd, environment, integration_environment })
    }

    pub fn context_path(&self) -> (path: &str)
        ensures
            path@ == self.context.file@,
    {
        self.context.path()
    }

    pub fn cwd(&self) -> (path: &str)
        ensures
            path@ == self.cwd@,
    {
        self.cwd.as_str()
    }

    /// The arguments that a delegate's server is started with.
    pub fn delegate_arguments(&self) -> (arguments: Vec<String>)
        ensures
            texts(arguments@) == delegate_texts(self.context.file@),
    {
        let arguments = vec![
            "mcp".to_owned(),
            "delegate".to_owned(),
            "--context-file".to_owned(),
            self.context.path().to_owned(),
        ];
        assert(texts(arguments@) =~= delegate_texts(self.context.file@));
        arguments
    }

    /// The settings, as arguments, by which a client that is configured by keys starts the
    /// delegate's server with some tools.
    pub fn codex_mcp_overrides(&self, enabled_tools: &Vec<String>) -> (arguments: Result<
        Vec<String>,
        ProviderError,
    >)
        ensures
            if tools_ok(enabled_tools@) {
                arguments matches Ok(arguments) && texts(arguments@) == override_texts(
                    self.asr_executable@,
                    self.context.file@,
                    texts(enabled_tools@),
                )
            } else {
                arguments == Err::<Vec<String>, ProviderError>(ProviderError::LaunchFailed)
            },
    {
        if !are_plain_tools(enabled_tools) {
            return Err(ProviderError::LaunchFailed);
        }
        let command = encode_text(self.asr_executable.as_str());
        let args = encode_texts(self.delegate_arguments().as_slice());
        let tools = encode_texts(enabled_tools.as_slice());
        let timeout = decimal(MCP_TOOL_TIMEOUT_SECONDS);
        let arguments = vec![
            "-c".to_owned(),
            concat3(MCP_SERVER_KEY, ".command=", command.as_str()),
            "-c".to_owned(),
            concat3(MCP_SERVER_KEY, ".args=", args.as_str()),
            "-c".to_owned(),
            concat(MCP_SERVER_KEY, ".required=true"),
            "-c".to_owned(),
            concat3(MCP_SERVER_KEY, ".enabled_tools=", tools.as_str()),
            "-c".to_owned(),
            concat(MCP_SERVER_KEY, ".default_tools_approval_mode=\"approve\""),
            "-c".to_owned(),
            concat3(MCP_SERVER_KEY, ".tool_timeout_sec=", timeout.as_str()),
        ];
        assert(texts(arguments@) =~= override_texts(
            self.asr_executable@,
            self.context.file@,
            texts(enabled_tools@),
        ));
        Ok(arguments)
    }

    /// The value by which a client that is configured by a file starts the delegate's
    /// server.
    pub fn claude_mcp_config(&self) -> (config: Json)
        ensures
            config.model() == config_model(self.asr_executable@, self.context.file@),
    {
        let args = vec![
            Json::of_text("mcp"),
            Json::of_text("delegate"),
            Json::of_text("--context-file"),
            Json::of_text(self.context.path()),
        ];
        let ghost model = config_model(self.asr_executable@, self.context.file@);
        proof {
            array_model(args);
            assert(models(args@) =~= model->Object_0[1].1->Array_0);
        }
        let env = object(Vec::new());
        assert(env.model()->Object_0 =~= Seq::<(Seq<char>, JsonModel)>::empty());
        let config = object(
            vec![
                field("command", Json::of_text(self.asr_executable.as_str())),
                field("args", Json::Array(args)),
                field("env", env),
            ],
        );
        assert(config.model()->Object_0 =~= model->Object_0);
        config
    }
}

/// A number that tells a code from the others.
spec fn provider_print(text: Seq<char>) -> int {
    1000000 * text.len() + 1000 * (text[0] as int) + text[text.len() - 1] as int
}

spec fn provider_print_of(error: ProviderError) -> int {
    match error {
        ProviderError::ProviderNotReady => 18112121,
        ProviderError::SessionBusy => 12115121,
        ProviderError::RequestTimeout => 15114116,
        ProviderError::ProviderDisconnected => 21112100,
        ProviderError::CodexInitializeFailed => 23099100,
        ProviderError::CodexProtocolError => 20099114,
        ProviderError::CodexTurnInterrupted => 22099100,
        ProviderError::CodexTurnFailed => 17099100,
        ProviderError::CodexNoFinalResponse => 23099101,
        ProviderError::ClaudeInitializeFailed => 24099100,
        ProviderError::BridgeProtocolError => 21098114,
        ProviderError::ClaudeProtocolError => 21099114,
        ProviderError::ClaudeMaxTurns => 16099115,
        ProviderError::ClaudeMaxBudget => 17099116,
        ProviderError::ClaudeStructuredOutputError => 30099114,
        ProviderError::ClaudeExecutionError => 22099114,
        ProviderError::ClaudeNoResult => 16099116,
        ProviderError::ClaudeSdkError => 16099114,
        ProviderError::InvalidLaunchContext => 22105116,
        ProviderError::RouterLifecycleUnavailable => 28114101,
        ProviderError::ExecutionFenceChanged => 23101100,
        ProviderError::LaunchFailed => 22112100,
    }
}

proof fn provider_code_printed(error: ProviderError)
    ensures
        provider_print(provider_code(error)) == provider_print_of(error),
{
    match error {
        ProviderError::ProviderNotReady => reveal_strlit("provider_not_ready"),
        ProviderError::SessionBusy => reveal_strlit("session_busy"),
        ProviderError::RequestTimeout => reveal_strlit("request_timeout"),
        ProviderError::ProviderDisconnected => reveal_strlit("provider_disconnected"),
        ProviderError::CodexInitializeFailed => reveal_strlit("codex_initialize_failed"),
        ProviderError::CodexProtocolError => reveal_strlit("codex_protocol_error"),
        ProviderError::CodexTurnInterrupted => reveal_strlit("codex_turn_interrupted"),
        ProviderError::CodexTurnFailed => reveal_strlit("codex_turn_failed"),
        ProviderError::CodexNoFinalResponse => reveal_strlit("codex_no_final_response"),
        ProviderError::ClaudeInitializeFailed => reveal_strlit("claude_initialize_failed"),
        ProviderError::BridgeProtocolError => reveal_strlit("bridge_protocol_error"),
        ProviderError::ClaudeProtocolError => reveal_strlit("claude_protocol_error"),
        ProviderError::ClaudeMaxTurns => reveal_strlit("claude_max_turns"),
        ProviderError::ClaudeMaxBudget => reveal_strlit("claude_max_budget"),
        ProviderError::ClaudeStructuredOutputError => reveal_strlit("claude_structured_output_error"),
        ProviderError::ClaudeExecutionError => reveal_strlit("claude_execution_error"),
        ProviderError::ClaudeNoResult => reveal_strlit("claude_no_result"),
        ProviderError::ClaudeSdkError => reveal_strlit("claude_sdk_error"),
        ProviderError::InvalidLaunchContext => reveal_strlit("invalid_launch_context"),
        ProviderError::RouterLifecycleUnavailable => reveal_strlit("router_lifecycle_unavailable"),
        ProviderError::ExecutionFenceChanged => reveal_strlit("execution_fence_changed"),
        ProviderError::LaunchFailed => reveal_strlit("provider_launch_failed"),
    }
}

/// Every failure of a provider is reported under a code of its own.
pub proof fn provider_codes_are_distinct(a: ProviderError, b: ProviderError)
    requires
        provider_code(a) == provider_code(b),
    ensures
        a == b,
{
    provider_code_printed(a);
    provider_code_printed(b);
}

} // verus!
