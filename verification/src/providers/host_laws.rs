//! What holds of the processes that providers run in: what they are given, how they begin, what
//! is said to them, how their turns go and how they end.

use vstd::prelude::*;

use crate::ids::{hyphenated_text, parsed_uuid, Uuid};
use crate::json::{encoded_json, parsed_json, json_list, json_quoted, Json, JsonModel};
use crate::paths::{absolute, joined};
use crate::process::EnvEntry;
use crate::providers::bridge::turn::{
    ActorClose, BridgeActor, FinishStep, HandleStep, ResponseStep, CloseStep,
};
use crate::providers::bridge::wire as bridge_wire;
use crate::providers::bridge::{accept_greeting, check_initialized, ClaudeConfig, Greeting};
use crate::providers::codex::wire as codex_wire;
use crate::providers::codex::wire::ThreadSelection;
use crate::providers::codex::{CodexConfig, Handshake, HandshakeStep};
use crate::providers::reap::{ReapEvent, ReapPhase};
use crate::providers::{
    after, allowed_environment_key, cancel_terminal_reason, context_fits, error_of_cancel,
    filtered_provider_environment, forbidden_environment_key, validate_delegate_context,
    CancelReason, ContextAction, ContextEvent, ContextMachine, ContextRead, DelegateContextFile,
    HostEnd, ManagedLaunch, ProviderError, ResultModel, SessionRequest, SessionResult,
    TerminalReason,
};
use crate::text::texts;

verus! {

/// What a provider is given of an environment: exactly what it may have, in its order; what is
/// the router's own, or another's credential, it never has.
pub proof fn providers_are_given_what_they_may_have(
    source: Vec<EnvEntry>,
    kept: Vec<EnvEntry>,
    entry: EnvEntry,
    key: &str,
    allowed: bool,
    forbidden: bool,
)
    requires
        call_ensures(filtered_provider_environment, (source,), kept),
        key@ == entry.key@,
        call_ensures(allowed_environment_key, (key,), allowed),
        call_ensures(forbidden_environment_key, (key,), forbidden),
    ensures
        kept@.contains(entry) <==> source@.contains(entry) && allowed && !forbidden,
        key@ == "PATH"@ || key@ == "HOME"@ || key@ == "OPENAI_API_KEY"@ || key@
            == "ANTHROPIC_API_KEY"@ || key@ == "CODEX_API_KEY"@ || key@
            == "CLAUDE_CODE_OAUTH_TOKEN"@ || key@ == "HTTPS_PROXY"@ || key@ == "SSL_CERT_FILE"@
            ==> allowed,
        "XDG_"@.is_prefix_of(key@) || "LC_"@.is_prefix_of(key@) ==> allowed,
        key@ == "ROUTER_TOKEN"@ || key@ == "ROUTER_URL"@ || key@ == "ASR_CREDENTIAL_FILE"@ || key@
            == "ASR_WORKSPACE"@ || key@ == "GITHUB_TOKEN"@ || key@ == "LINEAR_API_KEY"@ || key@
            == "ASR_DATA_DIR"@ ==> forbidden,
        "ROUTER_TLS_"@.is_prefix_of(key@) || "GATEWAY_"@.is_prefix_of(key@)
            || "AGENT_ROUTER_"@.is_prefix_of(key@) || "GH_"@.is_prefix_of(key@) ==> forbidden,
{
    let pred = |e: EnvEntry| crate::providers::provider_key(e.key@);
    filtered_lists_hold_what_passes(source@, pred, entry);
}

/// A filtered list holds exactly what it held and passes.
proof fn filtered_lists_hold_what_passes<T>(list: Seq<T>, pred: spec_fn(T) -> bool, item: T)
    ensures
        list.filter(pred).contains(item) <==> list.contains(item) && pred(item),
    decreases list.len(),
{
    reveal(Seq::filter);
    if list.len() > 0 {
        let rest = list.drop_last();
        filtered_lists_hold_what_passes(rest, pred, item);
        let whole = list.filter(pred);
        let kept = rest.filter(pred);
        if list.contains(item) {
            let k = list.index_of(item);
            if k < rest.len() {
                assert(rest[k] == item);
            }
        }
        if rest.contains(item) {
            let k = rest.index_of(item);
            assert(list[k] == item);
        }
        if kept.contains(item) {
            let k = kept.index_of(item);
            assert(whole[k] == item);
        }
        if whole.contains(item) {
            let k = whole.index_of(item);
            if k < kept.len() {
                assert(kept[k] == item);
            }
        }
        if pred(list.last()) {
            assert(whole[whole.len() - 1] == list.last());
        }
        assert(list[list.len() - 1] == list.last());
    }
}

/// A context is written in order: below a directory that is one, in a new directory for its
/// owner alone, where it is not too long, and it is read back; at most eight names are tried.
pub proof fn contexts_are_written_in_order(m: &mut ContextMachine, event: ContextEvent, action: ContextAction)
    requires
        old(m).tried < 8,
        call_ensures(ContextMachine::step, (m, event), action),
    ensures
        final(m).phase == action,
        old(m).phase is Canonicalize && event is Done ==> action is Inspect,
        old(m).phase is Inspect && event == (ContextEvent::Inspected {
            symlink: false,
            directory: true,
        }) ==> action is MakeDirectory,
        old(m).phase is Inspect && (event matches ContextEvent::Inspected { symlink, directory } && (
        symlink || !directory)) ==> action == ContextAction::Refused(
            ProviderError::InvalidLaunchContext,
        ),
        old(m).phase is MakeDirectory && event is Done ==> action is CheckDirectory,
        old(m).phase is MakeDirectory && event is Exists && old(m).tried < 7 ==> action
            is MakeDirectory && final(m).tried == old(m).tried + 1,
        old(m).phase is MakeDirectory && event is Exists && old(m).tried == 7 ==> action
            == ContextAction::Refused(ProviderError::InvalidLaunchContext),
        old(m).phase is CheckDirectory && event is Done && old(m).payload_fits ==> action is Write,
        old(m).phase is CheckDirectory && event is Done && !old(m).payload_fits ==> action
            is RemoveDirectory,
        old(m).phase is Write && event is Done ==> action is Check,
        old(m).phase is Check && event is Done ==> action is Written,
        old(m).phase is Check && event is Failed ==> action is RemoveFile,
        old(m).phase is Write && event is Failed ==> action is RemoveFile,
        old(m).phase is RemoveFile && (event is Done || event is Failed) ==> action
            is RemoveDirectory,
        old(m).phase is RemoveDirectory && (event is Done || event is Failed) ==> action
            == ContextAction::Refused(ProviderError::InvalidLaunchContext),
        action is Written && !(old(m).phase is Written) ==> old(m).phase is Check && event is Done,
{
}

/// Where a context is written and which is used: below the root by a name of its own, of at most
/// sixty-four kibibytes, decoded and in order.
pub proof fn contexts_are_small_and_in_order(
    valid: bool,
    root: &str,
    bytes: usize,
    begun: ContextMachine,
    read: ContextRead,
    checked: Result<(), ProviderError>,
    missing: Result<(), ProviderError>,
    id: Uuid,
    directory: String,
    file: DelegateContextFile,
    fits: bool,
)
    requires
        call_ensures(ContextMachine::new, (valid, root, Some(bytes)), begun),
        call_ensures(validate_delegate_context, (Some(read),), checked),
        call_ensures(validate_delegate_context, (None,), missing),
        call_ensures(DelegateContextFile::candidate, (root, id), directory),
        call_ensures(DelegateContextFile::in_directory, (directory,), file),
        call_ensures(context_fits, (bytes,), fits),
    ensures
        begun.phase is Canonicalize <==> valid && absolute(root@),
        !(valid && absolute(root@)) ==> begun.phase == ContextAction::Refused(
            ProviderError::InvalidLaunchContext,
        ),
        begun.payload_fits <==> bytes <= 65_536,
        fits <==> bytes <= 65_536,
        begun.tried == 0,
        checked is Ok <==> read.bytes <= 65_536 && read.decoded && read.valid,
        checked is Err ==> checked->Err_0 is InvalidLaunchContext,
        missing == Err::<(), _>(ProviderError::InvalidLaunchContext),
        directory@ == joined(root@, "asr-provider-"@ + hyphenated_text(id.value)),
        file.directory == directory && file.file@ == joined(directory@, "context.json"@),
{
}

/// A delegate is launched by absolute paths, in a directory; what names the integrations is kept
/// from the provider, and nothing else of the environment is but what no provider may have.
pub proof fn delegates_are_launched_beside_providers(
    executable: String,
    cwd: String,
    is_directory: bool,
    context: DelegateContextFile,
    source: Vec<EnvEntry>,
    key: &str,
    launch: Result<ManagedLaunch, ProviderError>,
    entry: EnvEntry,
)
    requires
        call_ensures(
            ManagedLaunch::new,
            (executable, cwd, is_directory, context, source, key),
            launch,
        ),
    ensures
        launch is Ok <==> absolute(executable@) && absolute(cwd@) && is_directory,
        launch is Err ==> launch->Err_0 is InvalidLaunchContext,
        launch matches Ok(own) ==> own.asr_executable == executable && own.cwd == cwd && own.context
            == context,
        launch matches Ok(own) ==> (own.integration_environment@.contains(entry)
            <==> source@.contains(entry) && entry.key@ == key@),
        launch matches Ok(own) ==> (own.environment@.contains(entry) ==> source@.contains(entry)
            && entry.key@ != key@),
{
    let beside = |e: EnvEntry| e.key@ != key@;
    let under = |e: EnvEntry| e.key@ == key@;
    filtered_lists_hold_what_passes(source@, under, entry);
    filtered_lists_hold_what_passes(source@, beside, entry);
    filtered_lists_hold_what_passes(
        source@.filter(beside),
        |e: EnvEntry| crate::providers::provider_key(e.key@),
        entry,
    );
}

/// How a provider is told of the delegate's tools: the program and its words, the same to a
/// client that is configured by keys and to one that is by a file.
pub proof fn delegates_are_started_alike(
    launch: ManagedLaunch,
    tools: Vec<String>,
    words: Vec<String>,
    overrides: Result<Vec<String>, ProviderError>,
    config: Json,
)
    requires
        call_ensures(ManagedLaunch::delegate_arguments, (&launch,), words),
        call_ensures(ManagedLaunch::codex_mcp_overrides, (&launch, &tools), overrides),
        call_ensures(ManagedLaunch::claude_mcp_config, (&launch,), config),
    ensures
        texts(words@) == seq!["mcp"@, "delegate"@, "--context-file"@, launch.context.file@],
        overrides matches Ok(list) ==> texts(list@).len() == 12 && texts(list@)[0] == "-c"@
            && texts(list@)[1] == "mcp_servers.agent_session_router"@ + ".command="@ + json_quoted(
            launch.asr_executable@,
        ) && texts(list@)[3] == "mcp_servers.agent_session_router"@ + ".args="@ + json_list(
            texts(words@),
        ) && texts(list@)[5] == "mcp_servers.agent_session_router"@ + ".required=true"@ && texts(
            list@,
        )[7] == "mcp_servers.agent_session_router"@ + ".enabled_tools="@ + json_list(texts(tools@))
            && texts(list@)[9] == "mcp_servers.agent_session_router"@
            + ".default_tools_approval_mode=\"approve\""@,
        tools@.len() == 0 ==> overrides == Err::<Vec<String>, _>(ProviderError::LaunchFailed),
        config.model() is Object,
        config.model()->Object_0[0] == ("command"@, JsonModel::Text(launch.asr_executable@)),
        config.model()->Object_0[1].0 == "args"@,
        config.model()->Object_0[1].1 is Array && config.model()->Object_0[1].1->Array_0.len() == 4,
        config.model()->Object_0[1].1->Array_0[0] == JsonModel::Text("mcp"@),
        config.model()->Object_0[1].1->Array_0[1] == JsonModel::Text("delegate"@),
        config.model()->Object_0[1].1->Array_0[2] == JsonModel::Text("--context-file"@),
        config.model()->Object_0[1].1->Array_0[3] == JsonModel::Text(launch.context.file@),
        config.model()->Object_0[2] == ("env"@, JsonModel::Object(Seq::empty())),
{
}

/// A process is reaped in order: looked for, given five seconds where it was told to end, looked
/// for once more, killed and awaited.
pub proof fn processes_are_reaped_in_order(
    a: ReapPhase,
    b: ReapPhase,
    c: ReapPhase,
    d: ReapPhase,
    e: ReapPhase,
    f: ReapPhase,
)
    requires
        call_ensures(ReapPhase::step, (ReapPhase::Look { graceful: true }, ReapEvent::Running), a),
        call_ensures(ReapPhase::step, (a, ReapEvent::TimedOut), b),
        call_ensures(ReapPhase::step, (b, ReapEvent::Running), c),
        call_ensures(ReapPhase::step, (c, ReapEvent::Killed), d),
        call_ensures(ReapPhase::step, (d, ReapEvent::Exited), e),
        call_ensures(ReapPhase::step, (d, ReapEvent::Failed), f),
    ensures
        a == ReapPhase::Grace(5_000u64),
        b == (ReapPhase::Look { graceful: false }),
        c is Kill,
        d is Wait,
        e == (ReapPhase::Over { reaped: true }),
        f == (ReapPhase::Over { reaped: false }),
{
}

/// A process that has ended is reaped without being killed.
pub proof fn ended_processes_are_reaped(graceful: bool, time: u64, a: ReapPhase, b: ReapPhase)
    requires
        call_ensures(ReapPhase::step, (ReapPhase::Look { graceful }, ReapEvent::Exited), a),
        call_ensures(ReapPhase::step, (ReapPhase::Grace(time), ReapEvent::Exited), b),
    ensures
        a == (ReapPhase::Over { reaped: true }),
        b == (ReapPhase::Over { reaped: true }),
{
}

/// What an end comes to, and which process is left to end by itself.
pub proof fn ends_come_to_their_error(
    end: HostEnd,
    garbled: ProviderError,
    error: ProviderError,
    graceful: bool,
)
    requires
        call_ensures(HostEnd::error, (end, garbled), error),
        call_ensures(HostEnd::is_graceful, (end,), graceful),
    ensures
        end matches HostEnd::Refused(own) ==> error == own,
        end is TooLong || end is Garbled || end is StartOverdue ==> error == garbled,
        end is StopOverdue ==> error is RequestTimeout,
        end is Closed || end is ShutDown || end is Unwritten || end is ReadOut || end is Exited
            || end is Exhausted ==> error is ProviderDisconnected,
        graceful <==> end == (HostEnd::ShutDown { told: true }),
{
}

/// What a cancellation comes to: the end of the turn and the answer to its request.
pub proof fn cancellations_come_to_their_end(
    reason: CancelReason,
    end: TerminalReason,
    error: ProviderError,
    now: u64,
    millis: u64,
    time: u64,
)
    requires
        call_ensures(cancel_terminal_reason, (reason,), end),
        call_ensures(error_of_cancel, (reason,), error),
        call_ensures(after, (now, millis), time),
    ensures
        reason is RequestTimeout ==> end is RequestTimeout && error is RequestTimeout,
        reason is ProviderDisconnected ==> end is SessionEnded && error is ProviderDisconnected,
        reason is TaskInterrupted ==> end is OperatorInterrupt && error is ProviderDisconnected,
        reason is RequestCancelled ==> end is RequestCancelled && error is ProviderDisconnected,
        now + millis <= u64::MAX ==> time == now + millis,
        now + millis > u64::MAX ==> time == u64::MAX,
{
}

/// A bridge is launched by absolute paths, with time and a turn, and resumes only a session.
pub proof fn bridges_are_launched_by_absolute_paths(
    config: ClaudeConfig,
    regular: bool,
    checked: Result<(), ProviderError>,
    words: Vec<String>,
)
    requires
        call_ensures(ClaudeConfig::validate, (&config, regular), checked),
        call_ensures(ClaudeConfig::arguments, (&config,), words),
    ensures
        checked is Ok <==> absolute(config.node_executable@) && absolute(config.bridge_asset@)
            && regular && config.initialize_timeout > 0 && config.max_turns > 0 && (
        config.claude_executable is None || absolute(config.claude_executable->0@)) && (
        config.resume_session_id is None || parsed_uuid(config.resume_session_id->0@) is Some),
        checked is Err ==> checked->Err_0 is LaunchFailed,
        texts(words@) == texts(config.node_arguments@) + seq![config.bridge_asset@] + texts(
            config.bridge_arguments@,
        ),
{
}

/// A bridge of which nothing else is said is given ten seconds to begin and eight turns.
pub proof fn plain_bridges_are_launched_plainly(
    node: String,
    asset: String,
    launch: ManagedLaunch,
    config: ClaudeConfig,
    managed: Result<ClaudeConfig, ProviderError>,
    missing: Result<ClaudeConfig, ProviderError>,
)
    requires
        call_ensures(ClaudeConfig::with_bridge_asset, (node, asset, launch), config),
        call_ensures(ClaudeConfig::managed, (node, Some(asset), launch), managed),
        call_ensures(ClaudeConfig::managed, (node, None, launch), missing),
    ensures
        config.node_executable == node && config.bridge_asset == asset && config.launch == launch,
        config.initialize_timeout == 10_000 && config.max_turns == 8,
        config.claude_executable is None && config.resume_session_id is None,
        config.node_arguments@.len() == 0 && config.bridge_arguments@.len() == 0,
        managed is Ok && managed->Ok_0.node_executable == node && managed->Ok_0.bridge_asset
            == asset && managed->Ok_0.initialize_timeout == 10_000 && managed->Ok_0.max_turns == 8,
        missing is Err && missing->Err_0 is LaunchFailed,
{
}

/// A bridge is asked to begin with what was configured: the directory, the time, the turns and
/// the tools, and a session or a program only where one is.
pub proof fn bridges_begin_as_configured(config: ClaudeConfig, message: Json)
    requires
        call_ensures(ClaudeConfig::initialize_message, (&config,), message),
        config.resume_session_id is None,
        config.claude_executable is None,
    ensures
        message.model() is Object,
        message.model()->Object_0.len() == 4,
        message.model()->Object_0[0] == ("v"@, JsonModel::Unsigned(1)),
        message.model()->Object_0[1] == ("id"@, JsonModel::Unsigned(1)),
        message.model()->Object_0[2] == ("method"@, JsonModel::Text("initialize"@)),
        message.model()->Object_0[3].0 == "params"@,
        message.model()->Object_0[3].1 is Object,
        message.model()->Object_0[3].1->Object_0.len() == 4,
        message.model()->Object_0[3].1->Object_0[0] == (
            "cwd"@,
            JsonModel::Text(config.launch.cwd@),
        ),
        message.model()->Object_0[3].1->Object_0[1] == (
            "initializeTimeoutMs"@,
            JsonModel::Unsigned(config.initialize_timeout),
        ),
        message.model()->Object_0[3].1->Object_0[2] == (
            "maxTurns"@,
            JsonModel::Unsigned(config.max_turns as u64),
        ),
        message.model()->Object_0[3].1->Object_0[3].0 == "mcp"@,
{
}

/// A session that is resumed, and a program that is configured, are named to the bridge.
pub proof fn bridges_are_told_what_to_resume(config: ClaudeConfig, message: Json)
    requires
        call_ensures(ClaudeConfig::initialize_message, (&config,), message),
        config.resume_session_id is Some,
        config.claude_executable is Some,
    ensures
        message.model()->Object_0[3].1->Object_0.len() == 6,
        message.model()->Object_0[3].1->Object_0[0] == (
            "resumeSessionId"@,
            JsonModel::Text(config.resume_session_id->0@),
        ),
        message.model()->Object_0[3].1->Object_0[1] == (
            "cwd"@,
            JsonModel::Text(config.launch.cwd@),
        ),
        message.model()->Object_0[3].1->Object_0[2] == (
            "executablePath"@,
            JsonModel::Text(config.claude_executable->0@),
        ),
{
}

/// A bridge has begun where its first response says that it is ready; what it says otherwise is
/// its failure.
pub proof fn bridges_begin_when_they_are_ready(
    response: Json,
    session: Result<Option<Uuid>, ProviderError>,
    envelope: Result<(), ProviderError>,
    failure: ProviderError,
    greeting: Greeting,
    greeted: Result<Option<Uuid>, ProviderError>,
)
    requires
        call_ensures(check_initialized, (&response,), session),
        call_ensures(bridge_wire::validate_response_envelope, (&response, 1), envelope),
        call_ensures(bridge_wire::map_bridge_error, (&response,), failure),
        call_ensures(accept_greeting, (&greeting,), greeted),
    ensures
        envelope is Err ==> session == Err::<Option<Uuid>, _>(ProviderError::BridgeProtocolError),
        envelope is Ok && response.model().at("ok"@).boolean() == Some(false) ==> session == Err::<
            Option<Uuid>,
            _,
        >(failure),
        session is Ok ==> response.model().at("ok"@).boolean() == Some(true) && response.model().at(
            "result"@,
        ).text_at("state"@) == Some("ready"@),
        session == Ok::<Option<Uuid>, ProviderError>(None) ==> response.model().at("result"@).get(
            "sessionId"@,
        ) is None,
        (session matches Ok(Some(id))) ==> (response.model().at("result"@).get(
            "sessionId"@,
        ) matches Some(named) && (named.text() matches Some(text) && parsed_uuid(text) == Some(
            session->Ok_0->0.value,
        ))),
        envelope is Ok && response.model().at("ok"@).boolean() == Some(true) && response.model().at(
            "result"@,
        ).text_at("state"@) != Some("ready"@) ==> session == Err::<Option<Uuid>, _>(
            ProviderError::ClaudeInitializeFailed,
        ),
        greeting is Lost ==> greeted == Err::<Option<Uuid>, _>(ProviderError::ProviderDisconnected),
        greeting is TooLong ==> greeted == Err::<Option<Uuid>, _>(
            ProviderError::BridgeProtocolError,
        ),
        greeting is TimedOut ==> greeted == Err::<Option<Uuid>, _>(
            ProviderError::ClaudeInitializeFailed,
        ),
        greeting == Greeting::Read(Some(bridge_wire::WireEvent::Message(response))) ==> greeted
            == session,
        greeting == Greeting::Read(Some(bridge_wire::WireEvent::ProtocolError)) ==> greeted
            == Err::<Option<Uuid>, _>(ProviderError::BridgeProtocolError),
        greeting == Greeting::Read(None) || greeting == Greeting::Read(
            Some(bridge_wire::WireEvent::Eof),
        ) ==> greeted == Err::<Option<Uuid>, _>(ProviderError::ProviderDisconnected),
{
}

/// What the codes of the bridge stand for.
pub proof fn bridge_codes_stand_for_failures(response: Json, failure: ProviderError)
    requires
        call_ensures(bridge_wire::map_bridge_error, (&response,), failure),
    ensures
        ({
            let code = response.model().at("error"@).text_at("code"@);
            &&& code is None ==> failure is BridgeProtocolError
            &&& code == Some("claude_initialize_failed"@) ==> failure is ClaudeInitializeFailed
            &&& code == Some("request_timeout"@) ==> failure is RequestTimeout
            &&& code == Some("provider_disconnected"@) ==> failure is ProviderDisconnected
            &&& code == Some("error_max_turns"@) ==> failure is ClaudeMaxTurns
            &&& code == Some("claude_max_turns"@) ==> failure is ClaudeMaxTurns
            &&& code == Some("error_max_budget_usd"@) ==> failure is ClaudeMaxBudget
            &&& code == Some("claude_max_budget"@) ==> failure is ClaudeMaxBudget
            &&& code == Some("error_max_structured_output_retries"@) ==> failure
                is ClaudeStructuredOutputError
            &&& code == Some("claude_structured_output_error"@) ==> failure
                is ClaudeStructuredOutputError
            &&& code == Some("claude_no_result"@) ==> failure is ClaudeNoResult
            &&& code == Some("claude_sdk_error"@) ==> failure is ClaudeSdkError
            &&& code == Some("claude_protocol_error"@) ==> failure is ClaudeProtocolError
            &&& code == Some("bridge_protocol_error"@) ==> failure is BridgeProtocolError
            &&& code == Some("session_busy"@) ==> failure is BridgeProtocolError
            &&& code == Some("error_during_execution"@) ==> failure is ClaudeExecutionError
        }),
{
    reveal_strlit("claude_initialize_failed");
    assert("claude_initialize_failed"@.len() == 24);
    reveal_strlit("request_timeout");
    assert("request_timeout"@.len() == 15);
    reveal_strlit("provider_disconnected");
    assert("provider_disconnected"@.len() == 21);
    reveal_strlit("error_max_turns");
    assert("error_max_turns"@.len() == 15);
    reveal_strlit("claude_max_turns");
    assert("claude_max_turns"@.len() == 16);
    reveal_strlit("error_max_budget_usd");
    assert("error_max_budget_usd"@.len() == 20);
    reveal_strlit("claude_max_budget");
    assert("claude_max_budget"@.len() == 17);
    reveal_strlit("error_max_structured_output_retries");
    assert("error_max_structured_output_retries"@.len() == 35);
    reveal_strlit("claude_structured_output_error");
    assert("claude_structured_output_error"@.len() == 30);
    reveal_strlit("claude_no_result");
    assert("claude_no_result"@.len() == 16);
    reveal_strlit("claude_sdk_error");
    assert("claude_sdk_error"@.len() == 16);
    reveal_strlit("claude_protocol_error");
    assert("claude_protocol_error"@.len() == 21);
    reveal_strlit("bridge_protocol_error");
    assert("bridge_protocol_error"@.len() == 21);
    reveal_strlit("session_busy");
    assert("session_busy"@.len() == 12);
    reveal_strlit("error_during_execution");
    assert("error_during_execution"@.len() == 22);
    assert("request_timeout"@[0] != "error_max_turns"@[0]);
    assert("claude_no_result"@[7] != "claude_max_turns"@[7]);
    assert("claude_sdk_error"@[7] != "claude_max_turns"@[7]);
    assert("claude_sdk_error"@[7] != "claude_no_result"@[7]);
    assert("claude_protocol_error"@[0] != "provider_disconnected"@[0]);
    assert("bridge_protocol_error"@[0] != "provider_disconnected"@[0]);
    assert("bridge_protocol_error"@[0] != "claude_protocol_error"@[0]);
}

/// What the response to a turn says: the content of the session it names, or its failure.
pub proof fn turns_say_their_content(
    response: Json,
    answer: Result<bridge_wire::TurnAnswer, ProviderError>,
    failure: ProviderError,
    content: Seq<char>,
    text: Seq<char>,
    id: u128,
)
    requires
        call_ensures(bridge_wire::decode_turn_result, (&response,), answer),
        call_ensures(bridge_wire::map_bridge_error, (&response,), failure),
        parsed_uuid(text) == Some(id),
    ensures
        ({
            let result = response.model().at("result"@);
            let failed = response.model().at("ok"@).boolean() == Some(false);
            &&& !failed && result.get("sessionId"@) == Some(JsonModel::Text(text))
                && result.text_at("content"@) == Some(content) ==> (answer matches Ok(said)
                && said.result.model() == ResultModel::Success(content) && said.session_id == Some(
                Uuid { value: id },
            ))
            &&& !failed && result.get("sessionId"@) == Some(JsonModel::Text(text))
                && result.text_at("content"@) is None ==> (answer matches Ok(said)
                && said.result.model() == ResultModel::Failure(ProviderError::ClaudeNoResult)
                && said.session_id == Some(Uuid { value: id }))
            &&& !failed && result.get("sessionId"@) is None ==> answer == Err::<
                bridge_wire::TurnAnswer,
                _,
            >(ProviderError::BridgeProtocolError)
            &&& failed && response.model().at("error"@).get("sessionId"@) is None ==> (
            answer matches Ok(said) && said.result.model() == ResultModel::Failure(failure)
                && said.session_id is None)
            &&& failed && response.model().at("error"@).get("sessionId"@) == Some(
                JsonModel::Text(text),
            ) ==> (answer matches Ok(said) && said.result.model() == ResultModel::Failure(failure)
                && said.session_id == Some(Uuid { value: id }))
        }),
{
}

/// Which responses are to a request: of version one, of its number, with a result or an error as
/// they say.
pub proof fn responses_are_to_their_request(
    response: Json,
    id: u64,
    checked: Result<(), ProviderError>,
)
    requires
        call_ensures(bridge_wire::validate_response_envelope, (&response, id), checked),
    ensures
        checked is Ok ==> response.model().at("v"@).unsigned() == Some(1u64)
            && response.model().at("id"@).unsigned() == Some(id),
        checked is Ok && response.model().at("ok"@).boolean() == Some(true) ==> response.model().get(
            "result"@,
        ) is Some && response.model().get("error"@) is None,
        checked is Ok && response.model().at("ok"@).boolean() == Some(false)
            ==> response.model().get("result"@) is None && response.model().get("error"@) is Some,
        checked is Ok ==> response.model().at("ok"@).boolean() is Some,
        response.model() is Object && response.model().at("v"@).unsigned() == Some(1u64)
            && response.model().at("id"@).unsigned() == Some(id) && response.model().at(
            "ok"@,
        ).boolean() == Some(true) && response.model().get("result"@) is Some
            && response.model().get("error"@) is None ==> checked is Ok,
        checked is Err ==> checked->Err_0 is BridgeProtocolError,
{
}

/// What is said to a bridge of a turn: its request, its prompt and the time it has.
pub proof fn bridges_are_told_of_turns(
    id: u64,
    request_id: &str,
    prompt: &str,
    timeout: u64,
    reason: &str,
    turn: Json,
    cancel: Json,
    shutdown: Json,
)
    requires
        call_ensures(bridge_wire::turn_message, (id, request_id, prompt, timeout), turn),
        call_ensures(bridge_wire::cancel_message, (id, request_id, reason), cancel),
        call_ensures(bridge_wire::shutdown_message, (id,), shutdown),
    ensures
        turn.model() is Object && cancel.model() is Object && shutdown.model() is Object,
        turn.model()->Object_0[0] == ("v"@, JsonModel::Unsigned(1)),
        turn.model()->Object_0[1] == ("id"@, JsonModel::Unsigned(id)),
        turn.model()->Object_0[2] == ("method"@, JsonModel::Text("turn"@)),
        turn.model()->Object_0[3].0 == "params"@,
        turn.model()->Object_0[3].1->Object_0[0] == ("requestId"@, JsonModel::Text(request_id@)),
        turn.model()->Object_0[3].1->Object_0[1] == ("prompt"@, JsonModel::Text(prompt@)),
        turn.model()->Object_0[3].1->Object_0[2] == ("timeoutMs"@, JsonModel::Unsigned(timeout)),
        cancel.model()->Object_0[1] == ("id"@, JsonModel::Unsigned(id)),
        cancel.model()->Object_0[2] == ("method"@, JsonModel::Text("cancel"@)),
        cancel.model()->Object_0[3].1->Object_0[0] == ("requestId"@, JsonModel::Text(request_id@)),
        cancel.model()->Object_0[3].1->Object_0[1] == ("reason"@, JsonModel::Text(reason@)),
        shutdown.model()->Object_0[1] == ("id"@, JsonModel::Unsigned(id)),
        shutdown.model()->Object_0[2] == ("method"@, JsonModel::Text("shutdown"@)),
{
}

/// Which frames there are: of one byte to a mebibyte, and what holds no object breaks the
/// protocol.
pub proof fn frames_are_bounded(
    header: [u8; 4],
    length: Option<usize>,
    value: Option<Json>,
    event: bridge_wire::WireEvent,
    read: Option<bridge_wire::WireEvent>,
    end: Option<HostEnd>,
)
    requires
        call_ensures(bridge_wire::frame_length, (&header,), length),
        call_ensures(bridge_wire::message_of, (value,), event),
        call_ensures(bridge_wire::end_of_read, (&read,), end),
    ensures
        length matches Some(n) ==> n == header@[0] * 16777216 + header@[1] * 65536 + header@[2]
            * 256 + header@[3] && 0 < n <= 1_048_576,
        header@[0] == 0 && header@[1] == 0 && header@[2] == 0 && header@[3] == 0 ==> length is None,
        header@[0] > 0 ==> length is None,
        header@[0] == 0 && header@[1] == 0 && header@[3] > 0 ==> length is Some,
        event is Message <==> value is Some && value->0.model() is Object,
        event is Message ==> Some(event->Message_0) == value,
        !(event is Message) ==> event is ProtocolError,
        read matches Some(bridge_wire::WireEvent::Message(_)) ==> end is None,
        read == Some(bridge_wire::WireEvent::ProtocolError) ==> end == Some(HostEnd::Garbled),
        read == Some(bridge_wire::WireEvent::Eof) || read is None ==> end == Some(HostEnd::ReadOut),
{
}

/// A turn behind the bridge, where all goes well: it is started under the next number, answered
/// with what the response says, and the bridge is ready again.
pub proof fn bridge_turns_run_in_order(
    actor: &mut BridgeActor,
    request: SessionRequest,
    now: u64,
    step: HandleStep,
)
    requires
        old(actor).wf(),
        old(actor).can_call(),
        call_ensures(BridgeActor::start_turn, (actor, request, now), step),
    ensures
        old(actor).active is Some ==> step == HandleStep::Refuse(
            SessionResult::Failure { error: ProviderError::SessionBusy },
        ),
        old(actor).active is None && old(actor).state is Closed ==> step == HandleStep::Refuse(
            SessionResult::Failure { error: ProviderError::ProviderNotReady },
        ),
        old(actor).state is Idle && request.deadline <= now ==> step == HandleStep::Refuse(
            SessionResult::Failure { error: ProviderError::RequestTimeout },
        ),
        step is Refuse ==> *final(actor) == *old(actor),
        old(actor).state is Idle && now < request.deadline ==> step is Start && final(actor).state
            is Running && final(actor).active is Some && final(actor).active->0.rpc_id == old(actor).next_rpc_id && final(actor).next_rpc_id == old(actor).next_rpc_id + 1 && final(actor).active->0.request_id == request.request_id && final(actor).active->0.unanswered,
        old(actor).state is Idle && now < request.deadline ==> step->Start_0.model() is Object
            && step->Start_0.model()->Object_0[1] == (
            "id"@,
            JsonModel::Unsigned(old(actor).next_rpc_id),
        ) && step->Start_0.model()->Object_0[2] == ("method"@, JsonModel::Text("turn"@))
            && step->Start_0.model()->Object_0[3].1->Object_0 == seq![
            ("requestId"@, JsonModel::Text(request.request_id@)),
            ("prompt"@, JsonModel::Text(request.content@)),
            ("timeoutMs"@, JsonModel::Unsigned((request.deadline - now) as u64)),
        ],
        old(actor).state is Idle && now < request.deadline && request.deadline - now > 100
            ==> final(actor).active->0.deadline == request.deadline - 100,
        old(actor).state is Idle && now < request.deadline && request.deadline - now <= 100
            ==> final(actor).active->0.deadline == now,
{
}

/// The response to the turn that runs answers its request, and shows its end.
pub proof fn bridge_responses_answer_their_turn(
    actor: &mut BridgeActor,
    value: Json,
    now: u64,
    step: Result<ResponseStep, ProviderError>,
    envelope: Result<(), ProviderError>,
    said: Result<bridge_wire::TurnAnswer, ProviderError>,
)
    requires
        old(actor).wf(),
        old(actor).can_call(),
        old(actor).state is Running,
        old(actor).active->0.unanswered,
        value.model().at("id"@).unsigned() == Some(old(actor).active->0.rpc_id),
        call_ensures(BridgeActor::process_response, (actor, &value, now), step),
        call_ensures(
            bridge_wire::validate_response_envelope,
            (&value, old(actor).active->0.rpc_id),
            envelope,
        ),
        call_ensures(bridge_wire::decode_turn_result, (&value,), said),
    ensures
        envelope is Err ==> step == Err::<ResponseStep, _>(ProviderError::BridgeProtocolError)
            && *final(actor) == *old(actor),
        envelope is Ok && said is Err ==> step is Err && step->Err_0 == said->Err_0,
        envelope is Ok && (said matches Ok(answer) && answer.result is Success) ==> {
            &&& step matches Ok(ResponseStep::Finished(Some(result), evidence))
            &&& result.model() == said->Ok_0.result.model()
            &&& evidence.request_id@ == old(actor).active->0.request_id@
            &&& evidence.reason is TurnEnded
            &&& !evidence.child_reaped
            &&& final(actor).state is Idle
            &&& final(actor).active is None
            &&& said->Ok_0.session_id is Some ==> final(actor).session_id == said->Ok_0.session_id
            &&& said->Ok_0.session_id is None ==> final(actor).session_id == old(actor).session_id
        },
        envelope is Ok && (said matches Ok(answer) && answer.result == (SessionResult::Failure {
            error: ProviderError::ClaudeMaxTurns,
        })) ==> (step matches Ok(ResponseStep::Finished(Some(result), evidence)) && result.model()
            == ResultModel::Failure(ProviderError::ClaudeMaxTurns) && evidence.reason is TurnEnded)
            && final(actor).state is Idle,
        envelope is Ok && (said matches Ok(answer) && answer.result == (SessionResult::Failure {
            error: ProviderError::ProviderDisconnected,
        })) ==> (step matches Ok(ResponseStep::Close(evidence, close)) && evidence.reason
            is HostError && (close.result matches Some(result) && result.model()
            == ResultModel::Failure(ProviderError::ProviderDisconnected))) && final(actor).state
            is Cancelling,
        envelope is Ok && (said matches Ok(answer) && answer.result == (SessionResult::Failure {
            error: ProviderError::RequestTimeout,
        })) ==> (step matches Ok(ResponseStep::Close(evidence, close)) && evidence.reason
            is RequestTimeout && (close.result matches Some(result) && result.model()
            == ResultModel::Failure(ProviderError::RequestTimeout))) && final(actor).state
            is Cancelling,
{
}

/// A turn that is cancelled is answered once, and the bridge is told to cancel it and to end
/// within five seconds.
pub proof fn bridge_turns_are_cancelled_with_their_bridge(
    actor: &mut BridgeActor,
    request_id: &str,
    reason: CancelReason,
    now: u64,
    step: Result<Option<CloseStep>, ProviderError>,
    error: ProviderError,
    end: TerminalReason,
)
    requires
        old(actor).wf(),
        old(actor).can_call(),
        call_ensures(BridgeActor::cancel_turn, (actor, request_id, reason, now), step),
        call_ensures(error_of_cancel, (reason,), error),
        call_ensures(cancel_terminal_reason, (reason,), end),
    ensures
        old(actor).active is None || old(actor).active->0.request_id@ != request_id@ ==> step
            == Err::<Option<CloseStep>, _>(ProviderError::ProviderNotReady) && *final(actor)
            == *old(actor),
        old(actor).state is Running && old(actor).active->0.request_id@ == request_id@ ==> {
            &&& step matches Ok(Some(close))
            &&& old(actor).active->0.unanswered ==> (close.result matches Some(result)
                && result.model() == ResultModel::Failure(error))
            &&& !old(actor).active->0.unanswered ==> close.result is None
            &&& close.cancel.model()->Object_0[1] == (
                "id"@,
                JsonModel::Unsigned(old(actor).next_rpc_id),
            )
            &&& close.cancel.model()->Object_0[2] == ("method"@, JsonModel::Text("cancel"@))
            &&& close.cancel.model()->Object_0[3].1->Object_0[0] == (
                "requestId"@,
                JsonModel::Text(old(actor).active->0.request_id@),
            )
            &&& close.cancel.model()->Object_0[3].1->Object_0[1] == (
                "reason"@,
                JsonModel::Text(
                    match reason {
                        CancelReason::RequestTimeout => "request_timeout"@,
                        CancelReason::ProviderDisconnected => "provider_disconnected"@,
                        CancelReason::TaskInterrupted => "task_interrupted"@,
                        CancelReason::RequestCancelled => "task_interrupted"@,
                    },
                ),
            )
            &&& close.shutdown.model()->Object_0[2] == ("method"@, JsonModel::Text("shutdown"@))
            &&& final(actor).state is Cancelling
            &&& !final(actor).active->0.unanswered
            &&& final(actor).active->0.terminal_reason == end
            &&& now <= u64::MAX - 5_000 ==> final(actor).active->0.close_deadline == Some(
                (now + 5_000) as u64,
            )
            &&& final(actor).next_rpc_id == old(actor).next_rpc_id + 2
        },
        old(actor).state is Cancelling && old(actor).active->0.request_id@ == request_id@ ==> step
            == Ok::<Option<CloseStep>, ProviderError>(None) && *final(actor) == *old(actor),
{
}

/// A request whose time is over, and one whose bridge is closed, are answered so.
pub proof fn overdue_turns_are_given_up(actor: &mut BridgeActor, now: u64, step: CloseStep)
    requires
        old(actor).wf(),
        old(actor).can_call(),
        old(actor).state is Running,
        old(actor).active->0.unanswered,
        call_ensures(BridgeActor::handle_request_timeout, (actor, now), step),
    ensures
        step.result matches Some(result) && result.model() == ResultModel::Failure(
            ProviderError::RequestTimeout,
        ),
        step.cancel.model()->Object_0[3].1->Object_0[1] == (
            "reason"@,
            JsonModel::Text("request_timeout"@),
        ),
        final(actor).state is Cancelling,
        final(actor).active->0.terminal_reason is RequestTimeout,
        !final(actor).active->0.terminal_sent,
{
}

/// A bridge that is closed while nothing runs is told to end; a turn that runs is given up first.
pub proof fn bridges_are_closed_after_their_turn(actor: &mut BridgeActor, now: u64, step: ActorClose)
    requires
        old(actor).wf(),
        old(actor).can_call(),
        call_ensures(BridgeActor::close_actor, (actor, now), step),
    ensures
        old(actor).active is None ==> (step matches ActorClose::Shutdown(message)
            && message.model()->Object_0[2] == ("method"@, JsonModel::Text("shutdown"@)))
            && *final(actor) == *old(actor),
        old(actor).active is Some ==> step is Turn && final(actor).state is Cancelling && final(actor).active->0.terminal_reason is SessionEnded,
        old(actor).active is Some && old(actor).active->0.unanswered ==> (
        step->Turn_0.result matches Some(result) && result.model() == ResultModel::Failure(
            ProviderError::ProviderDisconnected,
        )),
{
}

/// What the end of a bridge leaves: a request that was not answered is, and an end that was not
/// shown is.
pub proof fn ended_bridges_answer_what_is_open(
    actor: &mut BridgeActor,
    end: HostEnd,
    reaped: bool,
    step: FinishStep,
)
    requires
        old(actor).wf(),
        call_ensures(BridgeActor::finish, (actor, end, reaped), step),
    ensures
        final(actor).state is Closed && final(actor).active is None,
        old(actor).active is None ==> step.result is None && step.evidence is None,
        (old(actor).active matches Some(turn) && turn.unanswered) ==> step.result is Some,
        (old(actor).active matches Some(turn) && !turn.unanswered) ==> step.result is None,
        (old(actor).active matches Some(turn) && turn.unanswered) && end is Garbled
            ==> step.result->0.model() == ResultModel::Failure(ProviderError::BridgeProtocolError),
        (old(actor).active matches Some(turn) && turn.unanswered) && end is StopOverdue
            ==> step.result->0.model() == ResultModel::Failure(ProviderError::RequestTimeout),
        (old(actor).active matches Some(turn) && turn.unanswered) && (end is Exited || end is ReadOut
            || end is Closed) ==> step.result->0.model() == ResultModel::Failure(
            ProviderError::ProviderDisconnected,
        ),
        (old(actor).active matches Some(turn) && turn.unanswered) && end == HostEnd::Refused(
            ProviderError::ClaudeProtocolError,
        ) ==> step.result->0.model() == ResultModel::Failure(ProviderError::ClaudeProtocolError),
        (old(actor).active matches Some(turn) && !turn.terminal_sent) ==> (
        step.evidence matches Some(evidence) && evidence.child_reaped == reaped
            && evidence.request_id@ == old(actor).active->0.request_id@ && evidence.reason == old(actor).active->0.terminal_reason),
        (old(actor).active matches Some(turn) && turn.terminal_sent) ==> step.evidence is None,
{
}

/// An app server is launched by an absolute path, listens to its input and output, and is told of
/// the delegate's tools before.
pub proof fn app_servers_are_launched_with_the_tools(
    config: CodexConfig,
    words: Result<Vec<String>, ProviderError>,
    tools: Result<Vec<String>, ProviderError>,
)
    requires
        call_ensures(CodexConfig::arguments, (&config,), words),
        call_ensures(
            ManagedLaunch::codex_mcp_overrides,
            (&config.launch, &config.enabled_tools),
            tools,
        ),
    ensures
        words is Ok <==> absolute(config.executable@) && config.rpc_timeout > 0 && tools is Ok,
        words is Err ==> words->Err_0 is LaunchFailed,
        words matches Ok(list) ==> texts(list@) == texts(config.executable_arguments@) + seq![
            "app-server"@,
        ] + texts(tools->Ok_0@) + seq!["--listen"@, "stdio://"@],
{
}

/// How the client introduces itself, and how long it waits, where nothing else is said.
pub proof fn app_servers_know_the_client(
    executable: String,
    launch: ManagedLaunch,
    thread: ThreadSelection,
    tools: Vec<String>,
    version: &str,
    config: CodexConfig,
)
    requires
        call_ensures(CodexConfig::managed, (executable, launch, thread, tools, version), config),
    ensures
        config.executable == executable && config.launch == launch && config.thread == thread
            && config.enabled_tools == tools && config.rpc_timeout == 5_000,
        config.executable_arguments@.len() == 0,
        config.client_info.model() == JsonModel::Object(
            seq![
                ("name"@, JsonModel::Text("agent-session-router"@)),
                ("title"@, JsonModel::Text("Agent Session Router"@)),
                ("version"@, JsonModel::Text(version@)),
            ],
        ),
{
    assert(config.client_info.model()->Object_0 =~= seq![
        ("name"@, JsonModel::Text("agent-session-router"@)),
        ("title"@, JsonModel::Text("Agent Session Router"@)),
        ("version"@, JsonModel::Text(version@)),
    ]);
}

/// A session begins in order: the client introduces itself under number one, says that it is
/// ready, selects a thread under number two, and the session is in the thread that the answer
/// names.
pub proof fn sessions_begin_in_order(
    client_info: Json,
    thread: ThreadSelection,
    begun: (Handshake, Json),
    handshake: &mut Handshake,
    value: Json,
    step: Result<HandshakeStep, ProviderError>,
    request: bool,
    id: Option<u64>,
    result: Result<&Json, ProviderError>,
    named: Option<String>,
    none: Result<String, ProviderError>,
    some: Result<String, ProviderError>,
    text: String,
)
    requires
        call_ensures(Handshake::begin, (client_info, thread), begun),
        old(handshake).wf(),
        call_ensures(Handshake::on_message, (handshake, &value), step),
        call_ensures(codex_wire::is_server_request, (&value,), request),
        call_ensures(codex_wire::response_id, (&value,), id),
        call_ensures(codex_wire::response_result, (&value,), result),
        call_ensures(codex_wire::response_thing, (&value, "thread"), named),
        call_ensures(Handshake::conclude, (None,), none),
        call_ensures(Handshake::conclude, (Some(text),), some),
    ensures
        begun.0.stage is Introduced && begun.0.thread == Some(thread),
        begun.1.model()->Object_0[0] == ("id"@, JsonModel::Unsigned(1)),
        begun.1.model()->Object_0[1] == ("method"@, JsonModel::Text("initialize"@)),
        begun.1.model()->Object_0[2].1->Object_0[0] == ("clientInfo"@, client_info.model()),
        request ==> (step matches Ok(HandshakeStep::Write(_))) && *final(handshake) == *old(handshake),
        !request && old(handshake).stage is Introduced && id != Some(1u64) ==> step == Ok::<
            HandshakeStep,
            ProviderError,
        >(HandshakeStep::Ignore),
        !request && old(handshake).stage is Selecting && id != Some(2u64) ==> step == Ok::<
            HandshakeStep,
            ProviderError,
        >(HandshakeStep::Ignore),
        !request && old(handshake).stage is Introduced && id == Some(1u64) && result is Err
            ==> step == Err::<HandshakeStep, _>(ProviderError::CodexProtocolError),
        !request && old(handshake).stage is Introduced && id == Some(1u64) && result is Ok ==> {
            &&& step matches Ok(HandshakeStep::Select(ready, select))
            &&& ready.model()->Object_0[0] == ("method"@, JsonModel::Text("initialized"@))
            &&& select.model()->Object_0[0] == ("id"@, JsonModel::Unsigned(2))
            &&& old(handshake).thread->0 is Start ==> select.model()->Object_0[1] == (
                "method"@,
                JsonModel::Text("thread/start"@),
            )
            &&& old(handshake).thread->0 is Resume ==> select.model()->Object_0[1] == (
                "method"@,
                JsonModel::Text("thread/resume"@),
            )
            &&& (old(handshake).thread->0 matches ThreadSelection::Resume { thread_id, params })
                ==> select.model()->Object_0[2].1->Object_0.last() == (
                "threadId"@,
                JsonModel::Text(old(handshake).thread->0->Resume_thread_id@),
            )
            &&& final(handshake).stage is Selecting
        },
        !request && old(handshake).stage is Selecting && id == Some(2u64) && result is Ok && named
            is Some ==> (step matches Ok(HandshakeStep::Ready(thread_id)) && thread_id@
            == named->0@) && final(handshake).stage is Ready,
        !request && old(handshake).stage is Selecting && id == Some(2u64) && result is Ok && named
            is None ==> step == Err::<HandshakeStep, _>(ProviderError::CodexInitializeFailed),
        none == Err::<String, _>(ProviderError::CodexInitializeFailed),
        some == Ok::<_, ProviderError>(text),
{
}

/// What a response of the app server says: it is to the number it bears, unless it calls a
/// method; it has a result where it has one and no error; and the name of a thing is no empty one.
pub proof fn responses_say_their_result(
    value: Json,
    id: Option<u64>,
    result: Result<&Json, ProviderError>,
    named: Option<String>,
)
    requires
        call_ensures(codex_wire::response_id, (&value,), id),
        call_ensures(codex_wire::response_result, (&value,), result),
        call_ensures(codex_wire::response_thing, (&value, "thread"), named),
    ensures
        value.model().get("method"@) is Some ==> id is None,
        value.model().get("method"@) is None ==> id == value.model().at("id"@).unsigned(),
        result is Ok <==> value.model().get("result"@) is Some && value.model().get(
            "error"@,
        ) is None,
        result is Ok ==> Some(result->Ok_0.model()) == value.model().get("result"@),
        result is Err ==> result->Err_0 is CodexProtocolError && named is None,
        named matches Some(text) ==> text@.len() > 0 && result->Ok_0.model().at("thread"@).text_at(
            "id"@,
        ) == Some(text@),
        result is Ok && (result->Ok_0.model().at("thread"@).text_at("id"@) matches Some(text)
            && text.len() > 0) ==> named is Some,
{
}

/// Requests of the app server are declined: no command, no change, no permission.
pub proof fn requests_of_the_app_server_are_declined(
    request: Json,
    method: Seq<char>,
    answer: Result<Json, ProviderError>,
)
    requires
        call_ensures(codex_wire::answer_server_request, (&request,), answer),
        request.model().text_at("method"@) == Some(method),
        request.model().get("id"@) matches Some(id) && (id is Text || id is Unsigned || id
            is Negative),
    ensures
        answer is Ok && answer->Ok_0.model() is Object && answer->Ok_0.model()->Object_0.len() == 2,
        answer->Ok_0.model()->Object_0[0] == ("id"@, request.model().at("id"@)),
        method == "item/commandExecution/requestApproval"@ || method
            == "item/fileChange/requestApproval"@ ==> answer->Ok_0.model()->Object_0[1] == (
            "result"@,
            JsonModel::Object(seq![("decision"@, JsonModel::Text("decline"@))]),
        ),
        method == "item/permissions/requestApproval"@ ==> answer->Ok_0.model()->Object_0[1] == (
            "result"@,
            JsonModel::Object(seq![("permissions"@, JsonModel::Array(Seq::empty()))]),
        ),
        method == "mcpServer/elicitation/request"@ ==> answer->Ok_0.model()->Object_0[1].0
            == "result"@ && answer->Ok_0.model()->Object_0[1].1->Object_0[0] == (
            "action"@,
            JsonModel::Text("decline"@),
        ),
        method == "execCommandApproval"@ ==> answer->Ok_0.model()->Object_0[1].0 == "error"@
            && answer->Ok_0.model()->Object_0[1].1->Object_0[0] == (
            "code"@,
            JsonModel::Negative(-32601i64),
        ),
{
    reveal_strlit("item/commandExecution/requestApproval");
    assert("item/commandExecution/requestApproval"@.len() == 37);
    reveal_strlit("item/fileChange/requestApproval");
    assert("item/fileChange/requestApproval"@.len() == 31);
    reveal_strlit("item/permissions/requestApproval");
    assert("item/permissions/requestApproval"@.len() == 32);
    reveal_strlit("mcpServer/elicitation/request");
    assert("mcpServer/elicitation/request"@.len() == 29);
    reveal_strlit("execCommandApproval");
    assert("execCommandApproval"@.len() == 19);
}

/// What is said to the app server of a turn: the thread and the text; and to interrupt it, the
/// thread and the turn.
pub proof fn app_servers_are_told_of_turns(
    id: u64,
    thread_id: &str,
    content: &str,
    turn_id: &str,
    turn: Json,
    interrupt: Json,
)
    requires
        call_ensures(codex_wire::turn_message, (id, thread_id, content), turn),
        call_ensures(codex_wire::interrupt_message, (id, thread_id, turn_id), interrupt),
    ensures
        turn.model()->Object_0[0] == ("id"@, JsonModel::Unsigned(id)),
        turn.model()->Object_0[1] == ("method"@, JsonModel::Text("turn/start"@)),
        turn.model()->Object_0[2].1->Object_0[0] == ("threadId"@, JsonModel::Text(thread_id@)),
        turn.model()->Object_0[2].1->Object_0[1].0 == "input"@,
        turn.model()->Object_0[2].1->Object_0[1].1->Array_0.len() == 1,
        turn.model()->Object_0[2].1->Object_0[1].1->Array_0[0]->Object_0[0] == (
            "type"@,
            JsonModel::Text("text"@),
        ),
        turn.model()->Object_0[2].1->Object_0[1].1->Array_0[0]->Object_0[1] == (
            "text"@,
            JsonModel::Text(content@),
        ),
        interrupt.model()->Object_0[0] == ("id"@, JsonModel::Unsigned(id)),
        interrupt.model()->Object_0[1] == ("method"@, JsonModel::Text("turn/interrupt"@)),
        interrupt.model()->Object_0[2].1->Object_0[0] == ("threadId"@, JsonModel::Text(thread_id@)),
        interrupt.model()->Object_0[2].1->Object_0[1] == ("turnId"@, JsonModel::Text(turn_id@)),
{
}

/// What is written to the app server is one line, of at most a mebibyte, that reads as what was
/// written wherever the line's bytes do.
pub proof fn app_servers_are_written_lines(
    value: Json,
    line: Result<Vec<u8>, ProviderError>,
    bytes: &[u8],
    event: codex_wire::WireEvent,
    read: Option<codex_wire::WireEvent>,
    end: Option<HostEnd>,
)
    requires
        call_ensures(codex_wire::json_line, (&value,), line),
        call_ensures(codex_wire::read_json_line, (bytes,), event),
        call_ensures(codex_wire::end_of_read, (&read,), end),
    ensures
        line is Ok <==> encoded_json(value.model()).len() <= 1_048_576,
        line matches Ok(own) ==> own@.len() == encoded_json(value.model()).len() + 1 && own@.last()
            == 10 && own@.drop_last() == encoded_json(value.model()),
        line is Err ==> line->Err_0 is CodexProtocolError,
        event is Message <==> bytes@.len() <= 1_048_576 && (parsed_json(bytes@) matches Some(model)
            && model is Object),
        event is Message ==> Some(event->value.model()) == parsed_json(bytes@) && event->bytes
            == bytes@.len(),
        !(event is Message) ==> event is ProtocolError,
        (read matches Some(codex_wire::WireEvent::Message { value: own, bytes: n })) ==> end
            is None,
        read == Some(codex_wire::WireEvent::ProtocolError) ==> end == Some(HostEnd::Garbled),
        read == Some(codex_wire::WireEvent::Eof) || read is None ==> end == Some(HostEnd::ReadOut),
{
    assert(encoded_json(value.model()).push(10u8).drop_last() =~= encoded_json(value.model()));
}

/// What the bridge answers while it is being closed shows the end of the turn once.
pub proof fn closing_turns_end_once(
    actor: &mut BridgeActor,
    value: Json,
    now: u64,
    step: Result<ResponseStep, ProviderError>,
)
    requires
        old(actor).wf(),
        old(actor).can_call(),
        old(actor).active is Some,
        old(actor).active->0.close_deadline is Some,
        value.model().at("id"@).unsigned() == Some(old(actor).active->0.rpc_id),
        call_ensures(BridgeActor::process_response, (actor, &value, now), step),
    ensures
        step is Ok ==> final(actor).active is Some && final(actor).active->0.terminal_sent,
        step is Ok && old(actor).active->0.terminal_sent ==> step->Ok_0 is Nothing,
        step is Ok && !old(actor).active->0.terminal_sent ==> (
        step->Ok_0 matches ResponseStep::Ended(evidence) && evidence.request_id@
            == old(actor).active->0.request_id@ && evidence.reason
            == old(actor).active->0.terminal_reason),
        step is Err ==> *final(actor) == *old(actor),
{
}

} // verus!
