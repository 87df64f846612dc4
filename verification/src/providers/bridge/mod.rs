//! The provider that runs sessions behind a bridge.

use vstd::prelude::*;

use crate::ids::{parsed_uuid, Uuid};
use crate::json::{field, member_models, object, Json, JsonModel, Member};
use crate::paths::{absolute, is_absolute};
use crate::providers::bridge::wire::{
    bridge_failure, call_model, error_code, map_bridge_error, parse_session_id, response_to,
    session_named, validate_response_envelope, WireEvent,
};
use crate::providers::{config_model, ManagedLaunch, ProviderError};
use crate::text::{concat, kebab, kebab_case, opt_text, texts};

pub mod turn;
pub mod wire;

verus! {

/// How long the bridge may take to begin where nothing else is said.
pub const DEFAULT_INITIALIZE_TIMEOUT_MS: u64 = 10_000;

/// How many turns of the model one request may take where nothing else is said.
pub const DEFAULT_MAX_TURNS: u32 = 8;

/// How a bridge is launched.
pub struct ClaudeConfig {
    pub node_executable: String,
    pub node_arguments: Vec<String>,
    pub bridge_asset: String,
    pub bridge_arguments: Vec<String>,
    pub claude_executable: Option<String>,
    pub launch: ManagedLaunch,
    pub resume_session_id: Option<String>,
    pub initialize_timeout: u64,
    pub max_turns: u32,
}

/// Where the bridge is among the assets of the integrations.
pub fn bridge_asset_path() -> (path: String)
    ensures
        path@ == kebab_case("claude_sdk"@) + "/bridge.js"@,
{
    concat(kebab("claude_sdk").as_str(), "/bridge.js")
}

/// Whether a bridge can be launched: programs and the bridge are given by absolute paths,
/// the bridge is a file itself, there is time and a turn, and a session that is resumed is
/// one.
pub open spec fn launchable(config: ClaudeConfig, bridge_is_regular: bool) -> bool {
    &&& absolute(config.node_executable@)
    &&& absolute(config.bridge_asset@)
    &&& bridge_is_regular
    &&& config.initialize_timeout > 0
    &&& config.max_turns > 0
    &&& config.claude_executable matches Some(path) ==> absolute(path@)
    &&& config.resume_session_id matches Some(id) ==> parsed_uuid(id@) is Some
}

/// The launch of a bridge of which nothing but the program, the bridge and the delegate is
/// said.
pub open spec fn plain_launch(
    config: ClaudeConfig,
    node_executable: String,
    bridge_asset: String,
    launch: ManagedLaunch,
) -> bool {
    &&& config.node_executable == node_executable
    &&& config.node_arguments@.len() == 0
    &&& config.bridge_asset == bridge_asset
    &&& config.bridge_arguments@.len() == 0
    &&& config.claude_executable is None
    &&& config.launch == launch
    &&& config.resume_session_id is None
    &&& config.initialize_timeout == DEFAULT_INITIALIZE_TIMEOUT_MS
    &&& config.max_turns == DEFAULT_MAX_TURNS
}

/// The arguments that a bridge is launched with.
pub open spec fn node_texts(config: ClaudeConfig) -> Seq<Seq<char>> {
    texts(config.node_arguments@) + seq![config.bridge_asset@] + texts(config.bridge_arguments@)
}

/// A member that is left out where there is no text.
pub open spec fn optional_text(key: Seq<char>, value: Option<Seq<char>>) -> Seq<
    (Seq<char>, JsonModel),
> {
    match value {
        Some(text) => seq![(key, JsonModel::Text(text))],
        None => Seq::empty(),
    }
}

/// The parameters of the request that the bridge begins with.
pub open spec fn initialize_params(config: ClaudeConfig) -> Seq<(Seq<char>, JsonModel)> {
    optional_text("resumeSessionId"@, opt_text(config.resume_session_id)) + seq![
        ("cwd"@, JsonModel::Text(config.launch.cwd@)),
    ] + optional_text("executablePath"@, opt_text(config.claude_executable)) + seq![
        ("initializeTimeoutMs"@, JsonModel::Unsigned(config.initialize_timeout)),
        ("maxTurns"@, JsonModel::Unsigned(config.max_turns as u64)),
        ("mcp"@, config_model(config.launch.asr_executable@, config.launch.context.file@)),
    ]
}

fn push_texts(list: &mut Vec<String>, more: &Vec<String>)
    ensures
        texts(final(list)@) == texts(old(list)@) + texts(more@),
{
    let ghost before = list@;
    let mut i: usize = 0;
    while i < more.len()
        invariant
            i <= more@.len(),
            list@.len() == before.len() + i,
            forall|j: int| 0 <= j < before.len() ==> #[trigger] list@[j] == before[j],
            forall|j: int|
                before.len() <= j < list@.len() ==> #[trigger] list@[j]@ == more@[j
                    - before.len()]@,
        decreases more.len() - i,
    {
        list.push(more[i].as_str().to_owned());
        i += 1;
    }
    assert(texts(list@) =~= texts(before) + texts(more@));
}

impl ClaudeConfig {
    /// The launch of a bridge that is among the assets of the integrations. Where its path
    /// (`bridge_asset_path`) leads there is looked up before.
    pub fn managed(
        node_executable: String,
        resolved_asset: Option<String>,
        launch: ManagedLaunch,
    ) -> (config: Result<ClaudeConfig, ProviderError>)
        ensures
            match (resolved_asset, config) {
                (Some(asset), Ok(config)) => plain_launch(config, node_executable, asset, launch),
                (None, Err(error)) => error == ProviderError::LaunchFailed,
                _ => false,
            },
    {
        match resolved_asset {
            Some(asset) => Ok(Self::with_bridge_asset(node_executable, asset, launch)),
            None => Err(ProviderError::LaunchFailed),
        }
    }

    /// The launch of a bridge beside a delegate.
    pub fn with_bridge_asset(node_executable: String, bridge_asset: String, launch: ManagedLaunch) -> (config:
        ClaudeConfig)
        ensures
            plain_launch(config, node_executable, bridge_asset, launch),
    {
        ClaudeConfig {
            node_executable,
            node_arguments: Vec::new(),
            bridge_asset,
            bridge_arguments: Vec::new(),
            claude_executable: None,
            launch,
            resume_session_id: None,
            initialize_timeout: DEFAULT_INITIALIZE_TIMEOUT_MS,
            max_turns: DEFAULT_MAX_TURNS,
        }
    }

    /// Whether the bridge can be launched. Whether it is a file itself, and no link, is
    /// looked up before.
    pub fn validate(&self, bridge_is_regular: bool) -> (checked: Result<(), ProviderError>)
        ensures
            checked == if launchable(*self, bridge_is_regular) {
                Ok::<(), ProviderError>(())
            } else {
                Err(ProviderError::LaunchFailed)
            },
    {
        let executable_ok = match &self.claude_executable {
            Some(path) => is_absolute(path.as_str()),
            None => true,
        };
        let session_ok = match &self.resume_session_id {
            Some(id) => Uuid::parse(id.as_str()).is_some(),
            None => true,
        };
        if !is_absolute(self.node_executable.as_str()) || !is_absolute(self.bridge_asset.as_str())
            || !bridge_is_regular || self.initialize_timeout == 0 || self.max_turns == 0
            || !executable_ok || !session_ok {
            return Err(ProviderError::LaunchFailed);
        }
        Ok(())
    }

    /// The arguments that the bridge is launched with.
    pub fn arguments(&self) -> (arguments: Vec<String>)
        ensures
            texts(arguments@) == node_texts(*self),
    {
        let mut arguments: Vec<String> = Vec::new();
        assert(texts(arguments@) =~= Seq::<Seq<char>>::empty());
        push_texts(&mut arguments, &self.node_arguments);
        let ghost first = arguments@;
        arguments.push(self.bridge_asset.as_str().to_owned());
        assert(texts(arguments@) =~= texts(first) + seq![self.bridge_asset@]);
        push_texts(&mut arguments, &self.bridge_arguments);
        assert(texts(arguments@) =~= node_texts(*self));
        arguments
    }

    /// The request that the bridge begins with.
    pub fn initialize_message(&self) -> (message: Json)
        ensures
            message.model() == call_model(
                1,
                "initialize"@,
                JsonModel::Object(initialize_params(*self)),
            ),
    {
        let mut params: Vec<Member> = Vec::new();
        if let Some(resume) = &self.resume_session_id {
            params.push(field("resumeSessionId", Json::of_text(resume.as_str())));
        }
        params.push(field("cwd", Json::of_text(self.launch.cwd())));
        if let Some(executable) = &self.claude_executable {
            params.push(field("executablePath", Json::of_text(executable.as_str())));
        }
        params.push(field("initializeTimeoutMs", Json::Unsigned(self.initialize_timeout)));
        params.push(field("maxTurns", Json::Unsigned(self.max_turns as u64)));
        params.push(field("mcp", self.launch.claude_mcp_config()));
        assert(member_models(params@) =~= initialize_params(*self));
        let message = object(
            vec![
                field("v", Json::Unsigned(1)),
                field("id", Json::Unsigned(1)),
                field("method", Json::of_text("initialize")),
                field("params", object(params)),
            ],
        );
        assert(message.model()->Object_0 =~= call_model(
            1,
            "initialize"@,
            JsonModel::Object(initialize_params(*self)),
        )->Object_0);
        message
    }
}

/// The session that a bridge begins with, from its first response, or why it does not.
pub open spec fn initialized(response: JsonModel) -> Result<Option<Uuid>, ProviderError> {
    let result = response.at("result"@);
    if !response_to(response, 1) {
        Err(ProviderError::BridgeProtocolError)
    } else if response.at("ok"@).boolean() != Some(true) {
        Err(bridge_failure(error_code(response)))
    } else if !(result is Object) || result.text_at("state"@) != Some("ready"@) {
        Err(ProviderError::ClaudeInitializeFailed)
    } else {
        match result.get("sessionId"@) {
            None => Ok(None),
            Some(named) => match session_named(named) {
                Some(id) => Ok(Some(id)),
                None => Err(ProviderError::ClaudeInitializeFailed),
            },
        }
    }
}

/// The session that a bridge begins with, from its first response.
pub fn check_initialized(response: &Json) -> (session: Result<Option<Uuid>, ProviderError>)
    ensures
        session == initialized(response.model()),
{
    if let Err(error) = validate_response_envelope(response, 1) {
        return Err(error);
    }
    let ok = match response.get("ok") {
        Some(ok) => match ok.as_bool() {
            Some(ok) => ok,
            None => false,
        },
        None => false,
    };
    if !ok {
        return Err(map_bridge_error(response));
    }
    let result = match response.get("result") {
        Some(result) => result,
        None => {
            return Err(ProviderError::ClaudeInitializeFailed);
        },
    };
    if !result.is_object() || !result.says("state", "ready") {
        return Err(ProviderError::ClaudeInitializeFailed);
    }
    match result.get("sessionId") {
        None => Ok(None),
        Some(named) => match parse_session_id(named) {
            Ok(id) => Ok(Some(id)),
            Err(_) => Err(ProviderError::ClaudeInitializeFailed),
        },
    }
}

/// What came of the request that the bridge begins with.
pub enum Greeting {
    /// The request could not be written, or the bridge was gone already.
    Lost,
    /// The request is too long to be written.
    TooLong,
    /// There was no response in time.
    TimedOut,
    /// What was read.
    Read(Option<WireEvent>),
}

/// The session that a bridge begins with, or why it does not begin.
pub open spec fn greeted(greeting: Greeting) -> Result<Option<Uuid>, ProviderError> {
    match greeting {
        Greeting::Lost => Err(ProviderError::ProviderDisconnected),
        Greeting::TooLong => Err(ProviderError::BridgeProtocolError),
        Greeting::TimedOut => Err(ProviderError::ClaudeInitializeFailed),
        Greeting::Read(Some(WireEvent::Message(response))) => initialized(response.model()),
        Greeting::Read(Some(WireEvent::ProtocolError)) => Err(ProviderError::BridgeProtocolError),
        Greeting::Read(_) => Err(ProviderError::ProviderDisconnected),
    }
}

/// The session that a bridge begins with.
pub fn accept_greeting(greeting: &Greeting) -> (session: Result<Option<Uuid>, ProviderError>)
    ensures
        session == greeted(*greeting),
{
    match greeting {
        Greeting::Lost => Err(ProviderError::ProviderDisconnected),
        Greeting::TooLong => Err(ProviderError::BridgeProtocolError),
        Greeting::TimedOut => Err(ProviderError::ClaudeInitializeFailed),
        Greeting::Read(Some(WireEvent::Message(response))) => check_initialized(response),
        Greeting::Read(Some(WireEvent::ProtocolError)) => Err(ProviderError::BridgeProtocolError),
        Greeting::Read(_) => Err(ProviderError::ProviderDisconnected),
    }
}

} // verus!
