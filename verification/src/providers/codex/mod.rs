//! The provider that runs sessions in an app server.

use vstd::prelude::*;

use crate::json::{field, object, Json, JsonModel};
use crate::paths::{absolute, is_absolute};
use crate::providers::codex::wire::{
    answer_model, answer_server_request, answers, call_model, id_in, initialize_message,
    initialized_message, is_server_request, response_id, response_result, response_thing, result_in,
    server_request, thread_message, ThreadSelection,
};
use crate::providers::{override_texts, tools_ok, ManagedLaunch, ProviderError};
use crate::text::texts;

pub mod turn;
pub mod wire;

verus! {

/// How long a request to the app server may take where nothing else is said.
pub const DEFAULT_RPC_TIMEOUT_MS: u64 = 5_000;

/// How often it is looked whether the app server still runs.
pub const CHILD_POLL_INTERVAL_MS: u64 = 25;

/// How an app server is launched.
pub struct CodexConfig {
    pub executable: String,
    pub executable_arguments: Vec<String>,
    pub launch: ManagedLaunch,
    pub thread: ThreadSelection,
    pub enabled_tools: Vec<String>,
    pub client_info: Json,
    pub rpc_timeout: u64,
}

/// How the client introduces itself.
pub open spec fn client_info_model(version: Seq<char>) -> JsonModel {
    JsonModel::Object(
        seq![
            ("name"@, JsonModel::Text("agent-session-router"@)),
            ("title"@, JsonModel::Text("Agent Session Router"@)),
            ("version"@, JsonModel::Text(version)),
        ],
    )
}

/// The arguments that an app server is launched with.
pub open spec fn server_arguments(config: CodexConfig) -> Seq<Seq<char>> {
    texts(config.executable_arguments@) + seq!["app-server"@] + override_texts(
        config.launch.asr_executable@,
        config.launch.context.file@,
        texts(config.enabled_tools@),
    ) + seq!["--listen"@, "stdio://"@]
}

impl CodexConfig {
    /// The launch of an app server beside a delegate, under the client's version.
    pub fn managed(
        executable: String,
        launch: ManagedLaunch,
        thread: ThreadSelection,
        enabled_tools: Vec<String>,
        version: &str,
    ) -> (config: CodexConfig)
        ensures
            config.executable == executable,
            config.executable_arguments@.len() == 0,
            config.launch == launch,
            config.thread == thread,
            config.enabled_tools == enabled_tools,
            config.client_info.model() == client_info_model(version@),
            config.rpc_timeout == DEFAULT_RPC_TIMEOUT_MS,
    {
        let client_info = object(
            vec![
                field("name", Json::of_text("agent-session-router")),
                field("title", Json::of_text("Agent Session Router")),
                field("version", Json::of_text(version)),
            ],
        );
        assert(client_info.model()->Object_0 =~= client_info_model(version@)->Object_0);
        CodexConfig {
            executable,
            executable_arguments: Vec::new(),
            launch,
            thread,
            enabled_tools,
            client_info,
            rpc_timeout: DEFAULT_RPC_TIMEOUT_MS,
        }
    }

    /// The arguments that the app server is launched with. Its program is given by an
    /// absolute path, and its requests some time.
    pub fn arguments(&self) -> (arguments: Result<Vec<String>, ProviderError>)
        ensures
            if absolute(self.executable@) && self.rpc_timeout > 0 && tools_ok(self.enabled_tools@) {
                arguments matches Ok(arguments) && texts(arguments@) == server_arguments(*self)
            } else {
                arguments == Err::<Vec<String>, ProviderError>(ProviderError::LaunchFailed)
            },
    {
        if !is_absolute(self.executable.as_str()) || self.rpc_timeout == 0 {
            return Err(ProviderError::LaunchFailed);
        }
        let mut overrides = match self.launch.codex_mcp_overrides(&self.enabled_tools) {
            Ok(overrides) => overrides,
            Err(error) => {
                return Err(error);
            },
        };
        let ghost added = overrides@;
        let mut arguments: Vec<String> = Vec::new();
        let mut i: usize = 0;
        while i < self.executable_arguments.len()
            invariant
                i <= self.executable_arguments@.len(),
                arguments@.len() == i,
                forall|j: int|
                    0 <= j < i ==> #[trigger] arguments@[j]@ == self.executable_arguments@[j]@,
            decreases self.executable_arguments.len() - i,
        {
            arguments.push(self.executable_arguments[i].as_str().to_owned());
            i += 1;
        }
        let ghost own = arguments@;
        arguments.push("app-server".to_owned());
        arguments.append(&mut overrides);
        arguments.push("--listen".to_owned());
        arguments.push("stdio://".to_owned());
        proof {
            assert(texts(own) =~= texts(self.executable_arguments@));
            assert(texts(arguments@) =~= texts(own) + seq!["app-server"@] + texts(added) + seq![
                "--listen"@,
                "stdio://"@,
            ]);
        }
        Ok(arguments)
    }
}

/// What the app server is waited for with.
#[derive(Clone, Copy, Debug, PartialEq, Eq, Structural)]
pub enum HandshakeStage {
    /// The answer to the introduction.
    Introduced,
    /// The answer to the selection of the thread.
    Selecting,
    Ready,
}

/// The beginning of a session: the client introduces itself and selects a thread.
pub struct Handshake {
    pub stage: HandshakeStage,
    pub thread: Option<ThreadSelection>,
}

/// What a message leads to while a session begins.
#[derive(Debug)]
pub enum HandshakeStep {
    /// It is none that is waited for.
    Ignore,
    /// A message is to be written.
    Write(Json),
    /// Two messages are to be written, and the next answer is waited for.
    Select(Json, Json),
    /// The thread is selected.
    Ready(String),
}

/// The number of the request that a stage waits for the answer to.
pub open spec fn awaited_id(stage: HandshakeStage) -> Option<u64> {
    match stage {
        HandshakeStage::Introduced => Some(1u64),
        HandshakeStage::Selecting => Some(2u64),
        HandshakeStage::Ready => None,
    }
}

impl Handshake {
    /// The thread is still to be selected where its selection is still to be made.
    pub open spec fn wf(self) -> bool {
        self.stage is Introduced ==> self.thread is Some
    }

    /// A session begins, with a message that is to be written.
    pub fn begin(client_info: Json, thread: ThreadSelection) -> (begun: (Handshake, Json))
        ensures
            begun.0 == (Handshake { stage: HandshakeStage::Introduced, thread: Some(thread) }),
            begun.0.wf(),
            begun.1.model() == call_model(
                Some(1),
                "initialize"@,
                JsonModel::Object(seq![("clientInfo"@, client_info.model())]),
            ),
    {
        (
            Handshake { stage: HandshakeStage::Introduced, thread: Some(thread) },
            initialize_message(client_info),
        )
    }

    /// How the beginning of the session went: whatever kept it from a thread, the app server
    /// could not be initialized.
    pub fn conclude(thread: Option<String>) -> (concluded: Result<String, ProviderError>)
        ensures
            concluded == (match thread {
                Some(thread) => Ok::<String, ProviderError>(thread),
                None => Err(ProviderError::CodexInitializeFailed),
            }),
    {
        match thread {
            Some(thread) => Ok(thread),
            None => Err(ProviderError::CodexInitializeFailed),
        }
    }

    /// A message of the app server while the session begins. Its requests are answered, and
    /// only the answer that is waited for counts; one that is an error, or selects no
    /// thread, ends the session.
    pub fn on_message(&mut self, value: &Json) -> (step: Result<HandshakeStep, ProviderError>)
        requires
            old(self).wf(),
        ensures
            final(self).wf(),
            if server_request(value.model()) {
                &&& *final(self) == *old(self)
                &&& step matches Ok(HandshakeStep::Write(answer)) && answer.model()
                    == answer_model(value.model())
            } else if answers(value.model()) is None || answers(value.model()) != awaited_id(
                old(self).stage,
            ) {
                *final(self) == *old(self) && (step matches Ok(HandshakeStep::Ignore))
            } else if result_in(value.model()) is None {
                *final(self) == *old(self) && step == Err::<HandshakeStep, ProviderError>(
                    ProviderError::CodexProtocolError,
                )
            } else if old(self).stage is Introduced {
                &&& *final(self) == (Handshake { stage: HandshakeStage::Selecting, thread: None })
                &&& step matches Ok(HandshakeStep::Select(ready, select)) && ready.model()
                    == call_model(None, "initialized"@, JsonModel::Object(Seq::empty()))
                    && select.model() == call_model(
                    Some(2),
                    old(self).thread->0.method(),
                    JsonModel::Object(old(self).thread->0.params()),
                )
            } else {
                match id_in(value.model(), "thread"@) {
                    Some(id) => {
                        &&& *final(self) == (Handshake {
                            stage: HandshakeStage::Ready,
                            ..*old(self)
                        })
                        &&& step matches Ok(HandshakeStep::Ready(thread_id)) && thread_id@ == id
                    },
                    None => *final(self) == *old(self) && step == Err::<
                        HandshakeStep,
                        ProviderError,
                    >(ProviderError::CodexInitializeFailed),
                }
            },
    {
        if is_server_request(value) {
            return match answer_server_request(value) {
                Ok(answer) => Ok(HandshakeStep::Write(answer)),
                Err(error) => Err(error),
            };
        }
        let id = match response_id(value) {
            Some(id) => id,
            None => {
                return Ok(HandshakeStep::Ignore);
            },
        };
        match self.stage {
            HandshakeStage::Introduced => {
                if id != 1 {
                    return Ok(HandshakeStep::Ignore);
                }
                if let Err(error) = response_result(value) {
                    return Err(error);
                }
                match self.thread.take() {
                    Some(thread) => {
                        self.stage = HandshakeStage::Selecting;
                        Ok(HandshakeStep::Select(initialized_message(), thread_message(thread)))
                    },
                    None => Ok(HandshakeStep::Ignore),
                }
            },
            HandshakeStage::Selecting => {
                if id != 2 {
                    return Ok(HandshakeStep::Ignore);
                }
                if let Err(error) = response_result(value) {
                    return Err(error);
                }
                match response_thing(value, "thread") {
                    Some(thread_id) => {
                        self.stage = HandshakeStage::Ready;
                        Ok(HandshakeStep::Ready(thread_id))
                    },
                    None => Err(ProviderError::CodexInitializeFailed),
                }
            },
            HandshakeStage::Ready => Ok(HandshakeStep::Ignore),
        }
    }
}

} // verus!
