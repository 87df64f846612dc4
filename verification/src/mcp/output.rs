//! How many calls run at once, and what a call is answered.

use vstd::prelude::*;

use crate::json::{encode_json, encoded_json, field, object_model, to_value, Json, JsonModel};
use crate::mcp::args::McpCall;
use crate::mcp::catalog::{catalog_error_text, tool_call_fault, validate_tool_call, CatalogError};
use crate::mcp::{
    backend_code, BackendError, McpRole, MCP_MAX_CONCURRENT_CALLS, MCP_MAX_FRAME_BYTES,
    RESULT_OVERHEAD_BYTES,
};
use crate::text::concat;

verus! {

/// Why an answer cannot be given.
#[derive(Clone, Copy, Debug, PartialEq, Eq, Structural)]
pub enum OutputError {
    EncodeFailed,
    TooLarge,
}

/// The text of such a fault.
pub open spec fn output_error_text(error: OutputError) -> Seq<char> {
    match error {
        OutputError::EncodeFailed => "mcp_result_encode_failed"@,
        OutputError::TooLarge => "mcp_result_too_large"@,
    }
}

impl OutputError {
    pub fn as_str(self) -> (text: &'static str)
        ensures
            text@ == output_error_text(self),
    {
        match self {
            OutputError::EncodeFailed => "mcp_result_encode_failed",
            OutputError::TooLarge => "mcp_result_too_large",
        }
    }
}

/// What a call is answered: a line for readers and a value for programs.
#[derive(Debug, PartialEq)]
pub struct ToolResult {
    pub text: String,
    pub structured: Json,
    pub is_error: bool,
}

/// The JSON text of the result that holds a value and a line of text.
pub uninterp spec fn encoded_result(value: JsonModel, text: Seq<char>) -> Option<Seq<u8>>;

/// The JSON text of the failure that holds a value and a line of text.
pub uninterp spec fn encoded_failure(value: JsonModel, text: Seq<char>) -> Option<Seq<u8>>;

/// `rmcp::model::CallToolResult::structured` with its content replaced by one text block,
/// as `serde_json::to_vec` writes it: a function of the value and the text alone.
#[verifier::external_body]
fn encode_result(value: &Json, text: &str) -> (bytes: Option<Vec<u8>>)
    ensures
        (match bytes {
            Some(bytes) => Some(bytes@),
            None => None,
        }) == encoded_result(value.model(), text@),
{
    let mut result = rmcp::model::CallToolResult::structured(to_value(value));
    result.content = vec![rmcp::model::ContentBlock::text(text)];
    serde_json::to_vec(&result).ok()
}

/// `rmcp::model::CallToolResult::structured_error` with its content replaced by one text
/// block, as `serde_json::to_vec` writes it: a function of the value and the text alone.
#[verifier::external_body]
fn encode_failure(value: &Json, text: &str) -> (bytes: Option<Vec<u8>>)
    ensures
        (match bytes {
            Some(bytes) => Some(bytes@),
            None => None,
        }) == encoded_failure(value.model(), text@),
{
    let mut result = rmcp::model::CallToolResult::structured_error(to_value(value));
    result.content = vec![rmcp::model::ContentBlock::text(text)];
    serde_json::to_vec(&result).ok()
}

/// Why a frame cannot be sent, from its bytes: it must have been encoded, and it has its
/// bound.
pub open spec fn frame_fault(bytes: Option<Seq<u8>>) -> Option<OutputError> {
    match bytes {
        None => Some(OutputError::EncodeFailed),
        Some(bytes) => if bytes.len() > MCP_MAX_FRAME_BYTES {
            Some(OutputError::TooLarge)
        } else {
            None
        },
    }
}

/// Whether a frame can be sent, from its bytes.
pub fn check_frame(bytes: Option<&Vec<u8>>) -> (checked: Result<(), OutputError>)
    ensures
        checked == (match frame_fault(
            match bytes {
                Some(bytes) => Some(bytes@),
                None => None,
            },
        ) {
            Some(fault) => Err::<(), OutputError>(fault),
            None => Ok(()),
        }),
{
    match bytes {
        None => Err(OutputError::EncodeFailed),
        Some(bytes) => if bytes.len() > MCP_MAX_FRAME_BYTES {
            Err(OutputError::TooLarge)
        } else {
            Ok(())
        },
    }
}

/// The line that a successful call of a tool is answered.
pub open spec fn success_text(tool: Seq<char>) -> Seq<char> {
    tool + " succeeded"@
}

/// Why the result of a tool cannot be given: the value leaves room for its frame, and the
/// frame has its bound.
pub open spec fn result_fault(tool: Seq<char>, value: JsonModel) -> Option<OutputError> {
    if encoded_json(value).len() > MCP_MAX_FRAME_BYTES - RESULT_OVERHEAD_BYTES {
        Some(OutputError::TooLarge)
    } else {
        frame_fault(encoded_result(value, success_text(tool)))
    }
}

/// The answer to a successful call.
pub fn bounded_tool_result(name: &str, value: Json) -> (result: Result<ToolResult, OutputError>)
    ensures
        match result_fault(name@, value.model()) {
            Some(fault) => result == Err::<ToolResult, OutputError>(fault),
            None => match result {
                Ok(result) => result.text@ == success_text(name@) && result.structured == value
                    && !result.is_error,
                Err(_) => false,
            },
        },
{
    let encoded = encode_json(&value);
    if encoded.len() > MCP_MAX_FRAME_BYTES - RESULT_OVERHEAD_BYTES {
        return Err(OutputError::TooLarge);
    }
    let text = concat(name, " succeeded");
    let bytes = encode_result(&value, text.as_str());
    match check_frame(bytes.as_ref()) {
        Err(fault) => Err(fault),
        Ok(()) => Ok(ToolResult { text, structured: value, is_error: false }),
    }
}

/// The line that a failed call is answered.
pub open spec fn failure_text(code: Seq<char>) -> Seq<char> {
    "tool failed: "@ + code
}

/// The value that a failed call is answered.
pub open spec fn failure_value(code: Seq<char>) -> JsonModel {
    JsonModel::Object(seq![("ok"@, JsonModel::Bool(false)), ("error"@, JsonModel::Text(code))])
}

/// Whether an answer says that the call failed with a code.
pub open spec fn tells_failure(result: ToolResult, code: Seq<char>) -> bool {
    &&& result.text@ == failure_text(code)
    &&& result.structured.model() == failure_value(code)
    &&& result.is_error
}

/// The answer to a failed call.
pub fn bounded_tool_error(code: &str) -> (result: Result<ToolResult, OutputError>)
    ensures
        match frame_fault(encoded_failure(failure_value(code@), failure_text(code@))) {
            Some(fault) => result == Err::<ToolResult, OutputError>(fault),
            None => match result {
                Ok(result) => tells_failure(result, code@),
                Err(_) => false,
            },
        },
{
    let members = vec![field("ok", Json::Bool(false)), field("error", Json::of_text(code))];
    proof {
        object_model(members);
        assert(crate::json::member_models(members@) =~= seq![
            ("ok"@, JsonModel::Bool(false)),
            ("error"@, JsonModel::Text(code@)),
        ]);
    }
    let value = Json::Object(members);
    let text = concat("tool failed: ", code);
    let bytes = encode_failure(&value, text.as_str());
    match check_frame(bytes.as_ref()) {
        Err(fault) => Err(fault),
        Ok(()) => Ok(ToolResult { text, structured: value, is_error: true }),
    }
}

/// The calls that run.
#[derive(Debug)]
pub struct CallAdmission {
    running: usize,
}

/// All the calls that may run at once do.
#[derive(Clone, Copy, Debug, PartialEq, Eq, Structural)]
pub struct AdmissionError;

impl AdmissionError {
    pub fn as_str(self) -> (text: &'static str)
        ensures
            text@ == "mcp_server_busy"@,
    {
        "mcp_server_busy"
    }
}

impl CallAdmission {
    /// How many calls run.
    pub closed spec fn active(self) -> nat {
        self.running as nat
    }

    #[verifier::type_invariant]
    spec fn bounded(self) -> bool {
        self.running <= MCP_MAX_CONCURRENT_CALLS
    }

    pub fn new() -> (admission: CallAdmission)
        ensures
            admission.active() == 0,
    {
        CallAdmission { running: 0 }
    }

    /// Takes up a call, where another may run. Never more run than may.
    pub fn try_enter(&mut self) -> (entered: Result<(), AdmissionError>)
        ensures
            entered == if old(self).active() < MCP_MAX_CONCURRENT_CALLS {
                Ok::<(), AdmissionError>(())
            } else {
                Err(AdmissionError)
            },
            final(self).active() == if entered is Ok {
                old(self).active() + 1
            } else {
                old(self).active()
            },
            final(self).active() <= MCP_MAX_CONCURRENT_CALLS,
    {
        proof {
            use_type_invariant(&*self);
        }
        if self.running >= MCP_MAX_CONCURRENT_CALLS {
            return Err(AdmissionError);
        }
        self.running = self.running + 1;
        Ok(())
    }

    /// A call has ended.
    pub fn leave(&mut self)
        requires
            old(self).active() > 0,
        ensures
            final(self).active() == old(self).active() - 1,
    {
        proof {
            use_type_invariant(&*self);
        }
        self.running = self.running - 1;
    }

    /// Whether any call runs.
    pub fn is_busy(&self) -> (busy: bool)
        ensures
            busy == (self.active() > 0),
    {
        self.running > 0
    }
}

/// The kinds of errors that a request itself is refused with.
#[derive(Clone, Copy, Debug, PartialEq, Eq, Structural)]
pub enum RpcErrorKind {
    MethodNotFound,
    InvalidParams,
    Internal,
}

#[derive(Debug)]
pub struct RpcError {
    pub kind: RpcErrorKind,
    pub message: &'static str,
}

#[verifier::ext_equal]
pub struct RpcErrorModel {
    pub kind: RpcErrorKind,
    pub message: Seq<char>,
}

impl RpcError {
    pub open spec fn model(self) -> RpcErrorModel {
        RpcErrorModel { kind: self.kind, message: self.message@ }
    }
}

/// How a refused call is reported.
pub open spec fn catalog_rpc(error: CatalogError) -> RpcErrorModel {
    RpcErrorModel {
        kind: match error {
            CatalogError::ToolNotAvailable => RpcErrorKind::MethodNotFound,
            _ => RpcErrorKind::InvalidParams,
        },
        message: catalog_error_text(error),
    }
}

pub fn catalog_error(error: CatalogError) -> (rpc: RpcError)
    ensures
        rpc.model() == catalog_rpc(error),
{
    match error {
        CatalogError::ToolNotAvailable => RpcError {
            kind: RpcErrorKind::MethodNotFound,
            message: "tool_not_available",
        },
        CatalogError::InvalidArguments => RpcError {
            kind: RpcErrorKind::InvalidParams,
            message: "invalid_tool_arguments",
        },
        CatalogError::InvalidWait => RpcError {
            kind: RpcErrorKind::InvalidParams,
            message: "invalid_wait_ms",
        },
    }
}

/// How an answer that cannot be given is reported.
pub open spec fn output_rpc(error: OutputError) -> RpcErrorModel {
    RpcErrorModel {
        kind: RpcErrorKind::Internal,
        message: match error {
            OutputError::EncodeFailed => "result_encode_failed"@,
            OutputError::TooLarge => "result_too_large"@,
        },
    }
}

pub fn output_error(error: OutputError) -> (rpc: RpcError)
    ensures
        rpc.model() == output_rpc(error),
{
    RpcError {
        kind: RpcErrorKind::Internal,
        message: match error {
            OutputError::EncodeFailed => "result_encode_failed",
            OutputError::TooLarge => "result_too_large",
        },
    }
}

/// What a request to call a tool leads to.
pub enum CallStep {
    /// The call is made; its admission is given back when it ends.
    Dispatch(McpCall),
    Answer(ToolResult),
    Refuse(RpcError),
}

/// How a failed call is answered, where the answer can be given.
pub open spec fn answers_failure(result: Result<ToolResult, RpcError>, code: Seq<char>) -> bool {
    match frame_fault(encoded_failure(failure_value(code), failure_text(code))) {
        None => result matches Ok(answer) && tells_failure(answer, code),
        Some(fault) => result matches Err(rpc) && rpc.model() == output_rpc(fault),
    }
}

/// The answer to a call that failed with a code.
fn answer_failure(code: &str) -> (result: Result<ToolResult, RpcError>)
    ensures
        answers_failure(result, code@),
{
    match bounded_tool_error(code) {
        Ok(answer) => Ok(answer),
        Err(fault) => Err(output_error(fault)),
    }
}

/// What a request to call a tool leads to. The server must have connected to its backend,
/// the request must not be the continuation of another, and the call must be in order; a
/// call beyond those that may run at once is answered that the server is busy.
pub fn admit_call(
    role: McpRole,
    name: &str,
    decoded: Option<McpCall>,
    connected: bool,
    continued: bool,
    admission: &mut CallAdmission,
) -> (step: CallStep)
    ensures
        if !connected {
            step matches CallStep::Refuse(rpc) && rpc.model() == (RpcErrorModel {
                kind: RpcErrorKind::Internal,
                message: "backend_initialization_failed"@,
            })
        } else if continued {
            step matches CallStep::Refuse(rpc) && rpc.model() == (RpcErrorModel {
                kind: RpcErrorKind::InvalidParams,
                message: "unsupported_tool_continuation"@,
            })
        } else {
            match tool_call_fault(role, name@, decoded) {
                Some(fault) => step matches CallStep::Refuse(rpc) && rpc.model() == catalog_rpc(
                    fault,
                ),
                None => if old(admission).active() < MCP_MAX_CONCURRENT_CALLS {
                    decoded is Some && step == CallStep::Dispatch(decoded->0)
                } else {
                    match step {
                        CallStep::Answer(answer) => answers_failure(Ok(answer), "server_busy"@),
                        CallStep::Refuse(rpc) => answers_failure(Err(rpc), "server_busy"@),
                        CallStep::Dispatch(_) => false,
                    }
                },
            }
        },
        final(admission).active() == if step is Dispatch {
            old(admission).active() + 1
        } else {
            old(admission).active()
        },
{
    if !connected {
        return CallStep::Refuse(
            RpcError { kind: RpcErrorKind::Internal, message: "backend_initialization_failed" },
        );
    }
    if continued {
        return CallStep::Refuse(
            RpcError {
                kind: RpcErrorKind::InvalidParams,
                message: "unsupported_tool_continuation",
            },
        );
    }
    match validate_tool_call(role, name, decoded) {
        Err(fault) => CallStep::Refuse(catalog_error(fault)),
        Ok(call) => match admission.try_enter() {
            Ok(()) => CallStep::Dispatch(call),
            Err(_) => match answer_failure("server_busy") {
                Ok(answer) => CallStep::Answer(answer),
                Err(rpc) => CallStep::Refuse(rpc),
            },
        },
    }
}

/// What an admitted call is answered: its result where that fits into a frame, that the
/// response is too large where it does not, and the code of a failure. There is no outcome
/// of a call that was cancelled.
pub fn finish_call(
    name: &str,
    outcome: Option<Result<Json, BackendError>>,
    admission: &mut CallAdmission,
) -> (answer: Result<ToolResult, RpcError>)
    requires
        old(admission).active() > 0,
    ensures
        match outcome {
            Some(Ok(value)) => match result_fault(name@, value.model()) {
                None => answer matches Ok(result) && result.text@ == success_text(name@)
                    && result.structured == value && !result.is_error,
                Some(OutputError::TooLarge) => answers_failure(answer, "response_too_large"@),
                Some(fault) => answer matches Err(rpc) && rpc.model() == output_rpc(fault),
            },
            Some(Err(error)) => answers_failure(answer, backend_code(error)),
            None => answers_failure(answer, backend_code(BackendError::Cancelled)),
        },
        final(admission).active() == old(admission).active() - 1,
{
    admission.leave();
    match outcome {
        Some(Ok(value)) => match bounded_tool_result(name, value) {
            Ok(result) => Ok(result),
            Err(OutputError::TooLarge) => answer_failure("response_too_large"),
            Err(fault) => Err(output_error(fault)),
        },
        Some(Err(error)) => answer_failure(error.code()),
        None => answer_failure(BackendError::Cancelled.code()),
    }
}

} // verus!
