//! The messages that are exchanged with the bridge, each behind its length.

use vstd::prelude::*;

use crate::ids::{parsed_uuid, Uuid};
use crate::json::{
    encode_json, encoded_json, field, object, parse_json, parsed_json, Json, JsonModel,
};
use crate::providers::{HostEnd, ProviderError, ResultModel, SessionResult, MAX_PROVIDER_FRAME_BYTES};
use crate::text::same_text;

verus! {

/// What came from the bridge.
pub enum WireEvent {
    Message(Json),
    ProtocolError,
    Eof,
}

/// The end that what was read comes to, nothing of a message. Where nothing is read there is
/// nobody left to read.
pub open spec fn read_end(event: Option<WireEvent>) -> Option<HostEnd> {
    match event {
        Some(WireEvent::Message(_)) => None,
        Some(WireEvent::ProtocolError) => Some(HostEnd::Garbled),
        Some(WireEvent::Eof) | None => Some(HostEnd::ReadOut),
    }
}

/// The end that what was read comes to.
pub fn end_of_read(event: &Option<WireEvent>) -> (end: Option<HostEnd>)
    ensures
        end == read_end(*event),
{
    match event {
        Some(WireEvent::Message(_)) => None,
        Some(WireEvent::ProtocolError) => Some(HostEnd::Garbled),
        Some(WireEvent::Eof) | None => Some(HostEnd::ReadOut),
    }
}

/// The number that four bytes are, the highest first.
pub open spec fn length_of(header: Seq<u8>) -> int {
    header[0] * 16777216 + header[1] * 65536 + header[2] * 256 + header[3]
}

/// The four bytes that a number is, the highest first.
pub open spec fn header_of(length: int) -> Seq<u8> {
    seq![
        (length / 16777216 % 256) as u8,
        (length / 65536 % 256) as u8,
        (length / 256 % 256) as u8,
        (length % 256) as u8,
    ]
}

/// A number of four bytes is what its bytes are.
proof fn header_is_length(length: int)
    requires
        0 <= length < 4294967296,
    ensures
        header_of(length).len() == 4,
        length_of(header_of(length)) == length,
{
}

/// The length of a frame that a header announces: some, and not too many bytes.
pub fn frame_length(header: &[u8; 4]) -> (length: Option<usize>)
    ensures
        length == (if 0 < length_of(header@) <= MAX_PROVIDER_FRAME_BYTES {
            Some(length_of(header@) as usize)
        } else {
            None::<usize>
        }),
{
    let length: u64 = header[0] as u64 * 16777216 + header[1] as u64 * 65536 + header[2] as u64 * 256
        + header[3] as u64;
    if length == 0 || length > MAX_PROVIDER_FRAME_BYTES as u64 {
        return None;
    }
    Some(length as usize)
}

/// The message that a frame holds: a JSON object.
pub open spec fn frame_message(payload: Seq<u8>) -> Option<JsonModel> {
    match parsed_json(payload) {
        Some(value) => if value is Object {
            Some(value)
        } else {
            None
        },
        None => None,
    }
}

/// What a parsed frame is: the message that it holds, where it holds an object.
pub fn message_of(value: Option<Json>) -> (event: WireEvent)
    ensures
        match value {
            Some(value) => if value.model() is Object {
                event == WireEvent::Message(value)
            } else {
                event is ProtocolError
            },
            None => event is ProtocolError,
        },
{
    match value {
        Some(value) => if value.is_object() {
            WireEvent::Message(value)
        } else {
            WireEvent::ProtocolError
        },
        None => WireEvent::ProtocolError,
    }
}

/// What the payload of a frame is.
pub fn read_frame(payload: &[u8]) -> (event: WireEvent)
    ensures
        match frame_message(payload@) {
            Some(message) => event matches WireEvent::Message(value) && value.model() == message,
            None => event is ProtocolError,
        },
{
    message_of(parse_json(payload))
}

/// The frame that a message is written as, where it has few enough bytes.
pub open spec fn written_frame(message: JsonModel) -> Option<Seq<u8>> {
    let payload = encoded_json(message);
    if 0 < payload.len() <= MAX_PROVIDER_FRAME_BYTES {
        Some(header_of(payload.len() as int) + payload)
    } else {
        None
    }
}

/// The frame that a message is written as.
pub fn write_frame(value: &Json) -> (frame: Result<Vec<u8>, ProviderError>)
    ensures
        match written_frame(value.model()) {
            Some(bytes) => frame matches Ok(frame) && frame@ == bytes,
            None => frame == Err::<Vec<u8>, ProviderError>(ProviderError::BridgeProtocolError),
        },
{
    let mut payload = encode_json(value);
    if payload.len() == 0 || payload.len() > MAX_PROVIDER_FRAME_BYTES {
        return Err(ProviderError::BridgeProtocolError);
    }
    let length = payload.len();
    let ghost bytes = payload@;
    let mut frame: Vec<u8> = Vec::new();
    frame.push((length / 16777216 % 256) as u8);
    frame.push((length / 65536 % 256) as u8);
    frame.push((length / 256 % 256) as u8);
    frame.push((length % 256) as u8);
    assert(frame@ =~= header_of(bytes.len() as int));
    frame.append(&mut payload);
    Ok(frame)
}

/// What is written is read back: the header of a frame announces its payload, all of it.
pub proof fn frames_are_read_back(message: JsonModel)
    requires
        written_frame(message) is Some,
    ensures
        written_frame(message)->0.len() > 4,
        ({
            let frame = written_frame(message)->0;
            let length = length_of(frame.take(4));
            &&& 0 < length <= MAX_PROVIDER_FRAME_BYTES
            &&& length == frame.len() - 4
            &&& frame.skip(4) == encoded_json(message)
        }),
{
    let payload = encoded_json(message);
    header_is_length(payload.len() as int);
    let frame = written_frame(message)->0;
    assert(frame.take(4) =~= header_of(payload.len() as int));
    assert(frame.skip(4) =~= payload);
}

/// A request to the bridge.
pub open spec fn call_model(id: u64, method: Seq<char>, params: JsonModel) -> JsonModel {
    JsonModel::Object(
        seq![
            ("v"@, JsonModel::Unsigned(1)),
            ("id"@, JsonModel::Unsigned(id)),
            ("method"@, JsonModel::Text(method)),
            ("params"@, params),
        ],
    )
}

fn call(id: u64, method: &str, params: Json) -> (value: Json)
    ensures
        value.model() == call_model(id, method@, params.model()),
{
    let value = object(
        vec![
            field("v", Json::Unsigned(1)),
            field("id", Json::Unsigned(id)),
            field("method", Json::of_text(method)),
            field("params", params),
        ],
    );
    assert(value.model()->Object_0 =~= call_model(id, method@, params.model())->Object_0);
    value
}

/// The parameters of the request that starts a turn.
pub open spec fn turn_params(
    request_id: Seq<char>,
    prompt: Seq<char>,
    timeout_ms: u64,
) -> JsonModel {
    JsonModel::Object(
        seq![
            ("requestId"@, JsonModel::Text(request_id)),
            ("prompt"@, JsonModel::Text(prompt)),
            ("timeoutMs"@, JsonModel::Unsigned(timeout_ms)),
        ],
    )
}

/// The request that starts a turn.
pub fn turn_message(id: u64, request_id: &str, prompt: &str, timeout_ms: u64) -> (message: Json)
    ensures
        message.model() == call_model(
            id,
            "turn"@,
            turn_params(request_id@, prompt@, timeout_ms),
        ),
{
    let params = object(
        vec![
            field("requestId", Json::of_text(request_id)),
            field("prompt", Json::of_text(prompt)),
            field("timeoutMs", Json::Unsigned(timeout_ms)),
        ],
    );
    assert(params.model()->Object_0 =~= turn_params(request_id@, prompt@, timeout_ms)->Object_0);
    call(id, "turn", params)
}

/// The parameters of the request that cancels a turn.
pub open spec fn cancel_params(request_id: Seq<char>, reason: Seq<char>) -> JsonModel {
    JsonModel::Object(
        seq![("requestId"@, JsonModel::Text(request_id)), ("reason"@, JsonModel::Text(reason))],
    )
}

/// The request that cancels a turn.
pub fn cancel_message(id: u64, request_id: &str, reason: &str) -> (message: Json)
    ensures
        message.model() == call_model(id, "cancel"@, cancel_params(request_id@, reason@)),
{
    let params = object(
        vec![field("requestId", Json::of_text(request_id)), field("reason", Json::of_text(reason))],
    );
    assert(params.model()->Object_0 =~= cancel_params(request_id@, reason@)->Object_0);
    call(id, "cancel", params)
}

/// The request that ends the bridge.
pub fn shutdown_message(id: u64) -> (message: Json)
    ensures
        message.model() == call_model(id, "shutdown"@, JsonModel::Object(Seq::empty())),
{
    let params = object(Vec::new());
    assert(params.model()->Object_0 =~= Seq::<(Seq<char>, JsonModel)>::empty());
    call(id, "shutdown", params)
}

/// A response to a request: it is of version one, of the request's number, and holds a
/// result or an error, as it says.
pub open spec fn response_to(value: JsonModel, id: u64) -> bool {
    &&& value is Object
    &&& value.at("v"@).unsigned() == Some(1u64)
    &&& value.at("id"@).unsigned() == Some(id)
    &&& match (value.at("ok"@).boolean(), value.get("result"@), value.get("error"@)) {
        (Some(true), Some(_), None) => true,
        (Some(false), None, Some(_)) => true,
        _ => false,
    }
}

fn unsigned_at(value: &Json, key: &str) -> (number: Option<u64>)
    ensures
        number == value.model().at(key@).unsigned(),
{
    match value.get(key) {
        Some(value) => value.as_unsigned(),
        None => None,
    }
}

fn bool_at(value: &Json, key: &str) -> (flag: Option<bool>)
    ensures
        flag == value.model().at(key@).boolean(),
{
    match value.get(key) {
        Some(value) => value.as_bool(),
        None => None,
    }
}

/// The number that a message answers.
pub fn message_id(value: &Json) -> (id: Option<u64>)
    ensures
        id == value.model().at("id"@).unsigned(),
{
    unsigned_at(value, "id")
}

pub fn validate_response_envelope(value: &Json, expected_id: u64) -> (checked: Result<
    (),
    ProviderError,
>)
    ensures
        checked == if response_to(value.model(), expected_id) {
            Ok::<(), ProviderError>(())
        } else {
            Err(ProviderError::BridgeProtocolError)
        },
{
    if !value.is_object() {
        return Err(ProviderError::BridgeProtocolError);
    }
    let addressed = match (unsigned_at(value, "v"), unsigned_at(value, "id")) {
        (Some(version), Some(id)) => version == 1 && id == expected_id,
        _ => false,
    };
    if !addressed {
        return Err(ProviderError::BridgeProtocolError);
    }
    match (bool_at(value, "ok"), value.get("result"), value.get("error")) {
        (Some(true), Some(_), None) => Ok(()),
        (Some(false), None, Some(_)) => Ok(()),
        _ => Err(ProviderError::BridgeProtocolError),
    }
}

/// The failure that a code of the bridge stands for.
pub open spec fn bridge_failure(code: Option<Seq<char>>) -> ProviderError {
    match code {
        None => ProviderError::BridgeProtocolError,
        Some(code) => if code == "claude_initialize_failed"@ {
            ProviderError::ClaudeInitializeFailed
        } else if code == "request_timeout"@ {
            ProviderError::RequestTimeout
        } else if code == "provider_disconnected"@ {
            ProviderError::ProviderDisconnected
        } else if code == "error_max_turns"@ || code == "claude_max_turns"@ {
            ProviderError::ClaudeMaxTurns
        } else if code == "error_max_budget_usd"@ || code == "claude_max_budget"@ {
            ProviderError::ClaudeMaxBudget
        } else if code == "error_max_structured_output_retries"@ || code
            == "claude_structured_output_error"@ {
            ProviderError::ClaudeStructuredOutputError
        } else if code == "claude_no_result"@ {
            ProviderError::ClaudeNoResult
        } else if code == "claude_sdk_error"@ {
            ProviderError::ClaudeSdkError
        } else if code == "claude_protocol_error"@ {
            ProviderError::ClaudeProtocolError
        } else if code == "bridge_protocol_error"@ || code == "session_busy"@ {
            ProviderError::BridgeProtocolError
        } else {
            ProviderError::ClaudeExecutionError
        },
    }
}

/// The code of the error that a response holds.
pub open spec fn error_code(response: JsonModel) -> Option<Seq<char>> {
    response.at("error"@).text_at("code"@)
}

pub fn map_bridge_error(response: &Json) -> (error: ProviderError)
    ensures
        error == bridge_failure(error_code(response.model())),
{
    let code = match response.get("error") {
        Some(error) => match error.text_at("code") {
            Some(code) => code,
            None => {
                return ProviderError::BridgeProtocolError;
            },
        },
        None => {
            return ProviderError::BridgeProtocolError;
        },
    };
    if same_text(code, "claude_initialize_failed") {
        ProviderError::ClaudeInitializeFailed
    } else if same_text(code, "request_timeout") {
        ProviderError::RequestTimeout
    } else if same_text(code, "provider_disconnected") {
        ProviderError::ProviderDisconnected
    } else if same_text(code, "error_max_turns") || same_text(code, "claude_max_turns") {
        ProviderError::ClaudeMaxTurns
    } else if same_text(code, "error_max_budget_usd") || same_text(code, "claude_max_budget") {
        ProviderError::ClaudeMaxBudget
    } else if same_text(code, "error_max_structured_output_retries") || same_text(
        code,
        "claude_structured_output_error",
    ) {
        ProviderError::ClaudeStructuredOutputError
    } else if same_text(code, "claude_no_result") {
        ProviderError::ClaudeNoResult
    } else if same_text(code, "claude_sdk_error") {
        ProviderError::ClaudeSdkError
    } else if same_text(code, "claude_protocol_error") {
        ProviderError::ClaudeProtocolError
    } else if same_text(code, "bridge_protocol_error") || same_text(code, "session_busy") {
        ProviderError::BridgeProtocolError
    } else {
        ProviderError::ClaudeExecutionError
    }
}

/// The session that a value names.
pub open spec fn session_named(value: JsonModel) -> Option<Uuid> {
    match value.text() {
        Some(text) => match parsed_uuid(text) {
            Some(value) => Some(Uuid { value }),
            None => None,
        },
        None => None,
    }
}

pub fn parse_session_id(value: &Json) -> (id: Result<Uuid, ProviderError>)
    ensures
        id == (match session_named(value.model()) {
            Some(id) => Ok::<Uuid, ProviderError>(id),
            None => Err(ProviderError::ClaudeProtocolError),
        }),
{
    match value.as_text() {
        Some(text) => match Uuid::parse(text) {
            Some(id) => Ok(id),
            None => Err(ProviderError::ClaudeProtocolError),
        },
        None => Err(ProviderError::ClaudeProtocolError),
    }
}

/// What the response to a turn says.
pub struct TurnAnswer {
    pub result: SessionResult,
    /// The session that it names.
    pub session_id: Option<Uuid>,
}

/// What the response to a turn says, or why it says nothing.
pub open spec fn turn_answer(response: JsonModel) -> Result<(ResultModel, Option<Uuid>), ProviderError> {
    if response.at("ok"@).boolean() == Some(false) {
        let failure = ResultModel::Failure(bridge_failure(error_code(response)));
        match response.at("error"@).get("sessionId"@) {
            None => Ok((failure, None)),
            Some(named) => match session_named(named) {
                Some(id) => Ok((failure, Some(id))),
                None => Err(ProviderError::ClaudeProtocolError),
            },
        }
    } else {
        let result = response.at("result"@);
        match result.get("sessionId"@) {
            None => Err(ProviderError::BridgeProtocolError),
            Some(named) => match session_named(named) {
                None => Err(ProviderError::ClaudeProtocolError),
                Some(id) => Ok(
                    (
                        match result.text_at("content"@) {
                            Some(content) => ResultModel::Success(content),
                            None => ResultModel::Failure(ProviderError::ClaudeNoResult),
                        },
                        Some(id),
                    ),
                ),
            },
        }
    }
}

pub fn decode_turn_result(response: &Json) -> (answer: Result<TurnAnswer, ProviderError>)
    ensures
        match turn_answer(response.model()) {
            Ok((result, session)) => answer matches Ok(answer) && answer.result.model() == result
                && answer.session_id == session,
            Err(error) => answer == Err::<TurnAnswer, ProviderError>(error),
        },
{
    let failed = match bool_at(response, "ok") {
        Some(ok) => !ok,
        None => false,
    };
    if failed {
        let mut session_id: Option<Uuid> = None;
        if let Some(error) = response.get("error") {
            if let Some(named) = error.get("sessionId") {
                match parse_session_id(named) {
                    Ok(id) => {
                        session_id = Some(id);
                    },
                    Err(error) => {
                        return Err(error);
                    },
                }
            }
        }
        return Ok(
            TurnAnswer { result: SessionResult::failure(map_bridge_error(response)), session_id },
        );
    }
    let result = match response.get("result") {
        Some(result) => result,
        None => {
            return Err(ProviderError::BridgeProtocolError);
        },
    };
    let id = match result.get("sessionId") {
        Some(named) => match parse_session_id(named) {
            Ok(id) => id,
            Err(error) => {
                return Err(error);
            },
        },
        None => {
            return Err(ProviderError::BridgeProtocolError);
        },
    };
    let answer = match result.text_at("content") {
        Some(content) => SessionResult::success(content.to_owned()),
        None => SessionResult::failure(ProviderError::ClaudeNoResult),
    };
    Ok(TurnAnswer { result: answer, session_id: Some(id) })
}

} // verus!
