//! The messages that are exchanged with the app server, one to a line.

use vstd::prelude::*;

use crate::json::{
    array_model, encode_json, encoded_json, field, member_models, models, object, parse_json,
    parsed_json, Json, JsonModel, Member,
};
use crate::providers::{HostEnd, ProviderError, MAX_PROVIDER_FRAME_BYTES};
use crate::text::same_text;

verus! {

/// The code of a request that is not supported.
pub const METHOD_NOT_FOUND: i64 = -32601;

/// What came from the app server.
pub enum WireEvent {
    Message { value: Json, bytes: usize },
    ProtocolError,
    Eof,
}

/// The end that what was read comes to, nothing of a message. Where nothing is read there is
/// nobody left to read.
pub open spec fn read_end(event: Option<WireEvent>) -> Option<HostEnd> {
    match event {
        Some(WireEvent::Message { .. }) => None,
        Some(WireEvent::ProtocolError) => Some(HostEnd::Garbled),
        Some(WireEvent::Eof) | None => Some(HostEnd::ReadOut),
    }
}

/// The end that what was read comes to.
pub fn end_of_read(event: &Option<WireEvent>) -> (end: Option<HostEnd>)
    ensures
        end == read_end(*event),
{
    match event {
        Some(WireEvent::Message { .. }) => None,
        Some(WireEvent::ProtocolError) => Some(HostEnd::Garbled),
        Some(WireEvent::Eof) | None => Some(HostEnd::ReadOut),
    }
}

/// The message that a line holds: a JSON object of few enough bytes.
pub open spec fn line_message(line: Seq<u8>) -> Option<JsonModel> {
    if line.len() > MAX_PROVIDER_FRAME_BYTES {
        None
    } else {
        match parsed_json(line) {
            Some(value) => if value is Object {
                Some(value)
            } else {
                None
            },
            None => None,
        }
    }
}

/// What a parsed line is: the message that it holds, where it holds an object.
pub fn message_of(value: Option<Json>, bytes: usize) -> (event: WireEvent)
    ensures
        match event {
            WireEvent::Message { value: message, bytes: size } => value == Some(message) && size
                == bytes && message.model() is Object && bytes <= MAX_PROVIDER_FRAME_BYTES,
            WireEvent::ProtocolError => bytes > MAX_PROVIDER_FRAME_BYTES || !(value matches Some(
                value,
            ) && value.model() is Object),
            WireEvent::Eof => false,
        },
{
    if bytes > MAX_PROVIDER_FRAME_BYTES {
        return WireEvent::ProtocolError;
    }
    match value {
        Some(value) => if value.is_object() {
            WireEvent::Message { value, bytes }
        } else {
            WireEvent::ProtocolError
        },
        None => WireEvent::ProtocolError,
    }
}

/// What a line is.
pub fn read_json_line(line: &[u8]) -> (event: WireEvent)
    ensures
        match line_message(line@) {
            Some(message) => event matches WireEvent::Message { value, bytes } && value.model()
                == message && bytes == line@.len(),
            None => event is ProtocolError,
        },
{
    if line.len() > MAX_PROVIDER_FRAME_BYTES {
        return WireEvent::ProtocolError;
    }
    message_of(parse_json(line), line.len())
}

/// The line that a message is written as, where it has few enough bytes.
pub open spec fn written_line(message: JsonModel) -> Option<Seq<u8>> {
    if encoded_json(message).len() <= MAX_PROVIDER_FRAME_BYTES {
        Some(encoded_json(message).push(10u8))
    } else {
        None
    }
}

/// The line that a message is written as. Nothing but its end is a line feed.
pub fn json_line(value: &Json) -> (line: Result<Vec<u8>, ProviderError>)
    ensures
        match written_line(value.model()) {
            Some(bytes) => line matches Ok(line) && line@ == bytes && forall|i: int|
                0 <= i < line@.len() - 1 ==> #[trigger] line@[i] != 10u8,
            None => line == Err::<Vec<u8>, ProviderError>(ProviderError::CodexProtocolError),
        },
{
    let mut payload = encode_json(value);
    if payload.len() > MAX_PROVIDER_FRAME_BYTES {
        return Err(ProviderError::CodexProtocolError);
    }
    payload.push(10u8);
    Ok(payload)
}

/// The number that a response answers.
pub open spec fn answers(value: JsonModel) -> Option<u64> {
    if value.get("method"@) is Some {
        None
    } else {
        value.at("id"@).unsigned()
    }
}

pub fn response_id(value: &Json) -> (id: Option<u64>)
    ensures
        id == answers(value.model()),
{
    if value.get("method").is_some() {
        return None;
    }
    match value.get("id") {
        Some(id) => id.as_unsigned(),
        None => None,
    }
}

/// What a response says: its result, where it has one and no error.
pub open spec fn result_in(value: JsonModel) -> Option<JsonModel> {
    match (value.get("result"@), value.get("error"@)) {
        (Some(result), None) => Some(result),
        _ => None,
    }
}

pub fn response_result<'a>(value: &'a Json) -> (result: Result<&'a Json, ProviderError>)
    ensures
        match result_in(value.model()) {
            Some(found) => result matches Ok(result) && result.model() == found,
            None => result == Err::<&Json, ProviderError>(ProviderError::CodexProtocolError),
        },
{
    match (value.get("result"), value.get("error")) {
        (Some(result), None) => Ok(result),
        _ => Err(ProviderError::CodexProtocolError),
    }
}

/// The identifier that a response gives to a thing: of its result, the named member's.
pub open spec fn id_in(value: JsonModel, thing: Seq<char>) -> Option<Seq<char>> {
    match result_in(value) {
        None => None,
        Some(result) => match result.at(thing).text_at("id"@) {
            Some(id) => if id.len() > 0 {
                Some(id)
            } else {
                None
            },
            None => None,
        },
    }
}

/// The identifier that a response gives to a thing.
pub fn response_thing(value: &Json, thing: &str) -> (id: Option<String>)
    ensures
        crate::text::opt_text(id) == id_in(value.model(), thing@),
{
    let result = match response_result(value) {
        Ok(result) => result,
        Err(_) => {
            return None;
        },
    };
    match result.get(thing) {
        None => None,
        Some(thing) => match thing.text_at("id") {
            Some(id) => {
                if id.unicode_len() == 0 {
                    return None;
                }
                Some(id.to_owned())
            },
            None => None,
        },
    }
}

/// A value that a request may be numbered with.
pub open spec fn rpc_id(value: JsonModel) -> bool {
    value is Text || value is Unsigned || value is Negative
}

pub fn valid_json_rpc_id(value: &Json) -> (valid: bool)
    ensures
        valid == rpc_id(value.model()),
{
    match value {
        Json::Text(_) | Json::Unsigned(_) | Json::Negative(_) => true,
        _ => false,
    }
}

/// Whether a message is a request of the app server.
pub open spec fn server_request(value: JsonModel) -> bool {
    &&& value.text_at("method"@) is Some
    &&& value.get("id"@) matches Some(id) && rpc_id(id)
}

pub fn is_server_request(value: &Json) -> (yes: bool)
    ensures
        yes == server_request(value.model()),
{
    value.text_at("method").is_some() && match value.get("id") {
        Some(id) => valid_json_rpc_id(id),
        None => false,
    }
}

/// What a request of the app server is answered: nothing is approved, permitted or
/// provided, and anything else is not supported.
pub open spec fn declined(method: Seq<char>) -> (Seq<char>, JsonModel) {
    if method == "item/commandExecution/requestApproval"@ || method
        == "item/fileChange/requestApproval"@ {
        ("result"@, JsonModel::Object(seq![("decision"@, JsonModel::Text("decline"@))]))
    } else if method == "item/permissions/requestApproval"@ {
        ("result"@, JsonModel::Object(seq![("permissions"@, JsonModel::Array(Seq::empty()))]))
    } else if method == "mcpServer/elicitation/request"@ {
        (
            "result"@,
            JsonModel::Object(
                seq![("action"@, JsonModel::Text("decline"@)), ("content"@, JsonModel::Null)],
            ),
        )
    } else {
        (
            "error"@,
            JsonModel::Object(
                seq![
                    ("code"@, JsonModel::Negative(METHOD_NOT_FOUND)),
                    ("message"@, JsonModel::Text("Unsupported server request"@)),
                ],
            ),
        )
    }
}

/// The answer to a request of the app server.
pub open spec fn answer_model(request: JsonModel) -> JsonModel {
    JsonModel::Object(
        seq![("id"@, request.at("id"@)), declined(request.text_at("method"@)->0)],
    )
}

/// The answer to a request of the app server.
pub fn answer_server_request(request: &Json) -> (answer: Result<Json, ProviderError>)
    ensures
        if server_request(request.model()) {
            answer matches Ok(answer) && answer.model() == answer_model(request.model())
        } else {
            answer == Err::<Json, ProviderError>(ProviderError::CodexProtocolError)
        },
{
    if !is_server_request(request) {
        return Err(ProviderError::CodexProtocolError);
    }
    let id = match request.get("id") {
        Some(id) => id.copy(),
        None => Json::Null,
    };
    let method = match request.text_at("method") {
        Some(method) => method,
        None => "",
    };
    let answer = if same_text(method, "item/commandExecution/requestApproval") || same_text(
        method,
        "item/fileChange/requestApproval",
    ) {
        let value = object(vec![field("decision", Json::of_text("decline"))]);
        assert(value.model()->Object_0 =~= declined(method@).1->Object_0);
        field("result", value)
    } else if same_text(method, "item/permissions/requestApproval") {
        let none: Vec<Json> = Vec::new();
        proof {
            array_model(none);
            assert(models(none@) =~= Seq::<JsonModel>::empty());
        }
        let value = object(vec![field("permissions", Json::Array(none))]);
        assert(value.model()->Object_0 =~= declined(method@).1->Object_0);
        field("result", value)
    } else if same_text(method, "mcpServer/elicitation/request") {
        let value = object(
            vec![field("action", Json::of_text("decline")), field("content", Json::Null)],
        );
        assert(value.model()->Object_0 =~= declined(method@).1->Object_0);
        field("result", value)
    } else {
        let value = object(
            vec![
                field("code", Json::Negative(METHOD_NOT_FOUND)),
                field("message", Json::of_text("Unsupported server request")),
            ],
        );
        assert(value.model()->Object_0 =~= declined(method@).1->Object_0);
        field("error", value)
    };
    let value = object(vec![field("id", id), answer]);
    assert(value.model()->Object_0 =~= answer_model(request.model())->Object_0);
    Ok(value)
}

/// No request of the app server is ever granted: what asks for approval or permission is
/// declined.
pub proof fn nothing_is_approved(method: Seq<char>)
    ensures
        declined(method).1.text_at("decision"@) matches Some(decision) ==> decision == "decline"@,
        declined(method).1.text_at("action"@) matches Some(action) ==> action == "decline"@,
        declined(method).1.get("permissions"@) matches Some(granted) ==> granted
            == JsonModel::Array(Seq::empty()),
{
    reveal_strlit("decision");
    reveal_strlit("permissions");
    reveal_strlit("action");
    reveal_strlit("content");
    reveal_strlit("code");
    reveal_strlit("message");
    assert("decision"@.len() == 8 && "permissions"@.len() == 11 && "action"@.len() == 6);
    assert("content"@.len() == 7 && "code"@.len() == 4 && "message"@.len() == 7);
    let members = declined(method).1->Object_0;
    assert(declined(method).1 == JsonModel::Object(members));
    few_members(members, "decision"@);
    few_members(members, "action"@);
    few_members(members, "permissions"@);
}

/// The member under a key of an object with one or two.
proof fn few_members(members: Seq<(Seq<char>, JsonModel)>, key: Seq<char>)
    requires
        1 <= members.len() <= 2,
    ensures
        crate::json::member(members, key) == if members[0].0 == key {
            Some(members[0].1)
        } else if members.len() == 2 && members[1].0 == key {
            Some(members[1].1)
        } else {
            None
        },
{
    reveal_with_fuel(crate::json::member, 3);
    if members.len() == 2 {
        assert(members.drop_first()[0] == members[1]);
        assert(members.drop_first().drop_first().len() == 0);
    }
}

/// A request or a notification to the app server.
pub open spec fn call_model(id: Option<u64>, method: Seq<char>, params: JsonModel) -> JsonModel {
    let named = seq![("method"@, JsonModel::Text(method)), ("params"@, params)];
    JsonModel::Object(
        match id {
            Some(id) => seq![("id"@, JsonModel::Unsigned(id))] + named,
            None => named,
        },
    )
}

fn call(id: Option<u64>, method: &str, params: Json) -> (value: Json)
    ensures
        value.model() == call_model(id, method@, params.model()),
{
    let mut members: Vec<Member> = Vec::new();
    if let Some(id) = id {
        members.push(field("id", Json::Unsigned(id)));
    }
    members.push(field("method", Json::of_text(method)));
    members.push(field("params", params));
    assert(member_models(members@) =~= call_model(id, method@, params.model())->Object_0);
    object(members)
}

/// The request that introduces the client.
pub fn initialize_message(client_info: Json) -> (message: Json)
    ensures
        message.model() == call_model(
            Some(1),
            "initialize"@,
            JsonModel::Object(seq![("clientInfo"@, client_info.model())]),
        ),
{
    let params = object(vec![field("clientInfo", client_info)]);
    assert(params.model()->Object_0 =~= seq![("clientInfo"@, client_info.model())]);
    call(Some(1), "initialize", params)
}

/// The notification that the client is ready.
pub fn initialized_message() -> (message: Json)
    ensures
        message.model() == call_model(None, "initialized"@, JsonModel::Object(Seq::empty())),
{
    let params = object(Vec::new());
    assert(params.model()->Object_0 =~= Seq::<(Seq<char>, JsonModel)>::empty());
    call(None, "initialized", params)
}

/// Which thread a session runs in.
pub enum ThreadSelection {
    Start { params: Vec<Member> },
    Resume { thread_id: String, params: Vec<Member> },
}

impl ThreadSelection {
    pub fn start() -> (thread: ThreadSelection)
        ensures
            thread matches ThreadSelection::Start { params } && params@.len() == 0,
    {
        ThreadSelection::Start { params: Vec::new() }
    }

    pub fn resume(thread_id: String) -> (thread: ThreadSelection)
        ensures
            thread matches ThreadSelection::Resume { thread_id: id, params } && id == thread_id
                && params@.len() == 0,
    {
        ThreadSelection::Resume { thread_id, params: Vec::new() }
    }

    /// The method that selects the thread.
    pub open spec fn method(self) -> Seq<char> {
        match self {
            ThreadSelection::Start { .. } => "thread/start"@,
            ThreadSelection::Resume { .. } => "thread/resume"@,
        }
    }

    /// The members of the parameters: those given, with the thread's identifier in place
    /// of one that was.
    pub open spec fn params(self) -> Seq<(Seq<char>, JsonModel)> {
        match self {
            ThreadSelection::Start { params } => member_models(params@),
            ThreadSelection::Resume { thread_id, params } => member_models(
                params@.filter(|m: Member| m.key@ != "threadId"@),
            ).push(("threadId"@, JsonModel::Text(thread_id@))),
        }
    }
}

/// The members of an object but those under a key.
fn without_key(members: Vec<Member>, key: &str) -> (rest: Vec<Member>)
    ensures
        rest@ == members@.filter(|m: Member| m.key@ != key@),
{
    let ghost all = members@;
    let ghost keeps = |m: Member| m.key@ != key@;
    let mut rest: Vec<Member> = Vec::new();
    for member in iter: members.into_iter()
        invariant
            iter.seq() == all,
            keeps == (|m: Member| m.key@ != key@),
            rest@ == all.take(iter.index() as int).filter(keeps),
    {
        let ghost n = iter.index() as int;
        proof {
            reveal(Seq::filter);
            assert(all.take(n + 1).drop_last() =~= all.take(n));
            assert(all.take(n + 1).last() == member);
        }
        if !same_text(member.key.as_str(), key) {
            rest.push(member);
        }
    }
    assert(all.take(all.len() as int) =~= all);
    rest
}

/// The request that selects the thread.
pub fn thread_message(thread: ThreadSelection) -> (message: Json)
    ensures
        message.model() == call_model(
            Some(2),
            thread.method(),
            JsonModel::Object(thread.params()),
        ),
{
    match thread {
        ThreadSelection::Start { params } => call(Some(2), "thread/start", object(params)),
        ThreadSelection::Resume { thread_id, params } => {
            let ghost given = params@;
            let mut params = without_key(params, "threadId");
            let ghost kept = params@;
            params.push(field("threadId", Json::Text(thread_id)));
            assert(member_models(params@) =~= member_models(kept).push(
                ("threadId"@, JsonModel::Text(thread_id@)),
            ));
            call(Some(2), "thread/resume", object(params))
        },
    }
}

/// The parameters of the request that starts a turn.
pub open spec fn turn_params(thread_id: Seq<char>, content: Seq<char>) -> JsonModel {
    JsonModel::Object(
        seq![
            ("threadId"@, JsonModel::Text(thread_id)),
            (
                "input"@,
                JsonModel::Array(
                    seq![
                        JsonModel::Object(
                            seq![
                                ("type"@, JsonModel::Text("text"@)),
                                ("text"@, JsonModel::Text(content)),
                            ],
                        ),
                    ],
                ),
            ),
        ],
    )
}

/// The request that starts a turn.
pub fn turn_message(id: u64, thread_id: &str, content: &str) -> (message: Json)
    ensures
        message.model() == call_model(Some(id), "turn/start"@, turn_params(thread_id@, content@)),
{
    let ghost wanted = turn_params(thread_id@, content@);
    let text = object(vec![field("type", Json::of_text("text")), field("text", Json::of_text(content))]);
    assert(text.model()->Object_0 =~= wanted->Object_0[1].1->Array_0[0]->Object_0);
    let input = vec![text];
    proof {
        array_model(input);
        assert(models(input@) =~= wanted->Object_0[1].1->Array_0);
    }
    let params = object(
        vec![field("threadId", Json::of_text(thread_id)), field("input", Json::Array(input))],
    );
    assert(params.model()->Object_0 =~= wanted->Object_0);
    call(Some(id), "turn/start", params)
}

/// The parameters of the request that interrupts a turn.
pub open spec fn interrupt_params(thread_id: Seq<char>, turn_id: Seq<char>) -> JsonModel {
    JsonModel::Object(
        seq![("threadId"@, JsonModel::Text(thread_id)), ("turnId"@, JsonModel::Text(turn_id))],
    )
}

/// The request that interrupts a turn.
pub fn interrupt_message(id: u64, thread_id: &str, turn_id: &str) -> (message: Json)
    ensures
        message.model() == call_model(
            Some(id),
            "turn/interrupt"@,
            interrupt_params(thread_id@, turn_id@),
        ),
{
    let params = object(
        vec![field("threadId", Json::of_text(thread_id)), field("turnId", Json::of_text(turn_id))],
    );
    assert(params.model()->Object_0 =~= interrupt_params(thread_id@, turn_id@)->Object_0);
    call(Some(id), "turn/interrupt", params)
}

} // verus!
