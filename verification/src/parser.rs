//! Typed decoding of ordinary conversation frames into display-friendly
//! message shapes.
//!
//! Each parser states exactly on which documents it succeeds, what every
//! field of the result holds, and which error text and data it reports
//! otherwise.

use vstd::prelude::*;
use vstd::map::*;
use vstd::string::*;
use crate::errors::{ClaudeSDKError, SdkResult};
use crate::json::{
    get_field_clone, get_str_field, json_as_array, json_as_bool, json_as_i64, json_as_number,
    json_get, json_is_object, json_model, number_as_i64, obj_get, obj_has, obj_str, JsonData,
};

verus! {

/// The boolean field `key` of `d`, when present and a boolean.
pub open spec fn obj_bool(d: JsonData, key: Seq<char>) -> Option<bool> {
    if obj_has(d, key) {
        match obj_get(d, key) {
            JsonData::Bool(b) => Some(b),
            _ => None,
        }
    } else {
        None
    }
}

/// The integer field `key` of `d`, when present, a number, and in `i64`
/// range.
pub open spec fn obj_i64(d: JsonData, key: Seq<char>) -> Option<i64> {
    if obj_has(d, key) {
        match obj_get(d, key) {
            JsonData::Num(n) => number_as_i64(n),
            _ => None,
        }
    } else {
        None
    }
}

/// The numeric field `key` of `d`, when present and a number.
pub open spec fn obj_num(d: JsonData, key: Seq<char>) -> Option<serde_json::Number> {
    if obj_has(d, key) {
        match obj_get(d, key) {
            JsonData::Num(n) => Some(n),
            _ => None,
        }
    } else {
        None
    }
}

/// One block of assistant content.
#[derive(Debug, Clone)]
pub enum ContentBlock {
    Text { text: String },
    Thinking { thinking: String, signature: String },
    ToolUse { id: String, name: String, input: serde_json::Value },
    ToolResult {
        tool_use_id: String,
        content: Option<serde_json::Value>,
        is_error: Option<bool>,
    },
}

#[derive(Debug, Clone)]
pub struct UserMessageInner {
    pub role: String,
    pub content: Option<serde_json::Value>,
}

#[derive(Debug, Clone)]
pub struct UserMessageContent {
    pub message: UserMessageInner,
}

#[derive(Debug, Clone)]
pub struct AssistantMessageInner {
    pub content: Vec<ContentBlock>,
    pub model: String,
}

#[derive(Debug, Clone)]
pub struct AssistantMessageContent {
    pub message: AssistantMessageInner,
}

/// One decoded conversation message.
#[derive(Debug, Clone)]
pub enum Message {
    User { message: UserMessageContent, parent_tool_use_id: Option<String> },
    Assistant { message: AssistantMessageContent, parent_tool_use_id: Option<String> },
    System { subtype: String, data: serde_json::Value },
    Result {
        subtype: String,
        duration_ms: i64,
        duration_api_ms: i64,
        is_error: bool,
        num_turns: i32,
        session_id: String,
        total_cost_usd: Option<serde_json::Number>,
        usage: Option<serde_json::Value>,
        result: Option<String>,
    },
    StreamEvent {
        uuid: String,
        session_id: String,
        event: serde_json::Value,
        parent_tool_use_id: Option<String>,
    },
}

impl ContentBlock {
    /// The JSON rendering of this block, as the wire format carries it.
    pub open spec fn to_json_data(self) -> JsonData {
        match self {
            ContentBlock::Text { text } => JsonData::Obj(
                map!["type"@ => JsonData::Str("text"@), "text"@ => JsonData::Str(text@)],
            ),
            ContentBlock::Thinking { thinking, signature } => JsonData::Obj(
                map![
                    "type"@ => JsonData::Str("thinking"@),
                    "thinking"@ => JsonData::Str(thinking@),
                    "signature"@ => JsonData::Str(signature@),
                ],
            ),
            ContentBlock::ToolUse { id, name, input } => JsonData::Obj(
                map![
                    "type"@ => JsonData::Str("tool_use"@),
                    "id"@ => JsonData::Str(id@),
                    "name"@ => JsonData::Str(name@),
                    "input"@ => json_model(input),
                ],
            ),
            ContentBlock::ToolResult { tool_use_id, content, is_error } => {
                let base = map![
                    "type"@ => JsonData::Str("tool_result"@),
                    "tool_use_id"@ => JsonData::Str(tool_use_id@),
                ];
                let with_content = match content {
                    Some(c) => base.insert("content"@, json_model(c)),
                    None => base,
                };
                JsonData::Obj(
                    match is_error {
                        Some(b) => with_content.insert("is_error"@, JsonData::Bool(b)),
                        None => with_content,
                    },
                )
            },
        }
    }

    /// The JSON value of this block.
    pub fn to_json(&self) -> (v: serde_json::Value)
        ensures
            json_model(v) == self.to_json_data(),
    {
        match self {
            ContentBlock::Text { text } => {
                let mut m = crate::json::json_map_new();
                crate::json::json_map_insert(&mut m, "type", crate::json::json_string("text"));
                crate::json::json_map_insert(
                    &mut m,
                    "text",
                    crate::json::json_string(text.as_str()),
                );
                let v = crate::json::json_object(m);
                proof {
                    assert(json_model(v) =~~= self.to_json_data());
                }
                v
            },
            ContentBlock::Thinking { thinking, signature } => {
                let mut m = crate::json::json_map_new();
                crate::json::json_map_insert(&mut m, "type", crate::json::json_string("thinking"));
                crate::json::json_map_insert(
                    &mut m,
                    "thinking",
                    crate::json::json_string(thinking.as_str()),
                );
                crate::json::json_map_insert(
                    &mut m,
                    "signature",
                    crate::json::json_string(signature.as_str()),
                );
                let v = crate::json::json_object(m);
                proof {
                    assert(json_model(v) =~~= self.to_json_data());
                }
                v
            },
            ContentBlock::ToolUse { id, name, input } => {
                let mut m = crate::json::json_map_new();
                crate::json::json_map_insert(&mut m, "type", crate::json::json_string("tool_use"));
                crate::json::json_map_insert(&mut m, "id", crate::json::json_string(id.as_str()));
                crate::json::json_map_insert(
                    &mut m,
                    "name",
                    crate::json::json_string(name.as_str()),
                );
                crate::json::json_map_insert(&mut m, "input", input.clone());
                let v = crate::json::json_object(m);
                proof {
                    assert(json_model(v) =~~= self.to_json_data());
                }
                v
            },
            ContentBlock::ToolResult { tool_use_id, content, is_error } => {
                let mut m = crate::json::json_map_new();
                crate::json::json_map_insert(
                    &mut m,
                    "type",
                    crate::json::json_string("tool_result"),
                );
                crate::json::json_map_insert(
                    &mut m,
                    "tool_use_id",
                    crate::json::json_string(tool_use_id.as_str()),
                );
                match content {
                    Some(c) => {
                        crate::json::json_map_insert(&mut m, "content", c.clone());
                    },
                    None => {},
                }
                match is_error {
                    Some(b) => {
                        crate::json::json_map_insert(&mut m, "is_error", crate::json::json_bool(*b));
                    },
                    None => {},
                }
                let v = crate::json::json_object(m);
                proof {
                    assert(json_model(v) =~~= self.to_json_data());
                }
                v
            },
        }
    }
}

impl Message {
    /// Whether this message ends a response: the receive-until-terminal
    /// view stops delivering once it sees one.
    pub fn is_terminal(&self) -> (r: bool)
        ensures
            r == (*self is Result),
    {
        match self {
            Message::Result { .. } => true,
            _ => false,
        }
    }
}

// ---------------------------------------------------------------------------
// Success conditions
// ---------------------------------------------------------------------------
pub open spec fn content_block_ok(d: JsonData) -> bool {
    &&& d is Obj
    &&& obj_str(d, "type"@) is Some
    &&& {
        let t = obj_str(d, "type"@).unwrap();
        if t == "text"@ {
            obj_str(d, "text"@) is Some
        } else if t == "thinking"@ {
            obj_str(d, "thinking"@) is Some && obj_str(d, "signature"@) is Some
        } else if t == "tool_use"@ {
            obj_str(d, "id"@) is Some && obj_str(d, "name"@) is Some && obj_has(d, "input"@)
        } else if t == "tool_result"@ {
            obj_str(d, "tool_use_id"@) is Some
        } else {
            false
        }
    }
}

pub open spec fn blocks_ok(s: Seq<JsonData>) -> bool {
    forall|i: int| 0 <= i < s.len() ==> content_block_ok(#[trigger] s[i])
}

pub open spec fn user_ok(d: JsonData) -> bool {
    &&& d is Obj
    &&& obj_has(d, "message"@)
    &&& obj_get(d, "message"@) is Obj
}

pub open spec fn assistant_ok(d: JsonData) -> bool {
    &&& d is Obj
    &&& obj_has(d, "message"@)
    &&& obj_get(d, "message"@) is Obj
    &&& {
        let m = obj_get(d, "message"@);
        &&& obj_str(m, "model"@) is Some
        &&& obj_has(m, "content"@)
        &&& obj_get(m, "content"@) is Arr
        &&& blocks_ok(obj_get(m, "content"@)->Arr_0)
    }
}

pub open spec fn system_ok(d: JsonData) -> bool {
    d is Obj && obj_str(d, "subtype"@) is Some
}

pub open spec fn result_ok(d: JsonData) -> bool {
    &&& d is Obj
    &&& obj_str(d, "subtype"@) is Some
    &&& obj_i64(d, "duration_ms"@) is Some
    &&& obj_i64(d, "duration_api_ms"@) is Some
    &&& obj_bool(d, "is_error"@) is Some
    &&& obj_i64(d, "num_turns"@) is Some
    &&& obj_str(d, "session_id"@) is Some
}

pub open spec fn stream_ok(d: JsonData) -> bool {
    &&& d is Obj
    &&& obj_str(d, "uuid"@) is Some
    &&& obj_str(d, "session_id"@) is Some
    &&& obj_has(d, "event"@)
}

/// The documents `parse_message` accepts.
pub open spec fn message_ok(d: JsonData) -> bool {
    &&& d is Obj
    &&& obj_str(d, "type"@) is Some
    &&& {
        let t = obj_str(d, "type"@).unwrap();
        if t == "user"@ {
            user_ok(d)
        } else if t == "assistant"@ {
            assistant_ok(d)
        } else if t == "system"@ {
            system_ok(d)
        } else if t == "result"@ {
            result_ok(d)
        } else if t == "stream_event"@ {
            stream_ok(d)
        } else {
            false
        }
    }
}

// ---------------------------------------------------------------------------
// What the parsed values hold
// ---------------------------------------------------------------------------
pub open spec fn content_block_matches(b: ContentBlock, d: JsonData) -> bool {
    match b {
        ContentBlock::Text { text } => obj_str(d, "type"@) == Some("text"@) && obj_str(d, "text"@)
            == Some(text@),
        ContentBlock::Thinking { thinking, signature } => obj_str(d, "type"@) == Some("thinking"@)
            && obj_str(d, "thinking"@) == Some(thinking@) && obj_str(d, "signature"@) == Some(
            signature@,
        ),
        ContentBlock::ToolUse { id, name, input } => obj_str(d, "type"@) == Some("tool_use"@)
            && obj_str(d, "id"@) == Some(id@) && obj_str(d, "name"@) == Some(name@) && obj_has(
            d,
            "input"@,
        ) && json_model(input) == obj_get(d, "input"@),
        ContentBlock::ToolResult { tool_use_id, content, is_error } => obj_str(d, "type"@) == Some(
            "tool_result"@,
        ) && obj_str(d, "tool_use_id"@) == Some(tool_use_id@) && (content is Some <==> obj_has(
            d,
            "content"@,
        )) && (content matches Some(c) ==> json_model(c) == obj_get(d, "content"@)) && is_error
            == obj_bool(d, "is_error"@),
    }
}

pub open spec fn message_matches(m: Message, d: JsonData) -> bool {
    match m {
        Message::User { message, parent_tool_use_id } => {
            let body = obj_get(d, "message"@);
            &&& parent_tool_use_id is Some <==> obj_str(d, "parent_tool_use_id"@) is Some
            &&& (parent_tool_use_id matches Some(p) ==> obj_str(d, "parent_tool_use_id"@) == Some(
                p@,
            ))
            &&& (match obj_str(body, "role"@) {
                Some(r) => message.message.role@ == r,
                None => message.message.role@ == "user"@,
            })
            &&& (message.message.content is Some <==> obj_has(body, "content"@))
            &&& (message.message.content matches Some(c) ==> json_model(c) == obj_get(
                body,
                "content"@,
            ))
        },
        Message::Assistant { message, parent_tool_use_id } => {
            let body = obj_get(d, "message"@);
            let arr = obj_get(body, "content"@)->Arr_0;
            &&& parent_tool_use_id is Some <==> obj_str(d, "parent_tool_use_id"@) is Some
            &&& (parent_tool_use_id matches Some(p) ==> obj_str(d, "parent_tool_use_id"@) == Some(
                p@,
            ))
            &&& obj_str(body, "model"@) == Some(message.message.model@)
            &&& message.message.content@.len() == arr.len()
            &&& forall|i: int|
                0 <= i < arr.len() ==> content_block_matches(
                    #[trigger] message.message.content@[i],
                    arr[i],
                )
        },
        Message::System { subtype, data } => {
            &&& obj_str(d, "subtype"@) == Some(subtype@)
            &&& json_model(data) == d
        },
        Message::Result {
            subtype,
            duration_ms,
            duration_api_ms,
            is_error,
            num_turns,
            session_id,
            total_cost_usd,
            usage,
            result,
        } => {
            &&& obj_str(d, "subtype"@) == Some(subtype@)
            &&& obj_i64(d, "duration_ms"@) == Some(duration_ms)
            &&& obj_i64(d, "duration_api_ms"@) == Some(duration_api_ms)
            &&& obj_bool(d, "is_error"@) == Some(is_error)
            &&& obj_i64(d, "num_turns"@) is Some
            &&& {
                let v = obj_i64(d, "num_turns"@).unwrap();
                (i32::MIN as int <= v as int <= i32::MAX as int) ==> num_turns as int == v as int
            }
            &&& obj_str(d, "session_id"@) == Some(session_id@)
            &&& total_cost_usd == obj_num(d, "total_cost_usd"@)
            &&& (usage is Some <==> obj_has(d, "usage"@))
            &&& (usage matches Some(u) ==> json_model(u) == obj_get(d, "usage"@))
            &&& (result is Some <==> obj_str(d, "result"@) is Some)
            &&& (result matches Some(s) ==> obj_str(d, "result"@) == Some(s@))
        },
        Message::StreamEvent { uuid, session_id, event, parent_tool_use_id } => {
            &&& obj_str(d, "uuid"@) == Some(uuid@)
            &&& obj_str(d, "session_id"@) == Some(session_id@)
            &&& obj_has(d, "event"@) && json_model(event) == obj_get(d, "event"@)
            &&& (parent_tool_use_id is Some <==> obj_str(d, "parent_tool_use_id"@) is Some)
            &&& (parent_tool_use_id matches Some(p) ==> obj_str(d, "parent_tool_use_id"@) == Some(
                p@,
            ))
        },
    }
}

/// Which message the parsed type discriminator selects.
pub open spec fn message_variant_matches(m: Message, d: JsonData) -> bool {
    let t = obj_str(d, "type"@).unwrap();
    &&& (t == "user"@ <==> m is User)
    &&& (t == "assistant"@ <==> m is Assistant)
    &&& (t == "system"@ <==> m is System)
    &&& (t == "result"@ <==> m is Result)
    &&& (t == "stream_event"@ <==> m is StreamEvent)
}

// ---------------------------------------------------------------------------
// Error texts and data
// ---------------------------------------------------------------------------
pub open spec fn block_err_text(d: JsonData) -> Seq<char> {
    if !(d is Obj) {
        "Content block must be an object"@
    } else if obj_str(d, "type"@) is None {
        "Content block missing 'type' field"@
    } else {
        let t = obj_str(d, "type"@).unwrap();
        if t == "text"@ {
            "Text block missing 'text' field"@
        } else if t == "thinking"@ {
            if obj_str(d, "thinking"@) is None {
                "Thinking block missing 'thinking' field"@
            } else {
                "Thinking block missing 'signature' field"@
            }
        } else if t == "tool_use"@ {
            if obj_str(d, "id"@) is None {
                "Tool use block missing 'id' field"@
            } else if obj_str(d, "name"@) is None {
                "Tool use block missing 'name' field"@
            } else {
                "Tool use block missing 'input' field"@
            }
        } else if t == "tool_result"@ {
            "Tool result block missing 'tool_use_id' field"@
        } else {
            "Unknown content block type: "@ + t
        }
    }
}

/// The first block (in order) that does not parse.
pub open spec fn first_bad_block(s: Seq<JsonData>) -> JsonData
    decreases s.len(),
{
    if s.len() == 0 {
        JsonData::Null
    } else if !content_block_ok(s.first()) {
        s.first()
    } else {
        first_bad_block(s.drop_first())
    }
}

pub open spec fn user_err_text(d: JsonData) -> Seq<char> {
    if !(d is Obj) {
        "User message must be an object"@
    } else {
        "User message missing 'message' field"@
    }
}

pub open spec fn assistant_err_text(d: JsonData) -> Seq<char> {
    if !(d is Obj) {
        "Assistant message must be an object"@
    } else if !(obj_has(d, "message"@) && obj_get(d, "message"@) is Obj) {
        "Assistant message missing 'message' field"@
    } else {
        let m = obj_get(d, "message"@);
        if obj_str(m, "model"@) is None {
            "Assistant message missing 'model' field"@
        } else if !(obj_has(m, "content"@) && obj_get(m, "content"@) is Arr) {
            "Assistant message missing 'content' array"@
        } else {
            block_err_text(first_bad_block(obj_get(m, "content"@)->Arr_0))
        }
    }
}

pub open spec fn system_err_text(d: JsonData) -> Seq<char> {
    if !(d is Obj) {
        "System message must be an object"@
    } else {
        "System message missing 'subtype' field"@
    }
}

pub open spec fn result_err_text(d: JsonData) -> Seq<char> {
    if !(d is Obj) {
        "Result message must be an object"@
    } else if obj_str(d, "subtype"@) is None {
        "Result message missing 'subtype' field"@
    } else if obj_i64(d, "duration_ms"@) is None {
        "Result message missing 'duration_ms' field"@
    } else if obj_i64(d, "duration_api_ms"@) is None {
        "Result message missing 'duration_api_ms' field"@
    } else if obj_bool(d, "is_error"@) is None {
        "Result message missing 'is_error' field"@
    } else if obj_i64(d, "num_turns"@) is None {
        "Result message missing 'num_turns' field"@
    } else {
        "Result message missing 'session_id' field"@
    }
}

pub open spec fn stream_err_text(d: JsonData) -> Seq<char> {
    if !(d is Obj) {
        "Stream event must be an object"@
    } else if obj_str(d, "uuid"@) is None {
        "Stream event missing 'uuid' field"@
    } else if obj_str(d, "session_id"@) is None {
        "Stream event missing 'session_id' field"@
    } else {
        "Stream event missing 'event' field"@
    }
}

/// The error text `parse_message` reports on a rejected document.
pub open spec fn message_err_text(d: JsonData) -> Seq<char> {
    if !(d is Obj) {
        "Expected message to be an object"@
    } else if obj_str(d, "type"@) is None {
        "Message missing 'type' field"@
    } else {
        let t = obj_str(d, "type"@).unwrap();
        if t == "user"@ {
            user_err_text(d)
        } else if t == "assistant"@ {
            assistant_err_text(d)
        } else if t == "system"@ {
            system_err_text(d)
        } else if t == "result"@ {
            result_err_text(d)
        } else if t == "stream_event"@ {
            stream_err_text(d)
        } else {
            "Unknown message type: "@ + t
        }
    }
}

/// The data attached to the error: the failing content block for a bad
/// assistant block, the whole document otherwise.
pub open spec fn message_err_data(d: JsonData) -> JsonData {
    if d is Obj && obj_str(d, "type"@) is Some {
        let t = obj_str(d, "type"@).unwrap();
        if t == "assistant"@ && obj_has(d, "message"@) && obj_get(d, "message"@) is Obj && obj_str(
            obj_get(d, "message"@),
            "model"@,
        ) is Some && obj_has(obj_get(d, "message"@), "content"@) && obj_get(
            obj_get(d, "message"@),
            "content"@,
        ) is Arr {
            first_bad_block(obj_get(obj_get(d, "message"@), "content"@)->Arr_0)
        } else {
            d
        }
    } else {
        d
    }
}

// ---------------------------------------------------------------------------
// Executable parsers
// ---------------------------------------------------------------------------
fn get_bool_field(v: &serde_json::Value, key: &str) -> (r: Option<bool>)
    ensures
        r == obj_bool(json_model(*v), key@),
{
    match json_get(v, key) {
        Some(x) => json_as_bool(x),
        None => None,
    }
}

fn get_i64_field(v: &serde_json::Value, key: &str) -> (r: Option<i64>)
    ensures
        r == obj_i64(json_model(*v), key@),
{
    match json_get(v, key) {
        Some(x) => json_as_i64(x),
        None => None,
    }
}

fn get_num_field(v: &serde_json::Value, key: &str) -> (r: Option<serde_json::Number>)
    ensures
        r == obj_num(json_model(*v), key@),
{
    match json_get(v, key) {
        Some(x) => json_as_number(x),
        None => None,
    }
}

fn str_eq_lit(s: &String, lit: &str) -> (r: bool)
    ensures
        r == (s@ == lit@),
{
    let other: String = lit.to_owned();
    *s == other
}

proof fn lemma_message_type_literals_distinct()
    ensures
        "user"@ != "assistant"@,
        "user"@ != "system"@,
        "user"@ != "result"@,
        "user"@ != "stream_event"@,
        "assistant"@ != "system"@,
        "assistant"@ != "result"@,
        "assistant"@ != "stream_event"@,
        "system"@ != "result"@,
        "system"@ != "stream_event"@,
        "result"@ != "stream_event"@,
{
    reveal_strlit("user");
    reveal_strlit("assistant");
    reveal_strlit("system");
    reveal_strlit("result");
    reveal_strlit("stream_event");
    assert("user"@.len() == 4);
    assert("assistant"@.len() == 9);
    assert("system"@.len() == 6);
    assert("result"@.len() == 6);
    assert("stream_event"@.len() == 12);
    assert("system"@[0] == 's');
    assert("result"@[0] == 'r');
}

fn parse_err(message: &str, data: &serde_json::Value) -> (r: ClaudeSDKError)
    ensures
        r matches ClaudeSDKError::MessageParse { message: m, data: dd } && m@ == message@ && (
        dd matches Some(w) && json_model(w) == json_model(*data)),
{
    ClaudeSDKError::message_parse(message, Some(data.clone()))
}

/// Parse one frame read from the transport into a typed message.
///
/// Succeeds exactly on the documents `message_ok` admits; on success every
/// field of the message is the corresponding field of the document; on
/// failure the error carries the text `message_err_text` and the offending
/// data.
pub fn parse_message(data: serde_json::Value) -> (r: SdkResult<Message>)
    ensures
        r is Ok <==> message_ok(json_model(data)),
        r matches Ok(m) ==> message_matches(m, json_model(data)) && message_variant_matches(
            m,
            json_model(data),
        ),
        r matches Err(e) ==> e matches ClaudeSDKError::MessageParse { message: mm, data: dd }
            && mm@ == message_err_text(json_model(data)) && (dd matches Some(w) && json_model(w)
            == message_err_data(json_model(data))),
{
    let ghost d = json_model(data);
    if !json_is_object(&data) {
        return Err(parse_err("Expected message to be an object", &data));
    }
    let ty = match get_str_field(&data, "type") {
        Some(t) => t,
        None => {
            return Err(parse_err("Message missing 'type' field", &data));
        },
    };
    proof {
        lemma_message_type_literals_distinct();
    }
    if str_eq_lit(&ty, "user") {
        parse_user_message(&data)
    } else if str_eq_lit(&ty, "assistant") {
        parse_assistant_message(&data)
    } else if str_eq_lit(&ty, "system") {
        parse_system_message(&data)
    } else if str_eq_lit(&ty, "result") {
        parse_result_message(&data)
    } else if str_eq_lit(&ty, "stream_event") {
        parse_stream_event(&data)
    } else {
        let mut msg = String::new();
        proof {
            reveal_strlit("Unknown message type: ");
        }
        msg.append("Unknown message type: ");
        msg.append(ty.as_str());
        assert(msg@ =~= "Unknown message type: "@ + ty@);
        Err(parse_err(msg.as_str(), &data))
    }
}

fn parse_user_message(data: &serde_json::Value) -> (r: SdkResult<Message>)
    requires
        json_model(*data) is Obj,
        obj_str(json_model(*data), "type"@) == Some("user"@),
    ensures
        r is Ok <==> user_ok(json_model(*data)),
        r matches Ok(m) ==> message_matches(m, json_model(*data)) && m is User,
        r matches Err(e) ==> e matches ClaudeSDKError::MessageParse { message: mm, data: dd }
            && mm@ == user_err_text(json_model(*data)) && (dd matches Some(w) && json_model(w)
            == json_model(*data)),
{
    let parent_tool_use_id = get_str_field(data, "parent_tool_use_id");
    let message_val = match json_get(data, "message") {
        Some(x) => x,
        None => {
            return Err(parse_err("User message missing 'message' field", data));
        },
    };
    if !json_is_object(message_val) {
        return Err(parse_err("User message missing 'message' field", data));
    }
    let role = match get_str_field(message_val, "role") {
        Some(rr) => rr,
        None => {
            let u: String = "user".to_owned();
            u
        },
    };
    let content = get_field_clone(message_val, "content");
    Ok(
        Message::User {
            message: UserMessageContent { message: UserMessageInner { role, content } },
            parent_tool_use_id,
        },
    )
}

#[verifier::loop_isolation(false)]
fn parse_assistant_message(data: &serde_json::Value) -> (r: SdkResult<Message>)
    requires
        json_model(*data) is Obj,
        obj_str(json_model(*data), "type"@) == Some("assistant"@),
    ensures
        r is Ok <==> assistant_ok(json_model(*data)),
        r matches Ok(m) ==> message_matches(m, json_model(*data)) && m is Assistant,
        r matches Err(e) ==> e matches ClaudeSDKError::MessageParse { message: mm, data: dd }
            && mm@ == assistant_err_text(json_model(*data)) && (dd matches Some(w) && json_model(
            w,
        ) == message_err_data(json_model(*data))),
{
    let ghost d = json_model(*data);
    let parent_tool_use_id = get_str_field(data, "parent_tool_use_id");
    let message_val = match json_get(data, "message") {
        Some(x) => x,
        None => {
            return Err(parse_err("Assistant message missing 'message' field", data));
        },
    };
    if !json_is_object(message_val) {
        return Err(parse_err("Assistant message missing 'message' field", data));
    }
    let model = match get_str_field(message_val, "model") {
        Some(m) => m,
        None => {
            return Err(parse_err("Assistant message missing 'model' field", data));
        },
    };
    let content_array = match json_get(message_val, "content") {
        Some(x) => match json_as_array(x) {
            Some(a) => a,
            None => {
                return Err(parse_err("Assistant message missing 'content' array", data));
            },
        },
        None => {
            return Err(parse_err("Assistant message missing 'content' array", data));
        },
    };
    let ghost arr = obj_get(obj_get(d, "message"@), "content"@)->Arr_0;
    let mut content_blocks: Vec<ContentBlock> = Vec::new();
    let n = content_array.len();
    let mut i: usize = 0;
    while i < n
        invariant
            0 <= i <= n,
            n == content_array@.len(),
            n == arr.len(),
            forall|k: int| 0 <= k < n ==> json_model(#[trigger] content_array@[k]) == arr[k],
            forall|k: int| 0 <= k < i ==> content_block_ok(#[trigger] arr[k]),
            content_blocks@.len() == i,
            forall|k: int|
                0 <= k < i ==> content_block_matches(#[trigger] content_blocks@[k], arr[k]),
        decreases n - i,
    {
        match parse_content_block(&content_array[i]) {
            Ok(b) => {
                content_blocks.push(b);
            },
            Err(e) => {
                proof {
                    assert(json_model(content_array@[i as int]) == arr[i as int]);
                    assert(!content_block_ok(arr[i as int]));
                    lemma_first_bad_block(arr, i as int);
                    assert(!blocks_ok(arr));
                }
                return Err(e);
            },
        }
        i = i + 1;
    }
    Ok(
        Message::Assistant {
            message: AssistantMessageContent {
                message: AssistantMessageInner { content: content_blocks, model },
            },
            parent_tool_use_id,
        },
    )
}

proof fn lemma_first_bad_block(s: Seq<JsonData>, i: int)
    requires
        0 <= i < s.len(),
        forall|k: int| 0 <= k < i ==> content_block_ok(#[trigger] s[k]),
        !content_block_ok(s[i]),
    ensures
        first_bad_block(s) == s[i],
    decreases i,
{
    if i == 0 {
    } else {
        assert(content_block_ok(s.first()));
        lemma_first_bad_block(s.drop_first(), i - 1);
    }
}

/// Parse one content block of an assistant message.
pub fn parse_content_block(block: &serde_json::Value) -> (r: SdkResult<ContentBlock>)
    ensures
        r is Ok <==> content_block_ok(json_model(*block)),
        r matches Ok(b) ==> content_block_matches(b, json_model(*block)),
        r matches Err(e) ==> e matches ClaudeSDKError::MessageParse { message: mm, data: dd }
            && mm@ == block_err_text(json_model(*block)) && (dd matches Some(w) && json_model(w)
            == json_model(*block)),
{
    if !json_is_object(block) {
        return Err(parse_err("Content block must be an object", block));
    }
    let ty = match get_str_field(block, "type") {
        Some(t) => t,
        None => {
            return Err(parse_err("Content block missing 'type' field", block));
        },
    };
    if str_eq_lit(&ty, "text") {
        match get_str_field(block, "text") {
            Some(text) => Ok(ContentBlock::Text { text }),
            None => Err(parse_err("Text block missing 'text' field", block)),
        }
    } else if str_eq_lit(&ty, "thinking") {
        let thinking = match get_str_field(block, "thinking") {
            Some(t) => t,
            None => {
                return Err(parse_err("Thinking block missing 'thinking' field", block));
            },
        };
        match get_str_field(block, "signature") {
            Some(signature) => Ok(ContentBlock::Thinking { thinking, signature }),
            None => Err(parse_err("Thinking block missing 'signature' field", block)),
        }
    } else if str_eq_lit(&ty, "tool_use") {
        let id = match get_str_field(block, "id") {
            Some(t) => t,
            None => {
                return Err(parse_err("Tool use block missing 'id' field", block));
            },
        };
        let name = match get_str_field(block, "name") {
            Some(t) => t,
            None => {
                return Err(parse_err("Tool use block missing 'name' field", block));
            },
        };
        match get_field_clone(block, "input") {
            Some(input) => Ok(ContentBlock::ToolUse { id, name, input }),
            None => Err(parse_err("Tool use block missing 'input' field", block)),
        }
    } else if str_eq_lit(&ty, "tool_result") {
        let tool_use_id = match get_str_field(block, "tool_use_id") {
            Some(t) => t,
            None => {
                return Err(parse_err("Tool result block missing 'tool_use_id' field", block));
            },
        };
        let content = get_field_clone(block, "content");
        let is_error = get_bool_field(block, "is_error");
        Ok(ContentBlock::ToolResult { tool_use_id, content, is_error })
    } else {
        let mut msg = String::new();
        proof {
            reveal_strlit("Unknown content block type: ");
        }
        msg.append("Unknown content block type: ");
        msg.append(ty.as_str());
        assert(msg@ =~= "Unknown content block type: "@ + ty@);
        Err(parse_err(msg.as_str(), block))
    }
}

fn parse_system_message(data: &serde_json::Value) -> (r: SdkResult<Message>)
    requires
        json_model(*data) is Obj,
        obj_str(json_model(*data), "type"@) == Some("system"@),
    ensures
        r is Ok <==> system_ok(json_model(*data)),
        r matches Ok(m) ==> message_matches(m, json_model(*data)) && m is System,
        r matches Err(e) ==> e matches ClaudeSDKError::MessageParse { message: mm, data: dd }
            && mm@ == system_err_text(json_model(*data)) && (dd matches Some(w) && json_model(w)
            == json_model(*data)),
{
    match get_str_field(data, "subtype") {
        Some(subtype) => Ok(Message::System { subtype, data: data.clone() }),
        None => Err(parse_err("System message missing 'subtype' field", data)),
    }
}

fn parse_result_message(data: &serde_json::Value) -> (r: SdkResult<Message>)
    requires
        json_model(*data) is Obj,
        obj_str(json_model(*data), "type"@) == Some("result"@),
    ensures
        r is Ok <==> result_ok(json_model(*data)),
        r matches Ok(m) ==> message_matches(m, json_model(*data)) && m is Result,
        r matches Err(e) ==> e matches ClaudeSDKError::MessageParse { message: mm, data: dd }
            && mm@ == result_err_text(json_model(*data)) && (dd matches Some(w) && json_model(w)
            == json_model(*data)),
{
    let subtype = match get_str_field(data, "subtype") {
        Some(t) => t,
        None => {
            return Err(parse_err("Result message missing 'subtype' field", data));
        },
    };
    let duration_ms = match get_i64_field(data, "duration_ms") {
        Some(x) => x,
        None => {
            return Err(parse_err("Result message missing 'duration_ms' field", data));
        },
    };
    let duration_api_ms = match get_i64_field(data, "duration_api_ms") {
        Some(x) => x,
        None => {
            return Err(parse_err("Result message missing 'duration_api_ms' field", data));
        },
    };
    let is_error = match get_bool_field(data, "is_error") {
        Some(x) => x,
        None => {
            return Err(parse_err("Result message missing 'is_error' field", data));
        },
    };
    let num_turns_wide = match get_i64_field(data, "num_turns") {
        Some(x) => x,
        None => {
            return Err(parse_err("Result message missing 'num_turns' field", data));
        },
    };
    let num_turns: i32 = if num_turns_wide >= i32::MIN as i64 && num_turns_wide <= i32::MAX as i64 {
        num_turns_wide as i32
    } else {
        0
    };
    let session_id = match get_str_field(data, "session_id") {
        Some(t) => t,
        None => {
            return Err(parse_err("Result message missing 'session_id' field", data));
        },
    };
    let total_cost_usd = get_num_field(data, "total_cost_usd");
    let usage = get_field_clone(data, "usage");
    let result = get_str_field(data, "result");
    Ok(
        Message::Result {
            subtype,
            duration_ms,
            duration_api_ms,
            is_error,
            num_turns,
            session_id,
            total_cost_usd,
            usage,
            result,
        },
    )
}

fn parse_stream_event(data: &serde_json::Value) -> (r: SdkResult<Message>)
    requires
        json_model(*data) is Obj,
        obj_str(json_model(*data), "type"@) == Some("stream_event"@),
    ensures
        r is Ok <==> stream_ok(json_model(*data)),
        r matches Ok(m) ==> message_matches(m, json_model(*data)) && m is StreamEvent,
        r matches Err(e) ==> e matches ClaudeSDKError::MessageParse { message: mm, data: dd }
            && mm@ == stream_err_text(json_model(*data)) && (dd matches Some(w) && json_model(w)
            == json_model(*data)),
{
    let uuid = match get_str_field(data, "uuid") {
        Some(t) => t,
        None => {
            return Err(parse_err("Stream event missing 'uuid' field", data));
        },
    };
    let session_id = match get_str_field(data, "session_id") {
        Some(t) => t,
        None => {
            return Err(parse_err("Stream event missing 'session_id' field", data));
        },
    };
    let event = match get_field_clone(data, "event") {
        Some(e) => e,
        None => {
            return Err(parse_err("Stream event missing 'event' field", data));
        },
    };
    let parent_tool_use_id = get_str_field(data, "parent_tool_use_id");
    Ok(Message::StreamEvent { uuid, session_id, event, parent_tool_use_id })
}

} // verus!
