use vstd::prelude::*;
use crate::error::GeminiError;
use crate::json::{
    JsonValue, JsonView, json_of, json_view, fields_view, parse_json, spec_obj_get,
    spec_text_field, obj_get, clone_json, lemma_obj_found,
};

verus! {

/// One event of a streaming-mode session, tagged by the `type` field of its
/// line's JSON object.
#[derive(Debug)]
pub enum StreamEvent {
    /// Initial session metadata.
    Init { session_id: String, model: String, timestamp: String },
    /// A chunk of text content or a full message.
    Message { role: String, content: String, delta: Option<bool>, timestamp: String },
    /// The agent is invoking a tool; the parameters are carried through as
    /// parsed JSON.
    ToolUse { tool_name: String, parameters: JsonValue, timestamp: String },
    /// The result of a tool execution.
    ToolResult { tool_id: String, status: String, output: String, timestamp: String },
    /// The final completion event; the statistics payload is carried through
    /// as parsed JSON.
    Result { status: String, stats: JsonValue, timestamp: String },
    /// An error reported inside the stream.
    Error { message: String },
}

/// Mathematical shape of [`StreamEvent`].
#[verifier::ext_equal]
pub enum EventView {
    Init { session_id: Seq<char>, model: Seq<char>, timestamp: Seq<char> },
    Message { role: Seq<char>, content: Seq<char>, delta: Option<bool>, timestamp: Seq<char> },
    ToolUse { tool_name: Seq<char>, parameters: JsonView, timestamp: Seq<char> },
    ToolResult { tool_id: Seq<char>, status: Seq<char>, output: Seq<char>, timestamp: Seq<char> },
    Result { status: Seq<char>, stats: JsonView, timestamp: Seq<char> },
    Error { message: Seq<char> },
}

impl View for StreamEvent {
    type V = EventView;

    open spec fn view(&self) -> EventView {
        match self {
            StreamEvent::Init { session_id, model, timestamp } => EventView::Init {
                session_id: session_id@,
                model: model@,
                timestamp: timestamp@,
            },
            StreamEvent::Message { role, content, delta, timestamp } => EventView::Message {
                role: role@,
                content: content@,
                delta: *delta,
                timestamp: timestamp@,
            },
            StreamEvent::ToolUse { tool_name, parameters, timestamp } => EventView::ToolUse {
                tool_name: tool_name@,
                parameters: json_view(*parameters),
                timestamp: timestamp@,
            },
            StreamEvent::ToolResult { tool_id, status, output, timestamp } => EventView::ToolResult {
                tool_id: tool_id@,
                status: status@,
                output: output@,
                timestamp: timestamp@,
            },
            StreamEvent::Result { status, stats, timestamp } => EventView::Result {
                status: status@,
                stats: json_view(*stats),
                timestamp: timestamp@,
            },
            StreamEvent::Error { message } => EventView::Error { message: message@ },
        }
    }
}

/// An optional partial-delta marker read from a JSON field: absent or null
/// means no marker; a boolean is the marker; any other value is a shape error.
pub open spec fn spec_delta_field(v: Option<JsonView>) -> Option<Option<bool>> {
    match v {
        None => Some(None),
        Some(JsonView::Null) => Some(None),
        Some(JsonView::Bool(b)) => Some(Some(b)),
        _ => None,
    }
}

/// The event one line's document holds: an object tagged by its `type` field,
/// with the field set of that tag. An unrecognized tag is a shape error.
pub open spec fn spec_decode_event(v: JsonView) -> Option<EventView> {
    match v {
        JsonView::Obj(fs) => match spec_obj_get(fs, "type"@) {
            Some(JsonView::Text(tag)) => {
                if tag == "init"@ {
                    match (
                        spec_text_field(fs, "session_id"@),
                        spec_text_field(fs, "model"@),
                        spec_text_field(fs, "timestamp"@),
                    ) {
                        (Some(sid), Some(model), Some(ts)) => Some(
                            EventView::Init { session_id: sid, model, timestamp: ts },
                        ),
                        _ => None,
                    }
                } else if tag == "message"@ {
                    match (
                        spec_text_field(fs, "role"@),
                        spec_text_field(fs, "content"@),
                        spec_delta_field(spec_obj_get(fs, "delta"@)),
                        spec_text_field(fs, "timestamp"@),
                    ) {
                        (Some(role), Some(content), Some(delta), Some(ts)) => Some(
                            EventView::Message { role, content, delta, timestamp: ts },
                        ),
                        _ => None,
                    }
                } else if tag == "tool_use"@ {
                    match (
                        spec_text_field(fs, "tool_name"@),
                        spec_obj_get(fs, "parameters"@),
                        spec_text_field(fs, "timestamp"@),
                    ) {
                        (Some(name), Some(params), Some(ts)) => Some(
                            EventView::ToolUse { tool_name: name, parameters: params, timestamp: ts },
                        ),
                        _ => None,
                    }
                } else if tag == "tool_result"@ {
                    match (
                        spec_text_field(fs, "tool_id"@),
                        spec_text_field(fs, "status"@),
                        spec_text_field(fs, "output"@),
                        spec_text_field(fs, "timestamp"@),
                    ) {
                        (Some(tid), Some(status), Some(output), Some(ts)) => Some(
                            EventView::ToolResult { tool_id: tid, status, output, timestamp: ts },
                        ),
                        _ => None,
                    }
                } else if tag == "result"@ {
                    match (
                        spec_text_field(fs, "status"@),
                        spec_obj_get(fs, "stats"@),
                        spec_text_field(fs, "timestamp"@),
                    ) {
                        (Some(status), Some(stats), Some(ts)) => Some(
                            EventView::Result { status, stats, timestamp: ts },
                        ),
                        _ => None,
                    }
                } else if tag == "error"@ {
                    match spec_text_field(fs, "message"@) {
                        Some(message) => Some(EventView::Error { message }),
                        _ => None,
                    }
                } else {
                    None
                }
            },
            _ => None,
        },
        _ => None,
    }
}

/// Read a required string field out of an object's field list.
fn text_field(fields: &Vec<(String, JsonValue)>, key: &String) -> (r: Result<String, String>)
    ensures
        match r {
            Ok(t) => spec_text_field(fields_view(fields@), key@) == Some(t@),
            Err(_) => spec_text_field(fields_view(fields@), key@) is None,
        },
{
    match obj_get(fields, key) {
        Some(JsonValue::Text(t)) => Ok(t.clone()),
        _ => Err("expected a string field".to_owned()),
    }
}

/// Decode one streaming event out of a parsed document.
pub fn decode_event(v: &JsonValue) -> (r: Result<StreamEvent, String>)
    ensures
        match r {
            Ok(e) => spec_decode_event(json_view(*v)) == Some(e@),
            Err(_) => spec_decode_event(json_view(*v)) is None,
        },
{
    let fields = match v {
        JsonValue::Obj(fields) => fields,
        _ => {
            return Err("event is not an object".to_owned());
        },
    };
    let tag = match obj_get(fields, &"type".to_owned()) {
        Some(JsonValue::Text(t)) => t.clone(),
        _ => {
            return Err("event has no type tag".to_owned());
        },
    };
    if tag == "init".to_owned() {
        let session_id = match text_field(fields, &"session_id".to_owned()) {
            Ok(t) => t,
            Err(e) => {
                return Err(e);
            },
        };
        let model = match text_field(fields, &"model".to_owned()) {
            Ok(t) => t,
            Err(e) => {
                return Err(e);
            },
        };
        let timestamp = match text_field(fields, &"timestamp".to_owned()) {
            Ok(t) => t,
            Err(e) => {
                return Err(e);
            },
        };
        Ok(StreamEvent::Init { session_id, model, timestamp })
    } else if tag == "message".to_owned() {
        let role = match text_field(fields, &"role".to_owned()) {
            Ok(t) => t,
            Err(e) => {
                return Err(e);
            },
        };
        let content = match text_field(fields, &"content".to_owned()) {
            Ok(t) => t,
            Err(e) => {
                return Err(e);
            },
        };
        let delta: Option<bool> = match obj_get(fields, &"delta".to_owned()) {
            None => None,
            Some(JsonValue::Null) => None,
            Some(JsonValue::Bool(b)) => Some(*b),
            Some(_) => {
                return Err("delta marker is not a boolean".to_owned());
            },
        };
        let timestamp = match text_field(fields, &"timestamp".to_owned()) {
            Ok(t) => t,
            Err(e) => {
                return Err(e);
            },
        };
        Ok(StreamEvent::Message { role, content, delta, timestamp })
    } else if tag == "tool_use".to_owned() {
        let tool_name = match text_field(fields, &"tool_name".to_owned()) {
            Ok(t) => t,
            Err(e) => {
                return Err(e);
            },
        };
        let parameters = match obj_get(fields, &"parameters".to_owned()) {
            Some(p) => clone_json(p),
            None => {
                return Err("tool parameters are missing".to_owned());
            },
        };
        let timestamp = match text_field(fields, &"timestamp".to_owned()) {
            Ok(t) => t,
            Err(e) => {
                return Err(e);
            },
        };
        Ok(StreamEvent::ToolUse { tool_name, parameters, timestamp })
    } else if tag == "tool_result".to_owned() {
        let tool_id = match text_field(fields, &"tool_id".to_owned()) {
            Ok(t) => t,
            Err(e) => {
                return Err(e);
            },
        };
        let status = match text_field(fields, &"status".to_owned()) {
            Ok(t) => t,
            Err(e) => {
                return Err(e);
            },
        };
        let output = match text_field(fields, &"output".to_owned()) {
            Ok(t) => t,
            Err(e) => {
                return Err(e);
            },
        };
        let timestamp = match text_field(fields, &"timestamp".to_owned()) {
            Ok(t) => t,
            Err(e) => {
                return Err(e);
            },
        };
        Ok(StreamEvent::ToolResult { tool_id, status, output, timestamp })
    } else if tag == "result".to_owned() {
        let status = match text_field(fields, &"status".to_owned()) {
            Ok(t) => t,
            Err(e) => {
                return Err(e);
            },
        };
        let stats = match obj_get(fields, &"stats".to_owned()) {
            Some(p) => clone_json(p),
            None => {
                return Err("result statistics are missing".to_owned());
            },
        };
        let timestamp = match text_field(fields, &"timestamp".to_owned()) {
            Ok(t) => t,
            Err(e) => {
                return Err(e);
            },
        };
        Ok(StreamEvent::Result { status, stats, timestamp })
    } else if tag == "error".to_owned() {
        let message = match text_field(fields, &"message".to_owned()) {
            Ok(t) => t,
            Err(e) => {
                return Err(e);
            },
        };
        Ok(StreamEvent::Error { message })
    } else {
        Err("unrecognized event type".to_owned())
    }
}

/// True of the bytes that make a blank line: every byte is ASCII whitespace.
pub open spec fn is_ws_byte(b: u8) -> bool {
    b == 32 || b == 9 || b == 10 || b == 13 || b == 11 || b == 12
}

/// A line is skipped when it holds nothing but whitespace.
pub open spec fn spec_line_blank(bytes: Seq<u8>) -> bool {
    forall|i: int| 0 <= i < bytes.len() ==> is_ws_byte(#[trigger] bytes[i])
}

/// The event one line yields: its bytes must be one valid JSON document of an
/// event's shape.
pub open spec fn spec_line_event(bytes: Seq<u8>) -> Option<EventView> {
    match json_of(bytes) {
        None => None,
        Some(v) => spec_decode_event(v),
    }
}

/// Test whether a line holds nothing but whitespace.
fn is_blank_line(line: &Vec<u8>) -> (r: bool)
    ensures
        r == spec_line_blank(line@),
{
    let mut i: usize = 0;
    while i < line.len()
        invariant
            i <= line.len(),
            forall|j: int| 0 <= j < i ==> is_ws_byte(#[trigger] line@[j]),
        decreases line.len() - i,
    {
        let b = line[i];
        if !(b == 32 || b == 9 || b == 10 || b == 13 || b == 11 || b == 12) {
            proof {
                assert(!is_ws_byte(line@[i as int]));
            }
            return false;
        }
        i = i + 1;
    }
    true
}

/// Decode one line of a streaming session. A blank line yields nothing; any
/// other line yields its event, or a decode failure that ends the stream.
pub fn decode_stream_line(line: &Vec<u8>) -> (r: Option<Result<StreamEvent, GeminiError>>)
    ensures
        (r is None) == spec_line_blank(line@),
        !spec_line_blank(line@) ==> match spec_line_event(line@) {
            Some(ev) => (r matches Some(Ok(e)) && e@ == ev),
            None => (r matches Some(Err(e)) && e is JsonParseFailed),
        },
{
    if is_blank_line(line) {
        return None;
    }
    let doc = match parse_json(line.as_slice()) {
        Ok(doc) => doc,
        Err(e) => {
            return Some(Err(GeminiError::JsonParseFailed(e)));
        },
    };
    match decode_event(&doc) {
        Ok(e) => Some(Ok(e)),
        Err(e) => Some(Err(GeminiError::JsonParseFailed(e))),
    }
}

/// The events of a session's lines from position `i` on, in line order: blank
/// lines yield nothing, a line that does not decode ends the sequence with
/// one failure marker, and every other line yields its event.
pub open spec fn spec_stream_from(lines: Seq<Seq<u8>>, i: int) -> Seq<Result<EventView, ()>>
    decreases lines.len() - i,
{
    if i < 0 || i >= lines.len() {
        Seq::empty()
    } else if spec_line_blank(lines[i]) {
        spec_stream_from(lines, i + 1)
    } else {
        match spec_line_event(lines[i]) {
            None => seq![Err(())],
            Some(ev) => seq![Ok(ev)] + spec_stream_from(lines, i + 1),
        }
    }
}

/// The events of a whole session, in line order.
pub open spec fn spec_stream(lines: Seq<Seq<u8>>) -> Seq<Result<EventView, ()>> {
    spec_stream_from(lines, 0)
}

/// The mathematical shape of a decoded event sequence: each event by its
/// shape, each failure by one marker.
pub open spec fn events_view(s: Seq<Result<StreamEvent, GeminiError>>) -> Seq<
    Result<EventView, ()>,
> {
    s.map_values(
        |r: Result<StreamEvent, GeminiError>|
            match r {
                Ok(e) => Ok::<EventView, ()>(e@),
                Err(_) => Err::<EventView, ()>(()),
            },
    )
}

/// The bytes of each line.
pub open spec fn lines_view(lines: Seq<Vec<u8>>) -> Seq<Seq<u8>> {
    lines.map_values(|l: Vec<u8>| l@)
}

fn collect_from(lines: &Vec<Vec<u8>>, i: usize) -> (r: Vec<Result<StreamEvent, GeminiError>>)
    requires
        i <= lines@.len(),
    ensures
        events_view(r@) == spec_stream_from(lines_view(lines@), i as int),
        forall|j: int| 0 <= j < r@.len() ==> (#[trigger] r@[j] matches Err(e) ==> e is JsonParseFailed),
    decreases lines@.len() - i,
{
    if i == lines.len() {
        let out: Vec<Result<StreamEvent, GeminiError>> = Vec::new();
        proof {
            assert(events_view(out@) =~= spec_stream_from(lines_view(lines@), i as int));
        }
        return out;
    }
    proof {
        assert(lines_view(lines@)[i as int] == lines@[i as int]@);
    }
    match decode_stream_line(&lines[i]) {
        None => collect_from(lines, i + 1),
        Some(Ok(e)) => {
            let ghost ev = e@;
            let mut rest = collect_from(lines, i + 1);
            let ghost old_rest = rest@;
            rest.insert(0, Ok(e));
            proof {
                assert(events_view(rest@) =~= seq![Ok::<EventView, ()>(ev)] + events_view(
                    old_rest,
                ));
            }
            rest
        },
        Some(Err(e)) => {
            let mut out: Vec<Result<StreamEvent, GeminiError>> = Vec::new();
            out.push(Err(e));
            proof {
                assert(events_view(out@) =~= seq![Err::<EventView, ()>(())]);
            }
            out
        },
    }
}

/// Decode a whole streaming session's lines at once, in line order. The lazy
/// shell around this crate makes the same decisions one line at a time
/// through [`decode_stream_line`]; this function states and checks them over
/// a complete transcript.
pub fn collect_events(lines: &Vec<Vec<u8>>) -> (r: Vec<Result<StreamEvent, GeminiError>>)
    ensures
        events_view(r@) == spec_stream(lines_view(lines@)),
        forall|j: int| 0 <= j < r@.len() ==> (#[trigger] r@[j] matches Err(e) ==> e is JsonParseFailed),
{
    collect_from(lines, 0)
}

/// Event order matches line order: in a session where every line is non-blank
/// and decodes, the event sequence lines up with the line sequence one for
/// one — the event at each position is the decoded document of the line at
/// the same position, with no reordering, loss or invention.
pub proof fn lemma_stream_order(lines: Seq<Seq<u8>>)
    requires
        forall|i: int|
            0 <= i < lines.len() ==> !spec_line_blank(#[trigger] lines[i]) && spec_line_event(
                lines[i],
            ) is Some,
    ensures
        spec_stream(lines).len() == lines.len(),
        forall|i: int|
            0 <= i < lines.len() ==> (spec_line_event(#[trigger] lines[i]) matches Some(ev)
                && spec_stream(lines)[i] == Ok::<EventView, ()>(ev)),
{
    lemma_stream_order_from(lines, 0);
}

proof fn lemma_stream_order_from(lines: Seq<Seq<u8>>, i: int)
    requires
        0 <= i <= lines.len(),
        forall|k: int|
            0 <= k < lines.len() ==> !spec_line_blank(#[trigger] lines[k]) && spec_line_event(
                lines[k],
            ) is Some,
    ensures
        spec_stream_from(lines, i).len() == lines.len() - i,
        forall|k: int|
            i <= k < lines.len() ==> (spec_line_event(#[trigger] lines[k]) matches Some(ev)
                && spec_stream_from(lines, i)[k - i] == Ok::<EventView, ()>(ev)),
    decreases lines.len() - i,
{
    if i < lines.len() {
        lemma_stream_order_from(lines, i + 1);
    }
}

/// The canonical document of an event: the tag first, then the variant's
/// fields in declaration order; an absent delta marker is written as null.
pub open spec fn spec_encode_event(e: EventView) -> JsonView {
    match e {
        EventView::Init { session_id, model, timestamp } => JsonView::Obj(
            seq![
                ("type"@, JsonView::Text("init"@)),
                ("session_id"@, JsonView::Text(session_id)),
                ("model"@, JsonView::Text(model)),
                ("timestamp"@, JsonView::Text(timestamp)),
            ],
        ),
        EventView::Message { role, content, delta, timestamp } => JsonView::Obj(
            seq![
                ("type"@, JsonView::Text("message"@)),
                ("role"@, JsonView::Text(role)),
                ("content"@, JsonView::Text(content)),
                (
                    "delta"@,
                    match delta {
                        None => JsonView::Null,
                        Some(b) => JsonView::Bool(b),
                    },
                ),
                ("timestamp"@, JsonView::Text(timestamp)),
            ],
        ),
        EventView::ToolUse { tool_name, parameters, timestamp } => JsonView::Obj(
            seq![
                ("type"@, JsonView::Text("tool_use"@)),
                ("tool_name"@, JsonView::Text(tool_name)),
                ("parameters"@, parameters),
                ("timestamp"@, JsonView::Text(timestamp)),
            ],
        ),
        EventView::ToolResult { tool_id, status, output, timestamp } => JsonView::Obj(
            seq![
                ("type"@, JsonView::Text("tool_result"@)),
                ("tool_id"@, JsonView::Text(tool_id)),
                ("status"@, JsonView::Text(status)),
                ("output"@, JsonView::Text(output)),
                ("timestamp"@, JsonView::Text(timestamp)),
            ],
        ),
        EventView::Result { status, stats, timestamp } => JsonView::Obj(
            seq![
                ("type"@, JsonView::Text("result"@)),
                ("status"@, JsonView::Text(status)),
                ("stats"@, stats),
                ("timestamp"@, JsonView::Text(timestamp)),
            ],
        ),
        EventView::Error { message } => JsonView::Obj(
            seq![("type"@, JsonView::Text("error"@)), ("message"@, JsonView::Text(message))],
        ),
    }
}

/// The tags and keys of the event documents, made concrete.
proof fn reveal_event_keys()
    ensures
        "type"@.len() == 4,
        "init"@.len() == 4,
        "message"@.len() == 7,
        "tool_use"@.len() == 8,
        "tool_result"@.len() == 11,
        "result"@.len() == 6,
        "error"@.len() == 5,
        "session_id"@.len() == 10,
        "model"@.len() == 5,
        "timestamp"@.len() == 9,
        "role"@.len() == 4,
        "content"@.len() == 7,
        "delta"@.len() == 5,
        "tool_name"@.len() == 9,
        "tool_id"@.len() == 7,
        "status"@.len() == 6,
        "output"@.len() == 6,
        "parameters"@.len() == 10,
        "stats"@.len() == 5,
        "type"@ != "role"@,
        "type"@ != "init"@,
        "tool_name"@ != "timestamp"@,
        "status"@ != "output"@,
{
    reveal_strlit("type");
    reveal_strlit("init");
    reveal_strlit("message");
    reveal_strlit("tool_use");
    reveal_strlit("tool_result");
    reveal_strlit("result");
    reveal_strlit("error");
    reveal_strlit("session_id");
    reveal_strlit("model");
    reveal_strlit("timestamp");
    reveal_strlit("role");
    reveal_strlit("content");
    reveal_strlit("delta");
    reveal_strlit("tool_name");
    reveal_strlit("tool_id");
    reveal_strlit("status");
    reveal_strlit("output");
    reveal_strlit("parameters");
    reveal_strlit("stats");
    assert("type"@[0] != "role"@[0]);
    assert("type"@[1] != "init"@[1]);
    assert("tool_name"@[1] != "timestamp"@[1]);
    assert("status"@[0] != "output"@[0]);
}

/// No field is lost between an event and its line: decoding the canonical
/// document of any event gives back exactly that event.
pub proof fn lemma_event_round_trip(e: EventView)
    ensures
        spec_decode_event(spec_encode_event(e)) == Some(e),
{
    reveal_event_keys();
    match e {
        EventView::Init { session_id, model, timestamp } => {
            let fs = spec_encode_event(e)->Obj_0;
            lemma_obj_found(fs, "type"@, 0);
            lemma_obj_found(fs, "session_id"@, 1);
            lemma_obj_found(fs, "model"@, 2);
            lemma_obj_found(fs, "timestamp"@, 3);
        },
        EventView::Message { role, content, delta, timestamp } => {
            let fs = spec_encode_event(e)->Obj_0;
            lemma_obj_found(fs, "type"@, 0);
            lemma_obj_found(fs, "role"@, 1);
            lemma_obj_found(fs, "content"@, 2);
            lemma_obj_found(fs, "delta"@, 3);
            lemma_obj_found(fs, "timestamp"@, 4);
        },
        EventView::ToolUse { tool_name, parameters, timestamp } => {
            let fs = spec_encode_event(e)->Obj_0;
            lemma_obj_found(fs, "type"@, 0);
            lemma_obj_found(fs, "tool_name"@, 1);
            lemma_obj_found(fs, "parameters"@, 2);
            lemma_obj_found(fs, "timestamp"@, 3);
        },
        EventView::ToolResult { tool_id, status, output, timestamp } => {
            let fs = spec_encode_event(e)->Obj_0;
            lemma_obj_found(fs, "type"@, 0);
            lemma_obj_found(fs, "tool_id"@, 1);
            lemma_obj_found(fs, "status"@, 2);
            lemma_obj_found(fs, "output"@, 3);
            lemma_obj_found(fs, "timestamp"@, 4);
        },
        EventView::Result { status, stats, timestamp } => {
            let fs = spec_encode_event(e)->Obj_0;
            lemma_obj_found(fs, "type"@, 0);
            lemma_obj_found(fs, "status"@, 1);
            lemma_obj_found(fs, "stats"@, 2);
            lemma_obj_found(fs, "timestamp"@, 3);
        },
        EventView::Error { message } => {
            let fs = spec_encode_event(e)->Obj_0;
            lemma_obj_found(fs, "type"@, 0);
            lemma_obj_found(fs, "message"@, 1);
        },
    }
}

/// A session's non-blank lines, in order.
pub open spec fn non_blank_lines(lines: Seq<Seq<u8>>) -> Seq<Seq<u8>>
    decreases lines.len(),
{
    if lines.len() == 0 {
        Seq::empty()
    } else if spec_line_blank(lines[0]) {
        non_blank_lines(lines.drop_first())
    } else {
        seq![lines[0]] + non_blank_lines(lines.drop_first())
    }
}

proof fn lemma_stream_skip(lines: Seq<Seq<u8>>, i: int)
    requires
        0 <= i <= lines.len(),
    ensures
        spec_stream_from(lines, i) == spec_stream(lines.skip(i)),
    decreases lines.len() - i,
{
    if i < lines.len() {
        lemma_stream_skip(lines, i + 1);
        assert(lines.skip(i)[0] == lines[i]);
        assert(lines.skip(i).skip(1) =~= lines.skip(i + 1));
        lemma_stream_skip(lines.skip(i), 1);
    } else {
        assert(lines.skip(i) =~= Seq::<Seq<u8>>::empty());
    }
}

/// Non-blank lines are kept, with whatever they hold.
proof fn lemma_non_blank_lines_index(lines: Seq<Seq<u8>>)
    ensures
        non_blank_lines(lines).len() <= lines.len(),
        forall|k: int|
            0 <= k < non_blank_lines(lines).len() ==> exists|j: int|
                0 <= j < lines.len() && #[trigger] non_blank_lines(lines)[k] == lines[j],
        forall|k: int|
            0 <= k < non_blank_lines(lines).len() ==> !spec_line_blank(
                #[trigger] non_blank_lines(lines)[k],
            ),
    decreases lines.len(),
{
    if lines.len() > 0 {
        lemma_non_blank_lines_index(lines.drop_first());
        let rest = non_blank_lines(lines.drop_first());
        assert forall|k: int|
            0 <= k < non_blank_lines(lines).len() implies exists|j: int|
            0 <= j < lines.len() && #[trigger] non_blank_lines(lines)[k] == lines[j] by {
            if spec_line_blank(lines[0]) {
                let j0 = choose|j0: int|
                    0 <= j0 < lines.drop_first().len() && rest[k] == lines.drop_first()[j0];
                assert(non_blank_lines(lines)[k] == lines[j0 + 1]);
            } else {
                if k == 0 {
                    assert(non_blank_lines(lines)[k] == lines[0]);
                } else {
                    let j0 = choose|j0: int|
                        0 <= j0 < lines.drop_first().len() && rest[k - 1] == lines.drop_first()[j0];
                    assert(non_blank_lines(lines)[k] == lines[j0 + 1]);
                }
            }
        }
    }
}

/// Blank lines change nothing: a session decodes to the same event sequence
/// as its non-blank lines alone.
pub proof fn lemma_blanks_skipped(lines: Seq<Seq<u8>>)
    ensures
        spec_stream(lines) == spec_stream(non_blank_lines(lines)),
    decreases lines.len(),
{
    if lines.len() > 0 {
        lemma_blanks_skipped(lines.drop_first());
        lemma_stream_skip(lines, 1);
        assert(lines.skip(1) =~= lines.drop_first());
        if spec_line_blank(lines[0]) {
        } else {
            let nbl = non_blank_lines(lines);
            assert(nbl == seq![lines[0]] + non_blank_lines(lines.drop_first()));
            assert(nbl[0] == lines[0]);
            lemma_stream_skip(nbl, 1);
            assert(nbl.skip(1) =~= non_blank_lines(lines.drop_first()));
        }
    }
}

/// Event order matches line order in any session with blank lines
/// interleaved: as long as every non-blank line decodes, the sequence holds
/// one event per non-blank line, in the order those lines were produced.
pub proof fn lemma_stream_order_with_blanks(lines: Seq<Seq<u8>>)
    requires
        forall|i: int|
            0 <= i < lines.len() ==> spec_line_blank(#[trigger] lines[i]) || spec_line_event(
                lines[i],
            ) is Some,
    ensures
        spec_stream(lines).len() == non_blank_lines(lines).len(),
        forall|k: int|
            0 <= k < non_blank_lines(lines).len() ==> (spec_line_event(
                #[trigger] non_blank_lines(lines)[k],
            ) matches Some(ev) && spec_stream(lines)[k] == Ok::<EventView, ()>(ev)),
{
    lemma_blanks_skipped(lines);
    lemma_non_blank_lines_index(lines);
    lemma_stream_order(non_blank_lines(lines));
}

} // verus!
