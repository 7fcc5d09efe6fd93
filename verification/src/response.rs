use vstd::prelude::*;
use crate::json::{
    JsonValue, JsonView, json_view, fields_view, lemma_fields_view_index, lemma_obj_found,
    spec_obj_get, obj_get, clone_fields,
};
use crate::error::GeminiError;

verus! {

/// Summary of tool usage during a session.
#[derive(Debug, Clone, Copy, PartialEq, Eq, Structural)]
pub struct ToolStats {
    pub total_calls: u64,
    pub total_success: u64,
    pub total_fail: u64,
}

/// Summary of file changes made during a session.
#[derive(Debug, Clone, Copy, PartialEq, Eq, Structural)]
pub struct FileStats {
    pub total_lines_added: u64,
    pub total_lines_removed: u64,
}

/// Details of an error reported inside an otherwise well-formed response.
#[derive(Debug)]
pub struct GeminiErrorDetail {
    /// The remote error's kind tag.
    pub err_type: String,
    /// The remote error's message.
    pub message: String,
    /// The remote error's numeric code, when one was given.
    pub code: Option<i32>,
}

/// Statistics of a single model's interactions.
#[derive(Debug)]
pub struct ModelStats {
    /// Performance metrics, carried through as parsed JSON fields.
    pub api: Vec<(String, JsonValue)>,
    /// Token usage counts by kind.
    pub tokens: Vec<(String, u64)>,
}

/// Aggregated statistics of a session.
#[derive(Debug)]
pub struct GeminiStats {
    /// Per-model statistics, keyed by model name.
    pub models: Vec<(String, ModelStats)>,
    /// Summary of tool execution.
    pub tools: ToolStats,
    /// Summary of file modifications.
    pub files: FileStats,
}

/// The structured response of a buffered JSON-mode run.
#[derive(Debug)]
pub struct GeminiJsonOutput {
    /// The primary text response.
    pub response: String,
    /// Usage statistics, when the program reported them.
    pub stats: Option<GeminiStats>,
    /// The structured remote error, when the program reported one.
    pub error: Option<GeminiErrorDetail>,
}

/// Mathematical shape of [`GeminiErrorDetail`].
#[verifier::ext_equal]
pub struct ErrorDetailView {
    pub err_type: Seq<char>,
    pub message: Seq<char>,
    pub code: Option<i32>,
}

/// Mathematical shape of [`ModelStats`].
#[verifier::ext_equal]
pub struct ModelStatsView {
    pub api: Seq<(Seq<char>, JsonView)>,
    pub tokens: Seq<(Seq<char>, u64)>,
}

/// Mathematical shape of [`GeminiStats`].
#[verifier::ext_equal]
pub struct StatsView {
    pub models: Seq<(Seq<char>, ModelStatsView)>,
    pub tools: ToolStats,
    pub files: FileStats,
}

/// Mathematical shape of [`GeminiJsonOutput`].
#[verifier::ext_equal]
pub struct OutputView {
    pub response: Seq<char>,
    pub stats: Option<StatsView>,
    pub error: Option<ErrorDetailView>,
}

impl View for GeminiErrorDetail {
    type V = ErrorDetailView;

    open spec fn view(&self) -> ErrorDetailView {
        ErrorDetailView { err_type: self.err_type@, message: self.message@, code: self.code }
    }
}

impl View for ModelStats {
    type V = ModelStatsView;

    open spec fn view(&self) -> ModelStatsView {
        ModelStatsView { api: fields_view(self.api@), tokens: self.tokens.deep_view() }
    }
}

impl View for GeminiStats {
    type V = StatsView;

    open spec fn view(&self) -> StatsView {
        StatsView {
            models: self.models@.map_values(|p: (String, ModelStats)| (p.0@, p.1@)),
            tools: self.tools,
            files: self.files,
        }
    }
}

impl View for GeminiJsonOutput {
    type V = OutputView;

    open spec fn view(&self) -> OutputView {
        OutputView {
            response: self.response@,
            stats: match self.stats {
                Some(s) => Some(s@),
                None => None,
            },
            error: match self.error {
                Some(e) => Some(e@),
                None => None,
            },
        }
    }
}

/// An unsigned counter read from a JSON field: present and a non-negative
/// integer, or nothing.
pub open spec fn spec_u64_field(v: Option<JsonView>) -> Option<u64> {
    match v {
        Some(JsonView::UInt(u)) => Some(u),
        _ => None,
    }
}

/// An optional signed code read from a JSON field: absent or null means no
/// code; an integer in signed 32-bit range is the code; any other value is a
/// shape error.
pub open spec fn spec_code_field(v: Option<JsonView>) -> Option<Option<i32>> {
    match v {
        None => Some(None),
        Some(JsonView::Null) => Some(None),
        Some(JsonView::UInt(u)) => if u <= i32::MAX as u64 {
            Some(Some(u as i32))
        } else {
            None
        },
        Some(JsonView::Int(i)) => if i32::MIN as i64 <= i && i <= i32::MAX as i64 {
            Some(Some(i as i32))
        } else {
            None
        },
        _ => None,
    }
}

/// The structured remote error a document holds: an object whose `type` and
/// `message` are strings, with an optional integer `code`.
pub open spec fn spec_decode_error_detail(v: JsonView) -> Option<ErrorDetailView> {
    match v {
        JsonView::Obj(fs) => match (spec_obj_get(fs, "type"@), spec_obj_get(fs, "message"@)) {
            (Some(JsonView::Text(t)), Some(JsonView::Text(m))) => match spec_code_field(
                spec_obj_get(fs, "code"@),
            ) {
                Some(c) => Some(ErrorDetailView { err_type: t, message: m, code: c }),
                None => None,
            },
            _ => None,
        },
        _ => None,
    }
}

/// The token counters of an object's fields from position `i` on: every value
/// must be a non-negative integer.
pub open spec fn spec_tokens_from(fs: Seq<(Seq<char>, JsonView)>, i: int) -> Option<
    Seq<(Seq<char>, u64)>,
>
    decreases fs.len() - i,
{
    if i >= fs.len() {
        Some(Seq::empty())
    } else {
        match fs[i].1 {
            JsonView::UInt(u) => match spec_tokens_from(fs, i + 1) {
                Some(rest) => Some(seq![(fs[i].0, u)] + rest),
                None => None,
            },
            _ => None,
        }
    }
}

/// One model's statistics: an object whose `api` field is an object carried
/// through as is, and whose `tokens` field is an object of counters.
pub open spec fn spec_decode_model_stats(v: JsonView) -> Option<ModelStatsView> {
    match v {
        JsonView::Obj(fs) => match (spec_obj_get(fs, "api"@), spec_obj_get(fs, "tokens"@)) {
            (Some(JsonView::Obj(afs)), Some(JsonView::Obj(tfs))) => match spec_tokens_from(
                tfs,
                0,
            ) {
                Some(toks) => Some(ModelStatsView { api: afs, tokens: toks }),
                None => None,
            },
            _ => None,
        },
        _ => None,
    }
}

/// The per-model statistics of an object's fields from position `i` on.
pub open spec fn spec_models_from(fs: Seq<(Seq<char>, JsonView)>, i: int) -> Option<
    Seq<(Seq<char>, ModelStatsView)>,
>
    decreases fs.len() - i,
{
    if i >= fs.len() {
        Some(Seq::empty())
    } else {
        match spec_decode_model_stats(fs[i].1) {
            Some(m) => match spec_models_from(fs, i + 1) {
                Some(rest) => Some(seq![(fs[i].0, m)] + rest),
                None => None,
            },
            None => None,
        }
    }
}

/// The tool-usage summary a document holds.
pub open spec fn spec_decode_tool_stats(v: JsonView) -> Option<ToolStats> {
    match v {
        JsonView::Obj(fs) => match (
            spec_u64_field(spec_obj_get(fs, "totalCalls"@)),
            spec_u64_field(spec_obj_get(fs, "totalSuccess"@)),
            spec_u64_field(spec_obj_get(fs, "totalFail"@)),
        ) {
            (Some(c), Some(s), Some(f)) => Some(
                ToolStats { total_calls: c, total_success: s, total_fail: f },
            ),
            _ => None,
        },
        _ => None,
    }
}

/// The file-change summary a document holds.
pub open spec fn spec_decode_file_stats(v: JsonView) -> Option<FileStats> {
    match v {
        JsonView::Obj(fs) => match (
            spec_u64_field(spec_obj_get(fs, "totalLinesAdded"@)),
            spec_u64_field(spec_obj_get(fs, "totalLinesRemoved"@)),
        ) {
            (Some(a), Some(r)) => Some(FileStats { total_lines_added: a, total_lines_removed: r }),
            _ => None,
        },
        _ => None,
    }
}

/// The aggregated statistics a document holds: `models`, `tools` and `files`
/// are all required.
pub open spec fn spec_decode_stats(v: JsonView) -> Option<StatsView> {
    match v {
        JsonView::Obj(fs) => match (
            spec_obj_get(fs, "models"@),
            spec_obj_get(fs, "tools"@),
            spec_obj_get(fs, "files"@),
        ) {
            (Some(JsonView::Obj(ms)), Some(tv), Some(fv)) => match (
                spec_models_from(ms, 0),
                spec_decode_tool_stats(tv),
                spec_decode_file_stats(fv),
            ) {
                (Some(models), Some(tools), Some(files)) => Some(
                    StatsView { models, tools, files },
                ),
                _ => None,
            },
            _ => None,
        },
        _ => None,
    }
}

/// The structured response a document holds: `response` is a required string;
/// `stats` and `error` may be absent or null, but when present must have
/// their shapes.
pub open spec fn spec_decode_output(v: JsonView) -> Option<OutputView> {
    match v {
        JsonView::Obj(fs) => match spec_obj_get(fs, "response"@) {
            Some(JsonView::Text(resp)) => {
                let stats = match spec_obj_get(fs, "stats"@) {
                    None => Some(None),
                    Some(JsonView::Null) => Some(None),
                    Some(sv) => match spec_decode_stats(sv) {
                        Some(s) => Some(Some(s)),
                        None => None,
                    },
                };
                let error = match spec_obj_get(fs, "error"@) {
                    None => Some(None),
                    Some(JsonView::Null) => Some(None),
                    Some(ev) => match spec_decode_error_detail(ev) {
                        Some(e) => Some(Some(e)),
                        None => None,
                    },
                };
                match (stats, error) {
                    (Some(s), Some(e)) => Some(OutputView { response: resp, stats: s, error: e }),
                    _ => None,
                }
            },
            _ => None,
        },
        _ => None,
    }
}

/// Decode the structured remote error out of a parsed document.
pub fn decode_error_detail(v: &JsonValue) -> (r: Result<GeminiErrorDetail, String>)
    ensures
        match r {
            Ok(d) => spec_decode_error_detail(json_view(*v)) == Some(d@),
            Err(_) => spec_decode_error_detail(json_view(*v)) is None,
        },
{
    let fields = match v {
        JsonValue::Obj(fields) => fields,
        _ => {
            return Err("error detail is not an object".to_owned());
        },
    };
    let t = match obj_get(fields, &"type".to_owned()) {
        Some(JsonValue::Text(t)) => t.clone(),
        _ => {
            return Err("error type is not a string".to_owned());
        },
    };
    let m = match obj_get(fields, &"message".to_owned()) {
        Some(JsonValue::Text(m)) => m.clone(),
        _ => {
            return Err("error message is not a string".to_owned());
        },
    };
    let code: Option<i32> = match obj_get(fields, &"code".to_owned()) {
        None => None,
        Some(JsonValue::Null) => None,
        Some(JsonValue::UInt(u)) => {
            if *u <= i32::MAX as u64 {
                Some(*u as i32)
            } else {
                return Err("error code does not fit".to_owned());
            }
        },
        Some(JsonValue::Int(i)) => {
            if i32::MIN as i64 <= *i && *i <= i32::MAX as i64 {
                Some(*i as i32)
            } else {
                return Err("error code does not fit".to_owned());
            }
        },
        Some(_) => {
            return Err("error code is not an integer".to_owned());
        },
    };
    Ok(GeminiErrorDetail { err_type: t, message: m, code })
}

/// Decode an object of token counters, from field `i` on.
fn decode_tokens_from(fields: &Vec<(String, JsonValue)>, i: usize) -> (r: Result<
    Vec<(String, u64)>,
    String,
>)
    requires
        i <= fields@.len(),
    ensures
        match r {
            Ok(ts) => spec_tokens_from(fields_view(fields@), i as int) == Some(ts.deep_view()),
            Err(_) => spec_tokens_from(fields_view(fields@), i as int) is None,
        },
    decreases fields@.len() - i,
{
    proof {
        lemma_fields_view_index(fields@);
    }
    if i == fields.len() {
        let empty: Vec<(String, u64)> = Vec::new();
        proof {
            assert(empty.deep_view() =~= Seq::<(Seq<char>, u64)>::empty());
        }
        return Ok(empty);
    }
    let pair = &fields[i];
    proof {
        assert(fields_view(fields@)[i as int] == (
            fields@[i as int].0@,
            json_view(fields@[i as int].1),
        ));
    }
    let u: u64 = match &pair.1 {
        JsonValue::UInt(u) => *u,
        _ => {
            return Err("token counter is not a non-negative integer".to_owned());
        },
    };
    match decode_tokens_from(fields, i + 1) {
        Ok(mut rest) => {
            let ghost old_rest = rest.deep_view();
            rest.insert(0, (pair.0.clone(), u));
            proof {
                assert(rest.deep_view() =~= seq![(fields@[i as int].0@, u)] + old_rest);
            }
            Ok(rest)
        },
        Err(e) => Err(e),
    }
}

/// Decode one model's statistics out of a parsed document.
pub fn decode_model_stats(v: &JsonValue) -> (r: Result<ModelStats, String>)
    ensures
        match r {
            Ok(m) => spec_decode_model_stats(json_view(*v)) == Some(m@),
            Err(_) => spec_decode_model_stats(json_view(*v)) is None,
        },
{
    let fields = match v {
        JsonValue::Obj(fields) => fields,
        _ => {
            return Err("model statistics are not an object".to_owned());
        },
    };
    let api = match obj_get(fields, &"api".to_owned()) {
        Some(JsonValue::Obj(afs)) => clone_fields(afs),
        _ => {
            return Err("api metrics are not an object".to_owned());
        },
    };
    let tokens = match obj_get(fields, &"tokens".to_owned()) {
        Some(JsonValue::Obj(tfs)) => match decode_tokens_from(tfs, 0) {
            Ok(ts) => ts,
            Err(e) => {
                return Err(e);
            },
        },
        _ => {
            return Err("token counters are not an object".to_owned());
        },
    };
    Ok(ModelStats { api, tokens })
}

/// Decode an object of per-model statistics, from field `i` on.
fn decode_models_from(fields: &Vec<(String, JsonValue)>, i: usize) -> (r: Result<
    Vec<(String, ModelStats)>,
    String,
>)
    requires
        i <= fields@.len(),
    ensures
        match r {
            Ok(ms) => spec_models_from(fields_view(fields@), i as int) == Some(
                ms@.map_values(|p: (String, ModelStats)| (p.0@, p.1@)),
            ),
            Err(_) => spec_models_from(fields_view(fields@), i as int) is None,
        },
    decreases fields@.len() - i,
{
    proof {
        lemma_fields_view_index(fields@);
    }
    if i == fields.len() {
        let empty: Vec<(String, ModelStats)> = Vec::new();
        proof {
            assert(empty@.map_values(|p: (String, ModelStats)| (p.0@, p.1@)) =~= Seq::<
                (Seq<char>, ModelStatsView),
            >::empty());
        }
        return Ok(empty);
    }
    let pair = &fields[i];
    proof {
        assert(fields_view(fields@)[i as int] == (
            fields@[i as int].0@,
            json_view(fields@[i as int].1),
        ));
    }
    let m = match decode_model_stats(&pair.1) {
        Ok(m) => m,
        Err(e) => {
            return Err(e);
        },
    };
    match decode_models_from(fields, i + 1) {
        Ok(mut rest) => {
            let ghost old_rest = rest@.map_values(|p: (String, ModelStats)| (p.0@, p.1@));
            let ghost mv = m@;
            rest.insert(0, (pair.0.clone(), m));
            proof {
                assert(rest@.map_values(|p: (String, ModelStats)| (p.0@, p.1@)) =~= seq![
                    (fields@[i as int].0@, mv),
                ] + old_rest);
            }
            Ok(rest)
        },
        Err(e) => Err(e),
    }
}

/// Decode the tool-usage summary out of a parsed document.
pub fn decode_tool_stats(v: &JsonValue) -> (r: Result<ToolStats, String>)
    ensures
        match r {
            Ok(t) => spec_decode_tool_stats(json_view(*v)) == Some(t),
            Err(_) => spec_decode_tool_stats(json_view(*v)) is None,
        },
{
    let fields = match v {
        JsonValue::Obj(fields) => fields,
        _ => {
            return Err("tool statistics are not an object".to_owned());
        },
    };
    let c = match obj_get(fields, &"totalCalls".to_owned()) {
        Some(JsonValue::UInt(u)) => *u,
        _ => {
            return Err("tool call counter is missing".to_owned());
        },
    };
    let su = match obj_get(fields, &"totalSuccess".to_owned()) {
        Some(JsonValue::UInt(u)) => *u,
        _ => {
            return Err("tool success counter is missing".to_owned());
        },
    };
    let f = match obj_get(fields, &"totalFail".to_owned()) {
        Some(JsonValue::UInt(u)) => *u,
        _ => {
            return Err("tool failure counter is missing".to_owned());
        },
    };
    Ok(ToolStats { total_calls: c, total_success: su, total_fail: f })
}

/// Decode the file-change summary out of a parsed document.
pub fn decode_file_stats(v: &JsonValue) -> (r: Result<FileStats, String>)
    ensures
        match r {
            Ok(t) => spec_decode_file_stats(json_view(*v)) == Some(t),
            Err(_) => spec_decode_file_stats(json_view(*v)) is None,
        },
{
    let fields = match v {
        JsonValue::Obj(fields) => fields,
        _ => {
            return Err("file statistics are not an object".to_owned());
        },
    };
    let a = match obj_get(fields, &"totalLinesAdded".to_owned()) {
        Some(JsonValue::UInt(u)) => *u,
        _ => {
            return Err("added-lines counter is missing".to_owned());
        },
    };
    let rm = match obj_get(fields, &"totalLinesRemoved".to_owned()) {
        Some(JsonValue::UInt(u)) => *u,
        _ => {
            return Err("removed-lines counter is missing".to_owned());
        },
    };
    Ok(FileStats { total_lines_added: a, total_lines_removed: rm })
}

/// Decode the aggregated session statistics out of a parsed document.
pub fn decode_stats(v: &JsonValue) -> (r: Result<GeminiStats, String>)
    ensures
        match r {
            Ok(s) => spec_decode_stats(json_view(*v)) == Some(s@),
            Err(_) => spec_decode_stats(json_view(*v)) is None,
        },
{
    let fields = match v {
        JsonValue::Obj(fields) => fields,
        _ => {
            return Err("statistics are not an object".to_owned());
        },
    };
    let models = match obj_get(fields, &"models".to_owned()) {
        Some(JsonValue::Obj(ms)) => match decode_models_from(ms, 0) {
            Ok(ms) => ms,
            Err(e) => {
                return Err(e);
            },
        },
        _ => {
            return Err("model statistics are missing".to_owned());
        },
    };
    let tools = match obj_get(fields, &"tools".to_owned()) {
        Some(tv) => match decode_tool_stats(tv) {
            Ok(t) => t,
            Err(e) => {
                return Err(e);
            },
        },
        None => {
            return Err("tool statistics are missing".to_owned());
        },
    };
    let files = match obj_get(fields, &"files".to_owned()) {
        Some(fv) => match decode_file_stats(fv) {
            Ok(f) => f,
            Err(e) => {
                return Err(e);
            },
        },
        None => {
            return Err("file statistics are missing".to_owned());
        },
    };
    Ok(GeminiStats { models, tools, files })
}

/// Decode the structured buffered-mode response out of a parsed document.
pub fn decode_output(v: &JsonValue) -> (r: Result<GeminiJsonOutput, String>)
    ensures
        match r {
            Ok(o) => spec_decode_output(json_view(*v)) == Some(o@),
            Err(_) => spec_decode_output(json_view(*v)) is None,
        },
{
    let fields = match v {
        JsonValue::Obj(fields) => fields,
        _ => {
            return Err("response document is not an object".to_owned());
        },
    };
    let response = match obj_get(fields, &"response".to_owned()) {
        Some(JsonValue::Text(t)) => t.clone(),
        _ => {
            return Err("response text is missing".to_owned());
        },
    };
    let stats: Option<GeminiStats> = match obj_get(fields, &"stats".to_owned()) {
        None => None,
        Some(JsonValue::Null) => None,
        Some(sv) => match decode_stats(sv) {
            Ok(s) => Some(s),
            Err(e) => {
                return Err(e);
            },
        },
    };
    let error: Option<GeminiErrorDetail> = match obj_get(fields, &"error".to_owned()) {
        None => None,
        Some(JsonValue::Null) => None,
        Some(ev) => match decode_error_detail(ev) {
            Ok(d) => Some(d),
            Err(e) => {
                return Err(e);
            },
        },
    };
    Ok(GeminiJsonOutput { response, stats, error })
}

/// The canonical document of an optional signed code: null when absent.
pub open spec fn spec_encode_code(c: Option<i32>) -> JsonView {
    match c {
        None => JsonView::Null,
        Some(x) => if x >= 0 {
            JsonView::UInt(x as u64)
        } else {
            JsonView::Int(x as i64)
        },
    }
}

/// The canonical document of a structured remote error.
pub open spec fn spec_encode_error_detail(d: ErrorDetailView) -> JsonView {
    JsonView::Obj(
        seq![
            ("type"@, JsonView::Text(d.err_type)),
            ("message"@, JsonView::Text(d.message)),
            ("code"@, spec_encode_code(d.code)),
        ],
    )
}

/// The canonical fields of a token-counter object.
pub open spec fn spec_encode_tokens(toks: Seq<(Seq<char>, u64)>) -> Seq<(Seq<char>, JsonView)> {
    toks.map_values(|p: (Seq<char>, u64)| (p.0, JsonView::UInt(p.1)))
}

/// The canonical document of one model's statistics.
pub open spec fn spec_encode_model_stats(m: ModelStatsView) -> JsonView {
    JsonView::Obj(
        seq![
            ("api"@, JsonView::Obj(m.api)),
            ("tokens"@, JsonView::Obj(spec_encode_tokens(m.tokens))),
        ],
    )
}

/// The canonical fields of a per-model statistics object.
pub open spec fn spec_encode_models(ms: Seq<(Seq<char>, ModelStatsView)>) -> Seq<
    (Seq<char>, JsonView),
> {
    ms.map_values(|p: (Seq<char>, ModelStatsView)| (p.0, spec_encode_model_stats(p.1)))
}

/// The canonical document of the tool-usage summary.
pub open spec fn spec_encode_tool_stats(t: ToolStats) -> JsonView {
    JsonView::Obj(
        seq![
            ("totalCalls"@, JsonView::UInt(t.total_calls)),
            ("totalSuccess"@, JsonView::UInt(t.total_success)),
            ("totalFail"@, JsonView::UInt(t.total_fail)),
        ],
    )
}

/// The canonical document of the file-change summary.
pub open spec fn spec_encode_file_stats(f: FileStats) -> JsonView {
    JsonView::Obj(
        seq![
            ("totalLinesAdded"@, JsonView::UInt(f.total_lines_added)),
            ("totalLinesRemoved"@, JsonView::UInt(f.total_lines_removed)),
        ],
    )
}

/// The canonical document of the aggregated statistics.
pub open spec fn spec_encode_stats(s: StatsView) -> JsonView {
    JsonView::Obj(
        seq![
            ("models"@, JsonView::Obj(spec_encode_models(s.models))),
            ("tools"@, spec_encode_tool_stats(s.tools)),
            ("files"@, spec_encode_file_stats(s.files)),
        ],
    )
}

/// The canonical document of a buffered-mode response: absent statistics and
/// absent error are written as null.
pub open spec fn spec_encode_output(o: OutputView) -> JsonView {
    JsonView::Obj(
        seq![
            ("response"@, JsonView::Text(o.response)),
            (
                "stats"@,
                match o.stats {
                    None => JsonView::Null,
                    Some(s) => spec_encode_stats(s),
                },
            ),
            (
                "error"@,
                match o.error {
                    None => JsonView::Null,
                    Some(d) => spec_encode_error_detail(d),
                },
            ),
        ],
    )
}

/// The keys of the response documents, made concrete.
proof fn reveal_output_keys()
    ensures
        "response"@.len() == 8,
        "stats"@.len() == 5,
        "error"@.len() == 5,
        "type"@.len() == 4,
        "message"@.len() == 7,
        "code"@.len() == 4,
        "api"@.len() == 3,
        "tokens"@.len() == 6,
        "models"@.len() == 6,
        "tools"@.len() == 5,
        "files"@.len() == 5,
        "totalCalls"@.len() == 10,
        "totalSuccess"@.len() == 12,
        "totalFail"@.len() == 9,
        "totalLinesAdded"@.len() == 15,
        "totalLinesRemoved"@.len() == 17,
        "stats"@ != "error"@,
        "tools"@ != "files"@,
        "type"@ != "code"@,
{
    reveal_strlit("response");
    reveal_strlit("stats");
    reveal_strlit("error");
    reveal_strlit("type");
    reveal_strlit("message");
    reveal_strlit("code");
    reveal_strlit("api");
    reveal_strlit("tokens");
    reveal_strlit("models");
    reveal_strlit("tools");
    reveal_strlit("files");
    reveal_strlit("totalCalls");
    reveal_strlit("totalSuccess");
    reveal_strlit("totalFail");
    reveal_strlit("totalLinesAdded");
    reveal_strlit("totalLinesRemoved");
    assert("stats"@[0] != "error"@[0]);
    assert("tools"@[0] != "files"@[0]);
    assert("type"@[0] != "code"@[0]);
}

/// No field is lost between a structured remote error and its document.
pub proof fn lemma_error_detail_round_trip(d: ErrorDetailView)
    ensures
        spec_decode_error_detail(spec_encode_error_detail(d)) == Some(d),
{
    reveal_output_keys();
    let fs = spec_encode_error_detail(d)->Obj_0;
    lemma_obj_found(fs, "type"@, 0);
    lemma_obj_found(fs, "message"@, 1);
    lemma_obj_found(fs, "code"@, 2);
}

proof fn lemma_tokens_round_trip_from(toks: Seq<(Seq<char>, u64)>, i: int)
    requires
        0 <= i <= toks.len(),
    ensures
        spec_tokens_from(spec_encode_tokens(toks), i) == Some(toks.skip(i)),
    decreases toks.len() - i,
{
    let enc = spec_encode_tokens(toks);
    if i == toks.len() {
        assert(toks.skip(i) =~= Seq::<(Seq<char>, u64)>::empty());
    } else {
        lemma_tokens_round_trip_from(toks, i + 1);
        assert(enc[i] == (toks[i].0, JsonView::UInt(toks[i].1)));
        assert(seq![(toks[i].0, toks[i].1)] + toks.skip(i + 1) =~= toks.skip(i));
    }
}

/// No counter is lost between a token map and its document.
pub proof fn lemma_tokens_round_trip(toks: Seq<(Seq<char>, u64)>)
    ensures
        spec_tokens_from(spec_encode_tokens(toks), 0) == Some(toks),
{
    lemma_tokens_round_trip_from(toks, 0);
    assert(toks.skip(0) =~= toks);
}

/// No field is lost between one model's statistics and their document.
pub proof fn lemma_model_stats_round_trip(m: ModelStatsView)
    ensures
        spec_decode_model_stats(spec_encode_model_stats(m)) == Some(m),
{
    reveal_output_keys();
    let fs = spec_encode_model_stats(m)->Obj_0;
    lemma_obj_found(fs, "api"@, 0);
    lemma_obj_found(fs, "tokens"@, 1);
    lemma_tokens_round_trip(m.tokens);
    assert(spec_decode_model_stats(spec_encode_model_stats(m)) == Some(
        ModelStatsView { api: m.api, tokens: m.tokens },
    ));
    assert(ModelStatsView { api: m.api, tokens: m.tokens } =~= m);
}

proof fn lemma_models_round_trip_from(ms: Seq<(Seq<char>, ModelStatsView)>, i: int)
    requires
        0 <= i <= ms.len(),
    ensures
        spec_models_from(spec_encode_models(ms), i) == Some(ms.skip(i)),
    decreases ms.len() - i,
{
    let enc = spec_encode_models(ms);
    if i == ms.len() {
        assert(ms.skip(i) =~= Seq::<(Seq<char>, ModelStatsView)>::empty());
    } else {
        lemma_models_round_trip_from(ms, i + 1);
        assert(enc[i] == (ms[i].0, spec_encode_model_stats(ms[i].1)));
        lemma_model_stats_round_trip(ms[i].1);
        assert(seq![(ms[i].0, ms[i].1)] + ms.skip(i + 1) =~= ms.skip(i));
    }
}

/// No field is lost between the aggregated statistics and their document.
pub proof fn lemma_stats_round_trip(s: StatsView)
    ensures
        spec_decode_stats(spec_encode_stats(s)) == Some(s),
{
    reveal_output_keys();
    let fs = spec_encode_stats(s)->Obj_0;
    lemma_obj_found(fs, "models"@, 0);
    lemma_obj_found(fs, "tools"@, 1);
    lemma_obj_found(fs, "files"@, 2);
    lemma_models_round_trip_from(s.models, 0);
    assert(s.models.skip(0) =~= s.models);
    let tfs = spec_encode_tool_stats(s.tools)->Obj_0;
    lemma_obj_found(tfs, "totalCalls"@, 0);
    lemma_obj_found(tfs, "totalSuccess"@, 1);
    lemma_obj_found(tfs, "totalFail"@, 2);
    let ffs = spec_encode_file_stats(s.files)->Obj_0;
    lemma_obj_found(ffs, "totalLinesAdded"@, 0);
    lemma_obj_found(ffs, "totalLinesRemoved"@, 1);
    assert(spec_decode_stats(spec_encode_stats(s)) == Some(
        StatsView { models: s.models, tools: s.tools, files: s.files },
    ));
    assert(StatsView { models: s.models, tools: s.tools, files: s.files } =~= s);
}

/// Round trip of a whole buffered-mode response: decoding the canonical
/// document of any response gives back exactly that response, every field
/// kept.
pub proof fn lemma_output_round_trip(o: OutputView)
    ensures
        spec_decode_output(spec_encode_output(o)) == Some(o),
{
    reveal_output_keys();
    let fs = spec_encode_output(o)->Obj_0;
    lemma_obj_found(fs, "response"@, 0);
    lemma_obj_found(fs, "stats"@, 1);
    lemma_obj_found(fs, "error"@, 2);
    match o.stats {
        Some(s) => {
            lemma_stats_round_trip(s);
        },
        None => {},
    }
    match o.error {
        Some(d) => {
            lemma_error_detail_round_trip(d);
        },
        None => {},
    }
    assert(spec_decode_output(spec_encode_output(o)) == Some(
        OutputView { response: o.response, stats: o.stats, error: o.error },
    ));
    assert(OutputView { response: o.response, stats: o.stats, error: o.error } =~= o);
}

} // verus!
