use vstd::prelude::*;

verus! {

/// A JSON document as plain data: the shape the decoders of this crate work
/// on. Integers keep their own variants so that counters and codes can be
/// read exactly; any other number is carried as its decimal text. Object
/// fields keep the order in which the parser hands them out.
#[derive(Debug)]
pub enum JsonValue {
    /// The JSON null.
    Null,
    /// A JSON boolean.
    Bool(bool),
    /// A non-negative integer.
    UInt(u64),
    /// A negative integer.
    Int(i64),
    /// Any other number, as its decimal text.
    NumText(String),
    /// A JSON string.
    Text(String),
    /// A JSON array.
    Arr(Vec<JsonValue>),
    /// A JSON object, as an ordered list of key-value pairs.
    Obj(Vec<(String, JsonValue)>),
}

/// The mathematical shape of a [`JsonValue`]: the same tree over character
/// sequences. Contracts and the decoding specifications speak in this type.
#[verifier::ext_equal]
pub enum JsonView {
    Null,
    Bool(bool),
    UInt(u64),
    Int(i64),
    NumText(Seq<char>),
    Text(Seq<char>),
    Arr(Seq<JsonView>),
    Obj(Seq<(Seq<char>, JsonView)>),
}

/// The mathematical shape of a document.
pub open spec fn json_view(v: JsonValue) -> JsonView
    decreases v,
{
    match v {
        JsonValue::Null => JsonView::Null,
        JsonValue::Bool(b) => JsonView::Bool(b),
        JsonValue::UInt(u) => JsonView::UInt(u),
        JsonValue::Int(i) => JsonView::Int(i),
        JsonValue::NumText(s) => JsonView::NumText(s@),
        JsonValue::Text(s) => JsonView::Text(s@),
        JsonValue::Arr(items) => JsonView::Arr(arr_view(items@)),
        JsonValue::Obj(fields) => JsonView::Obj(fields_view(fields@)),
    }
}

/// The mathematical shape of an array's items, in order.
pub open spec fn arr_view(items: Seq<JsonValue>) -> Seq<JsonView>
    decreases items,
{
    if items.len() == 0 {
        Seq::empty()
    } else {
        seq![json_view(items[0])] + arr_view(items.drop_first())
    }
}

/// The mathematical shape of an object's fields, in order.
pub open spec fn fields_view(fields: Seq<(String, JsonValue)>) -> Seq<(Seq<char>, JsonView)>
    decreases fields,
{
    if fields.len() == 0 {
        Seq::empty()
    } else {
        seq![(fields[0].0@, json_view(fields[0].1))] + fields_view(fields.drop_first())
    }
}

impl DeepView for JsonValue {
    type V = JsonView;

    open spec fn deep_view(&self) -> JsonView {
        json_view(*self)
    }
}

/// `arr_view` maps the items one for one.
pub proof fn lemma_arr_view_index(items: Seq<JsonValue>)
    ensures
        arr_view(items).len() == items.len(),
        forall|i: int|
            0 <= i < items.len() ==> arr_view(items)[i] == json_view(#[trigger] items[i]),
    decreases items,
{
    if items.len() > 0 {
        lemma_arr_view_index(items.drop_first());
        assert forall|i: int| 0 <= i < items.len() implies arr_view(items)[i] == json_view(
            #[trigger] items[i],
        ) by {
            if i > 0 {
                assert(items.drop_first()[i - 1] == items[i]);
                assert(arr_view(items)[i] == arr_view(items.drop_first())[i - 1]);
            }
        }
    }
}

/// `fields_view` maps the fields one for one.
pub proof fn lemma_fields_view_index(fields: Seq<(String, JsonValue)>)
    ensures
        fields_view(fields).len() == fields.len(),
        forall|i: int|
            0 <= i < fields.len() ==> fields_view(fields)[i] == (
                #[trigger] fields[i].0@,
                json_view(fields[i].1),
            ),
    decreases fields,
{
    if fields.len() > 0 {
        lemma_fields_view_index(fields.drop_first());
        assert forall|i: int| 0 <= i < fields.len() implies fields_view(fields)[i] == (
            #[trigger] fields[i].0@,
            json_view(fields[i].1),
        ) by {
            if i > 0 {
                assert(fields.drop_first()[i - 1] == fields[i]);
                assert(fields_view(fields)[i] == fields_view(fields.drop_first())[i - 1]);
            }
        }
    }
}

/// The document that a byte sequence holds, when it is valid JSON.
pub uninterp spec fn json_of(bytes: Seq<u8>) -> Option<JsonView>;

/// The plain-data shape of a parsed `serde_json` document.
pub uninterp spec fn model_of(v: serde_json::Value) -> JsonView;

#[verifier::external_type_specification]
#[verifier::external_body]
pub struct ExValue(serde_json::Value);

/// Relies on `serde_json::from_slice::<serde_json::Value>`: it accepts
/// exactly the byte sequences that are one valid JSON document, and the
/// document it returns is a function of the bytes alone.
#[verifier::external_body]
fn parse_value(bytes: &[u8]) -> (r: Result<serde_json::Value, String>)
    ensures
        match r {
            Ok(v) => json_of(bytes@) == Some(model_of(v)),
            Err(_) => json_of(bytes@) is None,
        },
{
    serde_json::from_slice::<serde_json::Value>(bytes).map_err(|e| e.to_string())
}

/// Relies on `serde_json::Value` being a plain tree of the six JSON shapes:
/// each variant is carried over one for one, integers through
/// `serde_json::Number::as_u64` / `as_i64`, any other number as its text.
#[verifier::external_body]
fn value_to_json(v: serde_json::Value) -> (r: JsonValue)
    ensures
        json_view(r) == model_of(v),
{
    match v {
        serde_json::Value::Null => JsonValue::Null,
        serde_json::Value::Bool(b) => JsonValue::Bool(b),
        serde_json::Value::Number(n) => match (n.as_u64(), n.as_i64()) {
            (Some(u), _) => JsonValue::UInt(u),
            (None, Some(i)) => JsonValue::Int(i),
            (None, None) => JsonValue::NumText(n.to_string()),
        },
        serde_json::Value::String(s) => JsonValue::Text(s),
        serde_json::Value::Array(a) => JsonValue::Arr(a.into_iter().map(value_to_json).collect()),
        serde_json::Value::Object(m) => JsonValue::Obj(m.into_iter().map(|p| (p.0, value_to_json(p.1))).collect()),
    }
}

/// Parse one JSON document out of raw bytes, as plain data. Fails exactly on
/// the inputs that are not valid JSON, with the parser's diagnostic.
pub fn parse_json(bytes: &[u8]) -> (r: Result<JsonValue, String>)
    ensures
        r matches Ok(v) ==> json_of(bytes@) == Some(json_view(v)),
        r is Err ==> json_of(bytes@) is None,
{
    match parse_value(bytes) {
        Ok(v) => Ok(value_to_json(v)),
        Err(e) => Err(e),
    }
}

/// The value under `key` in an object's field list, by first match, searched
/// from position `i` on.
pub open spec fn spec_obj_get_from(
    fields: Seq<(Seq<char>, JsonView)>,
    key: Seq<char>,
    i: int,
) -> Option<JsonView>
    decreases fields.len() - i,
{
    if i < 0 || i >= fields.len() {
        None
    } else if fields[i].0 == key {
        Some(fields[i].1)
    } else {
        spec_obj_get_from(fields, key, i + 1)
    }
}

/// The value under `key` in an object's field list, by first match.
pub open spec fn spec_obj_get(fields: Seq<(Seq<char>, JsonView)>, key: Seq<char>) -> Option<
    JsonView,
> {
    spec_obj_get_from(fields, key, 0)
}

/// A required string read from a JSON field: present and a string, or
/// nothing.
pub open spec fn spec_text_field(fs: Seq<(Seq<char>, JsonView)>, key: Seq<char>) -> Option<
    Seq<char>,
> {
    match spec_obj_get(fs, key) {
        Some(JsonView::Text(t)) => Some(t),
        _ => None,
    }
}

/// A lookup resolves to the first field whose key matches.
pub proof fn lemma_obj_get_from_found(
    fs: Seq<(Seq<char>, JsonView)>,
    key: Seq<char>,
    i: int,
    k: int,
)
    requires
        0 <= i <= k < fs.len(),
        fs[k].0 == key,
        forall|j: int| i <= j < k ==> (#[trigger] fs[j].0) != key,
    ensures
        spec_obj_get_from(fs, key, i) == Some(fs[k].1),
    decreases k - i,
{
    if i < k {
        lemma_obj_get_from_found(fs, key, i + 1, k);
    }
}

/// A lookup finds the field at `k` when no earlier field has its key.
pub proof fn lemma_obj_found(fs: Seq<(Seq<char>, JsonView)>, key: Seq<char>, k: int)
    requires
        0 <= k < fs.len(),
        fs[k].0 == key,
        forall|j: int| 0 <= j < k ==> (#[trigger] fs[j].0) != key,
    ensures
        spec_obj_get(fs, key) == Some(fs[k].1),
{
    lemma_obj_get_from_found(fs, key, 0, k);
}

/// Look a key up in an object's field list.
pub fn obj_get<'a>(fields: &'a Vec<(String, JsonValue)>, key: &String) -> (r: Option<
    &'a JsonValue,
>)
    ensures
        match r {
            Some(v) => spec_obj_get(fields_view(fields@), key@) == Some(json_view(*v)),
            None => spec_obj_get(fields_view(fields@), key@) is None,
        },
{
    proof {
        lemma_fields_view_index(fields@);
    }
    let mut i: usize = 0;
    while i < fields.len()
        invariant
            i <= fields.len(),
            fields_view(fields@).len() == fields@.len(),
            forall|j: int|
                0 <= j < fields@.len() ==> fields_view(fields@)[j] == (
                    #[trigger] fields@[j].0@,
                    json_view(fields@[j].1),
                ),
            spec_obj_get(fields_view(fields@), key@) == spec_obj_get_from(
                fields_view(fields@),
                key@,
                i as int,
            ),
        decreases fields.len() - i,
    {
        if fields[i].0 == *key {
            return Some(&fields[i].1);
        }
        i = i + 1;
    }
    None
}

/// Copy a document.
pub fn clone_json(v: &JsonValue) -> (r: JsonValue)
    ensures
        json_view(r) == json_view(*v),
    decreases *v,
{
    match v {
        JsonValue::Null => JsonValue::Null,
        JsonValue::Bool(b) => JsonValue::Bool(*b),
        JsonValue::UInt(u) => JsonValue::UInt(*u),
        JsonValue::Int(i) => JsonValue::Int(*i),
        JsonValue::NumText(s) => JsonValue::NumText(s.clone()),
        JsonValue::Text(s) => JsonValue::Text(s.clone()),
        JsonValue::Arr(items) => JsonValue::Arr(clone_items(items)),
        JsonValue::Obj(fields) => JsonValue::Obj(clone_fields(fields)),
    }
}

/// Copy an array's items.
pub fn clone_items(items: &Vec<JsonValue>) -> (r: Vec<JsonValue>)
    ensures
        arr_view(r@) == arr_view(items@),
    decreases *items,
{
    proof {
        lemma_arr_view_index(items@);
    }
    let mut out: Vec<JsonValue> = Vec::new();
    let mut i: usize = 0;
    while i < items.len()
        invariant
            i <= items.len(),
            out@.len() == i,
            forall|j: int| 0 <= j < i ==> json_view(#[trigger] out@[j]) == json_view(items@[j]),
        decreases items.len() - i,
    {
        proof {
            assert(decreases_to!(*items => items@));
            assert(decreases_to!(items@ => items@[i as int]));
        }
        out.push(clone_json(&items[i]));
        i = i + 1;
    }
    proof {
        lemma_arr_view_index(out@);
        lemma_arr_view_index(items@);
        assert forall|j: int| 0 <= j < out@.len() implies arr_view(out@)[j] == arr_view(
            items@,
        )[j] by {
            assert(json_view(out@[j]) == json_view(items@[j]));
        }
        assert(arr_view(out@) =~= arr_view(items@));
    }
    out
}

/// Copy an object's fields.
pub fn clone_fields(fields: &Vec<(String, JsonValue)>) -> (r: Vec<(String, JsonValue)>)
    ensures
        fields_view(r@) == fields_view(fields@),
    decreases *fields,
{
    proof {
        lemma_fields_view_index(fields@);
    }
    let mut out: Vec<(String, JsonValue)> = Vec::new();
    let mut i: usize = 0;
    while i < fields.len()
        invariant
            i <= fields.len(),
            out@.len() == i,
            forall|j: int|
                0 <= j < i ==> (#[trigger] out@[j]).0@ == fields@[j].0@ && json_view(out@[j].1)
                    == json_view(fields@[j].1),
        decreases fields.len() - i,
    {
        proof {
            assert(decreases_to!(*fields => fields@));
            assert(decreases_to!(fields@ => fields@[i as int]));
            assert(decreases_to!(fields@[i as int] => fields@[i as int].1));
        }
        let pair = &fields[i];
        out.push((pair.0.clone(), clone_json(&pair.1)));
        i = i + 1;
    }
    proof {
        lemma_fields_view_index(out@);
        lemma_fields_view_index(fields@);
        assert forall|j: int| 0 <= j < out@.len() implies fields_view(out@)[j] == fields_view(
            fields@,
        )[j] by {
            assert(out@[j].0@ == fields@[j].0@ && json_view(out@[j].1) == json_view(fields@[j].1));
        }
        assert(fields_view(out@) =~= fields_view(fields@));
    }
    out
}

} // verus!
