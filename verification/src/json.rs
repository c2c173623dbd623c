//! A JSON document held as plain values, with spec-level lookups.
//!
//! The service's responses arrive as text; `parse_json` turns the text into a
//! `JsonValue` and the rest of the library reads the document shape through
//! verified lookups.

use vstd::prelude::*;

verus! {

/// Spec-level model of a JSON document: the view of `JsonValue`.
pub enum JsonModel {
    Null,
    Bool(bool),
    Num(Seq<char>),
    Str(Seq<char>),
    Arr(Seq<JsonModel>),
    Obj(Seq<(Seq<char>, JsonModel)>),
}

/// A JSON document. Object fields keep the order the parser produced; the
/// parser never hands back two fields with the same name.
pub enum JsonValue {
    Null,
    Bool(bool),
    /// The number's decimal text, exactly as the parser prints it.
    Num(String),
    Str(String),
    Arr(Vec<JsonValue>),
    Obj(Vec<(String, JsonValue)>),
}

pub open spec fn json_model(v: JsonValue) -> JsonModel
    decreases v,
{
    match v {
        JsonValue::Null => JsonModel::Null,
        JsonValue::Bool(b) => JsonModel::Bool(b),
        JsonValue::Num(t) => JsonModel::Num(t@),
        JsonValue::Str(s) => JsonModel::Str(s@),
        JsonValue::Arr(items) => JsonModel::Arr(json_model_seq(items@)),
        JsonValue::Obj(fields) => JsonModel::Obj(json_model_fields(fields@)),
    }
}

pub open spec fn json_model_seq(items: Seq<JsonValue>) -> Seq<JsonModel>
    decreases items,
{
    if items.len() == 0 {
        Seq::empty()
    } else {
        seq![json_model(items[0])] + json_model_seq(items.subrange(1, items.len() as int))
    }
}

pub open spec fn json_model_fields(fields: Seq<(String, JsonValue)>) -> Seq<(Seq<char>, JsonModel)>
    decreases fields,
{
    if fields.len() == 0 {
        Seq::empty()
    } else {
        seq![(fields[0].0@, json_model(fields[0].1))]
            + json_model_fields(fields.subrange(1, fields.len() as int))
    }
}

pub proof fn lemma_json_model_seq(items: Seq<JsonValue>)
    ensures
        json_model_seq(items).len() == items.len(),
        forall|i: int| 0 <= i < items.len() ==> json_model_seq(items)[i] == json_model(items[i]),
    decreases items.len(),
{
    if items.len() > 0 {
        lemma_json_model_seq(items.subrange(1, items.len() as int));
    }
}

pub proof fn lemma_json_model_fields(fields: Seq<(String, JsonValue)>)
    ensures
        json_model_fields(fields).len() == fields.len(),
        forall|i: int| 0 <= i < fields.len() ==> json_model_fields(fields)[i] == (
            fields[i].0@,
            json_model(fields[i].1),
        ),
    decreases fields.len(),
{
    if fields.len() > 0 {
        lemma_json_model_fields(fields.subrange(1, fields.len() as int));
    }
}

impl View for JsonValue {
    type V = JsonModel;

    open spec fn view(&self) -> JsonModel {
        json_model(*self)
    }
}

/// The value under `key` in a field list: the first field whose name matches.
pub open spec fn fields_get(fields: Seq<(Seq<char>, JsonModel)>, key: Seq<char>) -> Option<
    JsonModel,
>
    decreases fields.len(),
{
    if fields.len() == 0 {
        None
    } else if fields[0].0 == key {
        Some(fields[0].1)
    } else {
        fields_get(fields.drop_first(), key)
    }
}

/// The value under `key`, when the document is an object holding that key.
pub open spec fn obj_get(m: JsonModel, key: Seq<char>) -> Option<JsonModel> {
    match m {
        JsonModel::Obj(fields) => fields_get(fields, key),
        _ => None,
    }
}

/// The element at `i`, when the document is an array long enough.
pub open spec fn arr_get(m: JsonModel, i: int) -> Option<JsonModel> {
    match m {
        JsonModel::Arr(items) => if 0 <= i < items.len() {
            Some(items[i])
        } else {
            None
        },
        _ => None,
    }
}

/// The character sequence, when the document is a string.
pub open spec fn str_of(m: JsonModel) -> Option<Seq<char>> {
    match m {
        JsonModel::Str(s) => Some(s),
        _ => None,
    }
}

/// The number's decimal text, when the document is a number.
pub open spec fn num_of(m: JsonModel) -> Option<Seq<char>> {
    match m {
        JsonModel::Num(t) => Some(t),
        _ => None,
    }
}

/// Chains an object lookup onto a previous optional lookup.
pub open spec fn then_get(o: Option<JsonModel>, key: Seq<char>) -> Option<JsonModel> {
    match o {
        Some(m) => obj_get(m, key),
        None => None,
    }
}

/// Chains an array indexing onto a previous optional lookup.
pub open spec fn then_idx(o: Option<JsonModel>, i: int) -> Option<JsonModel> {
    match o {
        Some(m) => arr_get(m, i),
        None => None,
    }
}

/// Reads the string out of a previous optional lookup.
pub open spec fn then_str(o: Option<JsonModel>) -> Option<Seq<char>> {
    match o {
        Some(m) => str_of(m),
        None => None,
    }
}

/// Reads the element list out of a previous optional lookup.
pub open spec fn then_arr(o: Option<JsonModel>) -> Option<Seq<JsonModel>> {
    match o {
        Some(JsonModel::Arr(items)) => Some(items),
        _ => None,
    }
}

/// Relies on str's `==` (PartialEq): equality of the character sequences.
#[verifier::external_body]
pub(crate) fn str_eq(a: &str, b: &str) -> (r: bool)
    ensures
        r == (a@ == b@),
{
    a == b
}

proof fn lemma_fields_get_at(fields: Seq<(Seq<char>, JsonModel)>, key: Seq<char>, i: int)
    requires
        0 <= i < fields.len(),
        forall|j: int| 0 <= j < i ==> fields[j].0 != key,
        fields[i].0 == key,
    ensures
        fields_get(fields, key) == Some(fields[i].1),
    decreases i,
{
    if i > 0 {
        lemma_fields_get_at(fields.drop_first(), key, i - 1);
    }
}

proof fn lemma_fields_get_absent(fields: Seq<(Seq<char>, JsonModel)>, key: Seq<char>)
    requires
        forall|j: int| 0 <= j < fields.len() ==> fields[j].0 != key,
    ensures
        fields_get(fields, key) is None,
    decreases fields.len(),
{
    if fields.len() > 0 {
        lemma_fields_get_absent(fields.drop_first(), key);
    }
}

impl JsonValue {
    /// The value under `key`, when this document is an object holding it.
    pub fn get<'a>(&'a self, key: &str) -> (r: Option<&'a JsonValue>)
        ensures
            match r {
                Some(v) => obj_get(self@, key@) == Some(v@),
                None => obj_get(self@, key@) is None,
            },
    {
        match self {
            JsonValue::Obj(fields) => {
                proof {
                    lemma_json_model_fields(fields@);
                }
                let ghost mfields = json_model_fields(fields@);
                let n = fields.len();
                let mut i: usize = 0;
                while i < n
                    invariant
                        i <= n,
                        n == fields@.len(),
                        self@ == JsonModel::Obj(mfields),
                        mfields.len() == n,
                        forall|j: int| 0 <= j < n ==> mfields[j] == (
                            fields@[j].0@,
                            json_model(fields@[j].1),
                        ),
                        forall|j: int| 0 <= j < i ==> mfields[j].0 != key@,
                    decreases n - i,
                {
                    if str_eq(fields[i].0.as_str(), key) {
                        proof {
                            lemma_fields_get_at(mfields, key@, i as int);
                        }
                        return Some(&fields[i].1);
                    }
                    i += 1;
                }
                proof {
                    lemma_fields_get_absent(mfields, key@);
                }
                None
            },
            _ => None,
        }
    }

    /// The element at `i`, when this document is an array long enough.
    pub fn idx<'a>(&'a self, i: usize) -> (r: Option<&'a JsonValue>)
        ensures
            match r {
                Some(v) => arr_get(self@, i as int) == Some(v@),
                None => arr_get(self@, i as int) is None,
            },
    {
        match self {
            JsonValue::Arr(items) => {
                proof {
                    lemma_json_model_seq(items@);
                }
                if i < items.len() {
                    Some(&items[i])
                } else {
                    None
                }
            },
            _ => None,
        }
    }

    /// The string contents, when this document is a string.
    pub fn as_string<'a>(&'a self) -> (r: Option<&'a String>)
        ensures
            match r {
                Some(s) => str_of(self@) == Some(s@),
                None => str_of(self@) is None,
            },
    {
        match self {
            JsonValue::Str(s) => Some(s),
            _ => None,
        }
    }

    /// The number's text, when this document is a number.
    pub fn as_num_text<'a>(&'a self) -> (r: Option<&'a String>)
        ensures
            match r {
                Some(t) => num_of(self@) == Some(t@),
                None => num_of(self@) is None,
            },
    {
        match self {
            JsonValue::Num(t) => Some(t),
            _ => None,
        }
    }

}

/// What `serde_json` reads out of a text: the document, or nothing when the
/// text is not JSON. The parse depends on the text alone.
pub uninterp spec fn json_of(s: Seq<char>) -> Option<JsonModel>;

/// The conversion half of `parse_json`: each serde_json::Value variant is
/// mapped, one arm each, onto the library's own document type.
#[verifier::external_body]
fn json_from_value(v: serde_json::Value) -> JsonValue {
    match v {
        serde_json::Value::Null => JsonValue::Null,
        serde_json::Value::Bool(b) => JsonValue::Bool(b),
        serde_json::Value::Number(n) => JsonValue::Num(n.to_string()),
        serde_json::Value::String(s) => JsonValue::Str(s),
        serde_json::Value::Array(a) => JsonValue::Arr(a.into_iter().map(json_from_value).collect()),
        serde_json::Value::Object(o) => JsonValue::Obj(
            o.into_iter().map(|(k, w)| (k, json_from_value(w))).collect(),
        ),
    }
}

/// Relies on serde_json::from_str::<Value>: whether a text parses, and the
/// document it parses to, depend on the text alone; the error is serde's
/// message.
#[verifier::external_body]
pub(crate) fn parse_json(s: &str) -> (r: Result<JsonValue, String>)
    ensures
        (r matches Ok(v) ==> json_of(s@) == Some(v@)),
        (r matches Err(_) ==> json_of(s@) is None),
{
    match serde_json::from_str::<serde_json::Value>(s) {
        Ok(v) => Ok(json_from_value(v)),
        Err(e) => Err(e.to_string()),
    }
}

#[verifier::external_type_specification]
#[verifier::external_body]
pub struct ExSerdeValue(serde_json::Value);

} // verus!
