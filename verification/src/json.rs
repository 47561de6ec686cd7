//! JSON documents as plain values.
//!
//! Reading and writing JSON text is left to `serde_json`; what the protocol
//! does with a document (looking up fields, checking their types) is verified
//! here over [`JsonValue`], the mathematical value of a document.

use vstd::prelude::*;

verus! {

/// A JSON document.
///
/// The protocol only knows unsigned integers, so any other number is kept as
/// [`Json::OtherNumber`], without its value.
#[derive(Debug, PartialEq)]
pub enum Json {
    Null,
    Bool(bool),
    Integer(u64),
    OtherNumber,
    Text(String),
    List(Vec<Json>),
    Record(Vec<(String, Json)>),
}

/// The mathematical value of a [`Json`] document.
pub ghost enum JsonValue {
    Null,
    Bool(bool),
    Integer(u64),
    OtherNumber,
    Text(Seq<char>),
    List(Seq<JsonValue>),
    Record(Seq<(Seq<char>, JsonValue)>),
}

/// The mathematical value of a document.
pub open spec fn json_value(json: Json) -> JsonValue
    decreases json,
{
    match json {
        Json::Null => JsonValue::Null,
        Json::Bool(b) => JsonValue::Bool(b),
        Json::Integer(n) => JsonValue::Integer(n),
        Json::OtherNumber => JsonValue::OtherNumber,
        Json::Text(s) => JsonValue::Text(s@),
        Json::List(items) => JsonValue::List(
            Seq::new(
                items@.len(),
                |i: int|
                    if 0 <= i < items@.len() {
                        json_value(items@[i])
                    } else {
                        JsonValue::Null
                    },
            ),
        ),
        Json::Record(fields) => JsonValue::Record(
            Seq::new(
                fields@.len(),
                |i: int|
                    if 0 <= i < fields@.len() {
                        (fields@[i].0@, json_value(fields@[i].1))
                    } else {
                        (Seq::empty(), JsonValue::Null)
                    },
            ),
        ),
    }
}

impl View for Json {
    type V = JsonValue;

    open spec fn view(&self) -> JsonValue {
        json_value(*self)
    }
}

/// The values of a list of documents.
pub open spec fn list_view(items: Seq<Json>) -> Seq<JsonValue> {
    Seq::new(items.len(), |i: int| items[i]@)
}

/// The names and values of a list of fields.
pub open spec fn fields_view(fields: Seq<(String, Json)>) -> Seq<(Seq<char>, JsonValue)> {
    Seq::new(fields.len(), |i: int| (fields[i].0@, fields[i].1@))
}

/// The value of the first field called `key`, if there is one.
pub open spec fn lookup(fields: Seq<(Seq<char>, JsonValue)>, key: Seq<char>) -> Option<JsonValue>
    decreases fields.len(),
{
    if fields.len() == 0 {
        None
    } else if fields[0].0 == key {
        Some(fields[0].1)
    } else {
        lookup(fields.skip(1), key)
    }
}

/// A field that no earlier field shares its name with is the one `lookup` finds.
pub proof fn lemma_lookup_at(fields: Seq<(Seq<char>, JsonValue)>, key: Seq<char>, at: int)
    requires
        0 <= at < fields.len(),
        fields[at].0 == key,
        forall|j: int| 0 <= j < at ==> fields[j].0 != key,
    ensures
        lookup(fields, key) == Some(fields[at].1),
    decreases at,
{
    if at > 0 {
        let rest = fields.skip(1);
        assert(rest[at - 1] == fields[at]);
        assert forall|j: int| 0 <= j < at - 1 implies rest[j].0 != key by {
            assert(rest[j] == fields[j + 1]);
        }
        lemma_lookup_at(rest, key, at - 1);
    }
}

/// Where no field is called `key`, `lookup` finds nothing.
pub proof fn lemma_lookup_none(fields: Seq<(Seq<char>, JsonValue)>, key: Seq<char>)
    requires
        forall|j: int| 0 <= j < fields.len() ==> fields[j].0 != key,
    ensures
        lookup(fields, key) is None,
    decreases fields.len(),
{
    if fields.len() > 0 {
        let rest = fields.skip(1);
        assert forall|j: int| 0 <= j < rest.len() implies rest[j].0 != key by {
            assert(rest[j] == fields[j + 1]);
        }
        lemma_lookup_none(rest, key);
    }
}

impl JsonValue {
    /// The field `key` of a record; nothing for a missing field or for a
    /// document that is no record.
    pub open spec fn get(self, key: Seq<char>) -> Option<JsonValue> {
        match self {
            JsonValue::Record(fields) => lookup(fields, key),
            _ => None,
        }
    }

    /// The field `key` where it is present and not `null`.
    pub open spec fn present(self, key: Seq<char>) -> Option<JsonValue> {
        match self.get(key) {
            Some(JsonValue::Null) => None,
            other => other,
        }
    }

    /// The text of a text document.
    pub open spec fn as_text(self) -> Option<Seq<char>> {
        match self {
            JsonValue::Text(s) => Some(s),
            _ => None,
        }
    }

    /// The number of a document that is an unsigned integer.
    pub open spec fn as_u64(self) -> Option<u64> {
        match self {
            JsonValue::Integer(n) => Some(n),
            _ => None,
        }
    }

    /// The number of a document that is an unsigned integer of at most 32 bits.
    pub open spec fn as_u32(self) -> Option<u32> {
        match self {
            JsonValue::Integer(n) => if n <= u32::MAX {
                Some(n as u32)
            } else {
                None
            },
            _ => None,
        }
    }

    /// The truth value of a document that is one.
    pub open spec fn as_bool(self) -> Option<bool> {
        match self {
            JsonValue::Bool(b) => Some(b),
            _ => None,
        }
    }

    /// The items of a list.
    pub open spec fn as_list(self) -> Option<Seq<JsonValue>> {
        match self {
            JsonValue::List(items) => Some(items),
            _ => None,
        }
    }

    /// The text held by the field `key`.
    pub open spec fn text_at(self, key: Seq<char>) -> Option<Seq<char>> {
        match self.get(key) {
            Some(v) => v.as_text(),
            None => None,
        }
    }

    /// The unsigned 32-bit integer held by the field `key`.
    pub open spec fn u32_at(self, key: Seq<char>) -> Option<u32> {
        match self.get(key) {
            Some(v) => v.as_u32(),
            None => None,
        }
    }

    /// The unsigned 64-bit integer held by the field `key`.
    pub open spec fn u64_at(self, key: Seq<char>) -> Option<u64> {
        match self.get(key) {
            Some(v) => v.as_u64(),
            None => None,
        }
    }

    /// The truth value held by the field `key`.
    pub open spec fn bool_at(self, key: Seq<char>) -> Option<bool> {
        match self.get(key) {
            Some(v) => v.as_bool(),
            None => None,
        }
    }

    /// The list held by the field `key`.
    pub open spec fn list_at(self, key: Seq<char>) -> Option<Seq<JsonValue>> {
        match self.get(key) {
            Some(v) => v.as_list(),
            None => None,
        }
    }
}

/// What `serde_json` reads from a text: the document it holds, or nothing
/// where the text is not one JSON document. A key that occurs twice in an
/// object keeps its last value.
pub uninterp spec fn json_parse(text: Seq<char>) -> Option<JsonValue>;

/// What `serde_json` writes for a document on one line, or nothing where it
/// reports an error. A key that occurs twice in a record is written once, with
/// its last value, and `OtherNumber` is written as `null`.
pub uninterp spec fn json_text(value: JsonValue) -> Option<Seq<char>>;

/// What `serde_json` writes for a document in its indented form, under the
/// same conventions as [`json_text`].
pub uninterp spec fn json_pretty_text(value: JsonValue) -> Option<Seq<char>>;

/// `serde_json::Value`, of which nothing is known here.
#[verifier::external_type_specification]
#[verifier::external_body]
pub struct ExValue(serde_json::Value);

/// `serde_json::Error`, of which nothing is known here.
#[verifier::external_type_specification]
#[verifier::external_body]
pub struct ExJsonError(serde_json::Error);

/// Copies a `serde_json::Value` into a [`Json`], variant by variant; a number
/// for which `Number::as_u64` has no answer becomes `OtherNumber`.
#[verifier::external_body]
fn value_to_json(value: &serde_json::Value) -> Json {
    match value {
        serde_json::Value::Null => Json::Null,
        serde_json::Value::Bool(b) => Json::Bool(*b),
        serde_json::Value::Number(n) => n.as_u64().map_or(Json::OtherNumber, Json::Integer),
        serde_json::Value::String(s) => Json::Text(s.clone()),
        serde_json::Value::Array(items) => Json::List(items.iter().map(value_to_json).collect()),
        serde_json::Value::Object(fields) => Json::Record(
            fields.iter().map(|(k, v)| (k.clone(), value_to_json(v))).collect(),
        ),
    }
}

/// Copies a [`Json`] into a `serde_json::Value`, variant by variant;
/// `OtherNumber`, which holds no value, becomes `Value::Null`.
#[verifier::external_body]
fn json_to_value(json: &Json) -> serde_json::Value {
    match json {
        Json::Null | Json::OtherNumber => serde_json::Value::Null,
        Json::Bool(b) => serde_json::Value::Bool(*b),
        Json::Integer(n) => serde_json::Value::from(*n),
        Json::Text(s) => serde_json::Value::String(s.clone()),
        Json::List(items) => serde_json::Value::Array(items.iter().map(json_to_value).collect()),
        Json::Record(fields) => serde_json::Value::Object(
            fields.iter().map(|(k, v)| (k.clone(), json_to_value(v))).collect(),
        ),
    }
}

/// `serde_json::from_str` on a `serde_json::Value`: the document that the
/// text holds, which depends on the text alone, or the parser's error.
#[verifier::external_body]
fn read_document(text: &str) -> (r: Result<Json, serde_json::Error>)
    ensures
        match r {
            Ok(j) => json_parse(text@) == Some(j@),
            Err(_) => json_parse(text@) is None,
        },
{
    serde_json::from_str::<serde_json::Value>(text).map(|v| value_to_json(&v))
}

/// `serde_json::to_string` on the value of a document: its one-line text,
/// which depends on the document alone, or the serializer's error.
#[verifier::external_body]
fn write_document(json: &Json) -> (r: Result<String, serde_json::Error>)
    ensures
        match r {
            Ok(s) => json_text(json@) == Some(s@),
            Err(_) => json_text(json@) is None,
        },
{
    serde_json::to_string(&json_to_value(json))
}

/// `serde_json::to_string_pretty` on the value of a document: its indented
/// text, which depends on the document alone, or the serializer's error.
#[verifier::external_body]
fn write_document_pretty(json: &Json) -> (r: Result<String, serde_json::Error>)
    ensures
        match r {
            Ok(s) => json_pretty_text(json@) == Some(s@),
            Err(_) => json_pretty_text(json@) is None,
        },
{
    serde_json::to_string_pretty(&json_to_value(json))
}

/// The message of a `serde_json::Error`, as its `Display` gives it.
#[verifier::external_body]
fn error_message(error: &serde_json::Error) -> String {
    error.to_string()
}

/// Why a text could not be read or a document could not be written.
#[derive(Clone, Debug, PartialEq)]
pub struct JsonError {
    pub message: String,
}

impl Json {
    /// Reads one JSON document from `text`.
    pub fn parse(text: &str) -> (r: Result<Json, JsonError>)
        ensures
            match r {
                Ok(j) => json_parse(text@) == Some(j@),
                Err(_) => json_parse(text@) is None,
            },
    {
        match read_document(text) {
            Ok(j) => Ok(j),
            Err(e) => Err(JsonError { message: error_message(&e) }),
        }
    }

    /// Writes the document on one line.
    pub fn to_text(&self) -> (r: Result<String, JsonError>)
        ensures
            match r {
                Ok(s) => json_text(self@) == Some(s@),
                Err(_) => json_text(self@) is None,
            },
    {
        match write_document(self) {
            Ok(s) => Ok(s),
            Err(e) => Err(JsonError { message: error_message(&e) }),
        }
    }

    /// Writes the document in indented form.
    pub fn to_pretty_text(&self) -> (r: Result<String, JsonError>)
        ensures
            match r {
                Ok(s) => json_pretty_text(self@) == Some(s@),
                Err(_) => json_pretty_text(self@) is None,
            },
    {
        match write_document_pretty(self) {
            Ok(s) => Ok(s),
            Err(e) => Err(JsonError { message: error_message(&e) }),
        }
    }

    /// A text document.
    pub fn text(s: &str) -> (r: Json)
        ensures
            r@ == JsonValue::Text(s@),
    {
        Json::Text(String::from_str(s))
    }

    /// A record with the given fields.
    pub fn record(fields: Vec<(String, Json)>) -> (r: Json)
        ensures
            r@ == JsonValue::Record(fields_view(fields@)),
    {
        let r = Json::Record(fields);
        assert(r@->Record_0 =~= fields_view(fields@));
        r
    }

    /// A list of the given documents.
    pub fn list(items: Vec<Json>) -> (r: Json)
        ensures
            r@ == JsonValue::List(list_view(items@)),
    {
        let r = Json::List(items);
        assert(r@->List_0 =~= list_view(items@));
        r
    }

    /// The field `key` of a record.
    pub fn get(&self, key: &str) -> (r: Option<&Json>)
        ensures
            match r {
                Some(v) => self@.get(key@) == Some(v@),
                None => self@.get(key@) is None,
            },
    {
        match self {
            Json::Record(fields) => {
                let ghost all = fields_view(fields@);
                assert(self@->Record_0 =~= all);
                let wanted = String::from_str(key);
                let mut i: usize = 0;
                while i < fields.len()
                    invariant
                        i <= fields.len(),
                        all == fields_view(fields@),
                        wanted@ == key@,
                        self@.get(key@) == lookup(all, key@),
                        forall|j: int| 0 <= j < i ==> all[j].0 != key@,
                    decreases fields.len() - i,
                {
                    assert(all[i as int] == (fields@[i as int].0@, fields@[i as int].1@));
                    if fields[i].0 == wanted {
                        proof {
                            lemma_lookup_at(all, key@, i as int);
                        }
                        return Some(&fields[i].1);
                    }
                    i += 1;
                }
                proof {
                    lemma_lookup_none(all, key@);
                }
                None
            },
            _ => None,
        }
    }

    /// The text held by the field `key`.
    pub fn text_at(&self, key: &str) -> (r: Option<String>)
        ensures
            r.deep_view() == self@.text_at(key@),
    {
        match self.get(key) {
            Some(Json::Text(s)) => Some(s.clone()),
            _ => None,
        }
    }

    /// The unsigned 32-bit integer held by the field `key`.
    pub fn u32_at(&self, key: &str) -> (r: Option<u32>)
        ensures
            r == self@.u32_at(key@),
    {
        match self.get(key) {
            Some(Json::Integer(n)) => if *n <= u32::MAX as u64 {
                Some(*n as u32)
            } else {
                None
            },
            _ => None,
        }
    }

    /// The unsigned 64-bit integer held by the field `key`.
    pub fn u64_at(&self, key: &str) -> (r: Option<u64>)
        ensures
            r == self@.u64_at(key@),
    {
        match self.get(key) {
            Some(Json::Integer(n)) => Some(*n),
            _ => None,
        }
    }

    /// The truth value held by the field `key`.
    pub fn bool_at(&self, key: &str) -> (r: Option<bool>)
        ensures
            r == self@.bool_at(key@),
    {
        match self.get(key) {
            Some(Json::Bool(b)) => Some(*b),
            _ => None,
        }
    }

    /// The field `key` where it is present and not `null`.
    pub fn present(&self, key: &str) -> (r: Option<&Json>)
        ensures
            match r {
                Some(v) => self@.present(key@) == Some(v@),
                None => self@.present(key@) is None,
            },
    {
        match self.get(key) {
            Some(Json::Null) => None,
            other => other,
        }
    }
}

/// Appends the field `key` with the value `value` to `fields`.
pub fn put(fields: &mut Vec<(String, Json)>, key: &str, value: Json)
    ensures
        fields_view(final(fields)@) == fields_view(old(fields)@).push((key@, value@)),
{
    fields.push((String::from_str(key), value));
    assert(fields_view(fields@) =~= fields_view(old(fields)@).push((key@, value@)));
}

} // verus!
