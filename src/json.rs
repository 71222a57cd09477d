use vstd::prelude::*;

verus! {

/// A JSON document, as the metadata logic reads it. Numbers are kept as
/// their text: nothing here computes with them.
#[derive(Debug)]
pub enum Json {
    Null,
    Bool(bool),
    Number(String),
    Str(String),
    Array(Vec<Json>),
    Object(Vec<(String, Json)>),
}

/// serde_json's document type, carried only from parsing to conversion.
#[verifier::external_type_specification]
#[verifier::external_body]
pub struct ExValue(serde_json::Value);

/// The JSON document that bytes hold; `None` where they hold none
/// (invalid UTF-8 included).
pub uninterp spec fn json_document(bytes: Seq<u8>) -> Option<Json>;

/// Relies on serde_json::from_slice::<serde_json::Value> to parse `bytes`
/// as one JSON document; the outcome depends on the bytes alone.
#[verifier::external_body]
pub(crate) fn parse_json(bytes: &[u8]) -> (r: Option<Json>)
    ensures
        r == json_document(bytes@),
{
    match serde_json::from_slice::<serde_json::Value>(bytes) {
        Ok(value) => Some(json_from_value(value)),
        Err(_) => None,
    }
}

/// Carries a serde_json::Value over into `Json`, variant by variant (the
/// members of an object in serde_json's order); a number becomes the text
/// that serde_json::Number prints. Only `parse_json` calls it.
#[verifier::external_body]
fn json_from_value(value: serde_json::Value) -> Json {
    match value {
        serde_json::Value::Null => Json::Null,
        serde_json::Value::Bool(b) => Json::Bool(b),
        serde_json::Value::Number(n) => Json::Number(n.to_string()),
        serde_json::Value::String(s) => Json::Str(s),
        serde_json::Value::Array(a) => Json::Array(a.into_iter().map(json_from_value).collect()),
        serde_json::Value::Object(m) => Json::Object(
            m.into_iter().map(|(k, v)| (k, json_from_value(v))).collect(),
        ),
    }
}

/// The value of the first member named `key`.
pub open spec fn member(entries: Seq<(String, Json)>, key: Seq<char>) -> Option<Json>
    decreases entries.len(),
{
    if entries.len() == 0 {
        None
    } else if entries[0].0@ == key {
        Some(entries[0].1)
    } else {
        member(entries.drop_first(), key)
    }
}

/// The member `key` of a document that is an object.
pub open spec fn field(doc: Json, key: Seq<char>) -> Option<Json> {
    match doc {
        Json::Object(entries) => member(entries@, key),
        _ => None,
    }
}

/// The text of member `key`, where it is a string.
pub open spec fn text_field(doc: Json, key: Seq<char>) -> Option<Seq<char>> {
    match field(doc, key) {
        Some(Json::Str(s)) => Some(s@),
        _ => None,
    }
}

/// The strings among `items`, in order.
pub open spec fn string_items(items: Seq<Json>) -> Seq<Seq<char>>
    decreases items.len(),
{
    if items.len() == 0 {
        seq![]
    } else {
        let before = string_items(items.drop_last());
        match items.last() {
            Json::Str(s) => before.push(s@),
            _ => before,
        }
    }
}

/// The strings of member `key`, where it is an array; else none.
pub open spec fn text_list_field(doc: Json, key: Seq<char>) -> Seq<Seq<char>> {
    match field(doc, key) {
        Some(Json::Array(items)) => string_items(items@),
        _ => seq![],
    }
}

/// The index of the first member named `key`.
pub fn find_member(entries: &Vec<(String, Json)>, key: &str) -> (r: Option<usize>)
    ensures
        match r {
            Some(i) => i < entries@.len() && member(entries@, key@) == Some(entries@[i as int].1),
            None => member(entries@, key@) is None,
        },
{
    let wanted = String::from_str(key);
    let mut i: usize = 0;
    assert(entries@.subrange(0, entries@.len() as int) =~= entries@);
    while i < entries.len()
        invariant
            i <= entries@.len(),
            wanted@ == key@,
            member(entries@, key@) == member(entries@.subrange(i as int, entries@.len() as int), key@),
        decreases entries@.len() - i,
    {
        let ghost rest = entries@.subrange(i as int, entries@.len() as int);
        assert(rest.drop_first() =~= entries@.subrange(i + 1, entries@.len() as int));
        assert(rest[0] == entries@[i as int]);
        if entries[i].0 == wanted {
            assert(member(rest, key@) == Some(rest[0].1));
            return Some(i);
        }
        i = i + 1;
    }
    None
}

/// The text of member `key` of `doc`, where it is a string.
pub fn get_text(doc: &Json, key: &str) -> (r: Option<String>)
    ensures
        match r {
            Some(s) => text_field(*doc, key@) == Some(s@),
            None => text_field(*doc, key@) is None,
        },
{
    match doc {
        Json::Object(entries) => match find_member(entries, key) {
            Some(i) => match &entries[i].1 {
                Json::Str(s) => Some(s.clone()),
                _ => None,
            },
            None => None,
        },
        _ => None,
    }
}

/// The strings of member `key` of `doc`, where it is an array.
pub fn get_text_list(doc: &Json, key: &str) -> (r: Vec<String>)
    ensures
        r@.map_values(|s: String| s@) == text_list_field(*doc, key@),
{
    let mut out: Vec<String> = Vec::new();
    match doc {
        Json::Object(entries) => match find_member(entries, key) {
            Some(k) => match &entries[k].1 {
                Json::Array(items) => {
                    let mut i: usize = 0;
                    while i < items.len()
                        invariant
                            i <= items@.len(),
                            field(*doc, key@) == Some(Json::Array(*items)),
                            out@.map_values(|s: String| s@) == string_items(items@.take(i as int)),
                        decreases items@.len() - i,
                    {
                        assert(items@.take(i + 1).drop_last() =~= items@.take(i as int));
                        match &items[i] {
                            Json::Str(s) => {
                                out.push(s.clone());
                            },
                            _ => {},
                        }
                        assert(out@.map_values(|s: String| s@) =~= string_items(items@.take(i + 1)));
                        i = i + 1;
                    }
                    assert(items@.take(i as int) =~= items@);
                },
                _ => {},
            },
            None => {},
        },
        _ => {},
    }
    assert(out@.map_values(|s: String| s@) =~= text_list_field(*doc, key@));
    out
}

} // verus!
