//! A plain model of JSON documents, and typed reads of object members.
use vstd::prelude::*;

verus! {

/// A JSON number as the decoder reports it.
#[derive(Debug, Clone, PartialEq)]
pub struct JsonNumber {
    /// The value, when the number is a non-negative integer that fits in 64 bits.
    pub unsigned: Option<u64>,
    /// The number written out as JSON decimal text.
    pub text: String,
}

/// A member of a JSON object.
#[derive(Debug, PartialEq)]
pub struct Member {
    pub key: String,
    pub value: Json,
}

/// A JSON document.
#[derive(Debug, PartialEq)]
pub enum Json {
    Null,
    Bool(bool),
    Number(JsonNumber),
    Text(String),
    Array(Vec<Json>),
    /// The members of an object, in order. A read of a key takes the first
    /// member with that key; the parser gives each key at most once.
    Object(Vec<Member>),
}

/// `serde_json::Value`, the parser's document type, carried opaquely from
/// `serde_json::from_str` into the conversion to `Json`.
#[verifier::external_type_specification]
#[verifier::external_body]
pub struct ExValue(serde_json::Value);

/// The document that the JSON text `text` holds, or `None` when `text` is not
/// a JSON document.
pub uninterp spec fn parsed_json(text: Seq<char>) -> Option<Json>;

/// Relies on `serde_json::Value`'s variants: each becomes the model's variant
/// of the same name, numbers through `Number::as_u64` and `Number`'s decimal
/// text.
#[verifier::external_body]
fn json_from_value(v: serde_json::Value) -> Json {
    match v {
        serde_json::Value::Null => Json::Null,
        serde_json::Value::Bool(b) => Json::Bool(b),
        serde_json::Value::Number(n) => Json::Number(
            JsonNumber { unsigned: n.as_u64(), text: n.to_string() },
        ),
        serde_json::Value::String(s) => Json::Text(s),
        serde_json::Value::Array(a) => Json::Array(a.into_iter().map(json_from_value).collect()),
        serde_json::Value::Object(m) => Json::Object(
            m.into_iter().map(|(key, value)| Member { key, value: json_from_value(value) }).collect(),
        ),
    }
}

/// Relies on `serde_json::from_str` into a `serde_json::Value`: the outcome
/// depends on the text alone, and empty text is no document.
#[verifier::external_body]
pub(crate) fn parse_json(text: &str) -> (r: Option<Json>)
    ensures
        r == parsed_json(text@),
        text@.len() == 0 ==> r is None,
{
    serde_json::from_str::<serde_json::Value>(text).ok().map(json_from_value)
}

/// The value of the first member of `ms` whose key is `key`.
pub open spec fn lookup(ms: Seq<Member>, key: Seq<char>) -> Option<Json>
    decreases ms.len(),
{
    if ms.len() == 0 {
        None
    } else if ms[0].key@ == key {
        Some(ms[0].value)
    } else {
        lookup(ms.drop_first(), key)
    }
}

/// The value of member `key` of `j`; `None` when `j` is no object or has no
/// such member.
pub open spec fn member_of(j: Json, key: Seq<char>) -> Option<Json> {
    match j {
        Json::Object(ms) => lookup(ms@, key),
        _ => None,
    }
}

/// A string value's text.
pub open spec fn as_text(v: Option<Json>) -> Option<Seq<char>> {
    match v {
        Some(Json::Text(s)) => Some(s@),
        _ => None,
    }
}

/// A number's value, when it is an integer in the range of `u32`.
pub open spec fn as_u32(v: Option<Json>) -> Option<u32> {
    match v {
        Some(Json::Number(n)) => match n.unsigned {
            Some(x) => if x <= u32::MAX {
                Some(x as u32)
            } else {
                None
            },
            None => None,
        },
        _ => None,
    }
}

/// A boolean value.
pub open spec fn as_bool(v: Option<Json>) -> Option<bool> {
    match v {
        Some(Json::Bool(b)) => Some(b),
        _ => None,
    }
}

/// A number's decimal text, for any number.
pub open spec fn as_number_text(v: Option<Json>) -> Option<Seq<char>> {
    match v {
        Some(Json::Number(n)) => Some(n.text@),
        _ => None,
    }
}

/// The text of a string value, and nothing for any other value.
pub open spec fn text_of(v: Json) -> Seq<char> {
    match v {
        Json::Text(s) => s@,
        _ => Seq::empty(),
    }
}

/// The texts of an array whose items are all strings.
pub open spec fn as_text_list(v: Option<Json>) -> Option<Seq<Seq<char>>> {
    match v {
        Some(Json::Array(items)) => if forall|i: int| 0 <= i < items@.len() ==> items@[i] is Text {
            Some(items@.map_values(|x: Json| text_of(x)))
        } else {
            None
        },
        _ => None,
    }
}

/// The views of a sequence of strings.
pub open spec fn texts(v: Seq<String>) -> Seq<Seq<char>> {
    v.map_values(|s: String| s@)
}

/// The view of an optional string.
pub open spec fn opt_text(v: Option<String>) -> Option<Seq<char>> {
    match v {
        Some(s) => Some(s@),
        None => None,
    }
}

/// The member `key` of `j`, when `j` is an object that has one.
pub fn member<'a>(j: &'a Json, key: &str) -> (r: Option<&'a Json>)
    ensures
        match r {
            Some(v) => member_of(*j, key@) == Some(*v),
            None => member_of(*j, key@) is None,
        },
{
    match j {
        Json::Object(ms) => {
            let k = String::from_str(key);
            let mut i: usize = 0;
            assert(ms@.skip(0) =~= ms@);
            while i < ms.len()
                invariant
                    i <= ms@.len(),
                    k@ == key@,
                    member_of(*j, key@) == lookup(ms@, key@),
                    lookup(ms@, key@) == lookup(ms@.skip(i as int), key@),
                decreases ms@.len() - i,
            {
                assert(ms@.skip(i as int).drop_first() =~= ms@.skip(i + 1));
                assert(ms@.skip(i as int)[0] == ms@[i as int]);
                if ms[i].key == k {
                    return Some(&ms[i].value);
                }
                i = i + 1;
            }
            None
        },
        _ => None,
    }
}

/// The text of string member `key` of `j`.
pub fn text_member(j: &Json, key: &str) -> (r: Option<String>)
    ensures
        opt_text(r) == as_text(member_of(*j, key@)),
{
    match member(j, key) {
        Some(Json::Text(s)) => Some(s.clone()),
        _ => None,
    }
}

/// The value of member `key` of `j`, when it is an integer in the range of `u32`.
pub fn u32_member(j: &Json, key: &str) -> (r: Option<u32>)
    ensures
        r == as_u32(member_of(*j, key@)),
{
    match member(j, key) {
        Some(Json::Number(n)) => match n.unsigned {
            Some(x) => if x <= 0xffff_ffffu64 {
                Some(x as u32)
            } else {
                None
            },
            None => None,
        },
        _ => None,
    }
}

/// The value of boolean member `key` of `j`.
pub fn bool_member(j: &Json, key: &str) -> (r: Option<bool>)
    ensures
        r == as_bool(member_of(*j, key@)),
{
    match member(j, key) {
        Some(Json::Bool(b)) => Some(*b),
        _ => None,
    }
}

/// The decimal text of number member `key` of `j`.
pub fn number_text_member(j: &Json, key: &str) -> (r: Option<String>)
    ensures
        opt_text(r) == as_number_text(member_of(*j, key@)),
{
    match member(j, key) {
        Some(Json::Number(n)) => Some(n.text.clone()),
        _ => None,
    }
}

/// The texts of member `key` of `j`, when it is an array of strings.
pub fn text_list_member(j: &Json, key: &str) -> (r: Option<Vec<String>>)
    ensures
        match r {
            Some(v) => as_text_list(member_of(*j, key@)) == Some(texts(v@)),
            None => as_text_list(member_of(*j, key@)) is None,
        },
{
    match member(j, key) {
        Some(Json::Array(items)) => {
            let mut out: Vec<String> = Vec::new();
            let mut i: usize = 0;
            while i < items.len()
                invariant
                    i <= items@.len(),
                    out@.len() == i,
                    member_of(*j, key@) == Some(Json::Array(*items)),
                    forall|k: int| 0 <= k < i ==> items@[k] is Text,
                    forall|k: int| 0 <= k < i ==> out@[k]@ == text_of(#[trigger] items@[k]),
                decreases items@.len() - i,
            {
                match &items[i] {
                    Json::Text(s) => out.push(s.clone()),
                    _ => {
                        assert(!(items@[i as int] is Text));
                        return None;
                    },
                }
                i = i + 1;
            }
            assert(texts(out@) =~= items@.map_values(|x: Json| text_of(x)));
            Some(out)
        },
        _ => None,
    }
}

} // verus!
