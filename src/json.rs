use vstd::prelude::*;

verus! {

/// One member of a JSON object: its decoded key and the exact text of its value.
pub struct JsonMember {
    pub key: String,
    pub raw_value: String,
}

impl View for JsonMember {
    type V = (Seq<char>, Seq<char>);

    open spec fn view(&self) -> (Seq<char>, Seq<char>) {
        (self.key@, self.raw_value@)
    }
}

/// What serde_json makes of `text` read as an object of raw values: the members with their
/// decoded keys and the untouched text of their values, or nothing if `text` is no object.
pub uninterp spec fn json_object_members(text: Seq<char>) -> Option<Seq<(Seq<char>, Seq<char>)>>;

/// What serde_json makes of `text` read as an array of raw values: the untouched text of each
/// item in order, or nothing if `text` is no array.
pub uninterp spec fn json_array_items(text: Seq<char>) -> Option<Seq<Seq<char>>>;

/// What serde_json makes of `text` read as a string: its decoded contents, or nothing if
/// `text` is no JSON string.
pub uninterp spec fn json_string_value(text: Seq<char>) -> Option<Seq<char>>;

/// Relies on `serde_json::from_str` into a map from `String` to `Box<RawValue>`, which accepts
/// exactly the JSON objects and keeps each value's text as `RawValue::get` gives it back. On
/// failure the text is serde_json's description of the error.
#[verifier::external_body]
pub(crate) fn parse_object_members(text: &str) -> (r: Result<Vec<JsonMember>, String>)
    ensures
        r is Ok <==> json_object_members(text@) is Some,
        r is Ok ==> json_object_members(text@) == Some(
            r->Ok_0@.map_values(|m: JsonMember| m@),
        ),
{
    serde_json::from_str::<
        std::collections::BTreeMap<String, Box<serde_json::value::RawValue>>,
    >(text).map(
        |members|
            members.into_iter().map(
                |(key, value)| JsonMember { key, raw_value: value.get().to_string() },
            ).collect(),
    ).map_err(|error| error.to_string())
}

/// Relies on `serde_json::from_str` into a `Vec<Box<RawValue>>`, which accepts exactly the
/// JSON arrays and keeps each item's text as `RawValue::get` gives it back.
#[verifier::external_body]
pub(crate) fn parse_array_items(text: &str) -> (r: Result<Vec<String>, String>)
    ensures
        r is Ok <==> json_array_items(text@) is Some,
        r is Ok ==> json_array_items(text@) == Some(r->Ok_0.deep_view()),
{
    serde_json::from_str::<Vec<Box<serde_json::value::RawValue>>>(text).map(
        |items| items.into_iter().map(|item| item.get().to_string()).collect(),
    ).map_err(|error| error.to_string())
}

/// Relies on `serde_json::from_str` into a `String`, which accepts exactly the JSON strings
/// and decodes their escapes.
#[verifier::external_body]
pub(crate) fn parse_string(text: &str) -> (r: Result<String, String>)
    ensures
        r is Ok <==> json_string_value(text@) is Some,
        r is Ok ==> json_string_value(text@) == Some(r->Ok_0@),
{
    serde_json::from_str::<String>(text).map_err(|error| error.to_string())
}

} // verus!
