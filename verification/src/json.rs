//! JSON values, which are carried through and, for a request body, extended by entries.
use vstd::prelude::*;

verus! {

/// A JSON value. What it holds is known here only through the names below.
#[verifier::external_type_specification]
#[verifier::external_body]
pub struct ExValue(serde_json::Value);

/// The entries of a JSON object, by key; `None` for a JSON value of another kind.
pub uninterp spec fn object_content(value: serde_json::Value) -> Option<
    Map<Seq<char>, serde_json::Value>,
>;

/// The truth value that a JSON boolean holds; `None` for a JSON value of another kind.
pub uninterp spec fn bool_content(value: serde_json::Value) -> Option<bool>;

/// The JSON value that `text` spells; `None` where `text` is not JSON.
pub uninterp spec fn parsed_json(text: Seq<char>) -> Option<serde_json::Value>;

/// `Clone` of a JSON value: a value with the same content.
pub assume_specification[ <serde_json::Value as Clone>::clone ](
    value: &serde_json::Value,
) -> (copy: serde_json::Value)
    ensures
        copy == *value,
;

/// Calls `serde_json::from_str` for a value of any kind.
///
/// Nothing is claimed of the outcome but that it depends on the text alone. Why a text is
/// refused is not kept.
#[verifier::external_body]
pub(crate) fn parse_json(text: &str) -> (value: Option<serde_json::Value>)
    ensures
        value == parsed_json(text@),
{
    serde_json::from_str(text).ok()
}

/// Calls `<serde_json::Value as From<bool>>::from`: the JSON boolean that holds `truth`.
#[verifier::external_body]
fn json_bool(truth: bool) -> (value: serde_json::Value)
    ensures
        bool_content(value) == Some(truth),
{
    serde_json::Value::from(truth)
}

/// Calls `serde_json::Map::new`: a JSON object without entries.
#[verifier::external_body]
fn json_object() -> (value: serde_json::Value)
    ensures
        object_content(value) == Some(Map::<Seq<char>, serde_json::Value>::empty()),
{
    serde_json::Value::Object(serde_json::Map::new())
}

/// Calls `serde_json::Map::insert` on a JSON object: `entry` stands under `key`, in place of
/// what stood there, and the other entries stay. A value of another kind stays as it is.
#[verifier::external_body]
fn insert_entry(object: &mut serde_json::Value, key: &str, entry: serde_json::Value)
    ensures
        object_content(*old(object)) matches Some(entries) ==> object_content(*final(object))
            == Some(entries.insert(key@, entry)),
        object_content(*old(object)) is None ==> *final(object) == *old(object),
{
    if let serde_json::Value::Object(map) = object {
        map.insert(key.to_owned(), entry);
    }
}

/// The JSON object whose one entry asks for token usage at the end of a stream.
pub open spec fn asks_for_usage(options: serde_json::Value) -> bool {
    &&& object_content(options) matches Some(entries)
    &&& entries.dom() == set!["include_usage"@]
    &&& bool_content(entries["include_usage"@]) == Some(true)
}

/// `streamed` is the request body `body`, told to stream and to report token usage at the end:
/// those two entries are set and every other one stays.
pub open spec fn is_streaming_body(body: serde_json::Value, streamed: serde_json::Value) -> bool {
    match object_content(body) {
        Some(before) => {
            &&& object_content(streamed) matches Some(after)
            &&& after.dom() == before.dom().insert("stream"@).insert("stream_options"@)
            &&& bool_content(after["stream"@]) == Some(true)
            &&& asks_for_usage(after["stream_options"@])
            &&& forall|key: Seq<char>|
                key != "stream"@ && key != "stream_options"@ && before.contains_key(key)
                    ==> #[trigger] after[key] == before[key]
        },
        None => streamed == body,
    }
}

/// Turns the body of a completion request into that of a streaming one.
pub fn streaming_body(body: serde_json::Value) -> (streamed: serde_json::Value)
    ensures
        is_streaming_body(body, streamed),
{
    let mut options = json_object();
    insert_entry(&mut options, "include_usage", json_bool(true));
    assert(object_content(options)->0.dom() == set!["include_usage"@]);
    let mut streamed = body;
    insert_entry(&mut streamed, "stream", json_bool(true));
    insert_entry(&mut streamed, "stream_options", options);
    proof {
        reveal_strlit("stream");
        reveal_strlit("stream_options");
        assert("stream"@.len() != "stream_options"@.len());
    }
    streamed
}

} // verus!
