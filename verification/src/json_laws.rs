//! Laws of JSON request bodies.
use vstd::prelude::*;

verus! {

/// The entry of a JSON object under a key; `None` where there is none.
pub open spec fn entry(value: serde_json::Value, key: Seq<char>) -> Option<serde_json::Value> {
    match crate::json::object_content(value) {
        Some(entries) => if entries.contains_key(key) {
            Some(entries[key])
        } else {
            None
        },
        None => None,
    }
}

/// A JSON boolean that holds `true` stands under a key.
pub open spec fn is_set(value: serde_json::Value, key: Seq<char>) -> bool {
    entry(value, key) matches Some(flag) && crate::json::bool_content(flag) == Some(true)
}

/// A streaming body asks for a stream, and for the count of tokens at its end and for nothing else
/// besides. Every other entry of the body stays as it is, and none is added.
pub proof fn streaming_body_asks_for_a_stream(
    body: serde_json::Value,
    streamed: serde_json::Value,
    key: Seq<char>,
)
    requires
        call_ensures(crate::json::streaming_body, (body,), streamed),
        crate::json::object_content(body) is Some,
    ensures
        is_set(streamed, "stream"@),
        entry(streamed, "stream_options"@) is Some,
        is_set(entry(streamed, "stream_options"@)->0, "include_usage"@),
        key != "include_usage"@ ==> entry(entry(streamed, "stream_options"@)->0, key) is None,
        key != "stream"@ && key != "stream_options"@ ==> entry(streamed, key) == entry(body, key),
{
    let after = crate::json::object_content(streamed)->0;
    let options = crate::json::object_content(after["stream_options"@])->0;
    assert(after.dom().contains("stream"@));
    assert(after.dom().contains("stream_options"@));
    assert(options.dom().contains("include_usage"@));
    assert(options.dom().contains(key) <==> key == "include_usage"@);
    let before = crate::json::object_content(body)->0;
    assert(key != "stream"@ && key != "stream_options"@ ==> (after.dom().contains(key)
        <==> before.dom().contains(key)));
}

/// A body that is no JSON object stays as it is.
pub proof fn other_bodies_stay(body: serde_json::Value, streamed: serde_json::Value)
    requires
        call_ensures(crate::json::streaming_body, (body,), streamed),
        crate::json::object_content(body) is None,
    ensures
        streamed == body,
{
}

} // verus!
