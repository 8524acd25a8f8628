//! Laws of the conversions between the messages of an application and those of the server.
use crate::completion::{
    AssistantContentView, MessageView, ToolCallView, ToolResultContentView, UserContentView,
};
use crate::message;
use vstd::prelude::*;

verus! {

/// A tool call as it comes back from the server's form: without the id that the provider's own
/// API gave it.
pub open spec fn without_call_id(call: message::ToolCallView) -> message::ToolCallView {
    message::ToolCallView { call_id: None, ..call }
}

/// A tool call of the server comes through the application's form unchanged.
pub proof fn tool_call_of_server_round_trip(call: ToolCallView)
    ensures
        crate::to_server::tool_call_to_server(crate::to_chat::tool_call_to_chat(call)) == call,
{
}

/// A tool call of an application comes through the server's form unchanged, but for its call id.
pub proof fn tool_call_of_application_round_trip(call: message::ToolCallView)
    ensures
        crate::to_chat::tool_call_to_chat(crate::to_server::tool_call_to_server(call))
            == without_call_id(call),
{
}

/// The texts of an assistant message.
pub open spec fn words(content: Seq<message::AssistantContentView>) -> Seq<
    message::AssistantContentView,
> {
    content.filter_map(
        |part: message::AssistantContentView|
            match part {
                message::AssistantContentView::Text(text) => Some(
                    message::AssistantContentView::Text(text),
                ),
                _ => None,
            },
    )
}

/// The tool calls of an assistant message, without their call ids.
pub open spec fn calls(content: Seq<message::AssistantContentView>) -> Seq<
    message::AssistantContentView,
> {
    content.filter_map(
        |part: message::AssistantContentView|
            match part {
                message::AssistantContentView::ToolCall(call) => Some(
                    message::AssistantContentView::ToolCall(without_call_id(call)),
                ),
                _ => None,
            },
    )
}

/// All reasoning of an assistant message in one step, if there is any.
pub open spec fn thoughts(content: Seq<message::AssistantContentView>) -> Seq<
    message::AssistantContentView,
> {
    let reasoning = crate::to_server::reasoning_of(content);
    if reasoning.len() > 0 {
        seq![
            message::AssistantContentView::Reasoning(
                message::single_step(crate::text::joined(reasoning, "\n"@)),
            ),
        ]
    } else {
        Seq::empty()
    }
}

/// The parts of an assistant message as they come back from the server's form: the reasoning in
/// one step, then the texts, then the tool calls.
pub open spec fn rearranged(content: Seq<message::AssistantContentView>) -> Seq<
    message::AssistantContentView,
> {
    thoughts(content) + words(content) + calls(content)
}

/// Every part of an assistant message is text, a tool call or reasoning.
proof fn lemma_parts_add_up(content: Seq<message::AssistantContentView>)
    ensures
        crate::to_server::reasoning_of(content).len() + crate::to_server::texts_of(content).len()
            + crate::to_server::tool_calls_of(content).len() == content.len(),
    decreases content.len(),
{
    if content.len() > 0 {
        lemma_parts_add_up(content.drop_last());
    }
}

/// The texts come back from the server's form as they were.
proof fn lemma_words_come_back(content: Seq<message::AssistantContentView>)
    ensures
        crate::to_server::texts_of(content).map_values(
            |part: AssistantContentView| crate::to_chat::assistant_content_to_chat(part),
        ) == words(content),
        forall|i: int|
            0 <= i < crate::to_server::texts_of(content).len() ==> (
            #[trigger] crate::to_server::texts_of(content)[i]) is Text,
    decreases content.len(),
{
    let f = |part: AssistantContentView| crate::to_chat::assistant_content_to_chat(part);
    if content.len() > 0 {
        lemma_words_come_back(content.drop_last());
        let before = crate::to_server::texts_of(content.drop_last());
        let after = crate::to_server::texts_of(content);
        match content.last() {
            message::AssistantContentView::Text(text) => {
                assert(after == before + seq![AssistantContentView::Text { text }]);
                assert(after.map_values(f) == before.map_values(f) + seq![
                    message::AssistantContentView::Text(text),
                ]);
            },
            _ => {
                assert(after == before);
            },
        }
    } else {
        assert(crate::to_server::texts_of(content).map_values(f) == words(content));
    }
}

/// The tool calls come back from the server's form as they were, but for their call ids.
proof fn lemma_calls_come_back(content: Seq<message::AssistantContentView>)
    ensures
        crate::to_server::tool_calls_of(content).map_values(
            |call: ToolCallView|
                message::AssistantContentView::ToolCall(crate::to_chat::tool_call_to_chat(call)),
        ) == calls(content),
    decreases content.len(),
{
    let f = |call: ToolCallView|
        message::AssistantContentView::ToolCall(crate::to_chat::tool_call_to_chat(call));
    if content.len() > 0 {
        lemma_calls_come_back(content.drop_last());
        let before = crate::to_server::tool_calls_of(content.drop_last());
        let after = crate::to_server::tool_calls_of(content);
        match content.last() {
            message::AssistantContentView::ToolCall(call) => {
                let sent = crate::to_server::tool_call_to_server(call);
                tool_call_of_application_round_trip(call);
                assert(after == before + seq![sent]);
                assert(after.map_values(f) == before.map_values(f) + seq![
                    message::AssistantContentView::ToolCall(without_call_id(call)),
                ]);
            },
            _ => {
                assert(after == before);
            },
        }
    } else {
        assert(crate::to_server::tool_calls_of(content).map_values(f) == calls(content));
    }
}

/// An assistant message always has a form that the server takes, in one message.
pub proof fn assistant_message_is_always_sent(
    id: Option<Seq<char>>,
    content: Seq<message::AssistantContentView>,
)
    ensures
        crate::to_server::message_to_server(message::MessageView::Assistant { id, content })
            == Ok::<Seq<MessageView>, Seq<char>>(
            seq![crate::to_server::assistant_to_server(content)],
        ),
{
}

/// An assistant message comes back from the server's form with all its parts: the reasoning in
/// one step, then the texts, then the tool calls.
pub proof fn assistant_message_comes_back(content: Seq<message::AssistantContentView>)
    requires
        content.len() > 0,
    ensures
        crate::to_chat::message_to_chat(crate::to_server::assistant_to_server(content)) == Ok::<
            message::MessageView,
            Seq<char>,
        >(message::MessageView::Assistant { id: None, content: rearranged(content) }),
{
    lemma_parts_add_up(content);
    lemma_words_come_back(content);
    lemma_calls_come_back(content);
    let f = |part: AssistantContentView| crate::to_chat::assistant_content_to_chat(part);
    let sent = crate::to_server::assistant_contents_to_server(content);
    assert(sent.map_values(f) == thoughts(content) + words(content));
    assert(crate::to_chat::assistant_parts_to_chat(
        sent,
        None,
        crate::to_server::tool_calls_of(content),
    ) == rearranged(content));
}

/// An assistant message that holds texts first and then tool calls without call ids comes
/// through the server's form unchanged.
pub proof fn plain_assistant_message_round_trip(
    content: Seq<message::AssistantContentView>,
    texts: int,
)
    requires
        0 <= texts <= content.len(),
        content.len() > 0,
        forall|i: int| 0 <= i < texts ==> (#[trigger] content[i]) is Text,
        forall|i: int|
            texts <= i < content.len() ==> {
                &&& (#[trigger] content[i]) is ToolCall
                &&& content[i]->ToolCall_0.call_id is None
            },
    ensures
        crate::to_chat::message_to_chat(crate::to_server::assistant_to_server(content)) == Ok::<
            message::MessageView,
            Seq<char>,
        >(message::MessageView::Assistant { id: None, content }),
{
    assistant_message_comes_back(content);
    let first = content.take(texts);
    let rest = content.skip(texts);
    assert(content == first + rest);
    let word = |part: message::AssistantContentView|
        match part {
            message::AssistantContentView::Text(text) => Some(
                message::AssistantContentView::Text(text),
            ),
            _ => None,
        };
    crate::lists::lemma_filter_map_add(first, rest, word);
    crate::lists::lemma_filter_map_keeps(first, word, first);
    crate::lists::lemma_filter_map_drops(rest, word);
    let call = |part: message::AssistantContentView|
        match part {
            message::AssistantContentView::ToolCall(call) => Some(
                message::AssistantContentView::ToolCall(without_call_id(call)),
            ),
            _ => None,
        };
    crate::lists::lemma_filter_map_add(first, rest, call);
    crate::lists::lemma_filter_map_drops(first, call);
    crate::lists::lemma_filter_map_keeps(rest, call, rest);
    let thought = |part: message::AssistantContentView|
        match part {
            message::AssistantContentView::Reasoning(reasoning) => Some(
                crate::text::joined(reasoning.reasoning, "\n"@),
            ),
            _ => None,
        };
    crate::lists::lemma_filter_map_drops(content, thought);
    assert(words(content) == first);
    assert(calls(content) == rest);
    assert(rearranged(content) == content);
}

/// The server's form of an assistant message is stable: what comes back from it is sent in the
/// same form again.
pub proof fn server_form_of_assistant_message_is_stable(
    content: Seq<message::AssistantContentView>,
)
    requires
        content.len() > 0,
    ensures
        crate::to_chat::message_to_chat(crate::to_server::assistant_to_server(content)) matches Ok(
            back,
        ) && crate::to_server::message_to_server(back) == Ok::<Seq<MessageView>, Seq<char>>(
            seq![crate::to_server::assistant_to_server(content)],
        ),
{
    assistant_message_comes_back(content);
    lemma_words_come_back(content);
    lemma_calls_come_back(content);
    let a = thoughts(content);
    let b = words(content);
    let c = calls(content);
    let text = |part: message::AssistantContentView|
        match part {
            message::AssistantContentView::Text(text) => Some(AssistantContentView::Text { text }),
            _ => None,
        };
    crate::lists::lemma_filter_map_add(a + b, c, text);
    crate::lists::lemma_filter_map_add(a, b, text);
    crate::lists::lemma_filter_map_drops(a, text);
    crate::lists::lemma_filter_map_keeps(b, text, crate::to_server::texts_of(content));
    crate::lists::lemma_filter_map_drops(c, text);
    assert(crate::to_server::texts_of(rearranged(content)) == crate::to_server::texts_of(content));
    let call = |part: message::AssistantContentView|
        match part {
            message::AssistantContentView::ToolCall(call) => Some(
                crate::to_server::tool_call_to_server(call),
            ),
            _ => None,
        };
    crate::lists::lemma_filter_map_add(a + b, c, call);
    crate::lists::lemma_filter_map_add(a, b, call);
    crate::lists::lemma_filter_map_drops(a, call);
    crate::lists::lemma_filter_map_drops(b, call);
    crate::lists::lemma_filter_map_keeps(c, call, crate::to_server::tool_calls_of(content));
    assert(crate::to_server::tool_calls_of(rearranged(content)) == crate::to_server::tool_calls_of(
        content,
    ));
    let thought = |part: message::AssistantContentView|
        match part {
            message::AssistantContentView::Reasoning(reasoning) => Some(
                crate::text::joined(reasoning.reasoning, "\n"@),
            ),
            _ => None,
        };
    crate::lists::lemma_filter_map_add(a + b, c, thought);
    crate::lists::lemma_filter_map_add(a, b, thought);
    crate::lists::lemma_filter_map_drops(b, thought);
    crate::lists::lemma_filter_map_drops(c, thought);
    let reasoning = crate::to_server::reasoning_of(content);
    if reasoning.len() > 0 {
        let all = crate::text::joined(reasoning, "\n"@);
        crate::lists::lemma_filter_map_keeps(a, thought, seq![all]);
        assert(crate::to_server::reasoning_of(rearranged(content)) == seq![all]);
    } else {
        crate::lists::lemma_filter_map_drops(a, thought);
        assert(crate::to_server::reasoning_of(rearranged(content)) == Seq::<Seq<char>>::empty());
    }
    assert(crate::to_server::assistant_contents_to_server(rearranged(content))
        == crate::to_server::assistant_contents_to_server(content));
}

/// A user message of the server comes through the application's form unchanged, but for its
/// name.
pub proof fn user_message_of_server_round_trip(
    content: Seq<UserContentView>,
    name: Option<Seq<char>>,
)
    ensures
        crate::to_chat::message_to_chat(MessageView::User { content, name }) matches Ok(back)
            && crate::to_server::message_to_server(back) == Ok::<Seq<MessageView>, Seq<char>>(
            seq![MessageView::User { content, name: None }],
        ),
{
    let back = content.map_values(
        |part: UserContentView| crate::to_chat::user_content_to_chat(part),
    );
    crate::lists::lemma_filter_map_drops(
        back,
        |part: message::UserContentView|
            match part {
                message::UserContentView::ToolResult(result) => Some(result),
                _ => None,
            },
    );
    crate::outcome::lemma_try_each_ok(
        back,
        |part: message::UserContentView| crate::to_server::user_content_to_server(part),
        content,
    );
}

/// A tool result of the server comes through the application's form unchanged.
pub proof fn tool_result_of_server_round_trip(
    tool_call_id: Seq<char>,
    content: Seq<ToolResultContentView>,
)
    ensures
        crate::to_chat::message_to_chat(
            MessageView::ToolResult { tool_call_id, content },
        ) matches Ok(back) && crate::to_server::message_to_server(back) == Ok::<
            Seq<MessageView>,
            Seq<char>,
        >(seq![MessageView::ToolResult { tool_call_id, content }]),
{
    let parts = content.map_values(
        |part: ToolResultContentView| message::ToolResultContentView::Text(part.text),
    );
    let result = message::ToolResultView { id: tool_call_id, call_id: None, content: parts };
    let back = seq![message::UserContentView::ToolResult(result)];
    crate::lists::lemma_filter_map_keeps(
        back,
        |part: message::UserContentView|
            match part {
                message::UserContentView::ToolResult(result) => Some(result),
                _ => None,
            },
        seq![result],
    );
    assert(crate::to_server::tool_results(back) == seq![result]);
    crate::outcome::lemma_try_each_ok(
        parts,
        |content: message::ToolResultContentView|
            crate::to_server::tool_result_content_to_server(content),
        content,
    );
    crate::outcome::lemma_try_each_ok(
        seq![result],
        |result: message::ToolResultView| crate::to_server::tool_result_to_server(result),
        seq![MessageView::ToolResult { tool_call_id, content }],
    );
}

/// A part of a user message of which the server's form loses nothing: text, an image at a URL
/// that says how closely to look and nothing more, or audio in base 64 of a known format.
pub open spec fn is_plain(part: message::UserContentView) -> bool {
    match part {
        message::UserContentView::Text(_) => true,
        message::UserContentView::Image(image) => {
            &&& image.data is Url
            &&& image.media_type is None
            &&& image.detail is Some
            &&& image.additional_params is None
        },
        message::UserContentView::Audio(audio) => {
            &&& audio.data is Base64
            &&& audio.media_type is Some
            &&& audio.additional_params is None
        },
        _ => false,
    }
}

/// A user message of plain parts is sent as one message, and comes back from it unchanged.
pub proof fn plain_user_message_round_trip(content: Seq<message::UserContentView>)
    requires
        forall|i: int| 0 <= i < content.len() ==> is_plain(#[trigger] content[i]),
    ensures
        crate::to_server::message_to_server(
            message::MessageView::User { content },
        ) matches Ok(sent) && sent.len() == 1 && crate::to_chat::message_to_chat(sent[0]) == Ok::<
            message::MessageView,
            Seq<char>,
        >(message::MessageView::User { content }),
{
    let convert = |part: message::UserContentView| crate::to_server::user_content_to_server(part);
    let sent = content.map_values(
        |part: message::UserContentView| crate::to_server::user_content_to_server(part)->Ok_0,
    );
    assert forall|i: int| 0 <= i < content.len() implies convert(content[i]) == Ok::<
        UserContentView,
        Seq<char>,
    >(#[trigger] sent[i]) by {
        assert(is_plain(content[i]));
    }
    crate::outcome::lemma_try_each_ok(content, convert, sent);
    assert forall|i: int| 0 <= i < content.len() implies (match #[trigger] content[i] {
        message::UserContentView::ToolResult(result) => Some(result),
        _ => None,
    }) is None by {
        assert(is_plain(content[i]));
    }
    crate::lists::lemma_filter_map_drops(
        content,
        |part: message::UserContentView|
            match part {
                message::UserContentView::ToolResult(result) => Some(result),
                _ => None,
            },
    );
    let back = sent.map_values(|part: UserContentView| crate::to_chat::user_content_to_chat(part));
    assert forall|i: int| 0 <= i < content.len() implies #[trigger] back[i] == content[i] by {
        assert(is_plain(content[i]));
        assert(convert(content[i]) == Ok::<UserContentView, Seq<char>>(sent[i]));
    }
    assert(back == content);
}

/// A user message without tool results is sent as one message, of as many parts, in their order,
/// and only if every part can be sent.
pub proof fn user_message_is_sent_part_by_part(content: Seq<message::UserContentView>)
    requires
        forall|i: int| 0 <= i < content.len() ==> !((#[trigger] content[i]) is ToolResult),
    ensures
        match crate::to_server::message_to_server(message::MessageView::User { content }) {
            Ok(sent) => {
                &&& sent.len() == 1
                &&& sent[0] matches MessageView::User { content: parts, name: None }
                &&& parts.len() == content.len()
                &&& forall|i: int|
                    0 <= i < content.len() ==> crate::to_server::user_content_to_server(content[i])
                        == Ok::<UserContentView, Seq<char>>(#[trigger] parts[i])
            },
            Err(error) => exists|i: int|
                {
                    &&& 0 <= i < content.len()
                    &&& crate::to_server::user_content_to_server(#[trigger] content[i]) == Err::<
                        UserContentView,
                        Seq<char>,
                    >(error)
                },
        },
{
    let convert = |part: message::UserContentView| crate::to_server::user_content_to_server(part);
    crate::lists::lemma_filter_map_drops(
        content,
        |part: message::UserContentView|
            match part {
                message::UserContentView::ToolResult(result) => Some(result),
                _ => None,
            },
    );
    if crate::outcome::try_each(content, convert) is Ok {
        crate::outcome::lemma_try_each_values(content, convert);
    } else {
        let at = crate::outcome::lemma_try_each_fails_somewhere(content, convert);
        assert(crate::to_server::user_content_to_server(content[at]) == Err::<
            UserContentView,
            Seq<char>,
        >(crate::outcome::try_each(content, convert)->Err_0));
    }
}

/// Where a user message holds tool results, nothing else of it counts.
pub proof fn tool_results_displace_the_rest(
    content: Seq<message::UserContentView>,
    other: Seq<message::UserContentView>,
)
    requires
        crate::to_server::tool_results(content).len() > 0,
        crate::to_server::tool_results(other) == crate::to_server::tool_results(content),
    ensures
        crate::to_server::message_to_server(message::MessageView::User { content: other })
            == crate::to_server::message_to_server(message::MessageView::User { content }),
{
}

/// Each tool result of a user message is sent as a message of its own, for the call with its id
/// and in its order, and text of it arrives as it is.
pub proof fn tool_results_are_sent_one_by_one(content: Seq<message::UserContentView>)
    requires
        crate::to_server::tool_results(content).len() > 0,
        crate::to_server::message_to_server(message::MessageView::User { content }) is Ok,
    ensures
        ({
            let results = crate::to_server::tool_results(content);
            let sent = crate::to_server::message_to_server(
                message::MessageView::User { content },
            )->Ok_0;
            &&& sent.len() == results.len()
            &&& forall|i: int|
                0 <= i < results.len() ==> {
                    &&& (#[trigger] sent[i]) is ToolResult
                    &&& sent[i]->tool_call_id == results[i].id
                    &&& crate::to_chat::message_to_chat(sent[i]) == Ok::<
                        message::MessageView,
                        Seq<char>,
                    >(
                        message::MessageView::User {
                            content: seq![
                                message::UserContentView::ToolResult(
                                    message::ToolResultView { call_id: None, ..results[i] },
                                ),
                            ],
                        },
                    )
                }
        }),
{
    let results = crate::to_server::tool_results(content);
    let convert = |result: message::ToolResultView|
        crate::to_server::tool_result_to_server(result);
    crate::outcome::lemma_try_each_values(results, convert);
    let sent = crate::outcome::try_each(results, convert)->Ok_0;
    assert forall|i: int| 0 <= i < results.len() implies {
        &&& (#[trigger] sent[i]) is ToolResult
        &&& sent[i]->tool_call_id == results[i].id
        &&& crate::to_chat::message_to_chat(sent[i]) == Ok::<message::MessageView, Seq<char>>(
            message::MessageView::User {
                content: seq![
                    message::UserContentView::ToolResult(
                        message::ToolResultView { call_id: None, ..results[i] },
                    ),
                ],
            },
        )
    } by {
        assert(convert(results[i]) == Ok::<MessageView, Seq<char>>(sent[i]));
        let parts = results[i].content;
        let g = |content: message::ToolResultContentView|
            crate::to_server::tool_result_content_to_server(content);
        crate::outcome::lemma_try_each_values(parts, g);
        let written = crate::outcome::try_each(parts, g)->Ok_0;
        let back = written.map_values(
            |part: ToolResultContentView| message::ToolResultContentView::Text(part.text),
        );
        assert forall|j: int| 0 <= j < parts.len() implies #[trigger] back[j] == parts[j] by {
            assert(g(parts[j]) == Ok::<ToolResultContentView, Seq<char>>(written[j]));
        }
        assert(back == parts);
    }
}

} // verus!
