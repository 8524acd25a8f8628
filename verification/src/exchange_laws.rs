//! Laws of requests and replies.
use crate::api;
use crate::completion::{AssistantContentView, MessageView};
use crate::message;
use crate::response::{ChoiceView, Usage};
use vstd::prelude::*;

verus! {

/// No message of an application becomes a system message of the server, and none becomes nothing.
proof fn lemma_sent_messages(message: message::MessageView)
    requires
        crate::to_server::message_to_server(message) is Ok,
    ensures
        crate::to_server::message_to_server(message)->Ok_0.len() > 0,
        forall|i: int|
            0 <= i < crate::to_server::message_to_server(message)->Ok_0.len() ==> !((
            #[trigger] crate::to_server::message_to_server(message)->Ok_0[i]) is System),
{
    if let message::MessageView::User { content } = message {
        let results = crate::to_server::tool_results(content);
        if results.len() > 0 {
            let convert = |result: message::ToolResultView|
                crate::to_server::tool_result_to_server(result);
            crate::outcome::lemma_try_each_values(results, convert);
            let sent = crate::outcome::try_each(results, convert)->Ok_0;
            assert forall|i: int| 0 <= i < sent.len() implies !((#[trigger] sent[i]) is System) by {
                assert(convert(results[i]) == Ok::<MessageView, Seq<char>>(sent[i]));
            }
        }
    }
}

/// What no item of any list is, no item of all of them together is.
proof fn lemma_flatten_without_system(lists: Seq<Seq<MessageView>>)
    requires
        forall|i: int, j: int|
            0 <= i < lists.len() && 0 <= j < lists[i].len() ==> !((#[trigger] lists[i][j])
                is System),
    ensures
        forall|k: int| 0 <= k < lists.flatten().len() ==> !((#[trigger] lists.flatten()[k]) is System),
    decreases lists.len(),
{
    if lists.len() > 0 {
        let rest = lists.drop_first();
        assert forall|i: int, j: int|
            0 <= i < rest.len() && 0 <= j < rest[i].len() implies !((#[trigger] rest[i][j])
            is System) by {
            assert(rest[i] == lists[i + 1]);
            assert(!(lists[i + 1][j] is System));
        }
        lemma_flatten_without_system(rest);
        let all = lists.flatten();
        assert(all == lists[0] + rest.flatten());
        assert forall|k: int| 0 <= k < all.len() implies !((#[trigger] all[k]) is System) by {
            if k < lists[0].len() {
                assert(all[k] == lists[0][k]);
            } else {
                assert(all[k] == rest.flatten()[k - lists[0].len()]);
            }
        }
    }
}

/// Lists that each hold something hold at least as many items as there are lists.
proof fn lemma_flatten_is_no_shorter(lists: Seq<Seq<MessageView>>)
    requires
        forall|i: int| 0 <= i < lists.len() ==> (#[trigger] lists[i]).len() > 0,
    ensures
        lists.flatten().len() >= lists.len(),
    decreases lists.len(),
{
    if lists.len() > 0 {
        let rest = lists.drop_first();
        assert forall|i: int| 0 <= i < rest.len() implies (#[trigger] rest[i]).len() > 0 by {
            assert(rest[i] == lists[i + 1]);
        }
        lemma_flatten_is_no_shorter(rest);
        assert(lists[0].len() > 0);
    }
}

proof fn lemma_sent_history(messages: Seq<message::MessageView>)
    requires
        crate::request::history_to_server(messages) is Ok,
    ensures
        ({
            let lists = crate::request::history_to_server(messages)->Ok_0;
            &&& lists.len() == messages.len()
            &&& lists.flatten().len() >= messages.len()
            &&& forall|k: int|
                0 <= k < lists.flatten().len() ==> !((#[trigger] lists.flatten()[k]) is System)
            &&& forall|i: int|
                0 <= i < messages.len() ==> crate::to_server::message_to_server(messages[i])
                    == Ok::<Seq<MessageView>, Seq<char>>(#[trigger] lists[i])
        }),
{
    let f = |message: message::MessageView| crate::to_server::message_to_server(message);
    crate::outcome::lemma_try_each_values(messages, f);
    let lists = crate::outcome::try_each(messages, f)->Ok_0;
    assert forall|i: int, j: int| 0 <= i < lists.len() && 0 <= j < lists[i].len() implies !((
    #[trigger] lists[i][j]) is System) by {
        assert(f(messages[i]) == Ok::<Seq<MessageView>, Seq<char>>(lists[i]));
        lemma_sent_messages(messages[i]);
    }
    assert forall|i: int| 0 <= i < lists.len() implies (#[trigger] lists[i]).len() > 0 by {
        assert(f(messages[i]) == Ok::<Seq<MessageView>, Seq<char>>(lists[i]));
        lemma_sent_messages(messages[i]);
    }
    lemma_flatten_without_system(lists);
    lemma_flatten_is_no_shorter(lists);
}

/// The system prompt of a request is its preamble, and it has none without one.
pub proof fn preamble_is_the_system_prompt<F>(request: api::CompletionRequest<F>)
    requires
        crate::request::requested_messages(request) is Ok,
    ensures
        crate::request::system_prompt(crate::request::requested_messages(request)->Ok_0)
            == request.preamble.deep_view(),
{
    let messages = crate::request::history(
        request.documents.deep_view(),
        request.chat_history.deep_view(),
    );
    lemma_sent_history(messages);
}

/// Every message of a conversation is sent, after the preamble and the documents.
pub proof fn every_message_is_sent<F>(request: api::CompletionRequest<F>)
    requires
        crate::request::requested_messages(request) is Ok,
    ensures
        crate::request::requested_messages(request)->Ok_0.len() >= crate::request::opening(
            request.preamble.deep_view(),
        ).len() + crate::request::history(
            request.documents.deep_view(),
            request.chat_history.deep_view(),
        ).len(),
{
    lemma_sent_history(
        crate::request::history(request.documents.deep_view(), request.chat_history.deep_view()),
    );
}

/// A message that a conversation goes on with is sent after those before it, which are sent as
/// before.
pub proof fn conversation_goes_on_at_the_end(
    messages: Seq<message::MessageView>,
    next: message::MessageView,
)
    requires
        crate::request::history_to_server(messages) is Ok,
        crate::to_server::message_to_server(next) is Ok,
    ensures
        crate::request::history_to_server(messages.push(next)) is Ok,
        crate::request::history_to_server(messages.push(next))->Ok_0.flatten()
            == crate::request::history_to_server(messages)->Ok_0.flatten()
            + crate::to_server::message_to_server(next)->Ok_0,
{
    let lists = crate::request::history_to_server(messages)->Ok_0;
    let sent = crate::to_server::message_to_server(next)->Ok_0;
    assert(messages.push(next).drop_last() == messages);
    lists.lemma_flatten_push(sent);
}

/// A message that cannot be sent stops the whole request, for the reason that it gives.
pub proof fn first_bad_message_stops_the_request<F>(request: api::CompletionRequest<F>, at: int)
    requires
        ({
            let messages = crate::request::history(
                request.documents.deep_view(),
                request.chat_history.deep_view(),
            );
            &&& 0 <= at < messages.len()
            &&& crate::to_server::message_to_server(messages[at]) is Err
            &&& forall|i: int|
                0 <= i < at ==> crate::to_server::message_to_server(#[trigger] messages[i]) is Ok
        }),
    ensures
        crate::request::requested_messages(request) == Err::<Seq<MessageView>, Seq<char>>(
            crate::to_server::message_to_server(
                crate::request::history(
                    request.documents.deep_view(),
                    request.chat_history.deep_view(),
                )[at],
            )->Err_0,
        ),
{
    let messages = crate::request::history(
        request.documents.deep_view(),
        request.chat_history.deep_view(),
    );
    let f = |message: message::MessageView| crate::to_server::message_to_server(message);
    crate::outcome::lemma_try_each_err(
        messages,
        f,
        at,
        crate::to_server::message_to_server(messages[at])->Err_0,
    );
}

/// The text that a message asks with, if it does: a user message asks with the text or the base
/// 64 document that it starts with, unless it holds tool results.
pub open spec fn asked_text(message: message::MessageView) -> Option<Seq<char>> {
    match message {
        message::MessageView::User { content } => if crate::to_server::tool_results(content).len()
            > 0 {
            None
        } else {
            match content[0] {
                message::UserContentView::Text(text) => Some(text),
                message::UserContentView::Document(document) => match document.data {
                    message::DocumentSourceView::Base64(text) => Some(text),
                    _ => None,
                },
                _ => None,
            }
        },
        message::MessageView::Assistant { id: _, content: _ } => None,
    }
}

/// The last message that a message of an application is sent as has the text that it asks with,
/// if it does, and else none.
proof fn lemma_last_sent_text(message: message::MessageView)
    requires
        crate::to_server::message_to_server(message) is Ok,
        message matches message::MessageView::User { content } ==> content.len() > 0,
    ensures
        crate::completion::user_text(
            crate::to_server::message_to_server(message)->Ok_0.last(),
        ) == asked_text(message),
{
    let sent = crate::to_server::message_to_server(message)->Ok_0;
    if let message::MessageView::User { content } = message {
        let results = crate::to_server::tool_results(content);
        if results.len() > 0 {
            let convert = |result: message::ToolResultView|
                crate::to_server::tool_result_to_server(result);
            crate::outcome::lemma_try_each_values(results, convert);
            assert(convert(results.last()) == Ok::<MessageView, Seq<char>>(
                sent[results.len() - 1],
            ));
        } else {
            let convert = |part: message::UserContentView|
                crate::to_server::user_content_to_server(part);
            crate::outcome::lemma_try_each_values(content, convert);
            let parts = crate::outcome::try_each(content, convert)->Ok_0;
            assert(convert(content[0]) == Ok::<crate::completion::UserContentView, Seq<char>>(
                parts[0],
            ));
            assert(sent == seq![MessageView::User { content: parts, name: None }]);
        }
    }
}

/// The prompt of a request is the text that the last message of the conversation asks with. The
/// request has a prompt just where that message asks with a text.
pub proof fn last_text_is_the_prompt<F>(request: api::CompletionRequest<F>)
    requires
        crate::request::requested_messages(request) is Ok,
    ensures
        crate::request::prompt(crate::request::requested_messages(request)->Ok_0) == asked_text(
            request.chat_history.deep_view().last(),
        ),
{
    let messages = crate::request::history(
        request.documents.deep_view(),
        request.chat_history.deep_view(),
    );
    lemma_sent_history(messages);
    let lists = crate::request::history_to_server(messages)->Ok_0;
    let last = messages.len() - 1;
    assert(messages.last() == request.chat_history.deep_view().last());
    assert(crate::to_server::message_to_server(messages[last]) == Ok::<
        Seq<MessageView>,
        Seq<char>,
    >(lists[last]));
    lemma_sent_messages(messages[last]);
    lemma_last_sent_text(messages[last]);
    lists.drop_last().lemma_flatten_push(lists.last());
    assert(lists.drop_last().push(lists.last()) == lists);
    let sent = crate::request::requested_messages(request)->Ok_0;
    assert(sent.last() == lists[last].last());
}

/// The tokens that are counted as input and as output are all of them.
pub proof fn tokens_add_up(usage: Usage)
    requires
        crate::response::is_consistent_usage(usage),
    ensures
        ({
            let counted = crate::response::usage_to_chat(usage);
            counted.input_tokens + counted.output_tokens == counted.total_tokens
        }),
{
}

/// Only the first answer of a reply counts.
pub proof fn only_the_first_answer_counts(choices: Seq<ChoiceView>)
    requires
        choices.len() > 0,
    ensures
        crate::response::reply_content(choices) == crate::response::reply_content(seq![choices[0]]),
{
}

/// What is kept of an answer's content is text that is not empty.
proof fn lemma_words_are_not_empty(content: Seq<AssistantContentView>)
    ensures
        forall|i: int|
            0 <= i < crate::response::spoken_parts(content).len() ==> ((
            #[trigger] crate::response::spoken_parts(content)[i]) matches
                message::AssistantContentView::Text(text) && text.len() > 0),
    decreases content.len(),
{
    if content.len() > 0 {
        lemma_words_are_not_empty(content.drop_last());
    }
}

/// A reply that is accepted says something, and no text in it is empty.
pub proof fn accepted_reply_is_not_empty(choices: Seq<ChoiceView>)
    requires
        crate::response::reply_content(choices) is Ok,
    ensures
        ({
            let parts = crate::response::reply_content(choices)->Ok_0;
            &&& parts.len() > 0
            &&& forall|i: int|
                0 <= i < parts.len() ==> (#[trigger] parts[i] matches
                    message::AssistantContentView::Text(text) ==> text.len() > 0)
        }),
{
    if let MessageView::Assistant { content, refusal, reasoning, name, tool_calls } =
        choices[0].message {
        lemma_words_are_not_empty(content);
        let words = crate::response::spoken_parts(content);
        let parts = crate::response::reply_content(choices)->Ok_0;
        assert forall|i: int| 0 <= i < parts.len() implies (#[trigger] parts[i] matches
            message::AssistantContentView::Text(text) ==> text.len() > 0) by {
            if i < words.len() {
                assert(parts[i] == words[i]);
            }
        }
    }
}

} // verus!
