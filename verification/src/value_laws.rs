//! Laws of the values that messages are made of: how they are made and copied.
use crate::completion::{
    AssistantContent, Function, ImageUrl, InputAudio, Message, SystemContent, ToolCall, ToolChoice,
    ToolResultContent, UserContent,
};
use crate::message;
use crate::message::{AudioMediaType, DocumentSourceKind, ImageDetail, ImageMediaType};
use crate::one_or_many::{EmptyListError, OneOrMany};
use crate::response::Choice;
use crate::streaming::PendingToolCall;
use vstd::prelude::*;

verus! {

/// A list of one or many items holds them in their order, and an empty one is refused.
pub proof fn list_holds_its_items<T>(
    item: T,
    one: OneOrMany<T>,
    items: Vec<T>,
    many: Result<OneOrMany<T>, EmptyListError>,
)
    requires
        call_ensures(OneOrMany::<T>::one, (item,), one),
        call_ensures(OneOrMany::<T>::many, (items,), many),
    ensures
        one.first == item && one.rest@.len() == 0,
        items@.len() == 0 ==> many is Err,
        items@.len() > 0 ==> many is Ok && many->Ok_0.first == items@[0] && many->Ok_0.rest@
            == items@.skip(1),
{
    assert(one@.len() == 1);
    assert(one@[0] == item);
    if items@.len() > 0 {
        let list = many->Ok_0;
        assert(list@[0] == list.first);
        assert(list.rest@ =~= list@.skip(1));
    }
}

/// A list gives its first item, and all of them in their order.
pub proof fn list_gives_its_items<T>(list: OneOrMany<T>, first: &T, items: Vec<T>)
    requires
        call_ensures(OneOrMany::<T>::first, (&list,), first),
        call_ensures(OneOrMany::<T>::into_vec, (list,), items),
    ensures
        *first == list.first,
        items@.len() == 1 + list.rest@.len(),
        items@[0] == list.first,
        items@.skip(1) == list.rest@,
{
    assert(items@.skip(1) =~= list.rest@);
}

/// A list is mapped item by item.
pub proof fn list_is_mapped_item_by_item<T, U, F: Fn(T) -> U>(
    list: OneOrMany<T>,
    f: F,
    mapped: OneOrMany<U>,
)
    requires
        call_ensures(OneOrMany::<T>::map::<U, F>, (list, f), mapped),
    ensures
        call_ensures(f, (list.first,), mapped.first),
        mapped.rest@.len() == list.rest@.len(),
        forall|i: int|
            0 <= i < list.rest@.len() ==> call_ensures(
                f,
                (list.rest@[i],),
                #[trigger] mapped.rest@[i],
            ),
{
    assert(mapped@[0] == mapped.first);
    assert(mapped@.len() == list@.len());
    assert forall|i: int| 0 <= i < list.rest@.len() implies call_ensures(
        f,
        (list.rest@[i],),
        #[trigger] mapped.rest@[i],
    ) by {
        assert(mapped@[i + 1] == mapped.rest@[i]);
        assert(list@[i + 1] == list.rest@[i]);
    }
}

/// A list is copied item by item.
pub proof fn list_is_copied_item_by_item<T: Clone>(list: OneOrMany<T>, copy: OneOrMany<T>)
    requires
        call_ensures(<OneOrMany<T> as Clone>::clone, (&list,), copy),
    ensures
        cloned::<T>(list.first, copy.first),
        copy.rest@.len() == list.rest@.len(),
        forall|i: int|
            0 <= i < list.rest@.len() ==> cloned::<T>(list.rest@[i], #[trigger] copy.rest@[i]),
{
    assert(copy@[0] == copy.first);
    assert(copy@.len() == list@.len());
    assert forall|i: int| 0 <= i < list.rest@.len() implies cloned::<T>(
        list.rest@[i],
        #[trigger] copy.rest@[i],
    ) by {
        assert(copy@[i + 1] == copy.rest@[i]);
        assert(list@[i + 1] == list.rest@[i]);
    }
}

/// Content that is made of text holds that text.
pub proof fn content_holds_its_text(
    text: String,
    user: UserContent,
    assistant: AssistantContent,
    system: SystemContent,
    result: ToolResultContent,
)
    requires
        call_ensures(<UserContent as From<String>>::from, (text,), user),
        call_ensures(<AssistantContent as From<String>>::from, (text,), assistant),
        call_ensures(<SystemContent as From<String>>::from, (text,), system),
        call_ensures(<ToolResultContent as From<String>>::from, (text,), result),
    ensures
        user is Text && user->text@ == text@,
        assistant is Text && assistant->text@ == text@,
        system.text@ == text@,
        result.text@ == text@,
{
}

/// Unless told otherwise, an image is looked at as the server likes, and tools are used so.
pub proof fn server_decides_by_default(detail: ImageDetail, choice: ToolChoice)
    requires
        call_ensures(<ImageDetail as Default>::default, (), detail),
        call_ensures(<ToolChoice as Default>::default, (), choice),
    ensures
        detail is Auto,
        choice is Auto,
{
}

/// The parts of a message that an application makes hold what they are made of.
pub proof fn user_parts_hold_what_they_are_made_of(
    text: String,
    words: message::UserContent,
    url: String,
    media_type: Option<ImageMediaType>,
    detail: Option<ImageDetail>,
    picture: message::UserContent,
    data: String,
    format: Option<AudioMediaType>,
    sound: message::UserContent,
    id: String,
    content: OneOrMany<message::ToolResultContent>,
    result: message::UserContent,
    part: message::ToolResultContent,
)
    requires
        call_ensures(message::UserContent::text, (text,), words),
        call_ensures(message::UserContent::image_url, (url, media_type, detail), picture),
        call_ensures(message::UserContent::audio, (data, format), sound),
        call_ensures(message::UserContent::tool_result, (id, content), result),
        call_ensures(message::ToolResultContent::text, (text,), part),
    ensures
        words matches message::UserContent::Text(given) && given.text@ == text@,
        picture is Image,
        picture->Image_0.data matches DocumentSourceKind::Url(given) && given@ == url@,
        picture->Image_0.media_type == media_type,
        picture->Image_0.detail == detail,
        sound is Audio,
        sound->Audio_0.data matches DocumentSourceKind::Base64(given) && given@ == data@,
        sound->Audio_0.media_type == format,
        result is ToolResult,
        result->ToolResult_0.id@ == id@,
        result->ToolResult_0.call_id is None,
        result->ToolResult_0.content.deep_view() == content.deep_view(),
        part matches message::ToolResultContent::Text(given) && given.text@ == text@,
{
}

/// The parts of an assistant message that an application makes hold what they are made of.
pub proof fn assistant_parts_hold_what_they_are_made_of(
    text: String,
    words: message::AssistantContent,
    id: String,
    name: String,
    arguments: serde_json::Value,
    call: message::AssistantContent,
    thought: &str,
    reasoning: message::Reasoning,
)
    requires
        call_ensures(message::AssistantContent::text, (text,), words),
        call_ensures(message::AssistantContent::tool_call, (id, name, arguments), call),
        call_ensures(message::Reasoning::new, (thought,), reasoning),
    ensures
        words matches message::AssistantContent::Text(given) && given.text@ == text@,
        call is ToolCall,
        call->ToolCall_0.id@ == id@,
        call->ToolCall_0.call_id is None,
        call->ToolCall_0.function.name@ == name@,
        call->ToolCall_0.function.arguments == arguments,
        reasoning.id is None,
        reasoning.reasoning@.len() == 1,
        reasoning.reasoning@[0]@ == thought@,
{
    assert(reasoning.reasoning.deep_view().len() == reasoning.reasoning@.len());
    assert(reasoning.reasoning.deep_view()[0] == reasoning.reasoning@[0]@);
}

/// Two optional texts are the same.
pub open spec fn same_text(a: Option<String>, b: Option<String>) -> bool {
    match (a, b) {
        (Some(a), Some(b)) => a@ == b@,
        (None, None) => true,
        _ => false,
    }
}

/// Two tool calls are the same.
pub open spec fn same_call(a: ToolCall, b: ToolCall) -> bool {
    &&& a.id@ == b.id@
    &&& a.kind == b.kind
    &&& a.function.name@ == b.function.name@
    &&& a.function.arguments == b.function.arguments
}

/// Two parts of a user message are the same.
pub open spec fn same_user_part(a: UserContent, b: UserContent) -> bool {
    match (a, b) {
        (UserContent::Text { text: a }, UserContent::Text { text: b }) => a@ == b@,
        (UserContent::Image { image_url: a }, UserContent::Image { image_url: b }) => a.url@
            == b.url@ && a.detail == b.detail,
        (UserContent::Audio { input_audio: a }, UserContent::Audio { input_audio: b }) => a.data@
            == b.data@ && a.format == b.format,
        _ => false,
    }
}

/// Two parts of an assistant message are the same.
pub open spec fn same_assistant_part(a: AssistantContent, b: AssistantContent) -> bool {
    match (a, b) {
        (AssistantContent::Text { text: a }, AssistantContent::Text { text: b }) => a@ == b@,
        (
            AssistantContent::Refusal { refusal: a },
            AssistantContent::Refusal { refusal: b },
        ) => a@ == b@,
        (
            AssistantContent::Reasoning { reasoning: a },
            AssistantContent::Reasoning { reasoning: b },
        ) => a@ == b@,
        _ => false,
    }
}

/// Two messages are the same in every part of them.
pub open spec fn same_message(a: Message, b: Message) -> bool {
    match (a, b) {
        (
            Message::System { content: a, name: a_name },
            Message::System { content: b, name: b_name },
        ) => {
            &&& same_text(a_name, b_name)
            &&& a@.len() == b@.len()
            &&& forall|i: int|
                #![trigger a@[i]]
                0 <= i < a@.len() ==> a@[i].kind == b@[i].kind && a@[i].text@ == b@[i].text@
        },
        (Message::User { content: a, name: a_name }, Message::User { content: b, name: b_name }) => {
            &&& same_text(a_name, b_name)
            &&& a@.len() == b@.len()
            &&& forall|i: int|
                #![trigger a@[i]]
                0 <= i < a@.len() ==> same_user_part(a@[i], b@[i])
        },
        (
            Message::Assistant {
                content: a,
                refusal: a_refusal,
                reasoning: a_reasoning,
                name: a_name,
                tool_calls: a_calls,
            },
            Message::Assistant {
                content: b,
                refusal: b_refusal,
                reasoning: b_reasoning,
                name: b_name,
                tool_calls: b_calls,
            },
        ) => {
            &&& same_text(a_refusal, b_refusal)
            &&& same_text(a_reasoning, b_reasoning)
            &&& same_text(a_name, b_name)
            &&& a@.len() == b@.len()
            &&& forall|i: int|
                #![trigger a@[i]]
                0 <= i < a@.len() ==> same_assistant_part(a@[i], b@[i])
            &&& a_calls@.len() == b_calls@.len()
            &&& forall|i: int|
                #![trigger a_calls@[i]]
                0 <= i < a_calls@.len() ==> same_call(a_calls@[i], b_calls@[i])
        },
        (
            Message::ToolResult { tool_call_id: a_id, content: a },
            Message::ToolResult { tool_call_id: b_id, content: b },
        ) => {
            &&& a_id@ == b_id@
            &&& a@.len() == b@.len()
            &&& forall|i: int|
                #![trigger a@[i]]
                0 <= i < a@.len() ==> a@[i].kind == b@[i].kind && a@[i].text@ == b@[i].text@
        },
        _ => false,
    }
}

/// Messages that have the same model are the same: the model of a message leaves nothing out.
pub proof fn model_of_a_message_leaves_nothing_out(a: Message, b: Message)
    requires
        a.deep_view() == b.deep_view(),
    ensures
        same_message(a, b),
{
    match (a, b) {
        (Message::System { content: x, name: _ }, Message::System { content: y, name: _ }) => {
            assert(x.deep_view().len() == x@.len());
            assert(y.deep_view().len() == y@.len());
            assert forall|i: int| #![trigger x@[i]] 0 <= i < x@.len() implies x@[i].kind == y@[i].kind
                && x@[i].text@ == y@[i].text@ by {
                assert(x.deep_view()[i] == x@[i].deep_view());
                assert(y.deep_view()[i] == y@[i].deep_view());
            }
        },
        (Message::User { content: x, name: _ }, Message::User { content: y, name: _ }) => {
            assert(x.deep_view().len() == x@.len());
            assert(y.deep_view().len() == y@.len());
            assert forall|i: int| #![trigger x@[i]] 0 <= i < x@.len() implies same_user_part(
                x@[i],
                y@[i],
            ) by {
                assert(x.deep_view()[i] == x@[i].deep_view());
                assert(y.deep_view()[i] == y@[i].deep_view());
            }
        },
        (
            Message::Assistant { content: x, tool_calls: x_calls, .. },
            Message::Assistant { content: y, tool_calls: y_calls, .. },
        ) => {
            assert(x.deep_view().len() == x@.len());
            assert(y.deep_view().len() == y@.len());
            assert(x_calls.deep_view().len() == x_calls@.len());
            assert(y_calls.deep_view().len() == y_calls@.len());
            assert forall|i: int| #![trigger x@[i]] 0 <= i < x@.len() implies same_assistant_part(
                x@[i],
                y@[i],
            ) by {
                assert(x.deep_view()[i] == x@[i].deep_view());
                assert(y.deep_view()[i] == y@[i].deep_view());
            }
            assert forall|i: int| #![trigger x_calls@[i]] 0 <= i < x_calls@.len() implies same_call(
                x_calls@[i],
                y_calls@[i],
            ) by {
                assert(x_calls.deep_view()[i] == x_calls@[i].deep_view());
                assert(y_calls.deep_view()[i] == y_calls@[i].deep_view());
            }
        },
        (
            Message::ToolResult { tool_call_id: _, content: x },
            Message::ToolResult { tool_call_id: _, content: y },
        ) => {
            assert(x.deep_view().len() == x@.len());
            assert(y.deep_view().len() == y@.len());
            assert forall|i: int| #![trigger x@[i]] 0 <= i < x@.len() implies x@[i].kind == y@[i].kind
                && x@[i].text@ == y@[i].text@ by {
                assert(x.deep_view()[i] == x@[i].deep_view());
                assert(y.deep_view()[i] == y@[i].deep_view());
            }
        },
        _ => {},
    }
}

/// A copy of a message is the same in every part of it.
pub proof fn copy_of_a_message_is_the_same(message: Message, copy: Message)
    requires
        call_ensures(<Message as Clone>::clone, (&message,), copy),
    ensures
        same_message(copy, message),
{
    model_of_a_message_leaves_nothing_out(copy, message);
}

/// Copies of the parts of messages are the same in all that they hold.
pub proof fn copies_of_parts_are_the_same(
    system: SystemContent,
    system_copy: SystemContent,
    user: UserContent,
    user_copy: UserContent,
    assistant: AssistantContent,
    assistant_copy: AssistantContent,
    result: ToolResultContent,
    result_copy: ToolResultContent,
    call: ToolCall,
    call_copy: ToolCall,
)
    requires
        call_ensures(<SystemContent as Clone>::clone, (&system,), system_copy),
        call_ensures(<UserContent as Clone>::clone, (&user,), user_copy),
        call_ensures(<AssistantContent as Clone>::clone, (&assistant,), assistant_copy),
        call_ensures(<ToolResultContent as Clone>::clone, (&result,), result_copy),
        call_ensures(<ToolCall as Clone>::clone, (&call,), call_copy),
    ensures
        system_copy.text@ == system.text@,
        same_user_part(user_copy, user),
        same_assistant_part(assistant_copy, assistant),
        result_copy.text@ == result.text@,
        same_call(call_copy, call),
{
}

/// Copies of what parts of messages hold, of answers and of calls are the same.
pub proof fn copies_of_what_parts_hold_are_the_same(
    url: ImageUrl,
    url_copy: ImageUrl,
    audio: InputAudio,
    audio_copy: InputAudio,
    function: Function,
    function_copy: Function,
    answer: Choice,
    answer_copy: Choice,
    call: PendingToolCall,
    call_copy: PendingToolCall,
)
    requires
        call_ensures(<ImageUrl as Clone>::clone, (&url,), url_copy),
        call_ensures(<InputAudio as Clone>::clone, (&audio,), audio_copy),
        call_ensures(<Function as Clone>::clone, (&function,), function_copy),
        call_ensures(<Choice as Clone>::clone, (&answer,), answer_copy),
        call_ensures(<PendingToolCall as Clone>::clone, (&call,), call_copy),
    ensures
        url_copy.url@ == url.url@ && url_copy.detail == url.detail,
        audio_copy.data@ == audio.data@ && audio_copy.format == audio.format,
        function_copy.name@ == function.name@ && function_copy.arguments == function.arguments,
        answer_copy.index == answer.index,
        answer_copy.finish_reason@ == answer.finish_reason@,
        answer_copy.logprobs == answer.logprobs,
        same_message(answer_copy.message, answer.message),
        call_copy.id@ == call.id@,
        call_copy.name@ == call.name@,
        call_copy.arguments@ == call.arguments@,
{
    model_of_a_message_leaves_nothing_out(answer_copy.message, answer.message);
}

} // verus!
