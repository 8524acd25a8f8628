//! Laws of what the messages of a server are received as, part by part.
use crate::completion::{
    AssistantContent, Message, SystemContent, ToolCall, ToolResultContent, UserContent,
};
use crate::message;
use crate::message::{DocumentSourceKind, MessageError};
use crate::one_or_many::OneOrMany;
use vstd::prelude::*;

verus! {

/// `part` is received as `received`: text as the same text, an image as the image at its URL, and
/// audio as the same data in its format.
pub open spec fn is_received_user_part(part: UserContent, received: message::UserContent) -> bool {
    match part {
        UserContent::Text { text } => received matches message::UserContent::Text(given)
            && given.text@ == text@,
        UserContent::Image { image_url } => {
            &&& received matches message::UserContent::Image(image)
            &&& image.data matches DocumentSourceKind::Url(url)
            &&& url@ == image_url.url@
            &&& image.detail == Some(image_url.detail)
            &&& image.media_type is None
            &&& image.additional_params is None
        },
        UserContent::Audio { input_audio } => {
            &&& received matches message::UserContent::Audio(audio)
            &&& audio.data matches DocumentSourceKind::Base64(data)
            &&& data@ == input_audio.data@
            &&& audio.media_type == Some(input_audio.format)
            &&& audio.additional_params is None
        },
    }
}

/// `received` is reasoning of one step, which holds `text`.
pub open spec fn is_one_thought(received: message::AssistantContent, text: Seq<char>) -> bool {
    &&& received matches message::AssistantContent::Reasoning(steps)
    &&& steps.id is None
    &&& steps.reasoning@.len() == 1
    &&& steps.reasoning@[0]@ == text
}

/// `part` is received as `received`: a text or a refusal as text, and reasoning as one step.
pub open spec fn is_received_assistant_part(
    part: AssistantContent,
    received: message::AssistantContent,
) -> bool {
    match part {
        AssistantContent::Text { text } => received matches message::AssistantContent::Text(given)
            && given.text@ == text@,
        AssistantContent::Refusal { refusal } => {
            &&& received matches message::AssistantContent::Text(given)
            &&& given.text@ == refusal@
        },
        AssistantContent::Reasoning { reasoning } => is_one_thought(received, reasoning@),
    }
}

/// `call` is received as `received`, with its id, name and arguments.
pub open spec fn is_received_call(call: ToolCall, received: message::ToolCall) -> bool {
    &&& received.id@ == call.id@
    &&& received.call_id is None
    &&& received.function.name@ == call.function.name@
    &&& received.function.arguments == call.function.arguments
}

/// `call` is received as the part `received` of an assistant message.
pub open spec fn is_received_call_part(
    call: ToolCall,
    received: message::AssistantContent,
) -> bool {
    received matches message::AssistantContent::ToolCall(given) && is_received_call(call, given)
}

/// What is modelled as reasoning of one step is reasoning of one step.
pub proof fn lemma_one_thought(received: message::AssistantContent, text: Seq<char>)
    requires
        received.deep_view() == message::AssistantContentView::Reasoning(
            message::single_step(text),
        ),
    ensures
        is_one_thought(received, text),
{
    let steps = received->Reasoning_0;
    assert(steps.reasoning.deep_view().len() == steps.reasoning@.len());
    assert(steps.reasoning.deep_view()[0] == steps.reasoning@[0]@);
}

/// A part of a user message of the server is received with all that it holds.
pub proof fn user_part_is_received_whole(part: UserContent, received: message::UserContent)
    requires
        call_ensures(<message::UserContent as From<UserContent>>::from, (part,), received),
    ensures
        is_received_user_part(part, received),
{
}

/// A part of an assistant message of the server is received with all that it holds.
pub proof fn assistant_part_is_received_whole(
    part: AssistantContent,
    received: message::AssistantContent,
)
    requires
        call_ensures(
            <message::AssistantContent as From<AssistantContent>>::from,
            (part,),
            received,
        ),
    ensures
        is_received_assistant_part(part, received),
{
    if part is Reasoning {
        lemma_one_thought(received, part->reasoning@);
    }
}

/// A tool call of the server is received with its id, name and arguments.
pub proof fn tool_call_is_received_whole(call: ToolCall, received: message::ToolCall)
    requires
        call_ensures(<message::ToolCall as From<ToolCall>>::from, (call,), received),
    ensures
        is_received_call(call, received),
{
}

/// A user message of the server is received as a user message, part by part.
pub proof fn user_message_is_received(
    content: OneOrMany<UserContent>,
    name: Option<String>,
    received: Result<message::Message, MessageError>,
)
    requires
        call_ensures(
            <message::Message as TryFrom<Message>>::try_from,
            ((Message::User { content, name }),),
            received,
        ),
    ensures
        received is Ok,
        received->Ok_0 is User,
        received->Ok_0->User_content@.len() == content@.len(),
        forall|i: int|
            0 <= i < content@.len() ==> is_received_user_part(
                content@[i],
                #[trigger] received->Ok_0->User_content@[i],
            ),
{
    let parts = received->Ok_0->User_content;
    assert(parts.deep_view().len() == content.deep_view().len());
    assert(parts.deep_view().len() == parts@.len());
    assert forall|i: int| 0 <= i < content@.len() implies is_received_user_part(
        content@[i],
        #[trigger] parts@[i],
    ) by {
        assert(parts.deep_view()[i] == parts@[i].deep_view());
        assert(content.deep_view()[i] == content@[i].deep_view());
    }
}

/// A system message is received as a user message with the same texts.
pub proof fn system_message_is_received(
    content: OneOrMany<SystemContent>,
    name: Option<String>,
    received: Result<message::Message, MessageError>,
)
    requires
        call_ensures(
            <message::Message as TryFrom<Message>>::try_from,
            ((Message::System { content, name }),),
            received,
        ),
    ensures
        received is Ok,
        received->Ok_0 is User,
        received->Ok_0->User_content@.len() == content@.len(),
        forall|i: int|
            0 <= i < content@.len() ==> ((#[trigger] received->Ok_0->User_content@[i]) matches message::UserContent::Text(
                given,
            ) && given.text@ == content@[i].text@),
{
    let parts = received->Ok_0->User_content;
    assert(parts.deep_view().len() == content.deep_view().len());
    assert(parts.deep_view().len() == parts@.len());
    assert forall|i: int| 0 <= i < content@.len() implies ((
    #[trigger] parts@[i]) matches message::UserContent::Text(given) && given.text@
        == content@[i].text@) by {
        assert(parts.deep_view()[i] == parts@[i].deep_view());
        assert(content.deep_view()[i] == content@[i].deep_view());
    }
}

/// A tool result of the server is received as a user message with one tool result: for the same
/// call, and with the same texts.
pub proof fn tool_result_is_received(
    tool_call_id: String,
    content: OneOrMany<ToolResultContent>,
    received: Result<message::Message, MessageError>,
)
    requires
        call_ensures(
            <message::Message as TryFrom<Message>>::try_from,
            ((Message::ToolResult { tool_call_id, content }),),
            received,
        ),
    ensures
        ({
            let part = received->Ok_0->User_content@[0];
            let result = part->ToolResult_0;
            &&& received is Ok
            &&& received->Ok_0 is User
            &&& received->Ok_0->User_content@.len() == 1
            &&& part is ToolResult
            &&& result.id@ == tool_call_id@
            &&& result.call_id is None
            &&& result.content@.len() == content@.len()
            &&& forall|i: int|
                0 <= i < content@.len() ==> ((#[trigger] result.content@[i]) matches message::ToolResultContent::Text(
                    given,
                ) && given.text@ == content@[i].text@)
        }),
{
    let parts = received->Ok_0->User_content;
    assert(parts.deep_view().len() == 1);
    assert(parts.deep_view().len() == parts@.len());
    assert(parts.deep_view()[0] == parts@[0].deep_view());
    let result = parts@[0]->ToolResult_0;
    assert(result.content.deep_view().len() == content.deep_view().len());
    assert(result.content.deep_view().len() == result.content@.len());
    assert forall|i: int| 0 <= i < content@.len() implies ((
    #[trigger] result.content@[i]) matches message::ToolResultContent::Text(given) && given.text@
        == content@[i].text@) by {
        assert(result.content.deep_view()[i] == result.content@[i].deep_view());
        assert(content.deep_view()[i] == content@[i].deep_view());
    }
}

/// An assistant message is received with its content part by part, then the reasoning that stands
/// apart from it, then its tool calls, each in its order. Where there is none of these, it is
/// refused.
pub proof fn assistant_message_is_received(
    content: Vec<AssistantContent>,
    refusal: Option<String>,
    reasoning: Option<String>,
    name: Option<String>,
    tool_calls: Vec<ToolCall>,
    received: Result<message::Message, MessageError>,
)
    requires
        call_ensures(
            <message::Message as TryFrom<Message>>::try_from,
            ((Message::Assistant { content, refusal, reasoning, name, tool_calls }),),
            received,
        ),
    ensures
        ({
            let own: int = if reasoning is Some {
                1
            } else {
                0
            };
            let all = content@.len() + own + tool_calls@.len();
            let parts = received->Ok_0->Assistant_content@;
            &&& all == 0 ==> (received matches Err(MessageError::ConversionError(reason))
                && reason@ == "Neither `content` nor `tool_calls` was provided to the Message"@)
            &&& all > 0 ==> {
                &&& received is Ok
                &&& received->Ok_0 is Assistant
                &&& received->Ok_0->id is None
                &&& parts.len() == all
                &&& forall|i: int|
                    #![trigger content@[i]]
                    0 <= i < content@.len() ==> is_received_assistant_part(content@[i], parts[i])
                &&& reasoning is Some ==> is_one_thought(
                    parts[content@.len() as int],
                    reasoning->0@,
                )
                &&& forall|i: int|
                    #![trigger tool_calls@[i]]
                    0 <= i < tool_calls@.len() ==> is_received_call_part(
                        tool_calls@[i],
                        parts[content@.len() + own + i],
                    )
            }
        }),
{
    let own: int = if reasoning is Some {
        1
    } else {
        0
    };
    let given = crate::to_chat::assistant_parts_to_chat(
        content.deep_view(),
        reasoning.deep_view(),
        tool_calls.deep_view(),
    );
    assert(content.deep_view().len() == content@.len());
    assert(tool_calls.deep_view().len() == tool_calls@.len());
    assert(given.len() == content@.len() + own + tool_calls@.len());
    if given.len() > 0 {
        let parts = received->Ok_0->Assistant_content;
        assert(parts.deep_view() == given);
        assert(parts.deep_view().len() == parts@.len());
        assert forall|i: int|
            #![trigger content@[i]]
            0 <= i < content@.len() implies is_received_assistant_part(content@[i], parts@[i]) by {
            assert(content.deep_view()[i] == content@[i].deep_view());
            assert(parts.deep_view()[i] == parts@[i].deep_view());
            assert(given[i] == crate::to_chat::assistant_content_to_chat(content@[i].deep_view()));
            if content@[i] is Reasoning {
                lemma_one_thought(parts@[i], content@[i]->reasoning@);
            }
        }
        if reasoning is Some {
            let i = content@.len() as int;
            assert(parts.deep_view()[i] == parts@[i].deep_view());
            lemma_one_thought(parts@[i], reasoning->0@);
        }
        assert forall|i: int|
            #![trigger tool_calls@[i]]
            0 <= i < tool_calls@.len() implies is_received_call_part(
            tool_calls@[i],
            parts@[content@.len() + own + i],
        ) by {
            let at = content@.len() + own + i;
            assert(tool_calls.deep_view()[i] == tool_calls@[i].deep_view());
            assert(parts.deep_view()[at] == parts@[at].deep_view());
            assert(given[at] == message::AssistantContentView::ToolCall(
                crate::to_chat::tool_call_to_chat(tool_calls@[i].deep_view()),
            ));
        }
    }
}

} // verus!
