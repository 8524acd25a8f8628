//! Messages of the server in the application's form.
use crate::completion::{
    AssistantContent, AssistantContentView, Message, MessageView, SystemContent, SystemContentView,
    ToolCall, ToolCallView, ToolResultContent, ToolResultContentView, UserContent, UserContentView,
};
use crate::message;
use crate::message::{DocumentSourceView, MessageError};
use crate::one_or_many::OneOrMany;
use vstd::prelude::*;
use vstd::std_specs::convert::{FromSpecImpl, TryFromSpecImpl};

verus! {

/// A part of a user message of the server in the application's form.
pub open spec fn user_content_to_chat(content: UserContentView) -> message::UserContentView {
    match content {
        UserContentView::Text { text } => message::UserContentView::Text(text),
        UserContentView::Image { image_url } => message::UserContentView::Image(
            message::ImageView {
                data: DocumentSourceView::Url(image_url.url),
                media_type: None,
                detail: Some(image_url.detail),
                additional_params: None,
            },
        ),
        UserContentView::Audio { input_audio } => message::UserContentView::Audio(
            message::AudioView {
                data: DocumentSourceView::Base64(input_audio.data),
                media_type: Some(input_audio.format),
                additional_params: None,
            },
        ),
    }
}

/// A part of an assistant message of the server in the application's form: a refusal is text.
pub open spec fn assistant_content_to_chat(
    content: AssistantContentView,
) -> message::AssistantContentView {
    match content {
        AssistantContentView::Text { text } => message::AssistantContentView::Text(text),
        AssistantContentView::Refusal { refusal } => message::AssistantContentView::Text(refusal),
        AssistantContentView::Reasoning { reasoning } => message::AssistantContentView::Reasoning(
            message::single_step(reasoning),
        ),
    }
}

/// A tool call of the server in the application's form.
pub open spec fn tool_call_to_chat(call: ToolCallView) -> message::ToolCallView {
    message::ToolCallView {
        id: call.id,
        call_id: None,
        function: message::ToolFunctionView {
            name: call.function.name,
            arguments: call.function.arguments,
        },
    }
}

/// The parts of an assistant message of the server in the application's form: the content, the
/// reasoning that stands apart from it, and the tool calls.
pub open spec fn assistant_parts_to_chat(
    content: Seq<AssistantContentView>,
    reasoning: Option<Seq<char>>,
    tool_calls: Seq<ToolCallView>,
) -> Seq<message::AssistantContentView> {
    let parts = content.map_values(
        |part: AssistantContentView| assistant_content_to_chat(part),
    );
    let thoughts = match reasoning {
        Some(text) => seq![message::AssistantContentView::Reasoning(message::single_step(text))],
        None => Seq::empty(),
    };
    let calls = tool_calls.map_values(
        |call: ToolCallView| message::AssistantContentView::ToolCall(tool_call_to_chat(call)),
    );
    parts + thoughts + calls
}

/// A message of the server in the application's form, or why it has none.
pub open spec fn message_to_chat(message: MessageView) -> Result<message::MessageView, Seq<char>> {
    match message {
        MessageView::User { content, name: _ } => Ok(
            message::MessageView::User {
                content: content.map_values(|part: UserContentView| user_content_to_chat(part)),
            },
        ),
        MessageView::Assistant { content, refusal: _, reasoning, name: _, tool_calls } => {
            let parts = assistant_parts_to_chat(content, reasoning, tool_calls);
            if parts.len() > 0 {
                Ok(message::MessageView::Assistant { id: None, content: parts })
            } else {
                Err("Neither `content` nor `tool_calls` was provided to the Message"@)
            }
        },
        MessageView::ToolResult { tool_call_id, content } => Ok(
            message::MessageView::User {
                content: seq![
                    message::UserContentView::ToolResult(
                        message::ToolResultView {
                            id: tool_call_id,
                            call_id: None,
                            content: content.map_values(
                                |part: ToolResultContentView|
                                    message::ToolResultContentView::Text(part.text),
                            ),
                        },
                    ),
                ],
            },
        ),
        MessageView::System { content, name: _ } => Ok(
            message::MessageView::User {
                content: content.map_values(
                    |part: SystemContentView| message::UserContentView::Text(part.text),
                ),
            },
        ),
    }
}

impl From<UserContent> for message::UserContent {
    fn from(content: UserContent) -> (part: Self)
        ensures
            part.deep_view() == user_content_to_chat(content.deep_view()),
    {
        match content {
            UserContent::Text { text } => message::UserContent::text(text),
            UserContent::Image { image_url } => message::UserContent::image_url(
                image_url.url,
                None,
                Some(image_url.detail),
            ),
            UserContent::Audio { input_audio } => message::UserContent::audio(
                input_audio.data,
                Some(input_audio.format),
            ),
        }
    }
}

impl FromSpecImpl<UserContent> for message::UserContent {
    open spec fn obeys_from_spec() -> bool {
        false
    }

    open spec fn from_spec(content: UserContent) -> Self {
        arbitrary()
    }
}

impl From<AssistantContent> for message::AssistantContent {
    fn from(value: AssistantContent) -> (part: Self)
        ensures
            part.deep_view() == assistant_content_to_chat(value.deep_view()),
    {
        match value {
            AssistantContent::Text { text } => message::AssistantContent::text(text),
            AssistantContent::Refusal { refusal } => message::AssistantContent::text(refusal),
            AssistantContent::Reasoning { reasoning } => message::AssistantContent::Reasoning(
                message::Reasoning::new(reasoning.as_str()),
            ),
        }
    }
}

impl FromSpecImpl<AssistantContent> for message::AssistantContent {
    open spec fn obeys_from_spec() -> bool {
        false
    }

    open spec fn from_spec(value: AssistantContent) -> Self {
        arbitrary()
    }
}

impl From<ToolCall> for message::ToolCall {
    fn from(tool_call: ToolCall) -> (call: Self)
        ensures
            call.deep_view() == tool_call_to_chat(tool_call.deep_view()),
    {
        message::ToolCall {
            id: tool_call.id,
            call_id: None,
            function: message::ToolFunction {
                name: tool_call.function.name,
                arguments: tool_call.function.arguments,
            },
        }
    }
}

impl FromSpecImpl<ToolCall> for message::ToolCall {
    open spec fn obeys_from_spec() -> bool {
        true
    }

    open spec fn from_spec(tool_call: ToolCall) -> Self {
        message::ToolCall {
            id: tool_call.id,
            call_id: None,
            function: message::ToolFunction {
                name: tool_call.function.name,
                arguments: tool_call.function.arguments,
            },
        }
    }
}

fn convert_assistant_parts(
    content: Vec<AssistantContent>,
    reasoning: Option<String>,
    tool_calls: Vec<ToolCall>,
) -> (parts: Vec<message::AssistantContent>)
    ensures
        parts.deep_view() == assistant_parts_to_chat(
            content.deep_view(),
            reasoning.deep_view(),
            tool_calls.deep_view(),
        ),
{
    let mut parts: Vec<message::AssistantContent> = Vec::new();
    let ghost texts = content.deep_view().map_values(
        |part: AssistantContentView| assistant_content_to_chat(part),
    );
    let ghost given = content@;
    for part in it: content
        invariant
            it.seq() == given,
            texts.len() == given.len(),
            forall|i: int|
                0 <= i < given.len() ==> #[trigger] texts[i] == assistant_content_to_chat(
                    given[i].deep_view(),
                ),
            parts.deep_view() == texts.take(it.index()),
    {
        assert(texts[it.index()] == assistant_content_to_chat(part.deep_view()));
        let ghost before = parts.deep_view();
        parts.push(message::AssistantContent::from(part));
        assert(parts.deep_view() == before.push(texts[it.index()]));
        assert(texts.take(it.index() + 1) == texts.take(it.index()).push(texts[it.index()]));
    }
    assert(texts.take(given.len() as int) == texts);
    if let Some(text) = reasoning {
        let ghost before = parts.deep_view();
        parts.push(message::AssistantContent::Reasoning(message::Reasoning::new(text.as_str())));
        assert(parts.deep_view() == before + seq![
            message::AssistantContentView::Reasoning(message::single_step(text@)),
        ]);
    }
    let ghost before = parts.deep_view();
    let ghost calls = tool_calls.deep_view().map_values(
        |call: ToolCallView| message::AssistantContentView::ToolCall(tool_call_to_chat(call)),
    );
    let ghost asked = tool_calls@;
    for call in it: tool_calls
        invariant
            it.seq() == asked,
            calls.len() == asked.len(),
            forall|i: int|
                0 <= i < asked.len() ==> #[trigger] calls[i]
                    == message::AssistantContentView::ToolCall(
                    tool_call_to_chat(asked[i].deep_view()),
                ),
            parts.deep_view() == before + calls.take(it.index()),
    {
        let ghost earlier = parts.deep_view();
        parts.push(message::AssistantContent::ToolCall(message::ToolCall::from(call)));
        assert(parts.deep_view() == earlier.push(calls[it.index()]));
        assert(calls.take(it.index() + 1) == calls.take(it.index()).push(calls[it.index()]));
    }
    assert(calls.take(asked.len() as int) == calls);
    parts
}

fn user_part_to_chat(part: UserContent) -> (converted: message::UserContent)
    ensures
        converted.deep_view() == user_content_to_chat(part.deep_view()),
{
    message::UserContent::from(part)
}

fn result_part_to_chat(part: ToolResultContent) -> (converted: message::ToolResultContent)
    ensures
        converted.deep_view() == message::ToolResultContentView::Text(part.text@),
{
    message::ToolResultContent::text(part.text)
}

fn system_part_to_chat(part: SystemContent) -> (converted: message::UserContent)
    ensures
        converted.deep_view() == message::UserContentView::Text(part.text@),
{
    message::UserContent::text(part.text)
}

impl TryFrom<Message> for message::Message {
    type Error = MessageError;

    fn try_from(message: Message) -> (converted: Result<Self, MessageError>)
        ensures
            crate::outcome::outcome(converted) == message_to_chat(message.deep_view()),
    {
        match message {
            Message::User { content, .. } => {
                let parts = content.map(user_part_to_chat);
                assert(parts.deep_view() == content.deep_view().map_values(
                    |part: UserContentView| user_content_to_chat(part),
                ));
                Ok(message::Message::User { content: parts })
            },
            Message::Assistant { content, tool_calls, reasoning, .. } => {
                let parts = convert_assistant_parts(content, reasoning, tool_calls);
                let ghost given = parts.deep_view();
                match OneOrMany::many(parts) {
                    Ok(content) => {
                        assert(content.deep_view() == given);
                        Ok(message::Message::Assistant { id: None, content })
                    },
                    Err(_) => Err(
                        MessageError::conversion(
                            "Neither `content` nor `tool_calls` was provided to the Message",
                        ),
                    ),
                }
            },
            Message::ToolResult { tool_call_id, content } => {
                let parts = content.map(result_part_to_chat);
                assert(parts.deep_view() == content.deep_view().map_values(
                    |part: ToolResultContentView| message::ToolResultContentView::Text(part.text),
                ));
                let result = message::UserContent::tool_result(tool_call_id, parts);
                let content = OneOrMany::one(result);
                assert(content.deep_view() == seq![result.deep_view()]);
                Ok(message::Message::User { content })
            },
            Message::System { content, .. } => {
                let parts = content.map(system_part_to_chat);
                assert(parts.deep_view() == content.deep_view().map_values(
                    |part: SystemContentView| message::UserContentView::Text(part.text),
                ));
                Ok(message::Message::User { content: parts })
            },
        }
    }
}

impl TryFromSpecImpl<Message> for message::Message {
    open spec fn obeys_try_from_spec() -> bool {
        false
    }

    open spec fn try_from_spec(message: Message) -> Result<Self, MessageError> {
        arbitrary()
    }
}

} // verus!
