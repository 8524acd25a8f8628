//! Messages and tool choices of an application in the server's form.
use crate::api::{CompletionError, CompletionErrorView};
use crate::completion::{
    AssistantContent, AssistantContentView, Function, FunctionView, ImageUrl, ImageUrlView,
    InputAudio, InputAudioView, Message, MessageView, ToolCall, ToolCallView, ToolChoice,
    ToolResultContent, ToolResultContentType, ToolResultContentView, ToolType, UserContent,
    UserContentView,
};
use crate::message;
use crate::message::{
    AudioMediaType, DocumentSourceKind, DocumentSourceView, ImageDetail, ImageMediaType,
    MessageError,
};
use crate::one_or_many::OneOrMany;
use crate::text;
use vstd::prelude::*;
use vstd::std_specs::convert::{FromSpecImpl, TryFromSpecImpl};

verus! {

/// The URL that holds the base 64 data of an image itself.
pub open spec fn data_url(format: ImageMediaType, data: Seq<char>) -> Seq<char> {
    "data:"@ + message::image_mime_type(format) + ";base64,"@ + data
}

/// A part of a user message in the server's form, or why it has none.
pub open spec fn user_content_to_server(content: message::UserContentView) -> Result<
    UserContentView,
    Seq<char>,
> {
    match content {
        message::UserContentView::Text(text) => Ok(UserContentView::Text { text }),
        message::UserContentView::Image(image) => match image.data {
            DocumentSourceView::Url(url) => Ok(
                UserContentView::Image {
                    image_url: ImageUrlView {
                        url,
                        detail: match image.detail {
                            Some(detail) => detail,
                            None => ImageDetail::Auto,
                        },
                    },
                },
            ),
            DocumentSourceView::Base64(data) => match (image.media_type, image.detail) {
                (Some(format), Some(detail)) => Ok(
                    UserContentView::Image {
                        image_url: ImageUrlView { url: data_url(format, data), detail },
                    },
                ),
                (Some(_), None) => Err("LlamaCpp image URI must have image detail"@),
                (None, _) => Err("LlamaCpp Image URI must have media type"@),
            },
            DocumentSourceView::Raw(_) => Err("Raw files not supported, encode as base64 first"@),
            DocumentSourceView::Unknown => Err("Document has no body"@),
            DocumentSourceView::String(text) => Err(
                "Unsupported document type: String("@ + text::quoted(text) + ")"@,
            ),
        },
        message::UserContentView::Document(document) => match document.data {
            DocumentSourceView::Base64(text) => Ok(UserContentView::Text { text }),
            _ => Err("Documents must be base64"@),
        },
        message::UserContentView::Audio(audio) => match audio.data {
            DocumentSourceView::Base64(data) => Ok(
                UserContentView::Audio {
                    input_audio: InputAudioView {
                        data,
                        format: match audio.media_type {
                            Some(format) => format,
                            None => AudioMediaType::MP3,
                        },
                    },
                },
            ),
            _ => Err("Tool result is in unsupported format"@),
        },
        message::UserContentView::Video(_) => Err("Tool result is in unsupported format"@),
        message::UserContentView::ToolResult(_) => Err("Tool result is in unsupported format"@),
    }
}

/// A part of a tool result in the server's form, or why it has none.
pub open spec fn tool_result_content_to_server(content: message::ToolResultContentView) -> Result<
    ToolResultContentView,
    Seq<char>,
> {
    match content {
        message::ToolResultContentView::Text(text) => Ok(
            ToolResultContentView { kind: ToolResultContentType::Text, text },
        ),
        message::ToolResultContentView::Image(_) => Err(
            "Tool result content does not support non-text"@,
        ),
    }
}

/// A tool result in the server's form, or why it has none.
pub open spec fn tool_result_to_server(result: message::ToolResultView) -> Result<
    MessageView,
    Seq<char>,
> {
    match crate::outcome::try_each(
        result.content,
        |content: message::ToolResultContentView| tool_result_content_to_server(content),
    ) {
        Ok(content) => Ok(MessageView::ToolResult { tool_call_id: result.id, content }),
        Err(error) => Err(error),
    }
}

/// The tool results among the parts of a user message.
pub open spec fn tool_results(content: Seq<message::UserContentView>) -> Seq<
    message::ToolResultView,
> {
    content.filter_map(
        |part: message::UserContentView|
            match part {
                message::UserContentView::ToolResult(result) => Some(result),
                _ => None,
            },
    )
}

/// Tool results in the server's form, one message each, or why one of them has none.
pub open spec fn tool_results_to_server(results: Seq<message::ToolResultView>) -> Result<
    Seq<MessageView>,
    Seq<char>,
> {
    crate::outcome::try_each(results, |result: message::ToolResultView| tool_result_to_server(result))
}

/// The parts of a user message in the server's form, or why one of them has none.
pub open spec fn user_contents_to_server(content: Seq<message::UserContentView>) -> Result<
    Seq<UserContentView>,
    Seq<char>,
> {
    crate::outcome::try_each(content, |part: message::UserContentView| user_content_to_server(part))
}

/// A user message in the server's form, or why it has none. Where it holds tool results, each
/// of them becomes a message of its own and the rest is left out.
pub open spec fn user_to_server(content: Seq<message::UserContentView>) -> Result<
    Seq<MessageView>,
    Seq<char>,
> {
    let results = tool_results(content);
    if results.len() > 0 {
        tool_results_to_server(results)
    } else {
        match user_contents_to_server(content) {
            Ok(parts) => Ok(seq![MessageView::User { content: parts, name: None }]),
            Err(error) => Err(error),
        }
    }
}

/// A tool call in the server's form.
pub open spec fn tool_call_to_server(call: message::ToolCallView) -> ToolCallView {
    ToolCallView {
        id: call.id,
        kind: ToolType::Function,
        function: FunctionView { name: call.function.name, arguments: call.function.arguments },
    }
}

/// The texts among the parts of an assistant message.
pub open spec fn texts_of(content: Seq<message::AssistantContentView>) -> Seq<
    AssistantContentView,
> {
    content.filter_map(
        |part: message::AssistantContentView|
            match part {
                message::AssistantContentView::Text(text) => Some(
                    AssistantContentView::Text { text },
                ),
                _ => None,
            },
    )
}

/// The tool calls among the parts of an assistant message.
pub open spec fn tool_calls_of(content: Seq<message::AssistantContentView>) -> Seq<ToolCallView> {
    content.filter_map(
        |part: message::AssistantContentView|
            match part {
                message::AssistantContentView::ToolCall(call) => Some(tool_call_to_server(call)),
                _ => None,
            },
    )
}

/// The reasoning among the parts of an assistant message, the steps of each on lines of their
/// own.
pub open spec fn reasoning_of(content: Seq<message::AssistantContentView>) -> Seq<Seq<char>> {
    content.filter_map(
        |part: message::AssistantContentView|
            match part {
                message::AssistantContentView::Reasoning(reasoning) => Some(
                    text::joined(reasoning.reasoning, "\n"@),
                ),
                _ => None,
            },
    )
}

/// The parts of an assistant message that the server takes as content: all reasoning in one,
/// if there is any, then the texts.
pub open spec fn assistant_contents_to_server(content: Seq<message::AssistantContentView>) -> Seq<
    AssistantContentView,
> {
    let reasoning = reasoning_of(content);
    if reasoning.len() > 0 {
        seq![AssistantContentView::Reasoning { reasoning: text::joined(reasoning, "\n"@) }]
            + texts_of(content)
    } else {
        texts_of(content)
    }
}

/// An assistant message in the server's form.
pub open spec fn assistant_to_server(content: Seq<message::AssistantContentView>) -> MessageView {
    MessageView::Assistant {
        content: assistant_contents_to_server(content),
        refusal: None,
        reasoning: None,
        name: None,
        tool_calls: tool_calls_of(content),
    }
}

/// A message in the server's form, or why it has none.
pub open spec fn message_to_server(message: message::MessageView) -> Result<
    Seq<MessageView>,
    Seq<char>,
> {
    match message {
        message::MessageView::User { content } => user_to_server(content),
        message::MessageView::Assistant { id: _, content } => Ok(
            seq![assistant_to_server(content)],
        ),
    }
}

fn convert_image(image: message::Image) -> (content: Result<UserContent, MessageError>)
    ensures
        crate::outcome::outcome(content) == user_content_to_server(
            message::UserContentView::Image(image.deep_view()),
        ),
{
    match image.data {
        DocumentSourceKind::Url(url) => {
            let detail = match image.detail {
                Some(detail) => detail,
                None => ImageDetail::default(),
            };
            Ok(UserContent::Image { image_url: ImageUrl { url, detail } })
        },
        DocumentSourceKind::Base64(data) => {
            let format = match image.media_type {
                Some(format) => format,
                None => {
                    return Err(MessageError::conversion("LlamaCpp Image URI must have media type"));
                },
            };
            let detail = match image.detail {
                Some(detail) => detail,
                None => {
                    return Err(MessageError::conversion("LlamaCpp image URI must have image detail"));
                },
            };
            let mut url = "data:".to_owned();
            url.append(format.to_mime_type());
            url.append(";base64,");
            url.append(data.as_str());
            Ok(UserContent::Image { image_url: ImageUrl { url, detail } })
        },
        DocumentSourceKind::Raw(_) => Err(
            MessageError::conversion("Raw files not supported, encode as base64 first"),
        ),
        DocumentSourceKind::Unknown => Err(MessageError::conversion("Document has no body")),
        DocumentSourceKind::String(text) => {
            let mut reason = "Unsupported document type: String(".to_owned();
            reason.append(text::quote(text.as_str()).as_str());
            reason.append(")");
            Err(MessageError::ConversionError(reason))
        },
    }
}

fn convert_user_content(part: message::UserContent) -> (content: Result<UserContent, MessageError>)
    ensures
        crate::outcome::outcome(content) == user_content_to_server(part.deep_view()),
{
    match part {
        message::UserContent::Text(text) => Ok(UserContent::Text { text: text.text }),
        message::UserContent::Image(image) => convert_image(image),
        message::UserContent::Document(document) => match document.data {
            DocumentSourceKind::Base64(text) => Ok(UserContent::Text { text }),
            _ => Err(MessageError::conversion("Documents must be base64")),
        },
        message::UserContent::Audio(audio) => match audio.data {
            DocumentSourceKind::Base64(data) => {
                let format = match audio.media_type {
                    Some(format) => format,
                    None => AudioMediaType::MP3,
                };
                Ok(UserContent::Audio { input_audio: InputAudio { data, format } })
            },
            _ => Err(MessageError::conversion("Tool result is in unsupported format")),
        },
        _ => Err(MessageError::conversion("Tool result is in unsupported format")),
    }
}

fn convert_tool_result(result: message::ToolResult) -> (message: Result<Message, MessageError>)
    ensures
        crate::outcome::outcome(message) == tool_result_to_server(result.deep_view()),
{
    let ghost parts = result.content.deep_view();
    let ghost f = |content: message::ToolResultContentView| tool_result_content_to_server(content);
    let items = result.content.into_vec();
    let ghost all = items@;
    let mut content: Vec<ToolResultContent> = Vec::new();
    for item in it: items
        invariant
            it.seq() == all,
            parts.len() == all.len(),
            forall|i: int| 0 <= i < all.len() ==> #[trigger] parts[i] == all[i].deep_view(),
            f == (|content: message::ToolResultContentView|
                tool_result_content_to_server(content)),
            crate::outcome::try_each(parts, f) == crate::outcome::try_each(
                result.deep_view().content,
                f,
            ),
            content@.len() == it.index(),
            forall|i: int|
                #![trigger parts[i]]
                #![trigger content@[i]]
                0 <= i < content@.len() ==> tool_result_content_to_server(parts[i]) == Ok::<
                    ToolResultContentView,
                    Seq<char>,
                >(content@[i].deep_view()),
    {
        assert(parts[it.index()] == item.deep_view());
        match item {
            message::ToolResultContent::Text(text) => {
                content.push(ToolResultContent::from(text.text));
            },
            _ => {
                let error = MessageError::conversion("Tool result content does not support non-text");
                proof {
                    crate::outcome::lemma_try_each_err(parts, f, it.index(), error.deep_view());
                }
                return Err(error);
            },
        }
    }
    proof {
        let values = content.deep_view();
        assert forall|i: int| 0 <= i < parts.len() implies f(parts[i]) == Ok::<
            ToolResultContentView,
            Seq<char>,
        >(#[trigger] values[i]) by {
            assert(values[i] == content@[i].deep_view());
        }
        crate::outcome::lemma_try_each_ok(parts, f, values);
    }
    let ghost contents = content.deep_view();
    let content = OneOrMany::many(content).unwrap();
    assert(content.deep_view() == contents);
    Ok(Message::ToolResult { tool_call_id: result.id, content })
}

fn convert_tool_results(results: Vec<message::ToolResult>) -> (messages: Result<
    Vec<Message>,
    MessageError,
>)
    ensures
        crate::outcome::outcome(messages) == tool_results_to_server(results.deep_view()),
{
    let ghost parts = results.deep_view();
    let ghost f = |result: message::ToolResultView| tool_result_to_server(result);
    let ghost all = results@;
    let mut messages: Vec<Message> = Vec::new();
    for item in it: results
        invariant
            it.seq() == all,
            parts.len() == all.len(),
            forall|i: int| 0 <= i < all.len() ==> #[trigger] parts[i] == all[i].deep_view(),
            f == (|result: message::ToolResultView| tool_result_to_server(result)),
            tool_results_to_server(results.deep_view()) == crate::outcome::try_each(parts, f),
            messages@.len() == it.index(),
            forall|i: int|
                #![trigger parts[i]]
                #![trigger messages@[i]]
                0 <= i < messages@.len() ==> tool_result_to_server(parts[i]) == Ok::<
                    MessageView,
                    Seq<char>,
                >(messages@[i].deep_view()),
    {
        assert(parts[it.index()] == item.deep_view());
        match convert_tool_result(item) {
            Ok(message) => {
                messages.push(message);
            },
            Err(error) => {
                proof {
                    crate::outcome::lemma_try_each_err(parts, f, it.index(), error.deep_view());
                }
                return Err(error);
            },
        }
    }
    proof {
        crate::outcome::lemma_try_each_ok(parts, f, messages.deep_view());
    }
    Ok(messages)
}

fn convert_user_contents(contents: Vec<message::UserContent>) -> (parts: Result<
    Vec<UserContent>,
    MessageError,
>)
    ensures
        crate::outcome::outcome(parts) == user_contents_to_server(contents.deep_view()),
{
    let ghost given = contents.deep_view();
    let ghost f = |part: message::UserContentView| user_content_to_server(part);
    let ghost all = contents@;
    let mut parts: Vec<UserContent> = Vec::new();
    for item in it: contents
        invariant
            it.seq() == all,
            given.len() == all.len(),
            forall|i: int| 0 <= i < all.len() ==> #[trigger] given[i] == all[i].deep_view(),
            f == (|part: message::UserContentView| user_content_to_server(part)),
            user_contents_to_server(contents.deep_view()) == crate::outcome::try_each(given, f),
            parts@.len() == it.index(),
            forall|i: int|
                #![trigger given[i]]
                #![trigger parts@[i]]
                0 <= i < parts@.len() ==> user_content_to_server(given[i]) == Ok::<
                    UserContentView,
                    Seq<char>,
                >(parts@[i].deep_view()),
    {
        assert(given[it.index()] == item.deep_view());
        match convert_user_content(item) {
            Ok(part) => {
                parts.push(part);
            },
            Err(error) => {
                proof {
                    crate::outcome::lemma_try_each_err(given, f, it.index(), error.deep_view());
                }
                return Err(error);
            },
        }
    }
    proof {
        crate::outcome::lemma_try_each_ok(given, f, parts.deep_view());
    }
    Ok(parts)
}

/// Parts the tool results of a user message from the rest.
fn part_tool_results(contents: Vec<message::UserContent>) -> (parted: (
    Vec<message::ToolResult>,
    Vec<message::UserContent>,
))
    ensures
        parted.0.deep_view() == tool_results(contents.deep_view()),
        parted.0@.len() == 0 ==> parted.1.deep_view() == contents.deep_view(),
{
    let ghost given = contents.deep_view();
    let ghost all = contents@;
    let mut results: Vec<message::ToolResult> = Vec::new();
    let mut others: Vec<message::UserContent> = Vec::new();
    for item in it: contents
        invariant
            it.seq() == all,
            given == contents.deep_view(),
            given.len() == all.len(),
            forall|i: int| 0 <= i < all.len() ==> #[trigger] given[i] == all[i].deep_view(),
            results.deep_view() == tool_results(given.take(it.index())),
            results@.len() == 0 ==> others@ == all.take(it.index()),
    {
        assert(given[it.index()] == item.deep_view());
        assert(given.take(it.index() + 1).drop_last() == given.take(it.index()));
        let ghost before = results.deep_view();
        match item {
            message::UserContent::ToolResult(result) => {
                results.push(result);
                assert(results.deep_view() == before + seq![result.deep_view()]);
            },
            other => {
                others.push(other);
            },
        }
    }
    assert(given.take(given.len() as int) == given);
    assert(all.take(all.len() as int) == all);
    (results, others)
}

fn convert_user(content: OneOrMany<message::UserContent>) -> (messages: Result<
    Vec<Message>,
    MessageError,
>)
    ensures
        crate::outcome::outcome(messages) == user_to_server(content.deep_view()),
{
    let contents = content.into_vec();
    assert(contents.deep_view() == content.deep_view());
    let (results, others) = part_tool_results(contents);
    if !results.is_empty() {
        convert_tool_results(results)
    } else {
        let parts = match convert_user_contents(others) {
            Ok(parts) => parts,
            Err(error) => {
                return Err(error);
            },
        };
        let ghost given = parts.deep_view();
        proof {
            crate::outcome::lemma_try_each_values(
                content.deep_view(),
                |part: message::UserContentView| user_content_to_server(part),
            );
            assert(given.len() == content@.len());
        }
        let content = OneOrMany::many(parts).expect(
            "There must be other content here if there were no tool result content",
        );
        assert(content.deep_view() == given);
        let mut messages: Vec<Message> = Vec::new();
        messages.push(Message::User { content, name: None });
        assert(messages.deep_view() == seq![
            MessageView::User { content: given, name: None },
        ]);
        Ok(messages)
    }
}

fn convert_assistant(content: OneOrMany<message::AssistantContent>) -> (message: Message)
    ensures
        message.deep_view() == assistant_to_server(content.deep_view()),
{
    let items = content.into_vec();
    let ghost given = content.deep_view();
    let ghost all = items@;
    let mut texts: Vec<AssistantContent> = Vec::new();
    let mut reasoning: Vec<String> = Vec::new();
    let mut tool_calls: Vec<ToolCall> = Vec::new();
    for item in it: items
        invariant
            it.seq() == all,
            given == content.deep_view(),
            given.len() == all.len(),
            forall|i: int| 0 <= i < all.len() ==> #[trigger] given[i] == all[i].deep_view(),
            texts.deep_view() == texts_of(given.take(it.index())),
            reasoning.deep_view() == reasoning_of(given.take(it.index())),
            tool_calls.deep_view() == tool_calls_of(given.take(it.index())),
    {
        assert(given[it.index()] == item.deep_view());
        assert(given.take(it.index() + 1).drop_last() == given.take(it.index()));
        let ghost texts_before = texts.deep_view();
        let ghost reasoning_before = reasoning.deep_view();
        let ghost tool_calls_before = tool_calls.deep_view();
        match item {
            message::AssistantContent::Text(text) => {
                texts.push(AssistantContent::from(text.text));
                assert(texts.deep_view() == texts_before + seq![
                    AssistantContentView::Text { text: text.text@ },
                ]);
            },
            message::AssistantContent::ToolCall(call) => {
                tool_calls.push(ToolCall::from(call));
                assert(tool_calls.deep_view() == tool_calls_before + seq![
                    tool_call_to_server(call.deep_view()),
                ]);
            },
            message::AssistantContent::Reasoning(steps) => {
                reasoning.push(text::join(&steps.reasoning, "\n"));
                assert(reasoning.deep_view() == reasoning_before + seq![
                    text::joined(steps.reasoning.deep_view(), "\n"@),
                ]);
            },
        }
    }
    assert(given.take(given.len() as int) == given);
    let mut contents: Vec<AssistantContent> = Vec::new();
    if !reasoning.is_empty() {
        contents.push(AssistantContent::Reasoning { reasoning: text::join(&reasoning, "\n") });
    }
    let ghost first = contents.deep_view();
    let ghost rest = texts.deep_view();
    contents.append(&mut texts);
    assert(contents.deep_view() == first + rest);
    assert(contents.deep_view() == assistant_contents_to_server(given));
    Message::Assistant { content: contents, refusal: None, reasoning: None, name: None, tool_calls }
}

impl TryFrom<message::Message> for Vec<Message> {
    type Error = MessageError;

    fn try_from(message: message::Message) -> (messages: Result<Self, MessageError>)
        ensures
            crate::outcome::outcome(messages) == message_to_server(message.deep_view()),
    {
        match message {
            message::Message::User { content } => convert_user(content),
            message::Message::Assistant { content, .. } => {
                let message = convert_assistant(content);
                let mut messages: Vec<Message> = Vec::new();
                messages.push(message);
                assert(messages.deep_view() == seq![message.deep_view()]);
                Ok(messages)
            },
        }
    }
}

impl TryFromSpecImpl<message::Message> for Vec<Message> {
    open spec fn obeys_try_from_spec() -> bool {
        false
    }

    open spec fn try_from_spec(message: message::Message) -> Result<Self, MessageError> {
        arbitrary()
    }
}

impl From<message::ToolCall> for ToolCall {
    fn from(tool_call: message::ToolCall) -> (call: Self)
        ensures
            call.deep_view() == tool_call_to_server(tool_call.deep_view()),
    {
        ToolCall {
            id: tool_call.id,
            kind: ToolType::default(),
            function: Function {
                name: tool_call.function.name,
                arguments: tool_call.function.arguments,
            },
        }
    }
}

impl FromSpecImpl<message::ToolCall> for ToolCall {
    open spec fn obeys_from_spec() -> bool {
        true
    }

    open spec fn from_spec(tool_call: message::ToolCall) -> Self {
        ToolCall {
            id: tool_call.id,
            kind: ToolType::Function,
            function: Function {
                name: tool_call.function.name,
                arguments: tool_call.function.arguments,
            },
        }
    }
}

/// A choice of tools in the server's form, which knows no choice by name.
pub open spec fn tool_choice_to_server(choice: message::ToolChoice) -> Result<
    ToolChoice,
    CompletionErrorView,
> {
    match choice {
        message::ToolChoice::Auto => Ok(ToolChoice::Auto),
        message::ToolChoice::Never => Ok(ToolChoice::Never),
        message::ToolChoice::Required => Ok(ToolChoice::Required),
        message::ToolChoice::Specific { function_names: _ } => Err(
            CompletionErrorView::ProviderError(
                "Provider doesn't support only using specific tools"@,
            ),
        ),
    }
}

impl TryFrom<message::ToolChoice> for ToolChoice {
    type Error = CompletionError;

    fn try_from(value: message::ToolChoice) -> (choice: Result<Self, CompletionError>)
        ensures
            match tool_choice_to_server(value) {
                Ok(expected) => choice == Ok::<ToolChoice, CompletionError>(expected),
                Err(error) => choice is Err && choice->Err_0.deep_view() == error,
            },
    {
        match value {
            message::ToolChoice::Specific { .. } => Err(
                CompletionError::ProviderError(
                    "Provider doesn't support only using specific tools".to_owned(),
                ),
            ),
            message::ToolChoice::Auto => Ok(ToolChoice::Auto),
            message::ToolChoice::Never => Ok(ToolChoice::Never),
            message::ToolChoice::Required => Ok(ToolChoice::Required),
        }
    }
}

impl TryFromSpecImpl<message::ToolChoice> for ToolChoice {
    open spec fn obeys_try_from_spec() -> bool {
        false
    }

    open spec fn try_from_spec(value: message::ToolChoice) -> Result<Self, CompletionError> {
        arbitrary()
    }
}

} // verus!
