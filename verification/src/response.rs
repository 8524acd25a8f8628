//! The server's reply to a completion request.
use crate::api;
use crate::api::{CompletionError, CompletionErrorView};
use crate::completion::{
    AssistantContent, AssistantContentView, Message, MessageView, ToolCall, ToolCallView,
};
use crate::message;
use crate::one_or_many::OneOrMany;
use crate::text;
use vstd::prelude::*;

verus! {

/// The tokens that a completion took, as the server counts them.
#[derive(Debug, Clone, Copy, PartialEq, Eq, Structural)]
pub struct Usage {
    pub prompt_tokens: usize,
    pub total_tokens: usize,
}

/// The prompt is part of the total.
pub open spec fn is_consistent_usage(usage: Usage) -> bool {
    usage.prompt_tokens <= usage.total_tokens
}

/// The application's form of a count of tokens: what is not input is output.
pub open spec fn usage_to_chat(usage: Usage) -> api::Usage
    recommends
        is_consistent_usage(usage),
{
    api::Usage {
        input_tokens: usage.prompt_tokens as u64,
        output_tokens: (usage.total_tokens - usage.prompt_tokens) as u64,
        total_tokens: usage.total_tokens as u64,
    }
}

impl Usage {
    /// No tokens.
    pub fn new() -> (usage: Self)
        ensures
            usage == (Usage { prompt_tokens: 0, total_tokens: 0 }),
    {
        Usage { prompt_tokens: 0, total_tokens: 0 }
    }

    /// Tells whether the prompt is part of the total.
    pub fn is_consistent(&self) -> (consistent: bool)
        ensures
            consistent == is_consistent_usage(*self),
    {
        self.prompt_tokens <= self.total_tokens
    }

    /// The count in the application's form.
    pub fn token_usage(&self) -> (usage: Option<api::Usage>)
        requires
            is_consistent_usage(*self),
        ensures
            usage == Some(usage_to_chat(*self)),
    {
        let mut usage = api::Usage::new();
        usage.input_tokens = self.prompt_tokens as u64;
        usage.output_tokens = (self.total_tokens - self.prompt_tokens) as u64;
        usage.total_tokens = self.total_tokens as u64;
        Some(usage)
    }

    /// The count as it is shown to people.
    pub fn display(&self) -> (shown: String)
        ensures
            shown@ == "Prompt tokens: "@ + text::numeral(self.prompt_tokens as nat)
                + " Total tokens: "@ + text::numeral(self.total_tokens as nat),
    {
        let mut shown = "Prompt tokens: ".to_owned();
        shown.append(text::write_numeral(self.prompt_tokens).as_str());
        shown.append(" Total tokens: ");
        shown.append(text::write_numeral(self.total_tokens).as_str());
        shown
    }
}

impl Default for Usage {
    fn default() -> (usage: Self)
        ensures
            usage == (Usage { prompt_tokens: 0, total_tokens: 0 }),
    {
        Usage::new()
    }
}

/// One of the answers in a reply.
#[derive(Debug)]
pub struct Choice {
    pub index: usize,
    pub message: Message,
    pub logprobs: Option<serde_json::Value>,
    pub finish_reason: String,
}

/// The model of a [`Choice`].
pub struct ChoiceView {
    pub index: usize,
    pub message: MessageView,
    pub logprobs: Option<serde_json::Value>,
    pub finish_reason: Seq<char>,
}

impl DeepView for Choice {
    type V = ChoiceView;

    open spec fn deep_view(&self) -> ChoiceView {
        ChoiceView {
            index: self.index,
            message: self.message.deep_view(),
            logprobs: self.logprobs,
            finish_reason: self.finish_reason@,
        }
    }
}

impl Clone for Choice {
    fn clone(&self) -> (copy: Self)
        ensures
            copy.deep_view() == self.deep_view(),
    {
        Choice {
            index: self.index,
            message: self.message.clone(),
            logprobs: self.logprobs.clone(),
            finish_reason: self.finish_reason.clone(),
        }
    }
}

/// A reply of the server.
#[derive(Debug)]
pub struct CompletionResponse {
    pub id: String,
    pub object: String,
    pub created: u64,
    pub model: String,
    pub system_fingerprint: Option<String>,
    pub choices: Vec<Choice>,
    pub usage: Option<Usage>,
}

/// What an assistant says in words, if it says anything: a text or a refusal that is not empty.
pub open spec fn spoken(content: AssistantContentView) -> Option<message::AssistantContentView> {
    match content {
        AssistantContentView::Text { text } => if text.len() > 0 {
            Some(message::AssistantContentView::Text(text))
        } else {
            None
        },
        AssistantContentView::Refusal { refusal } => if refusal.len() > 0 {
            Some(message::AssistantContentView::Text(refusal))
        } else {
            None
        },
        AssistantContentView::Reasoning { reasoning: _ } => None,
    }
}

/// What an assistant says in words.
pub open spec fn spoken_parts(content: Seq<AssistantContentView>) -> Seq<
    message::AssistantContentView,
> {
    content.filter_map(|part: AssistantContentView| spoken(part))
}

/// The parts of an answer: what is said in words, the reasoning that stands apart from it if it
/// is not empty, and the tool calls.
pub open spec fn answer_parts(
    content: Seq<AssistantContentView>,
    reasoning: Option<Seq<char>>,
    tool_calls: Seq<ToolCallView>,
) -> Seq<message::AssistantContentView> {
    let words = spoken_parts(content);
    let thoughts = match reasoning {
        Some(text) => if text.len() > 0 {
            seq![message::AssistantContentView::Reasoning(message::single_step(text))]
        } else {
            Seq::empty()
        },
        None => Seq::empty(),
    };
    let calls = tool_calls.map_values(
        |call: ToolCallView|
            message::AssistantContentView::ToolCall(crate::to_chat::tool_call_to_chat(call)),
    );
    words + thoughts + calls
}

/// The parts of the first answer in a reply, or why there are none.
pub open spec fn reply_content(choices: Seq<ChoiceView>) -> Result<
    Seq<message::AssistantContentView>,
    CompletionErrorView,
> {
    if choices.len() == 0 {
        Err(CompletionErrorView::ResponseError("Response contained no choices"@))
    } else {
        match choices[0].message {
            MessageView::Assistant { content, refusal: _, reasoning, name: _, tool_calls } => {
                let parts = answer_parts(content, reasoning, tool_calls);
                if parts.len() > 0 {
                    Ok(parts)
                } else {
                    Err(
                        CompletionErrorView::ResponseError(
                            "Response contained no message or tool call (empty)"@,
                        ),
                    )
                }
            },
            _ => Err(
                CompletionErrorView::ResponseError(
                    "Response did not contain a valid message or tool call"@,
                ),
            ),
        }
    }
}

/// The count of tokens in a reply, in the application's form: none where the server gave none.
pub open spec fn reply_usage(usage: Option<Usage>) -> api::Usage {
    match usage {
        Some(usage) => usage_to_chat(usage),
        None => api::Usage { input_tokens: 0, output_tokens: 0, total_tokens: 0 },
    }
}

/// `reply` is `response` in the application's form, or the error where it has none.
pub open spec fn is_reply(
    response: CompletionResponse,
    reply: Result<api::CompletionResponse<CompletionResponse>, CompletionError>,
) -> bool {
    match reply_content(response.choices.deep_view()) {
        Ok(parts) => {
            &&& reply matches Ok(reply)
            &&& reply.choice.deep_view() == parts
            &&& reply.usage == reply_usage(response.usage)
            &&& reply.raw_response == response
        },
        Err(error) => {
            &&& reply matches Err(given)
            &&& given.deep_view() == error
        },
    }
}

/// The count of tokens in a reply makes sense wherever it is looked at.
pub open spec fn has_consistent_usage(response: CompletionResponse) -> bool {
    reply_content(response.choices.deep_view()) is Ok ==> match response.usage {
        Some(usage) => is_consistent_usage(usage),
        None => true,
    }
}

fn response_error(reason: &str) -> (error: CompletionError)
    ensures
        error.deep_view() == CompletionErrorView::ResponseError(reason@),
{
    CompletionError::ResponseError(reason.to_owned())
}

fn convert_spoken(part: &AssistantContent) -> (content: Option<message::AssistantContent>)
    ensures
        content.deep_view() == spoken(part.deep_view()),
{
    let text = match part {
        AssistantContent::Text { text } => text,
        AssistantContent::Refusal { refusal } => refusal,
        AssistantContent::Reasoning { .. } => {
            return None;
        },
    };
    if text.as_str().is_empty() {
        None
    } else {
        Some(message::AssistantContent::text(text.clone()))
    }
}

fn convert_answer(
    content: &Vec<AssistantContent>,
    reasoning: &Option<String>,
    tool_calls: &Vec<ToolCall>,
) -> (parts: Vec<message::AssistantContent>)
    ensures
        parts.deep_view() == answer_parts(
            content.deep_view(),
            reasoning.deep_view(),
            tool_calls.deep_view(),
        ),
{
    let mut parts: Vec<message::AssistantContent> = Vec::new();
    let ghost given = content.deep_view();
    let ghost f = |part: AssistantContentView| spoken(part);
    let mut i: usize = 0;
    while i < content.len()
        invariant
            i <= content.len(),
            given == content.deep_view(),
            f == (|part: AssistantContentView| spoken(part)),
            parts.deep_view() == given.take(i as int).filter_map(f),
        decreases content.len() - i,
    {
        let ghost before = parts.deep_view();
        assert(given.take(i + 1).drop_last() == given.take(i as int));
        match convert_spoken(&content[i]) {
            Some(part) => {
                parts.push(part);
                assert(parts.deep_view() == before + seq![part.deep_view()]);
            },
            None => {},
        }
        i = i + 1;
    }
    assert(given.take(i as int) == given);
    if let Some(text) = reasoning {
        if !text.as_str().is_empty() {
            let ghost before = parts.deep_view();
            parts.push(
                message::AssistantContent::Reasoning(message::Reasoning::new(text.as_str())),
            );
            assert(parts.deep_view() == before + seq![
                message::AssistantContentView::Reasoning(message::single_step(text@)),
            ]);
        }
    }
    let ghost before = parts.deep_view();
    let ghost calls = tool_calls.deep_view().map_values(
        |call: ToolCallView|
            message::AssistantContentView::ToolCall(crate::to_chat::tool_call_to_chat(call)),
    );
    let mut j: usize = 0;
    while j < tool_calls.len()
        invariant
            j <= tool_calls.len(),
            calls == tool_calls.deep_view().map_values(
                |call: ToolCallView|
                    message::AssistantContentView::ToolCall(
                        crate::to_chat::tool_call_to_chat(call),
                    ),
            ),
            parts.deep_view() == before + calls.take(j as int),
        decreases tool_calls.len() - j,
    {
        let ghost earlier = parts.deep_view();
        let call = &tool_calls[j];
        parts.push(
            message::AssistantContent::tool_call(
                call.id.clone(),
                call.function.name.clone(),
                call.function.arguments.clone(),
            ),
        );
        assert(parts.deep_view() == earlier.push(calls[j as int]));
        assert(calls.take(j + 1) == calls.take(j as int).push(calls[j as int]));
        j = j + 1;
    }
    assert(calls.take(j as int) == calls);
    parts
}

impl api::CompletionResponse<CompletionResponse> {
    /// Turns a reply of the server into the application's form.
    pub fn try_from(response: CompletionResponse) -> (reply: Result<Self, CompletionError>)
        requires
            has_consistent_usage(response),
        ensures
            is_reply(response, reply),
    {
        if response.choices.is_empty() {
            return Err(response_error("Response contained no choices"));
        }
        assert(response.choices.deep_view()[0] == response.choices@[0].deep_view());
        let content = match &response.choices[0].message {
            Message::Assistant { content, tool_calls, reasoning, .. } => convert_answer(
                content,
                reasoning,
                tool_calls,
            ),
            _ => {
                return Err(
                    response_error("Response did not contain a valid message or tool call"),
                );
            },
        };
        let ghost parts = content.deep_view();
        let choice = match OneOrMany::many(content) {
            Ok(choice) => choice,
            Err(_) => {
                return Err(response_error("Response contained no message or tool call (empty)"));
            },
        };
        assert(choice.deep_view() == parts);
        let usage = match &response.usage {
            Some(usage) => api::Usage {
                input_tokens: usage.prompt_tokens as u64,
                output_tokens: (usage.total_tokens - usage.prompt_tokens) as u64,
                total_tokens: usage.total_tokens as u64,
            },
            None => api::Usage::new(),
        };
        Ok(api::CompletionResponse { choice, usage, raw_response: response })
    }
}

impl CompletionResponse {
    /// Tells whether the count of tokens makes sense wherever it is looked at.
    pub fn has_consistent_usage(&self) -> (consistent: bool)
        ensures
            consistent == has_consistent_usage(*self),
    {
        if self.choices.is_empty() {
            return true;
        }
        assert(self.choices.deep_view()[0] == self.choices@[0].deep_view());
        match &self.choices[0].message {
            Message::Assistant { content, tool_calls, reasoning, .. } => {
                let parts = convert_answer(content, reasoning, tool_calls);
                assert(parts.deep_view().len() == parts@.len());
                match &self.usage {
                    Some(usage) => parts.is_empty() || usage.is_consistent(),
                    None => true,
                }
            },
            _ => true,
        }
    }

    /// The id of the reply.
    pub fn get_response_id(&self) -> (id: Option<String>)
        ensures
            id == Some(self.id),
    {
        Some(self.id.clone())
    }

    /// The model that gave the reply.
    pub fn get_response_model_name(&self) -> (name: Option<String>)
        ensures
            name == Some(self.model),
    {
        Some(self.model.clone())
    }

    /// The answers in the reply.
    pub fn get_output_messages(&self) -> (messages: Vec<Choice>)
        ensures
            messages.deep_view() == self.choices.deep_view(),
    {
        let messages = self.choices.clone();
        assert(messages.deep_view() == self.choices.deep_view());
        messages
    }

    /// The text of the last answer, where that is a user message that starts with text.
    pub fn get_text_response(&self) -> (text: Option<String>)
        ensures
            text.deep_view() == (if self.choices@.len() > 0 {
                crate::completion::user_text(self.choices@.last().message.deep_view())
            } else {
                None
            }),
    {
        match self.choices.last() {
            Some(choice) => choice.message.user_text(),
            None => None,
        }
    }

    /// The tokens that the completion took.
    pub fn get_usage(&self) -> (usage: Option<Usage>)
        ensures
            usage == self.usage,
    {
        self.usage
    }
}

} // verus!
