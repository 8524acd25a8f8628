//! Requests, replies and errors of a completion, whichever provider serves it.
use crate::message::{AssistantContent, Message, MessageError, ToolChoice};
use crate::one_or_many::OneOrMany;
use vstd::prelude::*;

verus! {

/// Why a completion failed.
#[derive(Debug, Clone, PartialEq)]
pub enum CompletionError {
    /// The request could not be put into the provider's form.
    RequestError(MessageError),
    /// The reply could not be made sense of.
    ResponseError(String),
    /// The provider refused or does not support the request.
    ProviderError(String),
}

/// The model of a [`CompletionError`].
pub enum CompletionErrorView {
    RequestError(Seq<char>),
    ResponseError(Seq<char>),
    ProviderError(Seq<char>),
}

impl DeepView for CompletionError {
    type V = CompletionErrorView;

    open spec fn deep_view(&self) -> CompletionErrorView {
        match self {
            CompletionError::RequestError(error) => CompletionErrorView::RequestError(
                error.deep_view(),
            ),
            CompletionError::ResponseError(reason) => CompletionErrorView::ResponseError(reason@),
            CompletionError::ProviderError(reason) => CompletionErrorView::ProviderError(reason@),
        }
    }
}

/// A tool that an assistant may call.
#[derive(Debug, Clone, PartialEq)]
pub struct ToolDefinition {
    pub name: String,
    pub description: String,
    pub parameters: serde_json::Value,
}

/// The model of a [`ToolDefinition`].
pub struct ToolDefinitionView {
    pub name: Seq<char>,
    pub description: Seq<char>,
    pub parameters: serde_json::Value,
}

impl DeepView for ToolDefinition {
    type V = ToolDefinitionView;

    open spec fn deep_view(&self) -> ToolDefinitionView {
        ToolDefinitionView {
            name: self.name@,
            description: self.description@,
            parameters: self.parameters,
        }
    }
}

/// A request for a completion. `F` is the type of the sampling temperature, which is carried
/// through and never read.
#[derive(Debug, Clone, PartialEq)]
pub struct CompletionRequest<F> {
    /// What the system tells the assistant ahead of the conversation.
    pub preamble: Option<String>,
    /// The documents that go with the conversation, put into one message.
    pub documents: Option<Message>,
    /// The conversation.
    pub chat_history: OneOrMany<Message>,
    pub tools: Vec<ToolDefinition>,
    pub temperature: Option<F>,
    pub max_tokens: Option<u64>,
    pub tool_choice: Option<ToolChoice>,
    pub additional_params: Option<serde_json::Value>,
}

/// The tokens that a completion took.
#[derive(Debug, Clone, Copy, PartialEq, Eq, Structural)]
pub struct Usage {
    pub input_tokens: u64,
    pub output_tokens: u64,
    pub total_tokens: u64,
}

impl Usage {
    /// No tokens.
    pub fn new() -> (usage: Self)
        ensures
            usage == (Usage { input_tokens: 0, output_tokens: 0, total_tokens: 0 }),
    {
        Usage { input_tokens: 0, output_tokens: 0, total_tokens: 0 }
    }
}

/// The reply to a completion request, with the provider's own form of it.
#[derive(Debug, Clone, PartialEq)]
pub struct CompletionResponse<R> {
    pub choice: OneOrMany<AssistantContent>,
    pub usage: Usage,
    pub raw_response: R,
}

} // verus!
