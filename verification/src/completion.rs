//! The chat messages as the llama.cpp server takes and gives them.
use crate::api;
use crate::message::{AudioMediaType, ImageDetail};
use crate::one_or_many::OneOrMany;
use std::convert::Infallible;
use std::str::FromStr;
use vstd::prelude::*;
use vstd::std_specs::convert::FromSpecImpl;

verus! {

/// `qwen2.5` completion model
pub const QWEN2_5: &'static str = "qwen2.5";

/// `qwen3-8b` completion model
pub const QWEN3_8B: &'static str = "qwen3-8b";

/// A message of a conversation with the server.
#[derive(Debug, PartialEq)]
pub enum Message {
    System { content: OneOrMany<SystemContent>, name: Option<String> },
    User { content: OneOrMany<UserContent>, name: Option<String> },
    Assistant {
        content: Vec<AssistantContent>,
        refusal: Option<String>,
        reasoning: Option<String>,
        name: Option<String>,
        tool_calls: Vec<ToolCall>,
    },
    ToolResult { tool_call_id: String, content: OneOrMany<ToolResultContent> },
}

/// The model of a [`Message`].
pub enum MessageView {
    System { content: Seq<SystemContentView>, name: Option<Seq<char>> },
    User { content: Seq<UserContentView>, name: Option<Seq<char>> },
    Assistant {
        content: Seq<AssistantContentView>,
        refusal: Option<Seq<char>>,
        reasoning: Option<Seq<char>>,
        name: Option<Seq<char>>,
        tool_calls: Seq<ToolCallView>,
    },
    ToolResult { tool_call_id: Seq<char>, content: Seq<ToolResultContentView> },
}

impl DeepView for Message {
    type V = MessageView;

    open spec fn deep_view(&self) -> MessageView {
        match self {
            Message::System { content, name } => MessageView::System {
                content: content.deep_view(),
                name: name.deep_view(),
            },
            Message::User { content, name } => MessageView::User {
                content: content.deep_view(),
                name: name.deep_view(),
            },
            Message::Assistant { content, refusal, reasoning, name, tool_calls } =>
                MessageView::Assistant {
                content: content.deep_view(),
                refusal: refusal.deep_view(),
                reasoning: reasoning.deep_view(),
                name: name.deep_view(),
                tool_calls: tool_calls.deep_view(),
            },
            Message::ToolResult { tool_call_id, content } => MessageView::ToolResult {
                tool_call_id: tool_call_id@,
                content: content.deep_view(),
            },
        }
    }
}

/// A system message that holds `text` and nothing else.
pub open spec fn system_message(text: Seq<char>) -> MessageView {
    MessageView::System {
        content: seq![SystemContentView { kind: SystemContentType::Text, text }],
        name: None,
    }
}

/// The text of a user message that starts with text.
pub open spec fn user_text(message: MessageView) -> Option<Seq<char>> {
    match message {
        MessageView::User { content, name: _ } => match content[0] {
            UserContentView::Text { text } => Some(text),
            _ => None,
        },
        _ => None,
    }
}

/// The first text of a system message.
pub open spec fn system_text(message: MessageView) -> Option<Seq<char>> {
    match message {
        MessageView::System { content, name: _ } => Some(content[0].text),
        _ => None,
    }
}

impl Message {
    /// The text of a user message that starts with text.
    pub(crate) fn user_text(&self) -> (text: Option<String>)
        ensures
            text.deep_view() == user_text(self.deep_view()),
    {
        match self {
            Message::User { content, .. } => match content.first() {
                UserContent::Text { text } => Some(text.clone()),
                _ => None,
            },
            _ => None,
        }
    }

    /// The first text of a system message.
    pub(crate) fn system_text(&self) -> (text: Option<String>)
        ensures
            text.deep_view() == system_text(self.deep_view()),
    {
        match self {
            Message::System { content, .. } => Some(content.first().text.clone()),
            _ => None,
        }
    }

    /// A system message that holds `content` and nothing else.
    pub fn system(content: &str) -> (message: Self)
        ensures
            message.deep_view() == system_message(content@),
    {
        let message = Message::System {
            content: OneOrMany::one(SystemContent::from(content.to_owned())),
            name: None,
        };
        assert(message->System_content.deep_view() == seq![
            SystemContentView { kind: SystemContentType::Text, text: content@ },
        ]);
        message
    }
}

impl Clone for Message {
    fn clone(&self) -> (copy: Self)
        ensures
            copy.deep_view() == self.deep_view(),
    {
        match self {
            Message::System { content, name } => {
                let copy = content.clone();
                assert(copy.deep_view() == content.deep_view());
                Message::System { content: copy, name: name.clone() }
            },
            Message::User { content, name } => {
                let copy = content.clone();
                assert(copy.deep_view() == content.deep_view());
                Message::User { content: copy, name: name.clone() }
            },
            Message::Assistant { content, refusal, reasoning, name, tool_calls } => {
                let content_copy = content.clone();
                let tool_calls_copy = tool_calls.clone();
                assert(content_copy.deep_view() == content.deep_view());
                assert(tool_calls_copy.deep_view() == tool_calls.deep_view());
                Message::Assistant {
                    content: content_copy,
                    refusal: refusal.clone(),
                    reasoning: reasoning.clone(),
                    name: name.clone(),
                    tool_calls: tool_calls_copy,
                }
            },
            Message::ToolResult { tool_call_id, content } => {
                let copy = content.clone();
                assert(copy.deep_view() == content.deep_view());
                Message::ToolResult { tool_call_id: tool_call_id.clone(), content: copy }
            },
        }
    }
}

/// A part of a system message.
#[derive(Debug, PartialEq)]
pub struct SystemContent {
    pub kind: SystemContentType,
    pub text: String,
}

/// The model of a [`SystemContent`].
pub struct SystemContentView {
    pub kind: SystemContentType,
    pub text: Seq<char>,
}

impl DeepView for SystemContent {
    type V = SystemContentView;

    open spec fn deep_view(&self) -> SystemContentView {
        SystemContentView { kind: self.kind, text: self.text@ }
    }
}

impl Clone for SystemContent {
    fn clone(&self) -> (copy: Self)
        ensures
            copy.deep_view() == self.deep_view(),
    {
        SystemContent { kind: self.kind, text: self.text.clone() }
    }
}

impl From<String> for SystemContent {
    fn from(s: String) -> Self {
        SystemContent { kind: SystemContentType::default(), text: s }
    }
}

impl FromSpecImpl<String> for SystemContent {
    open spec fn obeys_from_spec() -> bool {
        true
    }

    open spec fn from_spec(s: String) -> Self {
        SystemContent { kind: SystemContentType::Text, text: s }
    }
}

impl FromStr for SystemContent {
    type Err = Infallible;

    fn from_str(s: &str) -> (content: Result<Self, Infallible>)
        ensures
            content is Ok,
            content->Ok_0.deep_view() == (SystemContentView {
                kind: SystemContentType::Text,
                text: s@,
            }),
    {
        Ok(SystemContent { kind: SystemContentType::default(), text: s.to_string() })
    }
}

/// The kinds of system content.
#[derive(Debug, Clone, Copy, PartialEq, Eq, Structural)]
pub enum SystemContentType {
    Text,
}

impl Default for SystemContentType {
    fn default() -> (kind: Self)
        ensures
            kind == SystemContentType::Text,
    {
        SystemContentType::Text
    }
}

/// A part of an assistant message.
#[derive(Debug, PartialEq)]
pub enum AssistantContent {
    Text { text: String },
    Refusal { refusal: String },
    Reasoning { reasoning: String },
}

/// The model of an [`AssistantContent`].
pub enum AssistantContentView {
    Text { text: Seq<char> },
    Refusal { refusal: Seq<char> },
    Reasoning { reasoning: Seq<char> },
}

impl DeepView for AssistantContent {
    type V = AssistantContentView;

    open spec fn deep_view(&self) -> AssistantContentView {
        match self {
            AssistantContent::Text { text } => AssistantContentView::Text { text: text@ },
            AssistantContent::Refusal { refusal } => AssistantContentView::Refusal {
                refusal: refusal@,
            },
            AssistantContent::Reasoning { reasoning } => AssistantContentView::Reasoning {
                reasoning: reasoning@,
            },
        }
    }
}

impl Clone for AssistantContent {
    fn clone(&self) -> (copy: Self)
        ensures
            copy.deep_view() == self.deep_view(),
    {
        match self {
            AssistantContent::Text { text } => AssistantContent::Text { text: text.clone() },
            AssistantContent::Refusal { refusal } => AssistantContent::Refusal {
                refusal: refusal.clone(),
            },
            AssistantContent::Reasoning { reasoning } => AssistantContent::Reasoning {
                reasoning: reasoning.clone(),
            },
        }
    }
}

impl From<String> for AssistantContent {
    fn from(s: String) -> Self {
        AssistantContent::Text { text: s }
    }
}

impl FromSpecImpl<String> for AssistantContent {
    open spec fn obeys_from_spec() -> bool {
        true
    }

    open spec fn from_spec(s: String) -> Self {
        AssistantContent::Text { text: s }
    }
}

impl FromStr for AssistantContent {
    type Err = Infallible;

    fn from_str(s: &str) -> (content: Result<Self, Infallible>)
        ensures
            content is Ok,
            content->Ok_0.deep_view() == (AssistantContentView::Text { text: s@ }),
    {
        Ok(AssistantContent::Text { text: s.to_string() })
    }
}

/// A part of a user message.
#[derive(Debug, PartialEq)]
pub enum UserContent {
    Text { text: String },
    Image { image_url: ImageUrl },
    Audio { input_audio: InputAudio },
}

/// The model of a [`UserContent`].
pub enum UserContentView {
    Text { text: Seq<char> },
    Image { image_url: ImageUrlView },
    Audio { input_audio: InputAudioView },
}

impl DeepView for UserContent {
    type V = UserContentView;

    open spec fn deep_view(&self) -> UserContentView {
        match self {
            UserContent::Text { text } => UserContentView::Text { text: text@ },
            UserContent::Image { image_url } => UserContentView::Image {
                image_url: image_url.deep_view(),
            },
            UserContent::Audio { input_audio } => UserContentView::Audio {
                input_audio: input_audio.deep_view(),
            },
        }
    }
}

impl Clone for UserContent {
    fn clone(&self) -> (copy: Self)
        ensures
            copy.deep_view() == self.deep_view(),
    {
        match self {
            UserContent::Text { text } => UserContent::Text { text: text.clone() },
            UserContent::Image { image_url } => UserContent::Image {
                image_url: image_url.clone(),
            },
            UserContent::Audio { input_audio } => UserContent::Audio {
                input_audio: input_audio.clone(),
            },
        }
    }
}

impl From<String> for UserContent {
    fn from(s: String) -> Self {
        UserContent::Text { text: s }
    }
}

impl FromSpecImpl<String> for UserContent {
    open spec fn obeys_from_spec() -> bool {
        true
    }

    open spec fn from_spec(s: String) -> Self {
        UserContent::Text { text: s }
    }
}

impl FromStr for UserContent {
    type Err = Infallible;

    fn from_str(s: &str) -> (content: Result<Self, Infallible>)
        ensures
            content is Ok,
            content->Ok_0.deep_view() == (UserContentView::Text { text: s@ }),
    {
        Ok(UserContent::Text { text: s.to_string() })
    }
}

/// An image that is found at a URL.
#[derive(Debug, PartialEq)]
pub struct ImageUrl {
    pub url: String,
    pub detail: ImageDetail,
}

/// The model of an [`ImageUrl`].
pub struct ImageUrlView {
    pub url: Seq<char>,
    pub detail: ImageDetail,
}

impl DeepView for ImageUrl {
    type V = ImageUrlView;

    open spec fn deep_view(&self) -> ImageUrlView {
        ImageUrlView { url: self.url@, detail: self.detail }
    }
}

impl Clone for ImageUrl {
    fn clone(&self) -> (copy: Self)
        ensures
            copy.deep_view() == self.deep_view(),
    {
        ImageUrl { url: self.url.clone(), detail: self.detail }
    }
}

/// A recording of sound, in base 64.
#[derive(Debug, PartialEq)]
pub struct InputAudio {
    pub data: String,
    pub format: AudioMediaType,
}

/// The model of an [`InputAudio`].
pub struct InputAudioView {
    pub data: Seq<char>,
    pub format: AudioMediaType,
}

impl DeepView for InputAudio {
    type V = InputAudioView;

    open spec fn deep_view(&self) -> InputAudioView {
        InputAudioView { data: self.data@, format: self.format }
    }
}

impl Clone for InputAudio {
    fn clone(&self) -> (copy: Self)
        ensures
            copy.deep_view() == self.deep_view(),
    {
        InputAudio { data: self.data.clone(), format: self.format }
    }
}

/// A part of what a tool call gave.
#[derive(Debug, PartialEq)]
pub struct ToolResultContent {
    pub kind: ToolResultContentType,
    pub text: String,
}

/// The model of a [`ToolResultContent`].
pub struct ToolResultContentView {
    pub kind: ToolResultContentType,
    pub text: Seq<char>,
}

impl DeepView for ToolResultContent {
    type V = ToolResultContentView;

    open spec fn deep_view(&self) -> ToolResultContentView {
        ToolResultContentView { kind: self.kind, text: self.text@ }
    }
}

impl Clone for ToolResultContent {
    fn clone(&self) -> (copy: Self)
        ensures
            copy.deep_view() == self.deep_view(),
    {
        ToolResultContent { kind: self.kind, text: self.text.clone() }
    }
}

impl From<String> for ToolResultContent {
    fn from(s: String) -> Self {
        ToolResultContent { kind: ToolResultContentType::default(), text: s }
    }
}

impl FromSpecImpl<String> for ToolResultContent {
    open spec fn obeys_from_spec() -> bool {
        true
    }

    open spec fn from_spec(s: String) -> Self {
        ToolResultContent { kind: ToolResultContentType::Text, text: s }
    }
}

impl FromStr for ToolResultContent {
    type Err = Infallible;

    fn from_str(s: &str) -> (content: Result<Self, Infallible>)
        ensures
            content is Ok,
            content->Ok_0.deep_view() == (ToolResultContentView {
                kind: ToolResultContentType::Text,
                text: s@,
            }),
    {
        Ok(ToolResultContent::from(s.to_owned()))
    }
}

/// The kinds of tool result content.
#[derive(Debug, Clone, Copy, PartialEq, Eq, Structural)]
pub enum ToolResultContentType {
    Text,
}

impl Default for ToolResultContentType {
    fn default() -> (kind: Self)
        ensures
            kind == ToolResultContentType::Text,
    {
        ToolResultContentType::Text
    }
}

/// The request of an assistant to run a tool.
#[derive(Debug, PartialEq)]
pub struct ToolCall {
    pub id: String,
    pub kind: ToolType,
    pub function: Function,
}

/// The model of a [`ToolCall`].
pub struct ToolCallView {
    pub id: Seq<char>,
    pub kind: ToolType,
    pub function: FunctionView,
}

impl DeepView for ToolCall {
    type V = ToolCallView;

    open spec fn deep_view(&self) -> ToolCallView {
        ToolCallView { id: self.id@, kind: self.kind, function: self.function.deep_view() }
    }
}

impl Clone for ToolCall {
    fn clone(&self) -> (copy: Self)
        ensures
            copy.deep_view() == self.deep_view(),
    {
        ToolCall { id: self.id.clone(), kind: self.kind, function: self.function.clone() }
    }
}

/// The kinds of tools.
#[derive(Debug, Clone, Copy, PartialEq, Eq, Structural)]
pub enum ToolType {
    Function,
}

impl Default for ToolType {
    fn default() -> (kind: Self)
        ensures
            kind == ToolType::Function,
    {
        ToolType::Function
    }
}

/// The function that a tool call names, and its arguments.
#[derive(Debug, PartialEq)]
pub struct Function {
    pub name: String,
    pub arguments: serde_json::Value,
}

/// The model of a [`Function`].
pub struct FunctionView {
    pub name: Seq<char>,
    pub arguments: serde_json::Value,
}

impl DeepView for Function {
    type V = FunctionView;

    open spec fn deep_view(&self) -> FunctionView {
        FunctionView { name: self.name@, arguments: self.arguments }
    }
}

impl Clone for Function {
    fn clone(&self) -> (copy: Self)
        ensures
            copy.deep_view() == self.deep_view(),
    {
        Function { name: self.name.clone(), arguments: self.arguments.clone() }
    }
}

/// A tool that the server may ask for.
#[derive(Debug, Clone, PartialEq)]
pub struct ToolDefinition {
    pub kind: String,
    pub function: api::ToolDefinition,
}

/// The model of a [`ToolDefinition`].
pub struct ToolDefinitionView {
    pub kind: Seq<char>,
    pub function: api::ToolDefinitionView,
}

impl DeepView for ToolDefinition {
    type V = ToolDefinitionView;

    open spec fn deep_view(&self) -> ToolDefinitionView {
        ToolDefinitionView { kind: self.kind@, function: self.function.deep_view() }
    }
}

/// The server's form of a tool: a function.
pub open spec fn function_tool(tool: api::ToolDefinitionView) -> ToolDefinitionView {
    ToolDefinitionView { kind: "function"@, function: tool }
}

impl From<api::ToolDefinition> for ToolDefinition {
    fn from(tool: api::ToolDefinition) -> (definition: Self)
        ensures
            definition.function == tool,
            definition.deep_view() == function_tool(tool.deep_view()),
    {
        ToolDefinition { kind: "function".to_owned(), function: tool }
    }
}

impl FromSpecImpl<api::ToolDefinition> for ToolDefinition {
    open spec fn obeys_from_spec() -> bool {
        false
    }

    open spec fn from_spec(tool: api::ToolDefinition) -> Self {
        arbitrary()
    }
}

/// Which tools the assistant may or must use.
#[derive(Debug, Clone, Copy, PartialEq, Eq, Structural)]
pub enum ToolChoice {
    Auto,
    /// No tool.
    Never,
    Required,
}

impl Default for ToolChoice {
    fn default() -> (choice: Self)
        ensures
            choice == ToolChoice::Auto,
    {
        ToolChoice::Auto
    }
}

} // verus!
