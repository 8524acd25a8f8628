//! The chat messages that an application exchanges with any provider.
use crate::one_or_many::OneOrMany;
use vstd::prelude::*;

verus! {

/// Why a message could not be turned into another form.
#[derive(Debug, Clone, PartialEq)]
pub enum MessageError {
    ConversionError(String),
}

impl DeepView for MessageError {
    type V = Seq<char>;

    open spec fn deep_view(&self) -> Seq<char> {
        match self {
            MessageError::ConversionError(reason) => reason@,
        }
    }
}

impl MessageError {
    /// The failure to convert a message, for the given reason.
    pub(crate) fn conversion(reason: &str) -> (error: Self)
        ensures
            error.deep_view() == reason@,
    {
        MessageError::ConversionError(reason.to_owned())
    }
}

/// A turn of a conversation.
#[derive(Debug, Clone, PartialEq)]
pub enum Message {
    User { content: OneOrMany<UserContent> },
    Assistant { id: Option<String>, content: OneOrMany<AssistantContent> },
}

/// The model of a [`Message`].
pub enum MessageView {
    User { content: Seq<UserContentView> },
    Assistant { id: Option<Seq<char>>, content: Seq<AssistantContentView> },
}

impl DeepView for Message {
    type V = MessageView;

    open spec fn deep_view(&self) -> MessageView {
        match self {
            Message::User { content } => MessageView::User { content: content.deep_view() },
            Message::Assistant { id, content } => MessageView::Assistant {
                id: id.deep_view(),
                content: content.deep_view(),
            },
        }
    }
}

/// A part of what a user says.
#[derive(Debug, Clone, PartialEq)]
pub enum UserContent {
    Text(Text),
    ToolResult(ToolResult),
    Image(Image),
    Audio(Audio),
    Video(Video),
    Document(Document),
}

/// The model of a [`UserContent`].
pub enum UserContentView {
    Text(Seq<char>),
    ToolResult(ToolResultView),
    Image(ImageView),
    Audio(AudioView),
    Video(VideoView),
    Document(DocumentView),
}

impl DeepView for UserContent {
    type V = UserContentView;

    open spec fn deep_view(&self) -> UserContentView {
        match self {
            UserContent::Text(text) => UserContentView::Text(text.deep_view()),
            UserContent::ToolResult(result) => UserContentView::ToolResult(result.deep_view()),
            UserContent::Image(image) => UserContentView::Image(image.deep_view()),
            UserContent::Audio(audio) => UserContentView::Audio(audio.deep_view()),
            UserContent::Video(video) => UserContentView::Video(video.deep_view()),
            UserContent::Document(document) => UserContentView::Document(document.deep_view()),
        }
    }
}

impl UserContent {
    /// Plain text.
    pub fn text(text: String) -> (content: Self)
        ensures
            content.deep_view() == UserContentView::Text(text@),
    {
        UserContent::Text(Text { text })
    }

    /// An image that is found at `url`.
    pub fn image_url(
        url: String,
        media_type: Option<ImageMediaType>,
        detail: Option<ImageDetail>,
    ) -> (content: Self)
        ensures
            content.deep_view() == UserContentView::Image(
                ImageView {
                    data: DocumentSourceView::Url(url@),
                    media_type,
                    detail,
                    additional_params: None,
                },
            ),
    {
        UserContent::Image(
            Image {
                data: DocumentSourceKind::Url(url),
                media_type,
                detail,
                additional_params: None,
            },
        )
    }

    /// Audio in base 64.
    pub fn audio(data: String, media_type: Option<AudioMediaType>) -> (content: Self)
        ensures
            content.deep_view() == UserContentView::Audio(
                AudioView {
                    data: DocumentSourceView::Base64(data@),
                    media_type,
                    additional_params: None,
                },
            ),
    {
        UserContent::Audio(
            Audio { data: DocumentSourceKind::Base64(data), media_type, additional_params: None },
        )
    }

    /// What the tool call `id` gave.
    pub fn tool_result(id: String, content: OneOrMany<ToolResultContent>) -> (result: Self)
        ensures
            result.deep_view() == UserContentView::ToolResult(
                ToolResultView { id: id@, call_id: None, content: content.deep_view() },
            ),
    {
        UserContent::ToolResult(ToolResult { id, call_id: None, content })
    }
}

/// A part of what an assistant says.
#[derive(Debug, Clone, PartialEq)]
pub enum AssistantContent {
    Text(Text),
    ToolCall(ToolCall),
    Reasoning(Reasoning),
}

/// The model of an [`AssistantContent`].
pub enum AssistantContentView {
    Text(Seq<char>),
    ToolCall(ToolCallView),
    Reasoning(ReasoningView),
}

impl DeepView for AssistantContent {
    type V = AssistantContentView;

    open spec fn deep_view(&self) -> AssistantContentView {
        match self {
            AssistantContent::Text(text) => AssistantContentView::Text(text.deep_view()),
            AssistantContent::ToolCall(call) => AssistantContentView::ToolCall(call.deep_view()),
            AssistantContent::Reasoning(reasoning) => AssistantContentView::Reasoning(
                reasoning.deep_view(),
            ),
        }
    }
}

impl AssistantContent {
    /// Plain text.
    pub fn text(text: String) -> (content: Self)
        ensures
            content.deep_view() == AssistantContentView::Text(text@),
    {
        AssistantContent::Text(Text { text })
    }

    /// A call of the tool `name`.
    pub fn tool_call(id: String, name: String, arguments: serde_json::Value) -> (content: Self)
        ensures
            content.deep_view() == AssistantContentView::ToolCall(
                ToolCallView {
                    id: id@,
                    call_id: None,
                    function: ToolFunctionView { name: name@, arguments },
                },
            ),
    {
        AssistantContent::ToolCall(
            ToolCall { id, call_id: None, function: ToolFunction { name, arguments } },
        )
    }
}

/// The steps by which an assistant came to an answer.
#[derive(Debug, Clone, PartialEq)]
pub struct Reasoning {
    pub id: Option<String>,
    pub reasoning: Vec<String>,
}

/// The model of a [`Reasoning`].
pub struct ReasoningView {
    pub id: Option<Seq<char>>,
    pub reasoning: Seq<Seq<char>>,
}

impl DeepView for Reasoning {
    type V = ReasoningView;

    open spec fn deep_view(&self) -> ReasoningView {
        ReasoningView { id: self.id.deep_view(), reasoning: self.reasoning.deep_view() }
    }
}

/// Reasoning of one step.
pub open spec fn single_step(text: Seq<char>) -> ReasoningView {
    ReasoningView { id: None, reasoning: seq![text] }
}

impl Reasoning {
    /// Reasoning of one step.
    pub fn new(input: &str) -> (reasoning: Self)
        ensures
            reasoning.deep_view() == single_step(input@),
    {
        let mut steps: Vec<String> = Vec::new();
        steps.push(input.to_string());
        let reasoning = Reasoning { id: None, reasoning: steps };
        assert(reasoning.reasoning.deep_view() == seq![input@]);
        reasoning
    }
}

/// What a tool call gave.
#[derive(Debug, Clone, PartialEq)]
pub struct ToolResult {
    pub id: String,
    pub call_id: Option<String>,
    pub content: OneOrMany<ToolResultContent>,
}

/// The model of a [`ToolResult`].
pub struct ToolResultView {
    pub id: Seq<char>,
    pub call_id: Option<Seq<char>>,
    pub content: Seq<ToolResultContentView>,
}

impl DeepView for ToolResult {
    type V = ToolResultView;

    open spec fn deep_view(&self) -> ToolResultView {
        ToolResultView {
            id: self.id@,
            call_id: self.call_id.deep_view(),
            content: self.content.deep_view(),
        }
    }
}

/// A part of what a tool call gave.
#[derive(Debug, Clone, PartialEq)]
pub enum ToolResultContent {
    Text(Text),
    Image(Image),
}

/// The model of a [`ToolResultContent`].
pub enum ToolResultContentView {
    Text(Seq<char>),
    Image(ImageView),
}

impl DeepView for ToolResultContent {
    type V = ToolResultContentView;

    open spec fn deep_view(&self) -> ToolResultContentView {
        match self {
            ToolResultContent::Text(text) => ToolResultContentView::Text(text.deep_view()),
            ToolResultContent::Image(image) => ToolResultContentView::Image(image.deep_view()),
        }
    }
}

impl ToolResultContent {
    /// Plain text.
    pub fn text(text: String) -> (content: Self)
        ensures
            content.deep_view() == ToolResultContentView::Text(text@),
    {
        ToolResultContent::Text(Text { text })
    }
}

/// The request of an assistant to run a tool.
#[derive(Debug, Clone, PartialEq)]
pub struct ToolCall {
    pub id: String,
    pub call_id: Option<String>,
    pub function: ToolFunction,
}

/// The model of a [`ToolCall`].
pub struct ToolCallView {
    pub id: Seq<char>,
    pub call_id: Option<Seq<char>>,
    pub function: ToolFunctionView,
}

impl DeepView for ToolCall {
    type V = ToolCallView;

    open spec fn deep_view(&self) -> ToolCallView {
        ToolCallView {
            id: self.id@,
            call_id: self.call_id.deep_view(),
            function: self.function.deep_view(),
        }
    }
}

/// The function that a tool call names, and its arguments.
#[derive(Debug, Clone, PartialEq)]
pub struct ToolFunction {
    pub name: String,
    pub arguments: serde_json::Value,
}

/// The model of a [`ToolFunction`].
pub struct ToolFunctionView {
    pub name: Seq<char>,
    pub arguments: serde_json::Value,
}

impl DeepView for ToolFunction {
    type V = ToolFunctionView;

    open spec fn deep_view(&self) -> ToolFunctionView {
        ToolFunctionView { name: self.name@, arguments: self.arguments }
    }
}

/// Which tools an assistant may or must use.
#[derive(Debug, Clone, PartialEq)]
pub enum ToolChoice {
    Auto,
    /// No tool.
    Never,
    Required,
    Specific { function_names: Vec<String> },
}

/// Plain text.
#[derive(Debug, Clone, PartialEq)]
pub struct Text {
    pub text: String,
}

impl DeepView for Text {
    type V = Seq<char>;

    open spec fn deep_view(&self) -> Seq<char> {
        self.text@
    }
}

/// Where the data of an image, a recording or a document is.
#[derive(Debug, Clone, PartialEq)]
pub enum DocumentSourceKind {
    /// At a URL.
    Url(String),
    /// Here, in base 64.
    Base64(String),
    /// Here, as bytes.
    Raw(Vec<u8>),
    /// Here, as text.
    String(String),
    /// Nowhere.
    Unknown,
}

/// The model of a [`DocumentSourceKind`].
pub enum DocumentSourceView {
    Url(Seq<char>),
    Base64(Seq<char>),
    Raw(Seq<u8>),
    String(Seq<char>),
    Unknown,
}

impl DeepView for DocumentSourceKind {
    type V = DocumentSourceView;

    open spec fn deep_view(&self) -> DocumentSourceView {
        match self {
            DocumentSourceKind::Url(url) => DocumentSourceView::Url(url@),
            DocumentSourceKind::Base64(data) => DocumentSourceView::Base64(data@),
            DocumentSourceKind::Raw(data) => DocumentSourceView::Raw(data@),
            DocumentSourceKind::String(text) => DocumentSourceView::String(text@),
            DocumentSourceKind::Unknown => DocumentSourceView::Unknown,
        }
    }
}

/// An image.
#[derive(Debug, Clone, PartialEq)]
pub struct Image {
    pub data: DocumentSourceKind,
    pub media_type: Option<ImageMediaType>,
    pub detail: Option<ImageDetail>,
    pub additional_params: Option<serde_json::Value>,
}

/// The model of an [`Image`].
pub struct ImageView {
    pub data: DocumentSourceView,
    pub media_type: Option<ImageMediaType>,
    pub detail: Option<ImageDetail>,
    pub additional_params: Option<serde_json::Value>,
}

impl DeepView for Image {
    type V = ImageView;

    open spec fn deep_view(&self) -> ImageView {
        ImageView {
            data: self.data.deep_view(),
            media_type: self.media_type,
            detail: self.detail,
            additional_params: self.additional_params,
        }
    }
}

/// A recording of sound.
#[derive(Debug, Clone, PartialEq)]
pub struct Audio {
    pub data: DocumentSourceKind,
    pub media_type: Option<AudioMediaType>,
    pub additional_params: Option<serde_json::Value>,
}

/// The model of an [`Audio`].
pub struct AudioView {
    pub data: DocumentSourceView,
    pub media_type: Option<AudioMediaType>,
    pub additional_params: Option<serde_json::Value>,
}

impl DeepView for Audio {
    type V = AudioView;

    open spec fn deep_view(&self) -> AudioView {
        AudioView {
            data: self.data.deep_view(),
            media_type: self.media_type,
            additional_params: self.additional_params,
        }
    }
}

/// A recording of moving pictures.
#[derive(Debug, Clone, PartialEq)]
pub struct Video {
    pub data: DocumentSourceKind,
    pub media_type: Option<VideoMediaType>,
    pub additional_params: Option<serde_json::Value>,
}

/// The model of a [`Video`].
pub struct VideoView {
    pub data: DocumentSourceView,
    pub media_type: Option<VideoMediaType>,
    pub additional_params: Option<serde_json::Value>,
}

impl DeepView for Video {
    type V = VideoView;

    open spec fn deep_view(&self) -> VideoView {
        VideoView {
            data: self.data.deep_view(),
            media_type: self.media_type,
            additional_params: self.additional_params,
        }
    }
}

/// A document.
#[derive(Debug, Clone, PartialEq)]
pub struct Document {
    pub data: DocumentSourceKind,
    pub media_type: Option<DocumentMediaType>,
    pub additional_params: Option<serde_json::Value>,
}

/// The model of a [`Document`].
pub struct DocumentView {
    pub data: DocumentSourceView,
    pub media_type: Option<DocumentMediaType>,
    pub additional_params: Option<serde_json::Value>,
}

impl DeepView for Document {
    type V = DocumentView;

    open spec fn deep_view(&self) -> DocumentView {
        DocumentView {
            data: self.data.deep_view(),
            media_type: self.media_type,
            additional_params: self.additional_params,
        }
    }
}

/// The formats of an image.
#[derive(Debug, Clone, Copy, PartialEq, Eq, Structural)]
pub enum ImageMediaType {
    JPEG,
    PNG,
    GIF,
    WEBP,
    HEIC,
    HEIF,
    SVG,
}

/// The MIME type of an image format.
pub open spec fn image_mime_type(format: ImageMediaType) -> Seq<char> {
    match format {
        ImageMediaType::JPEG => "image/jpeg"@,
        ImageMediaType::PNG => "image/png"@,
        ImageMediaType::GIF => "image/gif"@,
        ImageMediaType::WEBP => "image/webp"@,
        ImageMediaType::HEIC => "image/heic"@,
        ImageMediaType::HEIF => "image/heif"@,
        ImageMediaType::SVG => "image/svg+xml"@,
    }
}

impl ImageMediaType {
    /// The MIME type of the format.
    pub fn to_mime_type(&self) -> (mime: &'static str)
        ensures
            mime@ == image_mime_type(*self),
    {
        match self {
            ImageMediaType::JPEG => "image/jpeg",
            ImageMediaType::PNG => "image/png",
            ImageMediaType::GIF => "image/gif",
            ImageMediaType::WEBP => "image/webp",
            ImageMediaType::HEIC => "image/heic",
            ImageMediaType::HEIF => "image/heif",
            ImageMediaType::SVG => "image/svg+xml",
        }
    }
}

/// How closely an image is to be looked at.
#[derive(Debug, Clone, Copy, PartialEq, Eq, Structural)]
pub enum ImageDetail {
    Low,
    High,
    Auto,
}

impl Default for ImageDetail {
    fn default() -> (detail: Self)
        ensures
            detail == ImageDetail::Auto,
    {
        ImageDetail::Auto
    }
}

/// The formats of a recording of sound.
#[derive(Debug, Clone, Copy, PartialEq, Eq, Structural)]
pub enum AudioMediaType {
    WAV,
    MP3,
    AIFF,
    AAC,
    OGG,
    FLAC,
}

/// The formats of a recording of moving pictures.
#[derive(Debug, Clone, Copy, PartialEq, Eq, Structural)]
pub enum VideoMediaType {
    AVI,
    MP4,
    MPEG,
}

/// The formats of a document.
#[derive(Debug, Clone, Copy, PartialEq, Eq, Structural)]
pub enum DocumentMediaType {
    PDF,
    TXT,
    RTF,
    HTML,
    CSS,
    MARKDOWN,
    CSV,
    XML,
    Javascript,
    Python,
}

} // verus!
