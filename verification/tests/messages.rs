//! Messages in the server's form and back.
use llama_cpp::api::CompletionError;
use llama_cpp::message;
use llama_cpp::message::{
    AudioMediaType, DocumentMediaType, DocumentSourceKind, ImageDetail, ImageMediaType,
    MessageError, VideoMediaType,
};
use llama_cpp::{
    AssistantContent, Function, ImageUrl, InputAudio, Message, OneOrMany, SystemContent,
    SystemContentType, ToolCall, ToolChoice, ToolDefinition, ToolResultContent,
    ToolResultContentType, ToolType, UserContent,
};
use serde_json::Value;
use std::str::FromStr;

fn json(text: &str) -> Value {
    serde_json::from_str(text).unwrap()
}

fn user(parts: Vec<message::UserContent>) -> message::Message {
    message::Message::User { content: OneOrMany::many(parts).unwrap() }
}

fn assistant(parts: Vec<message::AssistantContent>) -> message::Message {
    message::Message::Assistant { id: None, content: OneOrMany::many(parts).unwrap() }
}

fn text(text: &str) -> message::UserContent {
    message::UserContent::text(text.to_string())
}

fn image(
    data: DocumentSourceKind,
    media_type: Option<ImageMediaType>,
    detail: Option<ImageDetail>,
) -> message::UserContent {
    message::UserContent::Image(message::Image {
        data,
        media_type,
        detail,
        additional_params: None,
    })
}

fn audio(data: DocumentSourceKind, media_type: Option<AudioMediaType>) -> message::UserContent {
    message::UserContent::Audio(message::Audio { data, media_type, additional_params: None })
}

fn result(id: &str, parts: Vec<message::ToolResultContent>) -> message::UserContent {
    message::UserContent::tool_result(id.to_string(), OneOrMany::many(parts).unwrap())
}

fn sent(message: message::Message) -> Result<Vec<Message>, MessageError> {
    Vec::<Message>::try_from(message)
}

fn refused(message: message::Message) -> String {
    match sent(message) {
        Err(MessageError::ConversionError(reason)) => reason,
        Ok(messages) => panic!("sent as {:?}", messages),
    }
}

fn sent_user(parts: Vec<UserContent>) -> Result<Vec<Message>, MessageError> {
    Ok(vec![Message::User { content: OneOrMany::many(parts).unwrap(), name: None }])
}

#[test]
fn text_is_sent_as_text() {
    assert_eq!(
        sent(user(vec![text("hi"), text("there")])),
        sent_user(vec![
            UserContent::Text { text: "hi".to_string() },
            UserContent::Text { text: "there".to_string() },
        ])
    );
}

#[test]
fn image_at_a_url_gets_the_default_detail() {
    let url = DocumentSourceKind::Url("http://x/y.png".to_string());
    assert_eq!(
        sent(user(vec![image(url.clone(), None, None), image(url, None, Some(ImageDetail::High))])),
        sent_user(vec![
            UserContent::Image {
                image_url: ImageUrl { url: "http://x/y.png".to_string(), detail: ImageDetail::Auto },
            },
            UserContent::Image {
                image_url: ImageUrl { url: "http://x/y.png".to_string(), detail: ImageDetail::High },
            },
        ])
    );
}

#[test]
fn image_in_base_64_becomes_a_data_url() {
    let data = DocumentSourceKind::Base64("aGk=".to_string());
    assert_eq!(
        sent(user(vec![image(data, Some(ImageMediaType::PNG), Some(ImageDetail::Low))])),
        sent_user(vec![UserContent::Image {
            image_url: ImageUrl {
                url: "data:image/png;base64,aGk=".to_string(),
                detail: ImageDetail::Low,
            },
        }])
    );
}

#[test]
fn image_formats_have_their_mime_types() {
    assert_eq!(ImageMediaType::JPEG.to_mime_type(), "image/jpeg");
    assert_eq!(ImageMediaType::PNG.to_mime_type(), "image/png");
    assert_eq!(ImageMediaType::GIF.to_mime_type(), "image/gif");
    assert_eq!(ImageMediaType::WEBP.to_mime_type(), "image/webp");
    assert_eq!(ImageMediaType::HEIC.to_mime_type(), "image/heic");
    assert_eq!(ImageMediaType::HEIF.to_mime_type(), "image/heif");
    assert_eq!(ImageMediaType::SVG.to_mime_type(), "image/svg+xml");
}

#[test]
fn image_in_base_64_needs_a_media_type_first_and_a_detail_next() {
    let data = DocumentSourceKind::Base64("aGk=".to_string());
    assert_eq!(
        refused(user(vec![image(data.clone(), None, None)])),
        "LlamaCpp Image URI must have media type"
    );
    assert_eq!(
        refused(user(vec![image(data, Some(ImageMediaType::PNG), None)])),
        "LlamaCpp image URI must have image detail"
    );
}

#[test]
fn images_from_elsewhere_are_refused() {
    assert_eq!(
        refused(user(vec![image(DocumentSourceKind::Raw(vec![1, 2]), None, None)])),
        "Raw files not supported, encode as base64 first"
    );
    assert_eq!(
        refused(user(vec![image(DocumentSourceKind::Unknown, None, None)])),
        "Document has no body"
    );
    assert_eq!(
        refused(user(vec![image(
            DocumentSourceKind::String("a \"b\"\n".to_string()),
            None,
            None
        )])),
        "Unsupported document type: String(\"a \\\"b\\\"\\n\")"
    );
}

#[test]
fn unsupported_source_is_shown_as_it_is_debugged() {
    for shown in ["", "plain", "tab\tquote'", "\u{7f}\u{e9}\u{200b}\\"] {
        let source = DocumentSourceKind::String(shown.to_string());
        assert_eq!(
            refused(user(vec![image(source.clone(), None, None)])),
            format!("Unsupported document type: {:?}", source)
        );
    }
}

#[test]
fn document_in_base_64_is_sent_as_text() {
    let document = |data: DocumentSourceKind| {
        user(vec![message::UserContent::Document(message::Document {
            data,
            media_type: Some(DocumentMediaType::TXT),
            additional_params: None,
        })])
    };
    assert_eq!(
        sent(document(DocumentSourceKind::Base64("body".to_string()))),
        sent_user(vec![UserContent::Text { text: "body".to_string() }])
    );
    assert_eq!(
        refused(document(DocumentSourceKind::String("body".to_string()))),
        "Documents must be base64"
    );
}

#[test]
fn audio_is_mp3_unless_it_says_otherwise() {
    let data = DocumentSourceKind::Base64("c28=".to_string());
    assert_eq!(
        sent(user(vec![audio(data.clone(), None), audio(data, Some(AudioMediaType::WAV))])),
        sent_user(vec![
            UserContent::Audio {
                input_audio: InputAudio { data: "c28=".to_string(), format: AudioMediaType::MP3 },
            },
            UserContent::Audio {
                input_audio: InputAudio { data: "c28=".to_string(), format: AudioMediaType::WAV },
            },
        ])
    );
}

#[test]
fn audio_from_elsewhere_and_video_are_refused() {
    assert_eq!(
        refused(user(vec![audio(DocumentSourceKind::Url("http://x".to_string()), None)])),
        "Tool result is in unsupported format"
    );
    assert_eq!(
        refused(user(vec![message::UserContent::Video(message::Video {
            data: DocumentSourceKind::Base64("dg==".to_string()),
            media_type: Some(VideoMediaType::MP4),
            additional_params: None,
        })])),
        "Tool result is in unsupported format"
    );
}

#[test]
fn first_bad_part_gives_the_reason() {
    assert_eq!(
        refused(user(vec![
            text("ok"),
            image(DocumentSourceKind::Unknown, None, None),
            image(DocumentSourceKind::Raw(vec![]), None, None),
        ])),
        "Document has no body"
    );
}

#[test]
fn tool_results_are_sent_one_by_one_and_displace_the_rest() {
    let one = message::ToolResultContent::text("42".to_string());
    let two = message::ToolResultContent::text("50".to_string());
    let expected = vec![
        Message::ToolResult {
            tool_call_id: "a".to_string(),
            content: OneOrMany::one(ToolResultContent::from("42".to_string())),
        },
        Message::ToolResult {
            tool_call_id: "b".to_string(),
            content: OneOrMany::many(vec![
                ToolResultContent::from("42".to_string()),
                ToolResultContent::from("50".to_string()),
            ])
            .unwrap(),
        },
    ];
    assert_eq!(
        sent(user(vec![
            text("dropped"),
            result("a", vec![one.clone()]),
            image(DocumentSourceKind::Unknown, None, None),
            result("b", vec![one, two]),
        ])),
        Ok(expected)
    );
}

#[test]
fn tool_result_must_be_text() {
    let picture = message::ToolResultContent::Image(message::Image {
        data: DocumentSourceKind::Unknown,
        media_type: None,
        detail: None,
        additional_params: None,
    });
    assert_eq!(
        refused(user(vec![result("a", vec![picture])])),
        "Tool result content does not support non-text"
    );
}

fn call(id: &str, call_id: Option<&str>) -> message::ToolCall {
    message::ToolCall {
        id: id.to_string(),
        call_id: call_id.map(|id| id.to_string()),
        function: message::ToolFunction {
            name: "calculator".to_string(),
            arguments: json("{\"x\": 15, \"y\": 27}"),
        },
    }
}

fn server_call(id: &str) -> ToolCall {
    ToolCall {
        id: id.to_string(),
        kind: ToolType::Function,
        function: Function {
            name: "calculator".to_string(),
            arguments: json("{\"x\": 15, \"y\": 27}"),
        },
    }
}

#[test]
fn assistant_message_is_sent_with_reasoning_first() {
    let thoughts = |steps: Vec<&str>| {
        message::AssistantContent::Reasoning(message::Reasoning {
            id: None,
            reasoning: steps.into_iter().map(|step| step.to_string()).collect(),
        })
    };
    let words = |text: &str| message::AssistantContent::text(text.to_string());
    let message = assistant(vec![
        words("a"),
        message::AssistantContent::ToolCall(call("1", None)),
        thoughts(vec!["x", "y"]),
        words("b"),
        thoughts(vec!["z"]),
    ]);
    let expected = Message::Assistant {
        content: vec![
            AssistantContent::Reasoning { reasoning: "x\ny\nz".to_string() },
            AssistantContent::Text { text: "a".to_string() },
            AssistantContent::Text { text: "b".to_string() },
        ],
        refusal: None,
        reasoning: None,
        name: None,
        tool_calls: vec![server_call("1")],
    };
    let form = sent(message).unwrap();
    assert_eq!(form, vec![expected.clone()]);

    let back = message::Message::try_from(expected).unwrap();
    assert_eq!(
        back,
        assistant(vec![
            thoughts(vec!["x\ny\nz"]),
            words("a"),
            words("b"),
            message::AssistantContent::ToolCall(call("1", None)),
        ])
    );
    assert_eq!(sent(back).unwrap(), form);
}

#[test]
fn plain_assistant_message_comes_through_unchanged() {
    let message = assistant(vec![
        message::AssistantContent::text("a".to_string()),
        message::AssistantContent::text("b".to_string()),
        message::AssistantContent::ToolCall(call("1", None)),
    ]);
    let mut form = sent(message.clone()).unwrap();
    assert_eq!(form.len(), 1);
    assert_eq!(message::Message::try_from(form.remove(0)), Ok(message));
}

#[test]
fn plain_user_message_comes_through_unchanged() {
    let message = user(vec![
        text("look"),
        image(
            DocumentSourceKind::Url("http://x".to_string()),
            None,
            Some(ImageDetail::Low)
        ),
        audio(DocumentSourceKind::Base64("c28=".to_string()), Some(AudioMediaType::OGG)),
    ]);
    let mut form = sent(message.clone()).unwrap();
    assert_eq!(form.len(), 1);
    assert_eq!(message::Message::try_from(form.remove(0)), Ok(message));
}

#[test]
fn user_message_of_the_server_keeps_all_but_its_name() {
    let content = OneOrMany::many(vec![
        UserContent::Text { text: "hi".to_string() },
        UserContent::Image {
            image_url: ImageUrl { url: "http://x".to_string(), detail: ImageDetail::High },
        },
    ])
    .unwrap();
    let message = Message::User { content: content.clone(), name: Some("me".to_string()) };
    let back = sent(message::Message::try_from(message).unwrap()).unwrap();
    assert_eq!(back, vec![Message::User { content, name: None }]);
}

#[test]
fn tool_result_of_the_server_comes_through_unchanged() {
    let message = Message::ToolResult {
        tool_call_id: "a".to_string(),
        content: OneOrMany::one(ToolResultContent::from("42".to_string())),
    };
    let back = sent(message::Message::try_from(message.clone()).unwrap()).unwrap();
    assert_eq!(back, vec![message]);
}

#[test]
fn system_message_becomes_a_user_message() {
    assert_eq!(
        message::Message::try_from(Message::system("be kind")),
        Ok(user(vec![text("be kind")]))
    );
    assert_eq!(
        Message::system("be kind"),
        Message::System {
            content: OneOrMany::one(SystemContent {
                kind: SystemContentType::Text,
                text: "be kind".to_string(),
            }),
            name: None,
        }
    );
}

#[test]
fn refusal_and_separate_reasoning_come_back() {
    let message = Message::Assistant {
        content: vec![AssistantContent::Refusal { refusal: "no".to_string() }],
        refusal: Some("unread".to_string()),
        reasoning: Some("because".to_string()),
        name: Some("unread".to_string()),
        tool_calls: vec![],
    };
    assert_eq!(
        message::Message::try_from(message),
        Ok(assistant(vec![
            message::AssistantContent::text("no".to_string()),
            message::AssistantContent::Reasoning(message::Reasoning::new("because")),
        ]))
    );
}

#[test]
fn empty_assistant_message_is_refused() {
    let message = Message::Assistant {
        content: vec![],
        refusal: Some("unread".to_string()),
        reasoning: None,
        name: None,
        tool_calls: vec![],
    };
    assert_eq!(
        message::Message::try_from(message),
        Err(MessageError::ConversionError(
            "Neither `content` nor `tool_calls` was provided to the Message".to_string()
        ))
    );
}

#[test]
fn tool_calls_keep_all_but_the_call_id() {
    assert_eq!(ToolCall::from(call("1", Some("c"))), server_call("1"));
    assert_eq!(message::ToolCall::from(server_call("1")), call("1", None));
    assert_eq!(ToolCall::from(message::ToolCall::from(server_call("1"))), server_call("1"));
}

#[test]
fn contents_convert_one_by_one() {
    assert_eq!(
        message::UserContent::from(UserContent::Text { text: "a".to_string() }),
        text("a")
    );
    assert_eq!(
        message::UserContent::from(UserContent::Audio {
            input_audio: InputAudio { data: "c28=".to_string(), format: AudioMediaType::AAC },
        }),
        audio(DocumentSourceKind::Base64("c28=".to_string()), Some(AudioMediaType::AAC))
    );
    assert_eq!(
        message::AssistantContent::from(AssistantContent::Reasoning { reasoning: "r".to_string() }),
        message::AssistantContent::Reasoning(message::Reasoning {
            id: None,
            reasoning: vec!["r".to_string()],
        })
    );
    assert_eq!(
        message::AssistantContent::from(AssistantContent::Refusal { refusal: "no".to_string() }),
        message::AssistantContent::text("no".to_string())
    );
}

#[test]
fn contents_are_made_of_text() {
    let expected = UserContent::Text { text: "a".to_string() };
    assert_eq!(UserContent::from("a".to_string()), expected);
    assert_eq!(UserContent::from_str("a"), Ok(expected));
    let expected = AssistantContent::Text { text: "a".to_string() };
    assert_eq!(AssistantContent::from("a".to_string()), expected);
    assert_eq!(AssistantContent::from_str("a"), Ok(expected));
    let expected = SystemContent { kind: SystemContentType::default(), text: "a".to_string() };
    assert_eq!(SystemContent::from("a".to_string()), expected);
    assert_eq!(SystemContent::from_str("a"), Ok(expected));
    let expected =
        ToolResultContent { kind: ToolResultContentType::default(), text: "a".to_string() };
    assert_eq!(ToolResultContent::from("a".to_string()), expected);
    assert_eq!(ToolResultContent::from_str("a"), Ok(expected));
}

#[test]
fn tools_are_functions() {
    let tool = llama_cpp::api::ToolDefinition {
        name: "calculator".to_string(),
        description: "Perform basic arithmetic operations".to_string(),
        parameters: json("{\"type\": \"object\"}"),
    };
    let definition = ToolDefinition::from(tool.clone());
    assert_eq!(definition.kind, "function");
    assert_eq!(definition.function, tool);
    assert_eq!(ToolType::default(), ToolType::Function);
}

#[test]
fn tool_choices_by_name_are_refused() {
    assert_eq!(ToolChoice::try_from(message::ToolChoice::Auto), Ok(ToolChoice::Auto));
    assert_eq!(ToolChoice::try_from(message::ToolChoice::Never), Ok(ToolChoice::Never));
    assert_eq!(ToolChoice::try_from(message::ToolChoice::Required), Ok(ToolChoice::Required));
    assert_eq!(
        ToolChoice::try_from(message::ToolChoice::Specific {
            function_names: vec!["calculator".to_string()],
        }),
        Err(CompletionError::ProviderError(
            "Provider doesn't support only using specific tools".to_string()
        ))
    );
    assert_eq!(ToolChoice::default(), ToolChoice::Auto);
}

#[test]
fn list_must_not_be_empty() {
    assert!(OneOrMany::<u8>::many(vec![]).is_err());
    let list = OneOrMany::many(vec![1u8, 2, 3]).unwrap();
    assert_eq!(*list.first(), 1);
    assert_eq!(list.clone().into_vec(), vec![1, 2, 3]);
    assert_eq!(list.map(|item: u8| item * 2).into_vec(), vec![2, 4, 6]);
}

#[test]
fn message_copies_are_equal() {
    let message = Message::Assistant {
        content: vec![
            AssistantContent::Text { text: "a".to_string() },
            AssistantContent::Refusal { refusal: "b".to_string() },
            AssistantContent::Reasoning { reasoning: "c".to_string() },
        ],
        refusal: Some("d".to_string()),
        reasoning: Some("e".to_string()),
        name: Some("f".to_string()),
        tool_calls: vec![server_call("1"), server_call("2")],
    };
    assert_eq!(message.clone(), message);
    let system = Message::system("s");
    assert_eq!(system.clone(), system);
}
