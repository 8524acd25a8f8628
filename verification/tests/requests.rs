//! Requests in the server's form.
use llama_cpp::api;
use llama_cpp::api::CompletionError;
use llama_cpp::client::Method;
use llama_cpp::json::streaming_body;
use llama_cpp::message;
use llama_cpp::message::{DocumentSourceKind, MessageError};
use llama_cpp::model::completion_content_type;
use llama_cpp::{
    AssistantContent, Client, CompletionModel, CompletionRequest, Message, OneOrMany, ToolChoice,
    UserContent, QWEN2_5, QWEN3_8B,
};
use serde_json::Value;

fn json(text: &str) -> Value {
    serde_json::from_str(text).unwrap()
}

fn says(text: &str) -> message::Message {
    message::Message::User {
        content: OneOrMany::one(message::UserContent::text(text.to_string())),
    }
}

fn answers(text: &str) -> message::Message {
    message::Message::Assistant {
        id: Some("id".to_string()),
        content: OneOrMany::one(message::AssistantContent::text(text.to_string())),
    }
}

fn document(text: &str) -> message::Message {
    message::Message::User {
        content: OneOrMany::one(message::UserContent::Document(message::Document {
            data: DocumentSourceKind::Base64(text.to_string()),
            media_type: None,
            additional_params: None,
        })),
    }
}

fn unsendable() -> message::Message {
    message::Message::User {
        content: OneOrMany::one(message::UserContent::Image(message::Image {
            data: DocumentSourceKind::Unknown,
            media_type: None,
            detail: None,
            additional_params: None,
        })),
    }
}

fn request(history: Vec<message::Message>) -> api::CompletionRequest<f64> {
    api::CompletionRequest {
        preamble: None,
        documents: None,
        chat_history: OneOrMany::many(history).unwrap(),
        tools: vec![],
        temperature: Some(0.7),
        max_tokens: None,
        tool_choice: None,
        additional_params: None,
    }
}

fn build(request: api::CompletionRequest<f64>) -> Result<CompletionRequest<f64>, CompletionError> {
    CompletionRequest::try_from((QWEN3_8B.to_string(), request))
}

fn sent_text(text: &str) -> Message {
    Message::User {
        content: OneOrMany::one(UserContent::Text { text: text.to_string() }),
        name: None,
    }
}

fn sent_answer(text: &str) -> Message {
    Message::Assistant {
        content: vec![AssistantContent::Text { text: text.to_string() }],
        refusal: None,
        reasoning: None,
        name: None,
        tool_calls: vec![],
    }
}

#[test]
fn preamble_documents_and_history_are_sent_in_order() {
    let mut asked = request(vec![says("hi"), answers("hello"), says("bye")]);
    asked.preamble = Some("You are a helpful assistant.".to_string());
    asked.documents = Some(document("doc"));
    asked.tool_choice = Some(message::ToolChoice::Required);
    asked.additional_params = Some(json("{\"top_k\": 1}"));
    asked.tools = vec![api::ToolDefinition {
        name: "calculator".to_string(),
        description: "".to_string(),
        parameters: json("{}"),
    }];
    let built = build(asked).unwrap();
    assert_eq!(
        built.get_input_messages(),
        vec![
            Message::system("You are a helpful assistant."),
            sent_text("doc"),
            sent_text("hi"),
            sent_answer("hello"),
            sent_text("bye"),
        ]
    );
    assert_eq!(built.get_model_name(), "qwen3-8b");
    assert_eq!(built.get_system_prompt(), Some("You are a helpful assistant.".to_string()));
    assert_eq!(built.get_prompt(), Some("bye".to_string()));
    assert_eq!(built.tool_choice, Some(ToolChoice::Required));
    assert_eq!(built.temperature, Some(0.7));
    assert_eq!(built.additional_params, Some(json("{\"top_k\": 1}")));
    assert_eq!(built.tools.len(), 1);
    assert_eq!(built.tools[0].kind, "function");
    assert_eq!(built.tools[0].function.name, "calculator");

    let copy = built.clone();
    assert_eq!(copy.get_model_name(), "qwen3-8b");
    assert_eq!(copy.get_input_messages(), built.get_input_messages());
    assert_eq!(copy.tool_choice, built.tool_choice);
    assert_eq!(copy.temperature, Some(0.7));
    assert_eq!(copy.additional_params, built.additional_params);
}

#[test]
fn there_is_no_system_prompt_without_a_preamble() {
    let built = build(request(vec![says("hi"), answers("hello")])).unwrap();
    assert_eq!(built.get_system_prompt(), None);
    assert_eq!(built.get_prompt(), None);
    assert_eq!(built.tool_choice, None);
}

#[test]
fn request_without_messages_has_no_prompts() {
    let built: CompletionRequest<f64> = CompletionRequest {
        model: QWEN2_5.to_string(),
        messages: vec![],
        tools: vec![],
        tool_choice: None,
        temperature: None,
        additional_params: None,
    };
    assert_eq!(built.get_system_prompt(), None);
    assert_eq!(built.get_prompt(), None);
    assert_eq!(built.get_model_name(), "qwen2.5");
}

#[test]
fn prompt_must_start_with_text() {
    let picture = message::Message::User {
        content: OneOrMany::one(message::UserContent::image_url(
            "http://x".to_string(),
            None,
            None,
        )),
    };
    assert_eq!(build(request(vec![picture])).unwrap().get_prompt(), None);
}

#[test]
fn conversation_goes_on_at_the_end_of_the_request() {
    let short = build(request(vec![says("a"), answers("b")])).unwrap().get_input_messages();
    let long =
        build(request(vec![says("a"), answers("b"), says("c")])).unwrap().get_input_messages();
    assert_eq!(long[..2], short[..]);
    assert_eq!(long[2..], [sent_text("c")]);
}

#[test]
fn message_that_cannot_be_sent_stops_the_request() {
    let mut asked = request(vec![says("hi"), unsendable(), says("bye")]);
    asked.tool_choice = Some(message::ToolChoice::Specific { function_names: vec![] });
    assert_eq!(
        build(asked).unwrap_err(),
        CompletionError::RequestError(MessageError::ConversionError(
            "Document has no body".to_string()
        ))
    );
}

#[test]
fn tool_choice_by_name_stops_the_request() {
    let mut asked = request(vec![says("hi")]);
    asked.tool_choice = Some(message::ToolChoice::Specific { function_names: vec![] });
    assert_eq!(
        build(asked).unwrap_err(),
        CompletionError::ProviderError(
            "Provider doesn't support only using specific tools".to_string()
        )
    );
}

#[test]
fn model_builds_requests_to_itself() {
    let client: Client<()> = Client::new();
    let model: CompletionModel<()> = client.completion_model(QWEN3_8B);
    let built = model.build_request(request(vec![says("hi")])).unwrap();
    assert_eq!(built.get_model_name(), QWEN3_8B);
    let head = model.completion_head();
    assert_eq!(head.method, Method::Post);
    assert_eq!(head.url, "http://localhost:8402/v1/chat/completions");
    assert_eq!(head.bearer_token, None);
    assert_eq!(model.clone().model, QWEN3_8B);
    assert_eq!(model.into_agent_builder().model.model, QWEN3_8B);
}

#[test]
fn completion_is_sent_as_json() {
    let client: Client<()> = Client::builder().base_url("http://host/v1").api_key("k").build();
    let model = client.completion_model(QWEN3_8B);
    let outgoing = model.prepare_completion(request(vec![says("hi")])).unwrap();
    assert_eq!(outgoing.head, model.completion_head());
    assert_eq!(outgoing.head.method, Method::Post);
    assert_eq!(outgoing.head.url, "http://host/v1/chat/completions");
    assert_eq!(outgoing.head.bearer_token, Some("k".to_string()));
    assert_eq!(outgoing.content_type, "application/json");
    assert_eq!(outgoing.body.get_model_name(), QWEN3_8B);
    assert_eq!(outgoing.body.get_input_messages(), vec![sent_text("hi")]);
    assert_eq!(completion_content_type(), "application/json");
}

#[test]
fn nothing_is_sent_for_a_request_that_cannot_be() {
    let client: Client<()> = Client::new();
    let model = client.completion_model(QWEN3_8B);
    assert_eq!(
        model.prepare_completion(request(vec![unsendable()])).unwrap_err(),
        CompletionError::RequestError(MessageError::ConversionError(
            "Document has no body".to_string()
        ))
    );
}

#[test]
fn document_that_comes_first_is_the_prompt() {
    let mut asked = request(vec![document("ZG9j")]);
    asked.documents = Some(document("unread"));
    assert_eq!(build(asked).unwrap().get_prompt(), Some("ZG9j".to_string()));
}

#[test]
fn tool_results_and_audio_are_no_prompt() {
    let result = message::Message::User {
        content: OneOrMany::many(vec![
            message::UserContent::text("unread".to_string()),
            message::UserContent::tool_result(
                "a".to_string(),
                OneOrMany::one(message::ToolResultContent::text("42".to_string())),
            ),
        ])
        .unwrap(),
    };
    assert_eq!(build(request(vec![says("hi"), result])).unwrap().get_prompt(), None);
    let audio = message::Message::User {
        content: OneOrMany::many(vec![
            message::UserContent::audio("c28=".to_string(), None),
            message::UserContent::text("unread".to_string()),
        ])
        .unwrap(),
    };
    assert_eq!(build(request(vec![audio])).unwrap().get_prompt(), None);
}

#[test]
fn streaming_body_asks_for_a_stream_and_for_usage() {
    assert_eq!(
        streaming_body(json("{\"model\": \"m\", \"stream\": false, \"n\": [1]}")),
        json(
            "{\"model\": \"m\", \"stream\": true, \"n\": [1], \
             \"stream_options\": {\"include_usage\": true}}"
        )
    );
    assert_eq!(streaming_body(json("[1]")), json("[1]"));
}
