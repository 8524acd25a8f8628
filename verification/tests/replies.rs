//! Replies of the server.
use llama_cpp::api;
use llama_cpp::api::CompletionError;
use llama_cpp::message;
use llama_cpp::model::{is_success_status, resolve_reply, sort_reply, Reply};
use llama_cpp::{
    ApiErrorResponse, ApiResponse, AssistantContent, Choice, CompletionResponse, Function, Message,
    OneOrMany, ToolCall, ToolType, Usage, UserContent,
};
use serde_json::Value;

fn json(text: &str) -> Value {
    serde_json::from_str(text).unwrap()
}

fn choice(message: Message) -> Choice {
    Choice { index: 0, message, logprobs: Some(json("[0.5]")), finish_reason: "stop".to_string() }
}

fn response(choices: Vec<Choice>, usage: Option<Usage>) -> CompletionResponse {
    CompletionResponse {
        id: "chatcmpl-1".to_string(),
        object: "chat.completion".to_string(),
        created: 1760873067,
        model: "qwen3-8b".to_string(),
        system_fingerprint: None,
        choices,
        usage,
    }
}

fn answer(
    content: Vec<AssistantContent>,
    reasoning: Option<&str>,
    tool_calls: Vec<ToolCall>,
) -> Message {
    Message::Assistant {
        content,
        refusal: None,
        reasoning: reasoning.map(|text| text.to_string()),
        name: None,
        tool_calls,
    }
}

fn text(text: &str) -> AssistantContent {
    AssistantContent::Text { text: text.to_string() }
}

fn refusal(text: &str) -> AssistantContent {
    AssistantContent::Refusal { refusal: text.to_string() }
}

fn calculator() -> ToolCall {
    ToolCall {
        id: "1".to_string(),
        kind: ToolType::Function,
        function: Function {
            name: "calculator".to_string(),
            arguments: json("{\"x\": 15, \"y\": 27, \"operation\": \"add\"}"),
        },
    }
}

fn user(text: &str) -> Message {
    Message::User {
        content: OneOrMany::one(UserContent::Text { text: text.to_string() }),
        name: None,
    }
}

fn reason(response: CompletionResponse) -> String {
    match api::CompletionResponse::try_from(response) {
        Err(CompletionError::ResponseError(reason)) => reason,
        other => panic!("{:?}", other),
    }
}

#[test]
fn answer_is_made_of_words_thoughts_and_calls() {
    let message = answer(
        vec![
            text("a"),
            text(""),
            AssistantContent::Reasoning { reasoning: "dropped".to_string() },
            refusal("no"),
            refusal(""),
        ],
        Some("because"),
        vec![calculator()],
    );
    let usage = Usage { prompt_tokens: 5, total_tokens: 12 };
    let reply =
        api::CompletionResponse::try_from(response(vec![choice(message)], Some(usage))).unwrap();
    assert_eq!(
        reply.choice.into_vec(),
        vec![
            message::AssistantContent::text("a".to_string()),
            message::AssistantContent::text("no".to_string()),
            message::AssistantContent::Reasoning(message::Reasoning::new("because")),
            message::AssistantContent::tool_call(
                "1".to_string(),
                "calculator".to_string(),
                json("{\"x\": 15, \"y\": 27, \"operation\": \"add\"}"),
            ),
        ]
    );
    assert_eq!(
        reply.usage,
        api::Usage { input_tokens: 5, output_tokens: 7, total_tokens: 12 }
    );
    assert_eq!(reply.raw_response.id, "chatcmpl-1");
}

#[test]
fn reply_without_usage_counts_nothing() {
    let reply = api::CompletionResponse::try_from(response(
        vec![choice(answer(vec![text("a")], Some(""), vec![]))],
        None,
    ))
    .unwrap();
    assert_eq!(reply.usage, api::Usage::new());
    assert_eq!(
        reply.choice.into_vec(),
        vec![message::AssistantContent::text("a".to_string())]
    );
}

#[test]
fn only_the_first_answer_is_read() {
    let reply = api::CompletionResponse::try_from(response(
        vec![choice(answer(vec![text("a")], None, vec![])), choice(user("b"))],
        None,
    ))
    .unwrap();
    assert_eq!(
        reply.choice.into_vec(),
        vec![message::AssistantContent::text("a".to_string())]
    );
}

#[test]
fn replies_without_an_answer_are_refused() {
    assert_eq!(reason(response(vec![], None)), "Response contained no choices");
    assert_eq!(
        reason(response(vec![choice(user("hi"))], None)),
        "Response did not contain a valid message or tool call"
    );
    assert_eq!(
        reason(response(vec![choice(answer(vec![text("")], Some(""), vec![]))], None)),
        "Response contained no message or tool call (empty)"
    );
}

#[test]
fn count_of_tokens_is_tested_where_it_is_read() {
    let bad = Some(Usage { prompt_tokens: 3, total_tokens: 2 });
    assert!(!response(vec![choice(answer(vec![text("a")], None, vec![]))], bad)
        .has_consistent_usage());
    assert!(response(vec![choice(answer(vec![text("")], None, vec![]))], bad)
        .has_consistent_usage());
    assert!(response(vec![choice(user("hi"))], bad).has_consistent_usage());
    assert!(response(vec![], bad).has_consistent_usage());
    let good = Some(Usage { prompt_tokens: 2, total_tokens: 2 });
    assert!(response(vec![choice(answer(vec![text("a")], None, vec![]))], good)
        .has_consistent_usage());
}

#[test]
fn replies_are_resolved() {
    let good = response(vec![choice(answer(vec![text("a")], None, vec![]))], None);
    let reply = Reply::Success(ApiResponse::Answer(good));
    assert!(reply.is_consistent());
    assert!(resolve_reply(reply).is_ok());
    let error = ApiErrorResponse { message: "busy".to_string() };
    assert_eq!(
        resolve_reply(Reply::Success(ApiResponse::Error(error))).unwrap_err(),
        CompletionError::ProviderError("busy".to_string())
    );
    assert_eq!(
        resolve_reply(Reply::Failure("<html>".to_string())).unwrap_err(),
        CompletionError::ProviderError("<html>".to_string())
    );
    assert_eq!(
        CompletionError::from(ApiErrorResponse { message: "busy".to_string() }),
        CompletionError::ProviderError("busy".to_string())
    );
}

#[test]
fn only_a_status_of_two_hundred_and_some_is_success() {
    for status in [200u16, 201, 204, 299] {
        assert!(is_success_status(status));
    }
    for status in [0u16, 100, 199, 300, 301, 400, 401, 500, 65535] {
        assert!(!is_success_status(status));
    }
}

#[test]
fn replies_are_sorted_by_their_status() {
    let said = || {
        let answer = choice(answer(vec![text("a")], None, vec![]));
        Some(ApiResponse::Answer(response(vec![answer], None)))
    };
    for status in [200u16, 299] {
        let reply = sort_reply(status, "unread".to_string(), said());
        match reply {
            Some(Reply::Success(ApiResponse::Answer(answer))) => {
                assert_eq!(answer.id, "chatcmpl-1")
            }
            other => panic!("{:?}", other),
        }
        let error = ApiErrorResponse { message: "busy".to_string() };
        let reply = sort_reply(status, "unread".to_string(), Some(ApiResponse::Error(error)));
        assert_eq!(
            resolve_reply(reply.unwrap()).unwrap_err(),
            CompletionError::ProviderError("busy".to_string())
        );
        assert!(sort_reply(status, "not json".to_string(), None).is_none());
    }
    for status in [199u16, 300, 404, 500] {
        for decoded in [said(), None] {
            let reply = sort_reply(status, "down".to_string(), decoded).unwrap();
            assert_eq!(
                resolve_reply(reply).unwrap_err(),
                CompletionError::ProviderError("down".to_string())
            );
        }
    }
}

#[test]
fn response_tells_about_itself() {
    let usage = Some(Usage { prompt_tokens: 1, total_tokens: 2 });
    let given = response(
        vec![choice(answer(vec![], None, vec![calculator()])), choice(user("hi"))],
        usage,
    );
    assert_eq!(given.get_response_id(), Some("chatcmpl-1".to_string()));
    assert_eq!(given.get_response_model_name(), Some("qwen3-8b".to_string()));
    assert_eq!(given.get_usage(), usage);
    assert_eq!(given.get_text_response(), Some("hi".to_string()));
    let answers = given.get_output_messages();
    assert_eq!(answers.len(), 2);
    assert_eq!(answers[0].message, answer(vec![], None, vec![calculator()]));
    assert_eq!(answers[0].logprobs, Some(json("[0.5]")));
    assert_eq!(answers[1].finish_reason, "stop");
    assert_eq!(response(vec![], None).get_text_response(), None);
    assert_eq!(
        response(vec![choice(answer(vec![text("a")], None, vec![]))], None).get_text_response(),
        None
    );
}

#[test]
fn tokens_add_up() {
    let usage = Usage { prompt_tokens: 10, total_tokens: 42 };
    assert!(usage.is_consistent());
    let counted = usage.token_usage().unwrap();
    assert_eq!(
        counted,
        api::Usage { input_tokens: 10, output_tokens: 32, total_tokens: 42 }
    );
    assert_eq!(counted.input_tokens + counted.output_tokens, counted.total_tokens);
    assert!(!Usage { prompt_tokens: 2, total_tokens: 1 }.is_consistent());
    assert_eq!(Usage::default(), Usage::new());
    assert_eq!(Usage::new(), Usage { prompt_tokens: 0, total_tokens: 0 });
}

#[test]
fn usage_is_shown() {
    assert_eq!(
        Usage { prompt_tokens: 10, total_tokens: 42 }.display(),
        "Prompt tokens: 10 Total tokens: 42"
    );
}
