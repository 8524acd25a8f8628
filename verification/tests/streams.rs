//! Completions that arrive piece by piece.
use llama_cpp::api;
use llama_cpp::api::CompletionError;
use llama_cpp::streaming::{
    flush, make_tool_call_item, next_action, PendingToolCall, RawStreamingChoice, StreamAction,
    StreamEvent, StreamingChoice, StreamingCompletionChunk, StreamingDelta, StreamingState,
};
use llama_cpp::{
    AssistantContent, Function, Message, StreamingCompletionResponse, StreamingFunction,
    StreamingToolCall, ToolCall, ToolType, Usage,
};
use serde_json::Value;

fn json(text: &str) -> Value {
    serde_json::from_str(text).unwrap()
}

fn piece(index: usize, id: Option<&str>, name: Option<&str>, arguments: &str) -> StreamingToolCall {
    StreamingToolCall {
        index,
        id: id.map(|id| id.to_string()),
        function: StreamingFunction {
            name: name.map(|name| name.to_string()),
            arguments: arguments.to_string(),
        },
    }
}

fn chunk(content: Option<&str>, tool_calls: Vec<StreamingToolCall>) -> StreamingCompletionChunk {
    StreamingCompletionChunk {
        choices: vec![StreamingChoice {
            delta: StreamingDelta { content: content.map(|text| text.to_string()), tool_calls },
        }],
        usage: None,
    }
}

fn item(id: &str, name: &str, arguments: &str) -> RawStreamingChoice {
    RawStreamingChoice::ToolCall {
        id: id.to_string(),
        call_id: None,
        name: name.to_string(),
        arguments: json(arguments),
    }
}

fn said(text: &str) -> RawStreamingChoice {
    RawStreamingChoice::Message(text.to_string())
}

fn end(prompt_tokens: usize, total_tokens: usize) -> RawStreamingChoice {
    RawStreamingChoice::FinalResponse(StreamingCompletionResponse {
        usage: Usage { prompt_tokens, total_tokens },
    })
}

#[test]
fn events_ask_for_actions() {
    assert_eq!(next_action(StreamEvent::Open), StreamAction::Skip);
    assert_eq!(next_action(StreamEvent::Ended), StreamAction::Stop);
    assert_eq!(
        next_action(StreamEvent::Failed("broken pipe".to_string())),
        StreamAction::Fail(CompletionError::ResponseError("broken pipe".to_string()))
    );
    for data in ["", " \n", "[DONE]"] {
        assert_eq!(next_action(StreamEvent::Message(data.to_string())), StreamAction::Skip);
    }
    for data in ["{}", " [DONE]", "[DONE] ", "x"] {
        assert_eq!(
            next_action(StreamEvent::Message(data.to_string())),
            StreamAction::Decode(data.to_string())
        );
    }
}

#[test]
fn text_is_handed_out_and_kept() {
    let mut state = StreamingState::new();
    assert_eq!(state.on_chunk(chunk(Some("Hel"), vec![])), vec![said("Hel")]);
    assert_eq!(state.on_chunk(chunk(None, vec![])), vec![]);
    assert_eq!(state.on_chunk(chunk(Some(""), vec![])), vec![said("")]);
    assert_eq!(state.on_chunk(chunk(Some("lo"), vec![])), vec![said("lo")]);
    let left = state.finish();
    assert_eq!(left.items, vec![end(0, 0)]);
    assert_eq!(
        left.message,
        Message::Assistant {
            content: vec![AssistantContent::Text { text: "Hello".to_string() }],
            refusal: None,
            reasoning: None,
            name: None,
            tool_calls: vec![],
        }
    );
}

#[test]
fn whole_tool_call_is_handed_out_at_once() {
    let mut state = StreamingState::new();
    let items = state.on_chunk(chunk(
        Some("text"),
        vec![
            piece(0, Some("a"), Some("calculator"), "{\"x\":15}"),
            piece(1, None, Some("clock"), "[]"),
            piece(2, Some("c"), Some("broken"), "{"),
        ],
    ));
    assert_eq!(
        items,
        vec![item("a", "calculator", "{\"x\":15}"), item("", "clock", "[]"), said("text")]
    );
    assert_eq!(state.finish().items, vec![end(0, 0)]);
}

#[test]
fn tool_call_is_put_together() {
    let mut state = StreamingState::new();
    assert_eq!(state.on_chunk(chunk(None, vec![piece(3, Some("a"), Some("add"), "")])), vec![]);
    assert_eq!(state.on_chunk(chunk(None, vec![piece(3, None, None, "{\"x\":")])), vec![]);
    assert_eq!(
        state.on_chunk(chunk(
            None,
            vec![piece(9, None, None, "stray"), piece(3, Some("unread"), Some(""), "1}")]
        )),
        vec![]
    );
    let left = state.finish();
    assert_eq!(left.items, vec![item("a", "add", "{\"x\":1}"), end(0, 0)]);
    match left.message {
        Message::Assistant { tool_calls, .. } => assert_eq!(
            tool_calls,
            vec![ToolCall {
                id: "a".to_string(),
                kind: ToolType::Function,
                function: Function { name: "add".to_string(), arguments: json("{\"x\":1}") },
            }]
        ),
        other => panic!("{:?}", other),
    }
}

#[test]
fn tool_calls_do_not_mix() {
    let mut state = StreamingState::new();
    state.on_chunk(chunk(
        None,
        vec![
            piece(0, Some("a"), Some("f"), ""),
            piece(1, Some("b"), Some("g"), ""),
            piece(1, None, None, "2"),
            piece(0, None, None, "1"),
            piece(0, None, None, "0"),
            piece(2, None, Some("h"), ""),
        ],
    ));
    let mut items = state.finish().items;
    assert_eq!(items.pop(), Some(end(0, 0)));
    assert_eq!(items.len(), 2);
    assert!(items.contains(&item("a", "f", "10")));
    assert!(items.contains(&item("b", "g", "2")));
}

#[test]
fn started_calls_with_json_arguments_are_handed_out() {
    let mut state = StreamingState::new();
    for index in 0..5 {
        let id = format!("id{}", index);
        state.on_tool_call(&piece(index, Some(&id), Some("f"), ""));
        state.on_tool_call(&piece(index, None, None, if index == 3 { "{" } else { "{}" }));
    }
    let items = state.finish().items;
    assert_eq!(items.len(), 5);
    for index in 0..5 {
        let call = item(&format!("id{}", index), "f", "{}");
        assert_eq!(items.contains(&call), index != 3);
    }
}

#[test]
fn tool_call_may_start_again() {
    let mut state = StreamingState::new();
    state.on_tool_call(&piece(0, Some("a"), Some("f"), ""));
    state.on_tool_call(&piece(0, None, None, "1"));
    state.on_tool_call(&piece(0, Some("b"), Some("g"), ""));
    state.on_tool_call(&piece(0, None, None, "2"));
    assert_eq!(state.finish().items, vec![item("b", "g", "2"), end(0, 0)]);
}

#[test]
fn pieces_may_be_spread_over_chunks() {
    let pieces = || {
        vec![
            piece(0, Some("a"), Some("f"), ""),
            piece(0, None, None, "1"),
            piece(1, Some("b"), Some("g"), "[2]"),
            piece(0, None, None, "2"),
        ]
    };
    let mut together = StreamingState::new();
    let at_once = together.on_chunk(chunk(None, pieces()));
    let mut apart = StreamingState::new();
    let mut one_by_one = vec![];
    for piece in pieces() {
        one_by_one.extend(apart.on_chunk(chunk(None, vec![piece])));
    }
    assert_eq!(at_once, one_by_one);
    assert_eq!(together.finish().items, apart.finish().items);
}

#[test]
fn last_count_of_tokens_is_kept() {
    let mut state = StreamingState::new();
    let counted = |usage: Option<Usage>| StreamingCompletionChunk { choices: vec![], usage };
    assert_eq!(
        state.on_chunk(counted(Some(Usage { prompt_tokens: 1, total_tokens: 2 }))),
        vec![]
    );
    state.on_chunk(counted(Some(Usage { prompt_tokens: 3, total_tokens: 9 })));
    state.on_chunk(counted(None));
    assert_eq!(state.finish().items, vec![end(3, 9)]);
}

#[test]
fn only_the_first_answer_of_a_chunk_counts() {
    let mut two = chunk(Some("a"), vec![]);
    two.choices.push(StreamingChoice {
        delta: StreamingDelta {
            content: Some("b".to_string()),
            tool_calls: vec![piece(0, None, None, "")],
        },
    });
    assert!(two.is_acceptable());
    assert_eq!(StreamingState::new().on_chunk(two), vec![said("a")]);
}

#[test]
fn piece_needs_a_name_or_arguments() {
    assert!(piece(0, None, Some("f"), "").is_acceptable());
    assert!(piece(0, None, None, "1").is_acceptable());
    assert!(!piece(0, Some("a"), None, "").is_acceptable());
    assert!(!chunk(None, vec![piece(0, None, Some("f"), ""), piece(0, None, None, "")])
        .is_acceptable());
    assert!(chunk(None, vec![]).is_acceptable());
    assert!(StreamingCompletionChunk { choices: vec![], usage: None }.is_acceptable());
}

#[test]
fn calls_are_flushed_in_the_given_order() {
    let pending = |id: &str, arguments: &str| PendingToolCall {
        id: id.to_string(),
        name: "f".to_string(),
        arguments: arguments.to_string(),
    };
    let left = flush(
        vec![pending("b", "2"), pending("x", "not json"), pending("a", "1")],
        "text".to_string(),
        Usage { prompt_tokens: 1, total_tokens: 4 },
    );
    assert_eq!(left.items, vec![item("b", "f", "2"), item("a", "f", "1"), end(1, 4)]);
    match left.message {
        Message::Assistant { content, tool_calls, .. } => {
            assert_eq!(content, vec![AssistantContent::Text { text: "text".to_string() }]);
            assert_eq!(tool_calls.len(), 2);
            assert_eq!(tool_calls[0].id, "b");
            assert_eq!(tool_calls[1].id, "a");
        }
        other => panic!("{:?}", other),
    }
}

#[test]
fn call_without_json_arguments_is_not_handed_out() {
    assert_eq!(make_tool_call_item("a".to_string(), "f".to_string(), None), None);
    assert_eq!(
        make_tool_call_item("a".to_string(), "f".to_string(), Some(json("1"))),
        Some(item("a", "f", "1"))
    );
}

#[test]
fn tokens_of_a_stream_are_counted() {
    let response =
        StreamingCompletionResponse { usage: Usage { prompt_tokens: 4, total_tokens: 10 } };
    assert_eq!(
        response.token_usage(),
        Some(api::Usage { input_tokens: 4, output_tokens: 6, total_tokens: 10 })
    );
}

type Handed = Result<RawStreamingChoice, CompletionError>;

/// All that a stream of the given events hands out; `decode` reads a chunk from data.
fn run(events: Vec<StreamEvent>, decode: fn(&str) -> Option<StreamingCompletionChunk>) -> Vec<Handed> {
    let mut state = StreamingState::new();
    let mut output: Vec<Handed> = vec![];
    for event in events {
        match next_action(event) {
            StreamAction::Skip => {}
            StreamAction::Decode(data) => {
                if let Some(chunk) = decode(&data) {
                    output.extend(state.on_chunk(chunk).into_iter().map(Ok));
                }
            }
            StreamAction::Stop => break,
            StreamAction::Fail(error) => {
                output.push(Err(error));
                break;
            }
        }
    }
    output.extend(state.finish().items.into_iter().map(Ok));
    output
}

fn decode_text(data: &str) -> Option<StreamingCompletionChunk> {
    match data {
        "bad" => None,
        "call" => Some(chunk(
            None,
            vec![piece(0, Some("a"), Some("f"), ""), piece(0, None, None, "1")],
        )),
        "count" => Some(StreamingCompletionChunk {
            choices: vec![],
            usage: Some(Usage { prompt_tokens: 1, total_tokens: 3 }),
        }),
        text => Some(chunk(Some(text), vec![])),
    }
}

fn message(data: &str) -> StreamEvent {
    StreamEvent::Message(data.to_string())
}

#[test]
fn idle_events_change_nothing() {
    let plain = run(vec![message("a"), message("call"), message("count"), message("b")], decode_text);
    assert_eq!(
        plain,
        vec![Ok(said("a")), Ok(said("b")), Ok(item("a", "f", "1")), Ok(end(1, 3))]
    );
    let padded = run(
        vec![
            StreamEvent::Open,
            message("a"),
            message(""),
            message("call"),
            message("bad"),
            message("count"),
            message(" \n"),
            message("b"),
            message("[DONE]"),
            StreamEvent::Ended,
        ],
        decode_text,
    );
    assert_eq!(padded, plain);
}

#[test]
fn nothing_counts_after_the_end_of_a_stream() {
    let short = run(vec![message("a"), StreamEvent::Ended], decode_text);
    assert_eq!(short, vec![Ok(said("a")), Ok(end(0, 0))]);
    let long = run(
        vec![
            message("a"),
            StreamEvent::Ended,
            message("b"),
            message("count"),
            StreamEvent::Failed("late".to_string()),
        ],
        decode_text,
    );
    assert_eq!(long, short);
}

#[test]
fn failed_stream_hands_out_what_arrived() {
    assert_eq!(
        run(
            vec![
                message("call"),
                message("a"),
                StreamEvent::Failed("broken pipe".to_string()),
                message("b"),
            ],
            decode_text
        ),
        vec![
            Ok(said("a")),
            Err(CompletionError::ResponseError("broken pipe".to_string())),
            Ok(item("a", "f", "1")),
            Ok(end(0, 0)),
        ]
    );
}

#[test]
fn final_response_comes_once() {
    let output = run(
        vec![message("count"), message("a"), message("count"), message("call")],
        decode_text,
    );
    let finals = output
        .iter()
        .filter(|handed| matches!(handed, Ok(RawStreamingChoice::FinalResponse(_))))
        .count();
    assert_eq!(finals, 1);
    assert_eq!(output.last(), Some(&Ok(end(1, 3))));
}
