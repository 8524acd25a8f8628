//! Completions that arrive piece by piece.
use crate::api;
use crate::api::CompletionError;
use crate::completion::{
    AssistantContent, AssistantContentView, Function, FunctionView, Message, MessageView, ToolCall,
    ToolCallView, ToolType,
};
use crate::json;
use crate::response::Usage;
use crate::text;
use std::collections::HashMap;
use vstd::prelude::*;
use vstd::std_specs::iter::IteratorSpec;

verus! {

broadcast use vstd::std_specs::hash::group_hash_axioms;

/// A piece of the function that a tool call names.
#[derive(Debug, Clone, PartialEq)]
pub struct StreamingFunction {
    pub name: Option<String>,
    pub arguments: String,
}

/// A piece of a tool call. Pieces with the same index belong to one call.
#[derive(Debug, Clone, PartialEq)]
pub struct StreamingToolCall {
    pub index: usize,
    pub id: Option<String>,
    pub function: StreamingFunction,
}

/// The model of a [`StreamingToolCall`].
pub struct StreamingToolCallView {
    pub index: usize,
    pub id: Option<Seq<char>>,
    pub name: Option<Seq<char>>,
    pub arguments: Seq<char>,
}

impl DeepView for StreamingToolCall {
    type V = StreamingToolCallView;

    open spec fn deep_view(&self) -> StreamingToolCallView {
        StreamingToolCallView {
            index: self.index,
            id: self.id.deep_view(),
            name: self.function.name.deep_view(),
            arguments: self.function.arguments@,
        }
    }
}

/// What a chunk adds to the answer.
#[derive(Debug, Clone, PartialEq)]
pub struct StreamingDelta {
    pub content: Option<String>,
    pub tool_calls: Vec<StreamingToolCall>,
}

/// The model of a [`StreamingDelta`].
pub struct StreamingDeltaView {
    pub content: Option<Seq<char>>,
    pub tool_calls: Seq<StreamingToolCallView>,
}

impl DeepView for StreamingDelta {
    type V = StreamingDeltaView;

    open spec fn deep_view(&self) -> StreamingDeltaView {
        StreamingDeltaView {
            content: self.content.deep_view(),
            tool_calls: self.tool_calls.deep_view(),
        }
    }
}

/// One of the answers that a chunk adds to.
#[derive(Debug, Clone, PartialEq)]
pub struct StreamingChoice {
    pub delta: StreamingDelta,
}

impl DeepView for StreamingChoice {
    type V = StreamingDeltaView;

    open spec fn deep_view(&self) -> StreamingDeltaView {
        self.delta.deep_view()
    }
}

/// A piece of a completion.
#[derive(Debug, Clone, PartialEq)]
pub struct StreamingCompletionChunk {
    pub choices: Vec<StreamingChoice>,
    pub usage: Option<Usage>,
}

/// The model of a [`StreamingCompletionChunk`].
pub struct ChunkView {
    pub choices: Seq<StreamingDeltaView>,
    pub usage: Option<Usage>,
}

impl DeepView for StreamingCompletionChunk {
    type V = ChunkView;

    open spec fn deep_view(&self) -> ChunkView {
        ChunkView { choices: self.choices.deep_view(), usage: self.usage }
    }
}

/// What is known once a stream has ended.
#[derive(Debug, Clone, Copy, PartialEq, Eq, Structural)]
pub struct StreamingCompletionResponse {
    pub usage: Usage,
}

impl StreamingCompletionResponse {
    /// The count of tokens in the application's form.
    pub fn token_usage(&self) -> (usage: Option<api::Usage>)
        requires
            crate::response::is_consistent_usage(self.usage),
        ensures
            usage == Some(crate::response::usage_to_chat(self.usage)),
    {
        self.usage.token_usage()
    }
}

/// What a stream hands to the application.
#[derive(Debug, Clone, PartialEq)]
pub enum RawStreamingChoice {
    Message(String),
    ToolCall {
        id: String,
        call_id: Option<String>,
        name: String,
        arguments: serde_json::Value,
    },
    FinalResponse(StreamingCompletionResponse),
}

/// The model of a [`RawStreamingChoice`].
pub enum ItemView {
    Message(Seq<char>),
    ToolCall {
        id: Seq<char>,
        call_id: Option<Seq<char>>,
        name: Seq<char>,
        arguments: serde_json::Value,
    },
    FinalResponse(StreamingCompletionResponse),
}

impl DeepView for RawStreamingChoice {
    type V = ItemView;

    open spec fn deep_view(&self) -> ItemView {
        match self {
            RawStreamingChoice::Message(text) => ItemView::Message(text@),
            RawStreamingChoice::ToolCall { id, call_id, name, arguments } => ItemView::ToolCall {
                id: id@,
                call_id: call_id.deep_view(),
                name: name@,
                arguments: *arguments,
            },
            RawStreamingChoice::FinalResponse(response) => ItemView::FinalResponse(*response),
        }
    }
}

/// What arrives on the connection of a stream.
#[derive(Debug, Clone, PartialEq)]
pub enum StreamEvent {
    /// The connection is there.
    Open,
    /// The server sent data.
    Message(String),
    /// The server closed the stream.
    Ended,
    /// The connection failed, for the given reason.
    Failed(String),
}

/// What to do about a [`StreamEvent`].
#[derive(Debug, Clone, PartialEq)]
pub enum StreamAction {
    /// Wait for the next event.
    Skip,
    /// Read a chunk from the data, and skip it where that fails.
    Decode(String),
    /// Stop reading.
    Stop,
    /// Hand the error to the application and stop reading.
    Fail(CompletionError),
}

/// Data that holds no chunk: nothing but white space, or the mark of the end.
pub open spec fn is_without_chunk(data: Seq<char>) -> bool {
    text::is_blank_text(data) || data == "[DONE]"@
}

/// What an event asks for.
pub open spec fn event_action(event: StreamEvent) -> StreamAction {
    match event {
        StreamEvent::Open => StreamAction::Skip,
        StreamEvent::Message(data) => if is_without_chunk(data@) {
            StreamAction::Skip
        } else {
            StreamAction::Decode(data)
        },
        StreamEvent::Ended => StreamAction::Stop,
        StreamEvent::Failed(reason) => StreamAction::Fail(CompletionError::ResponseError(reason)),
    }
}

/// Decides what to do about an event of a stream.
pub fn next_action(event: StreamEvent) -> (action: StreamAction)
    ensures
        action == event_action(event),
{
    match event {
        StreamEvent::Open => StreamAction::Skip,
        StreamEvent::Message(data) => if text::is_blank(data.as_str()) || data.eq(
            &"[DONE]".to_owned(),
        ) {
            StreamAction::Skip
        } else {
            StreamAction::Decode(data)
        },
        StreamEvent::Ended => StreamAction::Stop,
        StreamEvent::Failed(reason) => StreamAction::Fail(CompletionError::ResponseError(reason)),
    }
}

/// A tool call that has started to arrive.
#[derive(Debug, PartialEq)]
pub struct PendingToolCall {
    pub id: String,
    pub name: String,
    pub arguments: String,
}

/// The model of a [`PendingToolCall`].
pub struct PendingToolCallView {
    pub id: Seq<char>,
    pub name: Seq<char>,
    pub arguments: Seq<char>,
}

impl DeepView for PendingToolCall {
    type V = PendingToolCallView;

    open spec fn deep_view(&self) -> PendingToolCallView {
        PendingToolCallView { id: self.id@, name: self.name@, arguments: self.arguments@ }
    }
}

impl Clone for PendingToolCall {
    fn clone(&self) -> (copy: Self)
        ensures
            copy.deep_view() == self.deep_view(),
    {
        PendingToolCall {
            id: self.id.clone(),
            name: self.name.clone(),
            arguments: self.arguments.clone(),
        }
    }
}

/// The model of a [`StreamingState`].
#[verifier::ext_equal]
pub struct StreamView {
    /// The tool calls that have started to arrive, by index.
    pub pending: Map<usize, PendingToolCallView>,
    /// The text that has arrived.
    pub text: Seq<char>,
    /// The count of tokens that arrived last.
    pub usage: Usage,
}

/// What has arrived of a completion so far.
pub struct StreamingState {
    tool_calls: HashMap<usize, PendingToolCall>,
    text_content: String,
    final_usage: Usage,
}

impl View for StreamingState {
    type V = StreamView;

    closed spec fn view(&self) -> StreamView {
        StreamView {
            pending: self.tool_calls@.map_values(|call: PendingToolCall| call.deep_view()),
            text: self.text_content@,
            usage: self.final_usage,
        }
    }
}

/// A piece that has a name or arguments, or both.
pub open spec fn is_acceptable(call: StreamingToolCallView) -> bool {
    call.name is Some || call.arguments.len() > 0
}

/// A piece with a name and no arguments: a call starts to arrive.
pub open spec fn is_start(call: StreamingToolCallView) -> bool {
    call.name is Some && call.arguments.len() == 0
}

/// A piece with arguments and no name, or an empty one: a call goes on.
pub open spec fn is_continuation(call: StreamingToolCallView) -> bool {
    &&& call.arguments.len() > 0
    &&& match call.name {
        Some(name) => name.len() == 0,
        None => true,
    }
}

/// The id of a call, empty where it has none.
pub open spec fn id_or_empty(id: Option<Seq<char>>) -> Seq<char> {
    match id {
        Some(id) => id,
        None => Seq::empty(),
    }
}

/// The calls that have started to arrive, after one more piece. A piece that neither starts a
/// call nor goes on with one that has started changes nothing.
pub open spec fn after_call(
    pending: Map<usize, PendingToolCallView>,
    call: StreamingToolCallView,
) -> Map<usize, PendingToolCallView> {
    if is_start(call) {
        pending.insert(
            call.index,
            PendingToolCallView {
                id: id_or_empty(call.id),
                name: call.name->0,
                arguments: Seq::empty(),
            },
        )
    } else if is_continuation(call) && pending.contains_key(call.index) {
        let started = pending[call.index];
        pending.insert(
            call.index,
            PendingToolCallView { arguments: started.arguments + call.arguments, ..started },
        )
    } else {
        pending
    }
}

/// The calls that have started to arrive, after some more pieces.
pub open spec fn after_calls(
    pending: Map<usize, PendingToolCallView>,
    calls: Seq<StreamingToolCallView>,
) -> Map<usize, PendingToolCallView> {
    calls.fold_left(
        pending,
        |pending: Map<usize, PendingToolCallView>, call: StreamingToolCallView|
            after_call(pending, call),
    )
}

/// The tool call to hand out, where its arguments are JSON.
pub open spec fn tool_call_item(
    id: Seq<char>,
    name: Seq<char>,
    arguments: Option<serde_json::Value>,
) -> Option<ItemView> {
    match arguments {
        Some(arguments) => Some(ItemView::ToolCall { id, call_id: None, name, arguments }),
        None => None,
    }
}

/// What a piece of a tool call makes the stream hand out: the call, where the piece is all of
/// it and its arguments are JSON.
pub open spec fn call_item(call: StreamingToolCallView) -> Option<ItemView> {
    if is_start(call) || is_continuation(call) {
        None
    } else {
        tool_call_item(
            id_or_empty(call.id),
            call.name->0,
            json::parsed_json(call.arguments),
        )
    }
}

/// Every tool call piece of the first answer in a chunk has a name or arguments.
pub open spec fn is_acceptable_chunk(chunk: ChunkView) -> bool {
    chunk.choices.len() > 0 ==> forall|i: int|
        0 <= i < chunk.choices[0].tool_calls.len() ==> is_acceptable(
            #[trigger] chunk.choices[0].tool_calls[i],
        )
}

/// What has arrived after one more chunk, of which only the first answer counts.
pub open spec fn after_chunk(state: StreamView, chunk: ChunkView) -> StreamView {
    let usage = match chunk.usage {
        Some(usage) => usage,
        None => state.usage,
    };
    if chunk.choices.len() > 0 {
        let delta = chunk.choices[0];
        StreamView {
            pending: after_calls(state.pending, delta.tool_calls),
            text: match delta.content {
                Some(content) => state.text + content,
                None => state.text,
            },
            usage,
        }
    } else {
        StreamView { usage, ..state }
    }
}

/// What a chunk makes the stream hand out: the tool calls that it holds whole, and its text.
pub open spec fn chunk_items(chunk: ChunkView) -> Seq<ItemView> {
    if chunk.choices.len() > 0 {
        let delta = chunk.choices[0];
        let calls = delta.tool_calls.filter_map(|call: StreamingToolCallView| call_item(call));
        match delta.content {
            Some(content) => calls.push(ItemView::Message(content)),
            None => calls,
        }
    } else {
        Seq::empty()
    }
}

/// Makes the item that hands out a tool call, where its arguments are JSON.
pub fn make_tool_call_item(
    id: String,
    name: String,
    arguments: Option<serde_json::Value>,
) -> (item: Option<RawStreamingChoice>)
    ensures
        item.deep_view() == tool_call_item(id@, name@, arguments),
{
    match arguments {
        Some(arguments) => Some(
            RawStreamingChoice::ToolCall { id, call_id: None, name, arguments },
        ),
        None => None,
    }
}

fn clone_or_empty(id: &Option<String>) -> (text: String)
    ensures
        text@ == id_or_empty(id.deep_view()),
{
    match id {
        Some(id) => id.clone(),
        None => String::new(),
    }
}

impl StreamingToolCall {
    /// Tells whether the piece has a name or arguments.
    pub fn is_acceptable(&self) -> (acceptable: bool)
        ensures
            acceptable == is_acceptable(self.deep_view()),
    {
        self.function.name.is_some() || !self.function.arguments.as_str().is_empty()
    }
}

impl StreamingCompletionChunk {
    /// Tells whether every tool call piece of the first answer has a name or arguments.
    pub fn is_acceptable(&self) -> (acceptable: bool)
        ensures
            acceptable == is_acceptable_chunk(self.deep_view()),
    {
        if self.choices.is_empty() {
            return true;
        }
        let calls = &self.choices[0].delta.tool_calls;
        let ghost given = self.deep_view().choices[0].tool_calls;
        assert(given == calls.deep_view());
        let mut i: usize = 0;
        while i < calls.len()
            invariant
                i <= calls.len(),
                given == calls.deep_view(),
                given == self.deep_view().choices[0].tool_calls,
                self.deep_view().choices.len() > 0,
                forall|j: int| 0 <= j < i ==> is_acceptable(#[trigger] given[j]),
            decreases calls.len() - i,
        {
            if !calls[i].is_acceptable() {
                assert(!is_acceptable(given[i as int]));
                return false;
            }
            i = i + 1;
        }
        true
    }
}

impl StreamingState {
    /// Nothing has arrived.
    pub fn new() -> (state: Self)
        ensures
            state@ == (StreamView {
                pending: Map::empty(),
                text: Seq::empty(),
                usage: Usage { prompt_tokens: 0, total_tokens: 0 },
            }),
    {
        let state = StreamingState {
            tool_calls: HashMap::new(),
            text_content: String::new(),
            final_usage: Usage::new(),
        };
        assert(state@.pending == Map::<usize, PendingToolCallView>::empty());
        state
    }

    /// Takes in a piece of a tool call.
    pub fn on_tool_call(&mut self, call: &StreamingToolCall) -> (item: Option<RawStreamingChoice>)
        requires
            is_acceptable(call.deep_view()),
        ensures
            final(self)@.pending == after_call(old(self)@.pending, call.deep_view()),
            final(self)@.text == old(self)@.text,
            final(self)@.usage == old(self)@.usage,
            item.deep_view() == call_item(call.deep_view()),
    {
        let ghost before = self@.pending;
        let ghost held = self.tool_calls@;
        let no_arguments = call.function.arguments.as_str().is_empty();
        let no_name = match &call.function.name {
            Some(name) => name.as_str().is_empty(),
            None => true,
        };
        if call.function.name.is_some() && no_arguments {
            let name = clone_or_empty(&call.function.name);
            let started = PendingToolCall {
                id: clone_or_empty(&call.id),
                name,
                arguments: String::new(),
            };
            self.tool_calls.insert(call.index, started);
            assert(self@.pending == before.insert(call.index, started.deep_view()));
            None
        } else if no_name && !no_arguments {
            if let Some(started) = self.tool_calls.get(&call.index) {
                let mut arguments = started.arguments.clone();
                arguments.append(call.function.arguments.as_str());
                let longer = PendingToolCall {
                    id: started.id.clone(),
                    name: started.name.clone(),
                    arguments,
                };
                assert(before[call.index] == held[call.index].deep_view());
                self.tool_calls.insert(call.index, longer);
                assert(self@.pending == before.insert(call.index, longer.deep_view()));
            }
            None
        } else {
            make_tool_call_item(
                clone_or_empty(&call.id),
                clone_or_empty(&call.function.name),
                json::parse_json(call.function.arguments.as_str()),
            )
        }
    }

    /// Takes in the tool call pieces of a chunk.
    fn on_tool_calls(&mut self, calls: &Vec<StreamingToolCall>) -> (items: Vec<RawStreamingChoice>)
        requires
            forall|i: int|
                0 <= i < calls.deep_view().len() ==> is_acceptable(#[trigger] calls.deep_view()[i]),
        ensures
            final(self)@.pending == after_calls(old(self)@.pending, calls.deep_view()),
            final(self)@.text == old(self)@.text,
            final(self)@.usage == old(self)@.usage,
            items.deep_view() == calls.deep_view().filter_map(
                |call: StreamingToolCallView| call_item(call),
            ),
    {
        let ghost given = calls.deep_view();
        let ghost start = self@;
        let ghost f = |call: StreamingToolCallView| call_item(call);
        let mut items: Vec<RawStreamingChoice> = Vec::new();
        let mut i: usize = 0;
        while i < calls.len()
            invariant
                i <= calls.len(),
                given == calls.deep_view(),
                f == (|call: StreamingToolCallView| call_item(call)),
                forall|j: int| 0 <= j < given.len() ==> is_acceptable(#[trigger] given[j]),
                self@.pending == after_calls(start.pending, given.take(i as int)),
                self@.text == start.text,
                self@.usage == start.usage,
                items.deep_view() == given.take(i as int).filter_map(f),
            decreases calls.len() - i,
        {
            assert(given.take(i + 1).drop_last() == given.take(i as int));
            assert(is_acceptable(given[i as int]));
            let ghost before = items.deep_view();
            match self.on_tool_call(&calls[i]) {
                Some(item) => {
                    items.push(item);
                    assert(items.deep_view() == before + seq![item.deep_view()]);
                },
                None => {},
            }
            i = i + 1;
        }
        assert(given.take(i as int) == given);
        items
    }

    /// Takes in a chunk, and gives what the application is to be handed for it.
    pub fn on_chunk(&mut self, chunk: StreamingCompletionChunk) -> (items: Vec<RawStreamingChoice>)
        requires
            is_acceptable_chunk(chunk.deep_view()),
        ensures
            final(self)@ == after_chunk(old(self)@, chunk.deep_view()),
            items.deep_view() == chunk_items(chunk.deep_view()),
    {
        let mut items: Vec<RawStreamingChoice> = Vec::new();
        if let Some(choice) = chunk.choices.first() {
            let ghost calls = choice.delta.tool_calls.deep_view();
            assert(chunk.deep_view().choices[0] == choice.deep_view());
            assert forall|i: int| 0 <= i < calls.len() implies is_acceptable(
                #[trigger] calls[i],
            ) by {
                assert(chunk.deep_view().choices[0].tool_calls[i] == calls[i]);
            }
            items = self.on_tool_calls(&choice.delta.tool_calls);
            if let Some(content) = &choice.delta.content {
                let ghost before = items.deep_view();
                self.text_content.append(content.as_str());
                items.push(RawStreamingChoice::Message(content.clone()));
                assert(items.deep_view() == before.push(ItemView::Message(content@)));
            }
        }
        if let Some(usage) = chunk.usage {
            self.final_usage = usage;
        }
        items
    }
}

/// What the application is handed for a call that was still to be completed when the stream
/// ended: the call, where its arguments are JSON.
pub open spec fn flushed_item(call: PendingToolCallView) -> Option<ItemView> {
    tool_call_item(call.id, call.name, json::parsed_json(call.arguments))
}

/// A call that was still to be completed when the stream ended, as part of the answer.
pub open spec fn flushed_call(call: PendingToolCallView) -> Option<ToolCallView> {
    match json::parsed_json(call.arguments) {
        Some(arguments) => Some(
            ToolCallView {
                id: call.id,
                kind: ToolType::Function,
                function: FunctionView { name: call.name, arguments },
            },
        ),
        None => None,
    }
}

/// What a stream leaves when it ends.
#[derive(Debug)]
pub struct StreamEnd {
    /// What the application is still to be handed.
    pub items: Vec<RawStreamingChoice>,
    /// The whole answer.
    pub message: Message,
}

/// The items that the application is handed at the end: the calls of `pending`, and the count
/// of tokens.
pub open spec fn final_items(pending: Seq<PendingToolCallView>, usage: Usage) -> Seq<ItemView> {
    pending.filter_map(|call: PendingToolCallView| flushed_item(call)).push(
        ItemView::FinalResponse(StreamingCompletionResponse { usage }),
    )
}

/// The whole answer: the text, and the calls of `pending`.
pub open spec fn final_message(
    pending: Seq<PendingToolCallView>,
    text: Seq<char>,
) -> MessageView {
    MessageView::Assistant {
        content: seq![AssistantContentView::Text { text }],
        refusal: None,
        reasoning: None,
        name: None,
        tool_calls: pending.filter_map(|call: PendingToolCallView| flushed_call(call)),
    }
}

/// `order` lists the keys of `pending`, each of them once.
pub open spec fn is_key_order(
    pending: Map<usize, PendingToolCallView>,
    order: Seq<usize>,
) -> bool {
    &&& order.no_duplicates()
    &&& order.to_set() == pending.dom()
}

/// The calls of `pending` in the order of their keys in `order`.
pub open spec fn in_order(
    pending: Map<usize, PendingToolCallView>,
    order: Seq<usize>,
) -> Seq<PendingToolCallView> {
    order.map_values(|index: usize| pending[index])
}

/// Ends a stream of which the calls in `pending` were still to be completed.
pub fn flush(pending: Vec<PendingToolCall>, text: String, usage: Usage) -> (end: StreamEnd)
    ensures
        end.items.deep_view() == final_items(pending.deep_view(), usage),
        end.message.deep_view() == final_message(pending.deep_view(), text@),
{
    let ghost given = pending.deep_view();
    let ghost all = pending@;
    let ghost f = |call: PendingToolCallView| flushed_item(call);
    let ghost g = |call: PendingToolCallView| flushed_call(call);
    let mut items: Vec<RawStreamingChoice> = Vec::new();
    let mut tool_calls: Vec<ToolCall> = Vec::new();
    for call in it: pending
        invariant
            it.seq() == all,
            given == pending.deep_view(),
            given.len() == all.len(),
            forall|i: int| 0 <= i < all.len() ==> #[trigger] given[i] == all[i].deep_view(),
            f == (|call: PendingToolCallView| flushed_item(call)),
            g == (|call: PendingToolCallView| flushed_call(call)),
            items.deep_view() == given.take(it.index()).filter_map(f),
            tool_calls.deep_view() == given.take(it.index()).filter_map(g),
    {
        assert(given[it.index()] == call.deep_view());
        assert(given.take(it.index() + 1).drop_last() == given.take(it.index()));
        let ghost items_before = items.deep_view();
        let ghost calls_before = tool_calls.deep_view();
        if let Some(arguments) = json::parse_json(call.arguments.as_str()) {
            let tool_call = ToolCall {
                id: call.id.clone(),
                kind: ToolType::Function,
                function: Function { name: call.name.clone(), arguments: arguments.clone() },
            };
            tool_calls.push(tool_call);
            assert(tool_calls.deep_view() == calls_before + seq![tool_call.deep_view()]);
            let item = RawStreamingChoice::ToolCall {
                id: call.id,
                call_id: None,
                name: call.name,
                arguments,
            };
            items.push(item);
            assert(items.deep_view() == items_before + seq![item.deep_view()]);
        }
    }
    assert(given.take(given.len() as int) == given);
    let ghost handed = items.deep_view();
    items.push(RawStreamingChoice::FinalResponse(StreamingCompletionResponse { usage }));
    assert(items.deep_view() == handed.push(
        ItemView::FinalResponse(StreamingCompletionResponse { usage }),
    ));
    let mut content: Vec<AssistantContent> = Vec::new();
    content.push(AssistantContent::Text { text });
    assert(content.deep_view() == seq![AssistantContentView::Text { text: text@ }]);
    StreamEnd {
        items,
        message: Message::Assistant {
            content,
            refusal: None,
            reasoning: None,
            name: None,
            tool_calls,
        },
    }
}

impl StreamingState {
    /// The calls that have started to arrive, in an order that is not fixed.
    fn pending_calls(&self) -> (calls: Vec<PendingToolCall>)
        ensures
            exists|order: Seq<usize>|
                is_key_order(self@.pending, order) && calls.deep_view() == #[trigger] in_order(
                    self@.pending,
                    order,
                ),
    {
        let ghost pending = self@.pending;
        let mut calls: Vec<PendingToolCall> = Vec::new();
        let keys = self.tool_calls.keys();
        let ghost order: Seq<usize> = keys.remaining().unref();
        assert(keys.remaining().no_duplicates());
        assert forall|i: int, j: int|
            0 <= i < order.len() && 0 <= j < order.len() && i != j implies order[i] != order[j] by {
            assert(keys.remaining()[i] != keys.remaining()[j]);
        }
        assert(order.to_set() == self.tool_calls@.dom());
        assert(pending.dom() == self.tool_calls@.dom());
        for index in it: keys
            invariant
                pending == self@.pending,
                is_key_order(pending, order),
                it.seq().unref() == order,
                calls@.len() == it.index(),
                forall|i: int|
                    0 <= i < calls@.len() ==> (#[trigger] calls@[i]).deep_view()
                        == pending[order[i]],
        {
            assert(order[it.index()] == *index);
            assert(order.to_set().contains(*index));
            if let Some(call) = self.tool_calls.get(index) {
                calls.push(call.clone());
            }
        }
        assert(calls.deep_view() == in_order(pending, order));
        calls
    }

    /// Ends the stream. The calls that were still to be completed are handed out in an order
    /// that is not fixed.
    pub fn finish(self) -> (end: StreamEnd)
        ensures
            exists|order: Seq<usize>|
                is_key_order(self@.pending, order) && end.items.deep_view() == final_items(
                    #[trigger] in_order(self@.pending, order),
                    self@.usage,
                ) && end.message.deep_view() == final_message(
                    in_order(self@.pending, order),
                    self@.text,
                ),
    {
        let pending = self.pending_calls();
        flush(pending, self.text_content, self.final_usage)
    }
}

} // verus!
