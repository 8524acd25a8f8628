//! Laws of what a stream does with each piece of a completion.
use crate::api::CompletionError;
use crate::completion::{ToolCall, ToolType};
use crate::response::Usage;
use crate::streaming::{
    PendingToolCall, PendingToolCallView, RawStreamingChoice, StreamAction, StreamEnd, StreamEvent,
    StreamingCompletionChunk, StreamingState, StreamingToolCall, StreamingToolCallView,
};
use vstd::prelude::*;

verus! {

/// `id` is the id of a call, or empty where the call has none.
pub open spec fn is_id(id: Seq<char>, given: Option<String>) -> bool {
    match given {
        Some(text) => id == text@,
        None => id.len() == 0,
    }
}

/// `item` hands out a call with the given id, name and arguments, and without a call id.
pub open spec fn hands_out_call(
    item: RawStreamingChoice,
    id: Seq<char>,
    name: Seq<char>,
    arguments: serde_json::Value,
) -> bool {
    match item {
        RawStreamingChoice::ToolCall {
            id: own_id,
            call_id,
            name: own_name,
            arguments: own_arguments,
        } => own_id@ == id && call_id is None && own_name@ == name && own_arguments == arguments,
        _ => false,
    }
}

/// A piece that is a whole call: it has a name and arguments, neither of them empty.
pub open spec fn is_whole(piece: StreamingToolCall) -> bool {
    &&& piece.function.name matches Some(name)
    &&& name@.len() > 0
    &&& piece.function.arguments@.len() > 0
}

/// A piece that is a whole call, and whose arguments are JSON.
pub open spec fn is_whole_json(piece: StreamingToolCall) -> bool {
    is_whole(piece) && crate::json::parsed_json(piece.function.arguments@) is Some
}

/// `item` hands out the call that `piece` is, with its own id, name and arguments.
pub open spec fn hands_out_piece(item: RawStreamingChoice, piece: StreamingToolCall) -> bool {
    exists|id: Seq<char>|
        is_id(id, piece.id) && #[trigger] hands_out_call(
            item,
            id,
            piece.function.name->0@,
            crate::json::parsed_json(piece.function.arguments@)->0,
        )
}

/// A whole call is handed out at once, with its own id, name and arguments, whatever its index,
/// where its arguments are JSON. It is not kept.
pub proof fn whole_call_is_handed_out(
    state: &mut StreamingState,
    piece: StreamingToolCall,
    item: Option<RawStreamingChoice>,
)
    requires
        call_ensures(StreamingState::on_tool_call, (state, &piece), item),
        is_whole(piece),
    ensures
        is_whole_json(piece) ==> item is Some && hands_out_piece(item->0, piece),
        !is_whole_json(piece) ==> item is None,
        final(state)@ == old(state)@,
{
    lemma_piece(piece, item);
    assert(final(state)@ =~= old(state)@);
}

proof fn lemma_piece(piece: StreamingToolCall, item: Option<RawStreamingChoice>)
    requires
        is_whole(piece),
        item.deep_view() == crate::streaming::call_item(piece.deep_view()),
    ensures
        is_whole_json(piece) ==> item is Some && hands_out_piece(item->0, piece),
        !is_whole_json(piece) ==> item is None,
{
    if is_whole_json(piece) {
        let id = item->0->id@;
        assert(is_id(id, piece.id));
        assert(hands_out_call(
            item->0,
            id,
            piece.function.name->0@,
            crate::json::parsed_json(piece.function.arguments@)->0,
        ));
    }
}

/// A call starts with a piece that has a name and no arguments: it is kept under its index, with
/// its own id and name, and nothing is handed out. What was kept under that index is given up, and
/// all else stays.
pub proof fn call_starts(
    state: &mut StreamingState,
    piece: StreamingToolCall,
    item: Option<RawStreamingChoice>,
    name: String,
)
    requires
        call_ensures(StreamingState::on_tool_call, (state, &piece), item),
        piece.function.name == Some(name),
        piece.function.arguments@.len() == 0,
    ensures
        item is None,
        final(state)@.pending.contains_key(piece.index),
        is_id(final(state)@.pending[piece.index].id, piece.id),
        final(state)@.pending[piece.index].name == name@,
        final(state)@.pending[piece.index].arguments.len() == 0,
        final(state)@.pending.remove(piece.index) == old(state)@.pending.remove(piece.index),
        final(state)@.text == old(state)@.text,
        final(state)@.usage == old(state)@.usage,
{
    assert(final(state)@.pending.remove(piece.index) =~= old(state)@.pending.remove(piece.index));
}

/// A call that has started goes on with a piece that has arguments and no name: they are added to
/// those that it has, and nothing is handed out. All else stays.
pub proof fn call_goes_on(
    state: &mut StreamingState,
    piece: StreamingToolCall,
    item: Option<RawStreamingChoice>,
)
    requires
        call_ensures(StreamingState::on_tool_call, (state, &piece), item),
        piece.function.name matches Some(name) ==> name@.len() == 0,
        piece.function.arguments@.len() > 0,
        old(state)@.pending.contains_key(piece.index),
    ensures
        item is None,
        final(state)@.pending.contains_key(piece.index),
        final(state)@.pending[piece.index].id == old(state)@.pending[piece.index].id,
        final(state)@.pending[piece.index].name == old(state)@.pending[piece.index].name,
        final(state)@.pending[piece.index].arguments == old(state)@.pending[piece.index].arguments
            + piece.function.arguments@,
        final(state)@.pending.remove(piece.index) == old(state)@.pending.remove(piece.index),
        final(state)@.text == old(state)@.text,
        final(state)@.usage == old(state)@.usage,
{
    assert(final(state)@.pending.remove(piece.index) =~= old(state)@.pending.remove(piece.index));
}

/// A piece that goes on with a call that has not started changes nothing and hands nothing out.
pub proof fn call_must_start(
    state: &mut StreamingState,
    piece: StreamingToolCall,
    item: Option<RawStreamingChoice>,
)
    requires
        call_ensures(StreamingState::on_tool_call, (state, &piece), item),
        piece.function.name matches Some(name) ==> name@.len() == 0,
        piece.function.arguments@.len() > 0,
        !old(state)@.pending.contains_key(piece.index),
    ensures
        item is None,
        final(state)@ == old(state)@,
{
    assert(final(state)@ =~= old(state)@);
}

/// A chunk without an answer hands nothing out, and changes nothing but the count of tokens.
pub proof fn chunk_without_answer_is_empty(
    state: &mut StreamingState,
    chunk: StreamingCompletionChunk,
    items: Vec<RawStreamingChoice>,
)
    requires
        call_ensures(StreamingState::on_chunk, (state, chunk), items),
        chunk.choices@.len() == 0,
    ensures
        items@.len() == 0,
        final(state)@.pending == old(state)@.pending,
        final(state)@.text == old(state)@.text,
{
    assert(chunk.choices.deep_view().len() == 0);
    assert(items.deep_view().len() == items@.len());
}

/// The count of tokens of a chunk is kept in place of the one before, which stays where the chunk
/// has none.
pub proof fn count_of_a_chunk_is_kept(
    state: &mut StreamingState,
    chunk: StreamingCompletionChunk,
    items: Vec<RawStreamingChoice>,
)
    requires
        call_ensures(StreamingState::on_chunk, (state, chunk), items),
    ensures
        chunk.usage is Some ==> Some(final(state)@.usage) == chunk.usage,
        chunk.usage is None ==> final(state)@.usage == old(state)@.usage,
{
}

/// The text of a chunk is handed out as the last item, exactly as it arrived, and what is kept of
/// the answer grows by exactly that text.
pub proof fn text_is_handed_out_and_kept_as_it_is(
    state: &mut StreamingState,
    chunk: StreamingCompletionChunk,
    items: Vec<RawStreamingChoice>,
    content: String,
)
    requires
        call_ensures(StreamingState::on_chunk, (state, chunk), items),
        chunk.choices@.len() > 0,
        chunk.choices@[0].delta.content == Some(content),
    ensures
        items@.len() > 0,
        items@.last() matches RawStreamingChoice::Message(text) && text@ == content@,
        final(state)@.text == old(state)@.text + content@,
{
    lemma_first_choice(chunk);
    assert(items.deep_view().len() == items@.len());
    assert(items.deep_view().last() == items@.last().deep_view());
}

/// A chunk without text hands out no text, and what is kept of the answer stays.
pub proof fn no_text_is_made_up(
    state: &mut StreamingState,
    chunk: StreamingCompletionChunk,
    items: Vec<RawStreamingChoice>,
)
    requires
        call_ensures(StreamingState::on_chunk, (state, chunk), items),
        chunk.choices@.len() > 0,
        chunk.choices@[0].delta.content is None,
    ensures
        final(state)@.text == old(state)@.text,
        forall|i: int| 0 <= i < items@.len() ==> (#[trigger] items@[i]) is ToolCall,
{
    lemma_first_choice(chunk);
    let calls = chunk.choices@[0].delta.tool_calls.deep_view();
    let f = |call: StreamingToolCallView| crate::streaming::call_item(call);
    assert(items.deep_view() == calls.filter_map(f));
    assert forall|i: int| 0 <= i < items@.len() implies (#[trigger] items@[i]) is ToolCall by {
        assert(items.deep_view()[i] == items@[i].deep_view());
        assert(items.deep_view().contains(items.deep_view()[i]));
        let at = crate::lists::lemma_filter_map_source(calls, f, items.deep_view()[i]);
    }
}

proof fn lemma_first_choice(chunk: StreamingCompletionChunk)
    requires
        chunk.choices@.len() > 0,
    ensures
        chunk.deep_view().choices.len() > 0,
        chunk.deep_view().choices[0] == chunk.choices@[0].delta.deep_view(),
{
    assert(chunk.choices.deep_view().len() == chunk.choices@.len());
    assert(chunk.choices.deep_view()[0] == chunk.choices@[0].deep_view());
}

/// The whole calls of a chunk whose arguments are JSON are handed out ahead of its text, in their
/// order, each with its own id, name and arguments, and nothing else is handed out.
pub proof fn calls_of_a_chunk_are_handed_out(
    state: &mut StreamingState,
    chunk: StreamingCompletionChunk,
    items: Vec<RawStreamingChoice>,
)
    requires
        call_ensures(StreamingState::on_chunk, (state, chunk), items),
        chunk.choices@.len() > 0,
        forall|i: int|
            0 <= i < chunk.choices@[0].delta.tool_calls@.len() ==> has_name_or_arguments(
                #[trigger] chunk.choices@[0].delta.tool_calls@[i],
            ),
    ensures
        ({
            let pieces = chunk.choices@[0].delta.tool_calls@;
            let p = |piece: StreamingToolCall| is_whole_json(piece);
            let texts: nat = if chunk.choices@[0].delta.content is Some {
                1
            } else {
                0
            };
            &&& items@.len() == crate::lists::how_many(pieces, p) + texts
            &&& forall|at: int|
                #![trigger pieces[at]]
                0 <= at < pieces.len() && is_whole_json(pieces[at]) ==> crate::lists::how_many(
                    pieces.take(at),
                    p,
                ) < crate::lists::how_many(pieces, p) && hands_out_piece(
                    items@[crate::lists::how_many(pieces.take(at), p) as int],
                    pieces[at],
                )
        }),
{
    lemma_first_choice(chunk);
    let list = chunk.choices@[0].delta.tool_calls;
    let pieces = list@;
    let models = list.deep_view();
    let p = |piece: StreamingToolCall| is_whole_json(piece);
    let f = |call: StreamingToolCallView| crate::streaming::call_item(call);
    assert(items.deep_view().len() == items@.len());
    assert(models.len() == pieces.len());
    assert forall|i: int| 0 <= i < pieces.len() implies (p(#[trigger] pieces[i]) <==> f(
        models[i],
    ) is Some) by {
        assert(models[i] == pieces[i].deep_view());
        assert(has_name_or_arguments(pieces[i]));
    }
    crate::lists::lemma_filter_map_counts(pieces, p, models, f);
    assert forall|at: int|
        #![trigger pieces[at]]
        0 <= at < pieces.len() && is_whole_json(pieces[at]) implies crate::lists::how_many(
        pieces.take(at),
        p,
    ) < crate::lists::how_many(pieces, p) && hands_out_piece(
        items@[crate::lists::how_many(pieces.take(at), p) as int],
        pieces[at],
    ) by {
        let own = crate::lists::how_many(pieces.take(at), p) as int;
        assert(p(pieces[at]));
        assert(models[at] == pieces[at].deep_view());
        assert(items.deep_view()[own] == models.filter_map(f)[own]);
        assert(items.deep_view()[own] == items@[own].deep_view());
        lemma_piece(pieces[at], Some(items@[own]));
    }
}

/// A piece that has a name or arguments.
pub open spec fn has_name_or_arguments(piece: StreamingToolCall) -> bool {
    piece.function.name is Some || piece.function.arguments@.len() > 0
}

/// A chunk without pieces of tool calls leaves the calls that are kept as they are.
pub proof fn chunk_without_pieces_keeps_the_calls(
    state: &mut StreamingState,
    chunk: StreamingCompletionChunk,
    items: Vec<RawStreamingChoice>,
)
    requires
        call_ensures(StreamingState::on_chunk, (state, chunk), items),
        chunk.choices@.len() > 0,
        chunk.choices@[0].delta.tool_calls@.len() == 0,
    ensures
        final(state)@.pending == old(state)@.pending,
{
    lemma_first_choice(chunk);
    assert(chunk.choices@[0].delta.tool_calls.deep_view() =~= Seq::empty());
}

/// The pieces of a chunk are taken in one after the other: a chunk with one more piece does to the
/// calls that are kept what that piece does after the chunk without it.
pub proof fn pieces_of_a_chunk_are_taken_in_order(
    state: &mut StreamingState,
    chunk: StreamingCompletionChunk,
    items: Vec<RawStreamingChoice>,
    then: &mut StreamingState,
    piece: StreamingToolCall,
    item: Option<RawStreamingChoice>,
    all: &mut StreamingState,
    longer: StreamingCompletionChunk,
    all_items: Vec<RawStreamingChoice>,
)
    requires
        call_ensures(StreamingState::on_chunk, (state, chunk), items),
        call_ensures(StreamingState::on_tool_call, (then, &piece), item),
        call_ensures(StreamingState::on_chunk, (all, longer), all_items),
        old(then)@ == final(state)@,
        old(all)@ == old(state)@,
        chunk.choices@.len() > 0,
        longer.choices@.len() > 0,
        longer.choices@[0].delta.tool_calls@ == chunk.choices@[0].delta.tool_calls@.push(piece),
    ensures
        final(all)@.pending == final(then)@.pending,
{
    lemma_first_choice(chunk);
    lemma_first_choice(longer);
    let calls = chunk.choices@[0].delta.tool_calls;
    let more = longer.choices@[0].delta.tool_calls;
    assert(more.deep_view() =~= calls.deep_view().push(piece.deep_view()));
    assert(calls.deep_view().push(piece.deep_view()).drop_last() =~= calls.deep_view());
}

/// Only the first answer of a chunk counts.
pub proof fn other_answers_do_not_count(
    state: &mut StreamingState,
    chunk: StreamingCompletionChunk,
    items: Vec<RawStreamingChoice>,
    other: &mut StreamingState,
    short: StreamingCompletionChunk,
    other_items: Vec<RawStreamingChoice>,
)
    requires
        call_ensures(StreamingState::on_chunk, (state, chunk), items),
        call_ensures(StreamingState::on_chunk, (other, short), other_items),
        old(state)@ == old(other)@,
        chunk.choices@.len() > 0,
        short.choices@.len() == 1,
        short.choices@[0] == chunk.choices@[0],
        short.usage == chunk.usage,
    ensures
        final(state)@ == final(other)@,
        items.deep_view() == other_items.deep_view(),
{
    lemma_first_choice(chunk);
    lemma_first_choice(short);
}

/// Nothing has arrived of a stream that starts.
pub proof fn stream_starts_empty(state: StreamingState)
    requires
        call_ensures(StreamingState::new, (), state),
    ensures
        state@.pending.dom() =~= Set::<usize>::empty(),
        state@.text.len() == 0,
        state@.usage.prompt_tokens == 0,
        state@.usage.total_tokens == 0,
{
}

/// `call` is a tool call with the given id, name and arguments.
pub open spec fn is_call(
    call: ToolCall,
    id: Seq<char>,
    name: Seq<char>,
    arguments: serde_json::Value,
) -> bool {
    &&& call.id@ == id
    &&& call.kind == ToolType::Function
    &&& call.function.name@ == name
    &&& call.function.arguments == arguments
}

/// A call that was still to be completed, and whose arguments are JSON.
pub open spec fn has_json(call: PendingToolCallView) -> bool {
    crate::json::parsed_json(call.arguments) is Some
}

/// `end` is what a stream leaves that kept `text`, `usage` and the calls in `pending`: for each of
/// the calls whose arguments are JSON, in their order, an item that hands it out and a tool call of
/// the whole answer, each with the id, the name and the arguments of the call; then the count of
/// tokens. The whole answer has the text, and nothing else.
pub open spec fn is_end_of(
    end: StreamEnd,
    pending: Seq<PendingToolCallView>,
    text: Seq<char>,
    usage: Usage,
) -> bool {
    let p = |call: PendingToolCallView| has_json(call);
    let calls = end.message->tool_calls@;
    let content = end.message->Assistant_content@;
    let count = crate::lists::how_many(pending, p);
    &&& end.items@.len() == count + 1
    &&& end.items@.last() matches RawStreamingChoice::FinalResponse(response)
    &&& response.usage == usage
    &&& end.message is Assistant
    &&& end.message->refusal is None
    &&& end.message->Assistant_reasoning is None
    &&& end.message->Assistant_name is None
    &&& content.len() == 1
    &&& content[0] is Text
    &&& content[0]->text@ == text
    &&& calls.len() == count
    &&& forall|at: int|
        #![trigger pending[at]]
        0 <= at < pending.len() && has_json(pending[at]) ==> is_flushed(
            end,
            crate::lists::how_many(pending.take(at), p) as int,
            pending[at],
        )
}

/// The item and the tool call at `own` are `call`.
pub open spec fn is_flushed(end: StreamEnd, own: int, call: PendingToolCallView) -> bool {
    let arguments = crate::json::parsed_json(call.arguments)->0;
    &&& 0 <= own < end.message->tool_calls@.len()
    &&& 0 <= own < end.items@.len()
    &&& hands_out_call(end.items@[own], call.id, call.name, arguments)
    &&& is_call(end.message->tool_calls@[own], call.id, call.name, arguments)
}

proof fn lemma_end(
    end: StreamEnd,
    pending: Seq<PendingToolCallView>,
    text: Seq<char>,
    usage: Usage,
)
    requires
        end.items.deep_view() == crate::streaming::final_items(pending, usage),
        end.message.deep_view() == crate::streaming::final_message(pending, text),
    ensures
        is_end_of(end, pending, text, usage),
{
    let p = |call: PendingToolCallView| has_json(call);
    let f = |call: PendingToolCallView| crate::streaming::flushed_item(call);
    let g = |call: PendingToolCallView| crate::streaming::flushed_call(call);
    crate::lists::lemma_filter_map_counts(pending, p, pending, f);
    crate::lists::lemma_filter_map_counts(pending, p, pending, g);
    let items = end.items;
    let calls = end.message->tool_calls;
    let content = end.message->Assistant_content;
    assert(items.deep_view().len() == items@.len());
    assert(items.deep_view().last() == items@.last().deep_view());
    assert(calls.deep_view() == pending.filter_map(g));
    assert(calls.deep_view().len() == calls@.len());
    assert(content.deep_view().len() == content@.len());
    assert(content.deep_view()[0] == content@[0].deep_view());
    assert forall|at: int|
        #![trigger pending[at]]
        0 <= at < pending.len() && has_json(pending[at]) implies is_flushed(
        end,
        crate::lists::how_many(pending.take(at), p) as int,
        pending[at],
    ) by {
        let own = crate::lists::how_many(pending.take(at), p) as int;
        assert(p(pending[at]));
        assert(items.deep_view()[own] == pending.filter_map(f)[own]);
        assert(items.deep_view()[own] == items@[own].deep_view());
        assert(calls.deep_view()[own] == calls@[own].deep_view());
    }
}

/// The model of each of the calls.
pub open spec fn models_of(pending: Seq<PendingToolCall>) -> Seq<PendingToolCallView> {
    pending.map_values(
        |call: PendingToolCall|
            PendingToolCallView { id: call.id@, name: call.name@, arguments: call.arguments@ },
    )
}

/// What is flushed at the end of a stream are the calls that are still to be completed, in their
/// order, and then the count of tokens; the whole answer holds the text and the same calls.
pub proof fn flush_hands_out_the_calls(
    pending: Vec<PendingToolCall>,
    text: String,
    usage: Usage,
    end: StreamEnd,
)
    requires
        call_ensures(crate::streaming::flush, (pending, text, usage), end),
    ensures
        is_end_of(end, models_of(pending@), text@, usage),
{
    assert(pending.deep_view() =~= models_of(pending@));
    lemma_end(end, pending.deep_view(), text@, usage);
}

/// What is kept under each of the indices.
pub open spec fn kept_under(
    pending: Map<usize, PendingToolCallView>,
    indices: Seq<usize>,
) -> Seq<PendingToolCallView> {
    Seq::new(indices.len(), |i: int| pending[indices[i]])
}

/// A stream that ends hands out the calls that are still to be completed, each of them once, and
/// then the count of tokens that was kept. The whole answer holds the text that was kept and the
/// same calls.
pub proof fn finish_hands_out_the_calls(state: StreamingState, end: StreamEnd)
    requires
        call_ensures(StreamingState::finish, (state,), end),
    ensures
        exists|order: Seq<usize>|
            {
                &&& order.no_duplicates()
                &&& order.to_set() == state@.pending.dom()
                &&& is_end_of(
                    end,
                    #[trigger] kept_under(state@.pending, order),
                    state@.text,
                    state@.usage,
                )
            },
{
    let order = choose|order: Seq<usize>|
        crate::streaming::is_key_order(state@.pending, order) && end.items.deep_view()
            == crate::streaming::final_items(
            #[trigger] crate::streaming::in_order(state@.pending, order),
            state@.usage,
        ) && end.message.deep_view() == crate::streaming::final_message(
            crate::streaming::in_order(state@.pending, order),
            state@.text,
        );
    let pending = crate::streaming::in_order(state@.pending, order);
    assert(pending =~= kept_under(state@.pending, order));
    lemma_end(end, pending, state@.text, state@.usage);
}

/// A call is handed out with its id, name and arguments where its arguments are JSON.
pub proof fn call_is_handed_out_if_json(
    id: String,
    name: String,
    arguments: Option<serde_json::Value>,
    item: Option<RawStreamingChoice>,
)
    requires
        call_ensures(crate::streaming::make_tool_call_item, (id, name, arguments), item),
    ensures
        arguments is None ==> item is None,
        arguments is Some ==> item is Some && hands_out_call(item->0, id@, name@, arguments->0),
{
}

/// A stream is opened, read and ended as its events say: data that is blank or the mark of the end
/// is skipped, and all other data is decoded as it is; a failure is handed on with its reason.
pub proof fn events_are_heeded(event: StreamEvent, action: StreamAction)
    requires
        call_ensures(crate::streaming::next_action, (event,), action),
    ensures
        event is Open ==> action is Skip,
        event is Ended ==> action is Stop,
        event matches StreamEvent::Failed(reason) ==> (action matches StreamAction::Fail(
            CompletionError::ResponseError(given),
        ) && given@ == reason@),
        event matches StreamEvent::Message(data) ==> {
            let skipped = data@ == "[DONE]"@ || forall|i: int|
                0 <= i < data@.len() ==> crate::text_laws::is_space(#[trigger] data@[i]);
            &&& skipped ==> action is Skip
            &&& !skipped ==> (action matches StreamAction::Decode(given) && given@ == data@)
        },
{
    if let StreamEvent::Message(data) = event {
        assert forall|i: int| 0 <= i < data@.len() implies crate::text_laws::is_space(
            #[trigger] data@[i],
        ) == crate::text::is_white_space(data@[i]) by {}
    }
}

/// A piece can be taken in if it has a name or arguments, and a chunk if every piece of its first
/// answer can.
pub proof fn pieces_need_a_name_or_arguments(
    piece: StreamingToolCall,
    taken: bool,
    chunk: StreamingCompletionChunk,
    chunk_taken: bool,
)
    requires
        call_ensures(StreamingToolCall::is_acceptable, (&piece,), taken),
        call_ensures(StreamingCompletionChunk::is_acceptable, (&chunk,), chunk_taken),
    ensures
        taken <==> has_name_or_arguments(piece),
        chunk.choices@.len() == 0 ==> chunk_taken,
        chunk.choices@.len() > 0 ==> (chunk_taken <==> forall|i: int|
            0 <= i < chunk.choices@[0].delta.tool_calls@.len() ==> has_name_or_arguments(
                #[trigger] chunk.choices@[0].delta.tool_calls@[i],
            )),
{
    assert(chunk.choices.deep_view().len() == chunk.choices@.len());
    if chunk.choices@.len() > 0 {
        lemma_first_choice(chunk);
        let calls = chunk.choices@[0].delta.tool_calls;
        let models = chunk.deep_view().choices[0].tool_calls;
        assert(models == calls.deep_view());
        assert forall|i: int| 0 <= i < calls@.len() implies has_name_or_arguments(
            #[trigger] calls@[i],
        ) == crate::streaming::is_acceptable(models[i]) by {
            assert(models[i] == calls@[i].deep_view());
        }
        if chunk_taken {
            assert forall|i: int| 0 <= i < calls@.len() implies has_name_or_arguments(
                #[trigger] calls@[i],
            ) by {
                assert(crate::streaming::is_acceptable(models[i]));
            }
        } else {
            let i = choose|i: int|
                0 <= i < models.len() && !crate::streaming::is_acceptable(#[trigger] models[i]);
            assert(!has_name_or_arguments(calls@[i]));
        }
    }
}

} // verus!
