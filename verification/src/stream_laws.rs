//! Laws of completions that arrive piece by piece.
use crate::response::Usage;
use crate::streaming::{
    ChunkView, ItemView, PendingToolCallView, StreamView, StreamingCompletionResponse,
    StreamingToolCallView,
};
use vstd::prelude::*;

verus! {

/// What has arrived after some more chunks.
pub open spec fn after_chunks(state: StreamView, chunks: Seq<ChunkView>) -> StreamView {
    chunks.fold_left(
        state,
        |state: StreamView, chunk: ChunkView| crate::streaming::after_chunk(state, chunk),
    )
}

/// What chunks make the stream hand out, one after the other.
pub open spec fn handed_out(chunks: Seq<ChunkView>) -> Seq<ItemView>
    decreases chunks.len(),
{
    if chunks.len() == 0 {
        Seq::empty()
    } else {
        handed_out(chunks.drop_last()) + crate::streaming::chunk_items(chunks.last())
    }
}

/// The text among the items that a stream hands out, in one piece.
pub open spec fn text_of(items: Seq<ItemView>) -> Seq<char>
    decreases items.len(),
{
    if items.len() == 0 {
        Seq::empty()
    } else {
        match items.last() {
            ItemView::Message(text) => text_of(items.drop_last()) + text,
            _ => text_of(items.drop_last()),
        }
    }
}

proof fn lemma_text_of_add(a: Seq<ItemView>, b: Seq<ItemView>)
    ensures
        text_of(a + b) == text_of(a) + text_of(b),
    decreases b.len(),
{
    if b.len() == 0 {
        assert(a + b == a);
        assert(text_of(a) + text_of(b) == text_of(a));
    } else {
        lemma_text_of_add(a, b.drop_last());
        assert((a + b).drop_last() == a + b.drop_last());
        assert((a + b).last() == b.last());
        assert(text_of(a + b) == text_of(a) + text_of(b));
    }
}

/// Tool calls carry no text.
proof fn lemma_text_of_calls(calls: Seq<StreamingToolCallView>)
    ensures
        text_of(
            calls.filter_map(|call: StreamingToolCallView| crate::streaming::call_item(call)),
        ) == Seq::<char>::empty(),
    decreases calls.len(),
{
    if calls.len() > 0 {
        lemma_text_of_calls(calls.drop_last());
        let f = |call: StreamingToolCallView| crate::streaming::call_item(call);
        let before = calls.drop_last().filter_map(f);
        match f(calls.last()) {
            Some(item) => {
                assert((before + seq![item]).drop_last() == before);
            },
            None => {},
        }
    }
}

proof fn lemma_text_of_chunk(state: StreamView, chunk: ChunkView)
    ensures
        crate::streaming::after_chunk(state, chunk).text == state.text + text_of(
            crate::streaming::chunk_items(chunk),
        ),
{
    if chunk.choices.len() > 0 {
        let delta = chunk.choices[0];
        lemma_text_of_calls(delta.tool_calls);
        let f = |call: StreamingToolCallView| crate::streaming::call_item(call);
        let calls = delta.tool_calls.filter_map(f);
        match delta.content {
            Some(content) => {
                assert(calls.push(ItemView::Message(content)).drop_last() == calls);
                assert(Seq::<char>::empty() + content == content);
            },
            None => {
                assert(state.text + Seq::<char>::empty() == state.text);
            },
        }
    } else {
        assert(state.text + Seq::<char>::empty() == state.text);
    }
}

/// The text that is kept is the text that was handed out, in one piece.
pub proof fn kept_text_is_the_text_handed_out(state: StreamView, chunks: Seq<ChunkView>)
    ensures
        after_chunks(state, chunks).text == state.text + text_of(handed_out(chunks)),
    decreases chunks.len(),
{
    if chunks.len() == 0 {
        assert(state.text + Seq::<char>::empty() == state.text);
    } else {
        let most = chunks.drop_last();
        kept_text_is_the_text_handed_out(state, most);
        lemma_text_of_chunk(after_chunks(state, most), chunks.last());
        lemma_text_of_add(handed_out(most), crate::streaming::chunk_items(chunks.last()));
        assert(state.text + text_of(handed_out(most)) + text_of(
            crate::streaming::chunk_items(chunks.last()),
        ) == state.text + (text_of(handed_out(most)) + text_of(
            crate::streaming::chunk_items(chunks.last()),
        )));
    }
}

/// The count of tokens that arrives last is the one that is kept.
pub proof fn last_count_of_tokens_is_kept(
    state: StreamView,
    chunks: Seq<ChunkView>,
    at: int,
    usage: Usage,
)
    requires
        0 <= at < chunks.len(),
        chunks[at].usage == Some(usage),
        forall|i: int| at < i < chunks.len() ==> (#[trigger] chunks[i]).usage is None,
    ensures
        after_chunks(state, chunks).usage == usage,
    decreases chunks.len(),
{
    if at < chunks.len() - 1 {
        let most = chunks.drop_last();
        assert forall|i: int| at < i < most.len() implies (#[trigger] most[i]).usage is None by {
            assert(most[i] == chunks[i]);
        }
        last_count_of_tokens_is_kept(state, most, at, usage);
        assert(chunks[chunks.len() - 1].usage is None);
    }
}

/// How the pieces of tool calls are spread over chunks does not matter.
pub proof fn pieces_may_be_spread_over_chunks(
    pending: Map<usize, PendingToolCallView>,
    first: Seq<StreamingToolCallView>,
    second: Seq<StreamingToolCallView>,
)
    ensures
        crate::streaming::after_calls(crate::streaming::after_calls(pending, first), second)
            == crate::streaming::after_calls(pending, first + second),
        first.filter_map(|call: StreamingToolCallView| crate::streaming::call_item(call))
            + second.filter_map(|call: StreamingToolCallView| crate::streaming::call_item(call))
            == (first + second).filter_map(
            |call: StreamingToolCallView| crate::streaming::call_item(call),
        ),
{
    let f = |pending: Map<usize, PendingToolCallView>, call: StreamingToolCallView|
        crate::streaming::after_call(pending, call);
    let all = first + second;
    all.lemma_fold_left_split(pending, f, first.len() as int);
    assert(all.subrange(0, first.len() as int) == first);
    assert(all.subrange(first.len() as int, all.len() as int) == second);
    crate::lists::lemma_filter_map_add(
        first,
        second,
        |call: StreamingToolCallView| crate::streaming::call_item(call),
    );
}

/// The pieces that belong to the call with the given index.
pub open spec fn own_pieces(pieces: Seq<StreamingToolCallView>, index: usize) -> Seq<
    StreamingToolCallView,
> {
    pieces.filter_map(
        |piece: StreamingToolCallView|
            if piece.index == index {
                Some(piece)
            } else {
                None
            },
    )
}

/// Only the pieces that belong to a call make a difference to it.
pub proof fn calls_do_not_mix(
    pending: Map<usize, PendingToolCallView>,
    pieces: Seq<StreamingToolCallView>,
    index: usize,
)
    ensures
        ({
            let all = crate::streaming::after_calls(pending, pieces);
            let own = crate::streaming::after_calls(pending, own_pieces(pieces, index));
            &&& all.contains_key(index) == own.contains_key(index)
            &&& all.contains_key(index) ==> all[index] == own[index]
        }),
    decreases pieces.len(),
{
    if pieces.len() > 0 {
        let most = pieces.drop_last();
        calls_do_not_mix(pending, most, index);
        if pieces.last().index == index {
            let own = own_pieces(most, index);
            assert(own_pieces(pieces, index) == own + seq![pieces.last()]);
            assert((own + seq![pieces.last()]).drop_last() == own);
        }
    }
}

/// The arguments of the given pieces, in one piece.
pub open spec fn arguments_of(pieces: Seq<StreamingToolCallView>) -> Seq<char>
    decreases pieces.len(),
{
    if pieces.len() == 0 {
        Seq::empty()
    } else {
        arguments_of(pieces.drop_last()) + pieces.last().arguments
    }
}

/// A call that starts and goes on piece by piece has the id and the name it started with, and
/// the arguments of all pieces in their order.
pub proof fn arguments_are_put_together(
    pending: Map<usize, PendingToolCallView>,
    start: StreamingToolCallView,
    pieces: Seq<StreamingToolCallView>,
)
    requires
        crate::streaming::is_start(start),
        forall|i: int|
            0 <= i < pieces.len() ==> crate::streaming::is_continuation(#[trigger] pieces[i])
                && pieces[i].index == start.index,
    ensures
        crate::streaming::after_calls(pending, seq![start] + pieces) == pending.insert(
            start.index,
            PendingToolCallView {
                id: crate::streaming::id_or_empty(start.id),
                name: start.name->0,
                arguments: arguments_of(pieces),
            },
        ),
    decreases pieces.len(),
{
    let all = seq![start] + pieces;
    if pieces.len() == 0 {
        assert(all.drop_last() == Seq::<StreamingToolCallView>::empty());
        assert(all.last() == start);
        reveal_with_fuel(Seq::fold_left, 2);
    } else {
        let most = pieces.drop_last();
        assert forall|i: int| 0 <= i < most.len() implies crate::streaming::is_continuation(
            #[trigger] most[i],
        ) && most[i].index == start.index by {
            assert(most[i] == pieces[i]);
        }
        arguments_are_put_together(pending, start, most);
        assert(all.drop_last() == seq![start] + most);
        assert(all.last() == pieces[pieces.len() - 1]);
    }
    assert(crate::streaming::after_calls(pending, all) =~= pending.insert(
        start.index,
        PendingToolCallView {
            id: crate::streaming::id_or_empty(start.id),
            name: start.name->0,
            arguments: arguments_of(pieces),
        },
    ));
}

/// A piece that goes on with a call that never started changes nothing and hands nothing out.
pub proof fn stray_piece_is_ignored(
    pending: Map<usize, PendingToolCallView>,
    piece: StreamingToolCallView,
)
    requires
        crate::streaming::is_continuation(piece),
        !pending.contains_key(piece.index),
    ensures
        crate::streaming::after_call(pending, piece) == pending,
        crate::streaming::call_item(piece) is None,
{
}

/// A call is handed out at once or kept for the end, never both: what is handed out at once
/// leaves the calls that are kept as they are.
pub proof fn call_is_handed_out_once(
    pending: Map<usize, PendingToolCallView>,
    piece: StreamingToolCallView,
)
    requires
        crate::streaming::call_item(piece) is Some,
    ensures
        crate::streaming::after_call(pending, piece) == pending,
{
}

/// What is handed out at the end does not depend on the order in which the calls are looked
/// through, but for its own order.
pub proof fn order_of_calls_does_not_matter(
    pending: Map<usize, PendingToolCallView>,
    order: Seq<usize>,
    other: Seq<usize>,
    usage: Usage,
)
    requires
        crate::streaming::is_key_order(pending, order),
        crate::streaming::is_key_order(pending, other),
    ensures
        crate::streaming::final_items(
            crate::streaming::in_order(pending, order),
            usage,
        ).to_multiset() == crate::streaming::final_items(
            crate::streaming::in_order(pending, other),
            usage,
        ).to_multiset(),
{
    let look_up = |index: usize| pending[index];
    let f = |call: PendingToolCallView| crate::streaming::flushed_item(call);
    crate::lists::lemma_filter_map_of_map(order, look_up, f);
    crate::lists::lemma_filter_map_of_map(other, look_up, f);
    let g = |index: usize| f(look_up(index));
    crate::lists::lemma_filter_map_of_same_items(order, other, g);
    let end = ItemView::FinalResponse(StreamingCompletionResponse { usage });
    vstd::seq_lib::to_multiset_build(order.filter_map(g), end);
    vstd::seq_lib::to_multiset_build(other.filter_map(g), end);
    assert(crate::streaming::in_order(pending, order) == order.map_values(look_up));
    assert(crate::streaming::in_order(pending, other) == other.map_values(look_up));
}

/// What is handed out at the end, but for the count of tokens, is made of the calls that have
/// started to arrive and whose arguments are JSON: of each of them, and of nothing else.
pub proof fn started_calls_are_handed_out(
    pending: Map<usize, PendingToolCallView>,
    order: Seq<usize>,
    usage: Usage,
    item: ItemView,
)
    requires
        crate::streaming::is_key_order(pending, order),
        item is ToolCall,
    ensures
        crate::streaming::final_items(
            crate::streaming::in_order(pending, order),
            usage,
        ).contains(item) <==> exists|index: usize|
            pending.contains_key(index) && #[trigger] crate::streaming::flushed_item(pending[index])
                == Some(item),
{
    let calls = crate::streaming::in_order(pending, order);
    let f = |call: PendingToolCallView| crate::streaming::flushed_item(call);
    let items = crate::streaming::final_items(calls, usage);
    let handed = calls.filter_map(f);
    if items.contains(item) {
        let i = items.index_of(item);
        assert(handed[i] == item);
        let at = crate::lists::lemma_filter_map_source(calls, f, item);
        assert(order.to_set().contains(order[at]));
        assert(crate::streaming::flushed_item(pending[order[at]]) == Some(item));
    }
    if exists|index: usize|
        pending.contains_key(index) && #[trigger] crate::streaming::flushed_item(pending[index])
            == Some(item) {
        let index = choose|index: usize|
            pending.contains_key(index) && #[trigger] crate::streaming::flushed_item(pending[index])
                == Some(item);
        assert(order.to_set().contains(index));
        let at = order.index_of(index);
        assert(calls[at] == pending[index]);
        crate::lists::lemma_filter_map_contains(calls, f, at);
        let i = handed.index_of(item);
        assert(items[i] == item);
    }
}

/// The count of tokens is the last item of a stream, and the only one of its kind.
pub proof fn count_of_tokens_comes_last(pending: Seq<PendingToolCallView>, usage: Usage)
    ensures
        ({
            let items = crate::streaming::final_items(pending, usage);
            &&& items.last() == ItemView::FinalResponse(StreamingCompletionResponse { usage })
            &&& forall|i: int| 0 <= i < items.len() - 1 ==> (#[trigger] items[i]) is ToolCall
        }),
    decreases pending.len(),
{
    if pending.len() > 0 {
        let most = pending.drop_last();
        count_of_tokens_comes_last(most, usage);
        let f = |call: PendingToolCallView| crate::streaming::flushed_item(call);
        let items = crate::streaming::final_items(pending, usage);
        let before = crate::streaming::final_items(most, usage);
        assert forall|i: int| 0 <= i < items.len() - 1 implies (#[trigger] items[i]) is ToolCall by {
            if i < before.len() - 1 {
                assert(before[i] is ToolCall);
                assert(items[i] == before[i]);
            } else {
                assert(items[i] == f(pending.last())->0);
            }
        }
    }
}

/// The tool calls of the whole answer are those that are handed out at the end, in the same
/// order.
pub proof fn whole_answer_holds_the_calls_handed_out(
    pending: Seq<PendingToolCallView>,
    text: Seq<char>,
    usage: Usage,
)
    ensures
        ({
            let items = crate::streaming::final_items(pending, usage);
            let calls = crate::streaming::final_message(pending, text)->tool_calls;
            &&& calls.len() == items.len() - 1
            &&& forall|i: int|
                0 <= i < calls.len() ==> #[trigger] items[i] == (ItemView::ToolCall {
                    id: calls[i].id,
                    call_id: None,
                    name: calls[i].function.name,
                    arguments: calls[i].function.arguments,
                })
        }),
    decreases pending.len(),
{
    if pending.len() > 0 {
        let most = pending.drop_last();
        whole_answer_holds_the_calls_handed_out(most, text, usage);
        let items = crate::streaming::final_items(pending, usage);
        let before = crate::streaming::final_items(most, usage);
        let calls = crate::streaming::final_message(pending, text)->tool_calls;
        let calls_before = crate::streaming::final_message(most, text)->tool_calls;
        assert forall|i: int| 0 <= i < calls.len() implies #[trigger] items[i]
            == (ItemView::ToolCall {
            id: calls[i].id,
            call_id: None,
            name: calls[i].function.name,
            arguments: calls[i].function.arguments,
        }) by {
            if i < calls_before.len() {
                assert(items[i] == before[i]);
                assert(calls[i] == calls_before[i]);
            }
        }
    }
}

} // verus!
