//! Laws of a stream as a whole, from its first event to its end.
use crate::api::CompletionErrorView;
use crate::streaming::{
    ChunkView, ItemView, StreamAction, StreamEvent, StreamView, StreamingCompletionResponse,
};
use vstd::prelude::*;

verus! {

/// An event of a stream, and the chunk that its data decodes to; `None` where it decodes to none.
pub struct Arrival {
    pub event: StreamEvent,
    pub chunk: Option<ChunkView>,
}

/// What a stream hands to the application: items, and the reason where it fails.
pub type Handed = Result<ItemView, CompletionErrorView>;

/// An event after which nothing is read any more.
pub open spec fn ends_stream(event: StreamEvent) -> bool {
    match crate::streaming::event_action(event) {
        StreamAction::Stop => true,
        StreamAction::Fail(_) => true,
        StreamAction::Skip => false,
        StreamAction::Decode(_) => false,
    }
}

/// The chunk that an arrival brings.
pub open spec fn brought_chunk(arrival: Arrival) -> Option<ChunkView> {
    if crate::streaming::event_action(arrival.event) is Decode {
        arrival.chunk
    } else {
        None
    }
}

/// The number of arrivals before the first that ends the stream, or of all where none does.
pub open spec fn run_length(arrivals: Seq<Arrival>) -> int
    decreases arrivals.len(),
{
    if arrivals.len() == 0 || ends_stream(arrivals[0].event) {
        0
    } else {
        1 + run_length(arrivals.drop_first())
    }
}

/// The chunks that are brought before the stream ends.
pub open spec fn run_chunks(arrivals: Seq<Arrival>) -> Seq<ChunkView> {
    arrivals.take(run_length(arrivals)).filter_map(|arrival: Arrival| brought_chunk(arrival))
}

/// What has arrived once the stream has ended.
pub open spec fn run_state(state: StreamView, arrivals: Seq<Arrival>) -> StreamView {
    crate::stream_laws::after_chunks(state, run_chunks(arrivals))
}

/// The reason for which the stream fails, where it does.
pub open spec fn run_failure(arrivals: Seq<Arrival>) -> Seq<Handed> {
    let end = run_length(arrivals);
    if end < arrivals.len() {
        match crate::streaming::event_action(arrivals[end].event) {
            StreamAction::Fail(error) => seq![Err(error.deep_view())],
            _ => Seq::empty(),
        }
    } else {
        Seq::empty()
    }
}

/// Items as they are handed to the application.
pub open spec fn as_handed(items: Seq<ItemView>) -> Seq<Handed> {
    items.map_values(|item: ItemView| Ok::<ItemView, CompletionErrorView>(item))
}

/// What is handed out while the stream is read.
pub open spec fn run_items(arrivals: Seq<Arrival>) -> Seq<Handed> {
    as_handed(crate::stream_laws::handed_out(run_chunks(arrivals))) + run_failure(arrivals)
}

/// All that the stream hands out: what it does while it is read, and what is left at the end, the
/// calls in the order of their keys in `order`.
pub open spec fn run_output(
    state: StreamView,
    arrivals: Seq<Arrival>,
    order: Seq<usize>,
) -> Seq<Handed> {
    let last = run_state(state, arrivals);
    run_items(arrivals) + as_handed(
        crate::streaming::final_items(
            crate::streaming::in_order(last.pending, order),
            last.usage,
        ),
    )
}

/// An item that tells that the stream is over.
pub open spec fn is_final_response(handed: Handed) -> bool {
    handed matches Ok(item) && item is FinalResponse
}

/// An arrival that brings nothing: the connection opens, or there is a message that is blank, that
/// is the mark of the end, or that decodes to no chunk.
pub open spec fn is_idle(arrival: Arrival) -> bool {
    match arrival.event {
        StreamEvent::Open => true,
        StreamEvent::Message(data) => crate::streaming::is_without_chunk(data@)
            || arrival.chunk is None,
        _ => false,
    }
}

/// The length of a run is that of the longest start in which nothing ends the stream.
proof fn lemma_run_length(arrivals: Seq<Arrival>)
    ensures
        0 <= run_length(arrivals) <= arrivals.len(),
        forall|i: int|
            0 <= i < run_length(arrivals) ==> !ends_stream((#[trigger] arrivals[i]).event),
        run_length(arrivals) < arrivals.len() ==> ends_stream(
            arrivals[run_length(arrivals)].event,
        ),
    decreases arrivals.len(),
{
    if arrivals.len() > 0 && !ends_stream(arrivals[0].event) {
        let rest = arrivals.drop_first();
        lemma_run_length(rest);
        assert forall|i: int| 0 <= i < run_length(arrivals) implies !ends_stream(
            (#[trigger] arrivals[i]).event,
        ) by {
            if i > 0 {
                assert(rest[i - 1] == arrivals[i]);
            }
        }
    }
}

/// Only one number is the length of a run.
proof fn lemma_run_length_is(arrivals: Seq<Arrival>, length: int)
    requires
        0 <= length <= arrivals.len(),
        forall|i: int| 0 <= i < length ==> !ends_stream((#[trigger] arrivals[i]).event),
        length < arrivals.len() ==> ends_stream(arrivals[length].event),
    ensures
        run_length(arrivals) == length,
{
    lemma_run_length(arrivals);
    let found = run_length(arrivals);
    if found < length {
        assert(!ends_stream(arrivals[found].event));
    }
    if length < found {
        assert(!ends_stream(arrivals[length].event));
    }
}

/// No chunk hands out a final response.
pub proof fn no_chunk_is_final(chunk: ChunkView)
    ensures
        forall|i: int|
            0 <= i < crate::streaming::chunk_items(chunk).len() ==> !((
            #[trigger] crate::streaming::chunk_items(chunk)[i]) is FinalResponse),
{
    if chunk.choices.len() > 0 {
        let delta = chunk.choices[0];
        let f = |call: crate::streaming::StreamingToolCallView| crate::streaming::call_item(call);
        let calls = delta.tool_calls.filter_map(f);
        let items = crate::streaming::chunk_items(chunk);
        assert forall|i: int| 0 <= i < items.len() implies !((#[trigger] items[i]) is FinalResponse) by {
            if i < calls.len() {
                assert(calls.contains(calls[i]));
                let at = crate::lists::lemma_filter_map_source(delta.tool_calls, f, calls[i]);
                assert(f(delta.tool_calls[at]) == Some(items[i]));
            }
        }
    }
}

proof fn lemma_no_chunks_are_final(chunks: Seq<ChunkView>)
    ensures
        forall|i: int|
            0 <= i < crate::stream_laws::handed_out(chunks).len() ==> !((
            #[trigger] crate::stream_laws::handed_out(chunks)[i]) is FinalResponse),
    decreases chunks.len(),
{
    if chunks.len() > 0 {
        lemma_no_chunks_are_final(chunks.drop_last());
        no_chunk_is_final(chunks.last());
    }
}

/// A stream hands out a final response at its end, with the count of tokens that is kept, and no
/// other one.
pub proof fn final_response_is_handed_out_once(
    state: StreamView,
    arrivals: Seq<Arrival>,
    order: Seq<usize>,
)
    ensures
        ({
            let output = run_output(state, arrivals, order);
            &&& output.len() > 0
            &&& output.last() == Ok::<ItemView, CompletionErrorView>(
                ItemView::FinalResponse(
                    StreamingCompletionResponse { usage: run_state(state, arrivals).usage },
                ),
            )
            &&& forall|i: int|
                0 <= i < output.len() - 1 ==> !is_final_response(#[trigger] output[i])
        }),
{
    let last = run_state(state, arrivals);
    let pending = crate::streaming::in_order(last.pending, order);
    let before = run_items(arrivals);
    let items = crate::streaming::final_items(pending, last.usage);
    let output = run_output(state, arrivals, order);
    let read = crate::stream_laws::handed_out(run_chunks(arrivals));
    lemma_no_chunks_are_final(run_chunks(arrivals));
    crate::stream_laws::count_of_tokens_comes_last(pending, last.usage);
    assert forall|i: int| 0 <= i < output.len() - 1 implies !is_final_response(
        #[trigger] output[i],
    ) by {
        if i < read.len() {
            assert(!(read[i] is FinalResponse));
        } else if i >= before.len() {
            assert(items[i - before.len()] is ToolCall);
        }
    }
}

/// Nothing that comes after the event that ends a stream has an effect.
pub proof fn nothing_counts_after_the_end(
    state: StreamView,
    before: Seq<Arrival>,
    end: Arrival,
    after: Seq<Arrival>,
    order: Seq<usize>,
)
    requires
        ends_stream(end.event),
    ensures
        run_state(state, before.push(end) + after) == run_state(state, before.push(end)),
        run_output(state, before.push(end) + after, order) == run_output(
            state,
            before.push(end),
            order,
        ),
{
    let short = before.push(end);
    let long = short + after;
    lemma_run_length(short);
    let length = run_length(short);
    assert(length < short.len()) by {
        if length == short.len() {
            assert(!ends_stream(short[short.len() - 1].event));
        }
    }
    assert forall|i: int| 0 <= i < length implies !ends_stream((#[trigger] long[i]).event) by {
        assert(long[i] == short[i]);
    }
    assert(long[length] == short[length]);
    lemma_run_length_is(long, length);
    assert(long.take(length) == short.take(length));
}

/// When the connection opens, when a message is blank or the mark of the end, and when a message
/// decodes to no chunk, nothing changes and nothing is handed out: the stream goes on as if there
/// had been no such event.
pub proof fn idle_arrival_changes_nothing(
    state: StreamView,
    before: Seq<Arrival>,
    idle: Arrival,
    after: Seq<Arrival>,
    order: Seq<usize>,
)
    requires
        is_idle(idle),
    ensures
        run_state(state, before.push(idle) + after) == run_state(state, before + after),
        run_items(before.push(idle) + after) == run_items(before + after),
        run_output(state, before.push(idle) + after, order) == run_output(
            state,
            before + after,
            order,
        ),
{
    let with = before.push(idle) + after;
    let without = before + after;
    let f = |arrival: Arrival| brought_chunk(arrival);
    lemma_run_length(without);
    let length = run_length(without);
    if length < before.len() {
        assert forall|i: int| 0 <= i < length implies !ends_stream((#[trigger] with[i]).event) by {
            assert(with[i] == without[i]);
        }
        assert(with[length] == without[length]);
        lemma_run_length_is(with, length);
        assert(with.take(length) == without.take(length));
    } else {
        assert forall|i: int| 0 <= i < length + 1 implies !ends_stream(
            (#[trigger] with[i]).event,
        ) by {
            if i < before.len() {
                assert(with[i] == without[i]);
            } else if i > before.len() {
                assert(with[i] == without[i - 1]);
            }
        }
        if length < without.len() {
            assert(with[length + 1] == without[length]);
        }
        lemma_run_length_is(with, length + 1);
        let rest = after.take(length - before.len());
        assert(without.take(length) == before + rest);
        assert(with.take(length + 1) == before + seq![idle] + rest);
        crate::lists::lemma_filter_map_add(before, rest, f);
        crate::lists::lemma_filter_map_add(before + seq![idle], rest, f);
        crate::lists::lemma_filter_map_add(before, seq![idle], f);
        crate::lists::lemma_filter_map_drops(seq![idle], f);
        assert(before.filter_map(f) + Seq::<ChunkView>::empty() == before.filter_map(f));
    }
}

/// What is handed out for a first chunk comes before what is handed out for the rest.
proof fn lemma_handed_out_first(first: ChunkView, rest: Seq<ChunkView>)
    ensures
        crate::stream_laws::handed_out(seq![first] + rest) == crate::streaming::chunk_items(first)
            + crate::stream_laws::handed_out(rest),
    decreases rest.len(),
{
    let all = seq![first] + rest;
    if rest.len() == 0 {
        assert(all.drop_last() == Seq::<ChunkView>::empty());
        assert(all.last() == first);
        assert(crate::stream_laws::handed_out(all.drop_last()) == Seq::<ItemView>::empty());
    } else {
        lemma_handed_out_first(first, rest.drop_last());
        assert(all.drop_last() == seq![first] + rest.drop_last());
        assert(all.last() == rest.last());
    }
}

/// What has arrived after a first chunk and the rest is what the rest adds to the first.
proof fn lemma_after_first(state: StreamView, first: ChunkView, rest: Seq<ChunkView>)
    ensures
        crate::stream_laws::after_chunks(state, seq![first] + rest)
            == crate::stream_laws::after_chunks(
            crate::streaming::after_chunk(state, first),
            rest,
        ),
    decreases rest.len(),
{
    let all = seq![first] + rest;
    if rest.len() == 0 {
        assert(all.drop_last() == Seq::<ChunkView>::empty());
        assert(all.last() == first);
        assert(crate::stream_laws::after_chunks(state, all.drop_last()) == state);
    } else {
        lemma_after_first(state, first, rest.drop_last());
        assert(all.drop_last() == seq![first] + rest.drop_last());
        assert(all.last() == rest.last());
    }
}

/// A stream takes in one event after the other: an event that does not end it hands out the items
/// of the chunk that it brings, if it brings one, and the rest goes on from there.
pub proof fn stream_goes_on_event_by_event(
    state: StreamView,
    first: Arrival,
    rest: Seq<Arrival>,
)
    requires
        !ends_stream(first.event),
    ensures
        match brought_chunk(first) {
            Some(chunk) => {
                &&& run_state(state, seq![first] + rest) == run_state(
                    crate::streaming::after_chunk(state, chunk),
                    rest,
                )
                &&& run_items(seq![first] + rest) == as_handed(
                    crate::streaming::chunk_items(chunk),
                ) + run_items(rest)
            },
            None => {
                &&& run_state(state, seq![first] + rest) == run_state(state, rest)
                &&& run_items(seq![first] + rest) == run_items(rest)
            },
        },
{
    let all = seq![first] + rest;
    let f = |arrival: Arrival| brought_chunk(arrival);
    lemma_run_length(rest);
    let length = run_length(rest);
    assert(all.drop_first() == rest);
    assert(run_length(all) == length + 1);
    assert(all.take(length + 1) == seq![first] + rest.take(length));
    crate::lists::lemma_filter_map_add(seq![first], rest.take(length), f);
    assert(run_failure(all) == run_failure(rest)) by {
        if length < rest.len() {
            assert(all[length + 1] == rest[length]);
        }
    }
    let chunks = run_chunks(rest);
    match brought_chunk(first) {
        Some(chunk) => {
            crate::lists::lemma_filter_map_keeps(seq![first], f, seq![chunk]);
            assert(run_chunks(all) == seq![chunk] + chunks);
            lemma_handed_out_first(chunk, chunks);
            assert(as_handed(
                crate::streaming::chunk_items(chunk) + crate::stream_laws::handed_out(chunks),
            ) == as_handed(crate::streaming::chunk_items(chunk)) + as_handed(
                crate::stream_laws::handed_out(chunks),
            ));
            lemma_after_first(state, chunk, chunks);
        },
        None => {
            crate::lists::lemma_filter_map_drops(seq![first], f);
            assert(run_chunks(all) == chunks);
        },
    }
}

/// A stream that fails hands out the reason, and then, all the same, what is left at its end.
pub proof fn failure_does_not_lose_what_arrived(
    state: StreamView,
    before: Seq<Arrival>,
    end: Arrival,
    reason: String,
    order: Seq<usize>,
)
    requires
        forall|i: int| 0 <= i < before.len() ==> !ends_stream((#[trigger] before[i]).event),
        end.event == StreamEvent::Failed(reason),
    ensures
        run_state(state, before.push(end)) == run_state(state, before),
        run_items(before.push(end)) == run_items(before).push(
            Err(CompletionErrorView::ResponseError(reason@)),
        ),
        run_output(state, before.push(end), order) == run_items(before).push(
            Err(CompletionErrorView::ResponseError(reason@)),
        ) + as_handed(
            crate::streaming::final_items(
                crate::streaming::in_order(run_state(state, before).pending, order),
                run_state(state, before).usage,
            ),
        ),
{
    let all = before.push(end);
    assert forall|i: int| 0 <= i < before.len() implies !ends_stream((#[trigger] all[i]).event) by {
        assert(all[i] == before[i]);
    }
    lemma_run_length_is(all, before.len() as int);
    lemma_run_length_is(before, before.len() as int);
    assert(all.take(before.len() as int) == before);
    assert(before.take(before.len() as int) == before);
}

} // verus!
