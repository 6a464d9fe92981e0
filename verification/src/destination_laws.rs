//! What holds of a destination over any run of events: what it sends to the
//! peer is its input, cut into chunks and in order, one call at a time; and
//! it ends once.

use crate::chunk::{
    chunk_contents, contiguous_from, lemma_chunk_count_is_ceiling, lemma_contents_concat,
    lemma_contiguous_concat, lemma_contiguous_front, lemma_split_reassembles, split_chunks,
    ChunkView,
};
use crate::destination::{
    destination_initial, destination_step, destination_terminal, destination_wf,
    DestinationActionView, DestinationEvent, DestinationModel,
};
use crate::endpoint::Endpoint;
use crate::error::{TransferError, TransferOutcome};
use vstd::prelude::*;

verus! {

/// The state that a run of events leaves a destination in, and the actions
/// that it asked for on the way, in order.
pub open spec fn destination_run(m: DestinationModel, events: Seq<DestinationEvent>) -> (
    DestinationModel,
    Seq<DestinationActionView>,
)
    decreases events.len(),
{
    if events.len() == 0 {
        (m, Seq::empty())
    } else {
        let (before, actions) = destination_run(m, events.drop_last());
        let (after, action) = destination_step(before, events.last());
        (after, actions.push(action))
    }
}

/// The chunks sent so far, with the one that the action sends, if any.
pub open spec fn sent_with(sent: Seq<ChunkView>, action: DestinationActionView) -> Seq<ChunkView> {
    match action {
        DestinationActionView::Upload(chunk) => sent.push(chunk),
        _ => sent,
    }
}

/// The chunks that the actions send to the peer, in order.
pub open spec fn uploaded_chunks(actions: Seq<DestinationActionView>) -> Seq<ChunkView>
    decreases actions.len(),
{
    if actions.len() == 0 {
        Seq::empty()
    } else {
        sent_with(uploaded_chunks(actions.drop_last()), actions.last())
    }
}

/// How many of the actions resolve the result channel.
pub open spec fn finish_count(actions: Seq<DestinationActionView>) -> nat
    decreases actions.len(),
{
    if actions.len() == 0 {
        0
    } else {
        let before = finish_count(actions.drop_last());
        match actions.last() {
            DestinationActionView::Finish(_) => before + 1,
            _ => before,
        }
    }
}

/// The item that a destination takes in on an event, if any: one that
/// arrives while it is open, has nothing on the wire, and has room for it.
pub open spec fn destination_accepts(m: DestinationModel, event: DestinationEvent) -> Option<
    Seq<u8>,
> {
    match event {
        DestinationEvent::Item(Ok(data)) => if !destination_terminal(m.phase) && m.phase is Open
            && !m.in_flight && m.offset + data@.len() <= u64::MAX {
            Some(data@)
        } else {
            None
        },
        _ => None,
    }
}

/// The items taken in so far, with one more, if any.
pub open spec fn items_with(items: Seq<Seq<u8>>, item: Option<Seq<u8>>) -> Seq<Seq<u8>> {
    match item {
        Some(data) => items.push(data),
        None => items,
    }
}

/// All the items that a destination takes in over a run of events, in order.
pub open spec fn accepted_items(m: DestinationModel, events: Seq<DestinationEvent>) -> Seq<Seq<u8>>
    decreases events.len(),
{
    if events.len() == 0 {
        Seq::empty()
    } else {
        items_with(
            accepted_items(m, events.drop_last()),
            destination_accepts(destination_run(m, events.drop_last()).0, events.last()),
        )
    }
}

/// The bytes of the items, end to end.
pub open spec fn joined(items: Seq<Seq<u8>>) -> Seq<u8>
    decreases items.len(),
{
    if items.len() == 0 {
        Seq::empty()
    } else {
        joined(items.drop_last()) + items.last()
    }
}

/// The uploads that the items call for: each item cut into chunks of
/// `chunk_size` bytes, at the offset that the bytes before it give.
pub open spec fn planned_uploads(items: Seq<Seq<u8>>, chunk_size: nat) -> Seq<ChunkView>
    decreases items.len(),
{
    if items.len() == 0 {
        Seq::empty()
    } else {
        planned_uploads(items.drop_last(), chunk_size) + split_chunks(
            items.last(),
            chunk_size,
            joined(items.drop_last()).len(),
        )
    }
}

/// Every chunk holds at least one byte and at most `chunk_size`.
pub open spec fn chunks_fit(chunks: Seq<ChunkView>, chunk_size: nat) -> bool {
    forall|i: int| 0 <= i < chunks.len() ==> 0 < (#[trigger] chunks[i]).content.len() <= chunk_size
}

/// The uploads that a sequence of items calls for are contiguous from offset
/// 0, hold between one and `chunk_size` bytes each, and hold, end to end, the
/// bytes of the items.
pub proof fn lemma_planned_uploads_hold_items(items: Seq<Seq<u8>>, chunk_size: nat)
    requires
        chunk_size > 0,
    ensures
        contiguous_from(planned_uploads(items, chunk_size), 0),
        chunks_fit(planned_uploads(items, chunk_size), chunk_size),
        chunk_contents(planned_uploads(items, chunk_size)) == joined(items),
    decreases items.len(),
{
    if items.len() > 0 {
        let before = planned_uploads(items.drop_last(), chunk_size);
        let base = joined(items.drop_last()).len();
        let last = split_chunks(items.last(), chunk_size, base);
        lemma_planned_uploads_hold_items(items.drop_last(), chunk_size);
        lemma_split_reassembles(items.last(), chunk_size, base);
        lemma_contiguous_concat(before, last, 0);
        lemma_contents_concat(before, last);
        let all = before + last;
        assert forall|i: int| 0 <= i < all.len() implies 0 < (#[trigger] all[i]).content.len()
            <= chunk_size by {
            if i < before.len() {
                assert(all[i] == before[i]);
            } else {
                assert(all[i] == last[i - before.len()]);
            }
        }
    }
}

/// What holds between a destination, the chunks it has sent and the items it
/// has taken in, after any run of events from its creation.
pub open spec fn destination_inv(
    m: DestinationModel,
    sent: Seq<ChunkView>,
    items: Seq<Seq<u8>>,
) -> bool {
    let planned = planned_uploads(items, m.chunk_size);
    &&& destination_wf(m)
    &&& sent.len() <= planned.len()
    &&& sent == planned.take(sent.len() as int)
    &&& m.phase is Completed ==> sent == planned
    &&& (m.phase is Completed || !destination_terminal(m.phase)) ==> m.offset == joined(items).len()
    &&& !destination_terminal(m.phase) ==> sent + m.pending == planned
}

proof fn lemma_destination_step_keeps_inv(
    m: DestinationModel,
    sent: Seq<ChunkView>,
    items: Seq<Seq<u8>>,
    event: DestinationEvent,
)
    requires
        destination_inv(m, sent, items),
    ensures
        destination_inv(
            destination_step(m, event).0,
            sent_with(sent, destination_step(m, event).1),
            items_with(items, destination_accepts(m, event)),
        ),
        destination_step(m, event).0.chunk_size == m.chunk_size,
        destination_step(m, event).0.target == m.target,
{
    let (after, action) = destination_step(m, event);
    let planned = planned_uploads(items, m.chunk_size);
    if !destination_terminal(m.phase) {
        assert(planned.take(sent.len() as int) =~= sent);
        match event {
            DestinationEvent::Item(Ok(data)) => {
                if m.phase is Open && !m.in_flight && m.offset + data@.len() <= u64::MAX {
                    let longer = items.push(data@);
                    let chunks = split_chunks(data@, m.chunk_size, m.offset);
                    assert(longer.drop_last() =~= items);
                    assert(planned_uploads(longer, m.chunk_size) == planned + chunks);
                    assert(sent + m.pending =~= sent);
                    lemma_chunk_count_is_ceiling(data@.len(), m.chunk_size);
                    if chunks.len() == 0 {
                        assert(data@.len() == 0) by (nonlinear_arith)
                            requires
                                0 * m.chunk_size >= data@.len(),
                        ;
                        assert(planned + chunks =~= planned);
                        assert(joined(longer) =~= joined(items));
                    } else {
                        assert(sent.push(chunks[0]) + chunks.skip(1) =~= planned + chunks);
                        assert((planned + chunks).take(sent.len() as int + 1) =~= sent.push(chunks[0]));
                    }
                }
            },
            DestinationEvent::Uploaded(Ok(_)) => {
                if m.phase is Open && m.in_flight && m.pending.len() > 0 {
                    assert(sent.push(m.pending[0]) + m.pending.skip(1) =~= sent + m.pending);
                    assert(planned.take(sent.len() as int + 1) =~= sent.push(m.pending[0]));
                }
            },
            DestinationEvent::EndOfInput => {
                if m.phase is Open && !m.in_flight {
                    assert(sent + m.pending =~= sent);
                }
            },
            _ => {},
        }
    }
}

proof fn lemma_destination_run_keeps_inv(
    target: Result<Endpoint, TransferError>,
    chunk_size: nat,
    events: Seq<DestinationEvent>,
)
    requires
        chunk_size > 0,
    ensures
        ({
            let start = destination_initial(target, chunk_size);
            let (m, actions) = destination_run(start, events);
            &&& destination_inv(m, uploaded_chunks(actions), accepted_items(start, events))
            &&& m.chunk_size == chunk_size
            &&& m.target == target
        }),
    decreases events.len(),
{
    let start = destination_initial(target, chunk_size);
    if events.len() == 0 {
        assert(Seq::<ChunkView>::empty() + start.pending =~= Seq::<ChunkView>::empty());
        assert(planned_uploads(Seq::empty(), chunk_size).take(0) =~= Seq::<ChunkView>::empty());
    } else {
        lemma_destination_run_keeps_inv(target, chunk_size, events.drop_last());
        let (before, actions) = destination_run(start, events.drop_last());
        lemma_destination_step_keeps_inv(
            before,
            uploaded_chunks(actions),
            accepted_items(start, events.drop_last()),
            events.last(),
        );
        let (after, action) = destination_step(before, events.last());
        assert(actions.push(action).drop_last() =~= actions);
    }
}

/// Whatever happens to a destination from its creation on, the chunks that it
/// sends are, in order, the first of the uploads that the items it took in
/// call for: each item cut into chunks of `chunk_size` bytes at the running
/// offset of the whole transfer. So they are contiguous from offset 0 and hold
/// between one and `chunk_size` bytes each. Once the destination has
/// completed, it has sent all of them, and the peer has, end to end, the bytes
/// of the items.
pub proof fn lemma_destination_delivers_input(
    target: Result<Endpoint, TransferError>,
    chunk_size: nat,
    events: Seq<DestinationEvent>,
)
    requires
        chunk_size > 0,
    ensures
        ({
            let start = destination_initial(target, chunk_size);
            let (m, actions) = destination_run(start, events);
            let sent = uploaded_chunks(actions);
            let items = accepted_items(start, events);
            let planned = planned_uploads(items, chunk_size);
            &&& sent.len() <= planned.len()
            &&& sent == planned.take(sent.len() as int)
            &&& contiguous_from(sent, 0)
            &&& chunks_fit(sent, chunk_size)
            &&& m.phase is Completed ==> {
                &&& sent == planned
                &&& chunk_contents(sent) == joined(items)
                &&& m.offset == joined(items).len()
            }
        }),
{
    let start = destination_initial(target, chunk_size);
    lemma_destination_run_keeps_inv(target, chunk_size, events);
    let (m, actions) = destination_run(start, events);
    let sent = uploaded_chunks(actions);
    let items = accepted_items(start, events);
    let planned = planned_uploads(items, chunk_size);
    lemma_planned_uploads_hold_items(items, chunk_size);
    let rest = planned.skip(sent.len() as int);
    assert(sent + rest =~= planned);
    lemma_contiguous_front(sent, rest, 0);
    assert forall|i: int| 0 <= i < sent.len() implies 0 < (#[trigger] sent[i]).content.len()
        <= chunk_size by {
        assert(sent[i] == planned[i]);
    }
}

/// Uploads are strictly sequential: a chunk goes on the wire only when none
/// is there, or when the one that was there has been stored by the peer; and
/// from then on this chunk is the one on the wire.
pub proof fn lemma_uploads_are_sequential(m: DestinationModel, event: DestinationEvent)
    requires
        destination_wf(m),
    ensures
        ({
            let (after, action) = destination_step(m, event);
            action is Upload ==> after.in_flight && (m.in_flight ==> event matches DestinationEvent::Uploaded(
                Ok(_),
            ))
        }),
{
}

/// An abort always ends a destination that has not ended yet, and tells the
/// driver to resolve the result channel as aborted.
pub proof fn lemma_destination_abort_ends(m: DestinationModel)
    requires
        !destination_terminal(m.phase),
    ensures
        destination_step(m, DestinationEvent::Abort).0.phase is Aborted,
        destination_step(m, DestinationEvent::Abort).1 == DestinationActionView::Finish(
            TransferOutcome::Aborted,
        ),
{
}

/// The result channel of a destination is resolved at most once, at the
/// moment the destination ends, and after that moment no event makes it ask
/// for anything: a late completion, a second abort, or an abort that races
/// with the natural end all find it ended and change nothing.
pub proof fn lemma_destination_ends_once(
    target: Result<Endpoint, TransferError>,
    chunk_size: nat,
    events: Seq<DestinationEvent>,
)
    ensures
        ({
            let (m, actions) = destination_run(destination_initial(target, chunk_size), events);
            &&& finish_count(actions) == if destination_terminal(m.phase) {
                1nat
            } else {
                0nat
            }
            &&& forall|i: int, j: int|
                0 <= i < j < actions.len() && (#[trigger] actions[i]) is Finish ==> (
                #[trigger] actions[j]) is Nothing
            &&& !destination_terminal(m.phase) ==> forall|i: int|
                0 <= i < actions.len() ==> !((#[trigger] actions[i]) is Finish)
        }),
    decreases events.len(),
{
    let start = destination_initial(target, chunk_size);
    if events.len() > 0 {
        lemma_destination_ends_once(target, chunk_size, events.drop_last());
        let (before, earlier) = destination_run(start, events.drop_last());
        let (after, action) = destination_step(before, events.last());
        let actions = earlier.push(action);
        assert(actions.drop_last() =~= earlier);
        assert forall|i: int, j: int|
            0 <= i < j < actions.len() && (#[trigger] actions[i]) is Finish implies (
        #[trigger] actions[j]) is Nothing by {
            assert(actions[i] == earlier[i]);
            if j < earlier.len() {
                assert(actions[j] == earlier[j]);
            }
        }
        if !destination_terminal(after.phase) {
            assert forall|i: int| 0 <= i < actions.len() implies !((#[trigger] actions[i]) is Finish) by {
                if i < earlier.len() {
                    assert(actions[i] == earlier[i]);
                }
            }
        }
    }
}

} // verus!
