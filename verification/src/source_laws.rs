//! What holds of a source over any run of events: the order of its requests
//! and of what it hands downstream, the bound on what it fetches ahead, and
//! that it ends once.

use crate::chunk::{
    chunk_contents, chunk_count, chunk_offset, chunk_range, lemma_chunk_count_is_ceiling,
    lemma_split_reassembles, split_chunks, ChunkView, TransferChunk,
};
use crate::endpoint::Endpoint;
use crate::error::{transfer_error_of, TransferError, TransferOutcome};
use crate::source::{
    fetch_action, source_complete_if_done, source_drain, source_ended,
    source_expects, source_initial, source_metadata_fetched, source_refill, source_room,
    source_step, source_terminal, source_wf, SourceActionView, SourceEvent, SourceModel,
    SourcePhase,
};
use vstd::prelude::*;

verus! {

/// The state that a run of events leaves a source in, and the actions that it
/// asked for on the way, in order.
pub open spec fn source_run(m: SourceModel, events: Seq<SourceEvent>) -> (
    SourceModel,
    Seq<SourceActionView>,
)
    decreases events.len(),
{
    if events.len() == 0 {
        (m, Seq::empty())
    } else {
        let (before, actions) = source_run(m, events.drop_last());
        let (after, more) = source_step(before, events.last());
        (after, actions + more)
    }
}

/// The indices of the chunks that the actions ask the peer for, in order.
pub open spec fn fetched_indices(actions: Seq<SourceActionView>) -> Seq<nat>
    decreases actions.len(),
{
    if actions.len() == 0 {
        Seq::empty()
    } else {
        let before = fetched_indices(actions.drop_last());
        match actions.last() {
            SourceActionView::FetchChunk { index, .. } => before.push(index),
            _ => before,
        }
    }
}

/// The chunks that the actions hand downstream, in order, each with its
/// index.
pub open spec fn emitted_items(actions: Seq<SourceActionView>) -> Seq<(nat, Seq<u8>)>
    decreases actions.len(),
{
    if actions.len() == 0 {
        Seq::empty()
    } else {
        let before = emitted_items(actions.drop_last());
        match actions.last() {
            SourceActionView::Emit { index, data } => before.push((index, data)),
            _ => before,
        }
    }
}

/// How many of the actions hand the end of the stream downstream.
pub open spec fn source_finish_count(actions: Seq<SourceActionView>) -> nat
    decreases actions.len(),
{
    if actions.len() == 0 {
        0
    } else {
        let before = source_finish_count(actions.drop_last());
        match actions.last() {
            SourceActionView::Finish(_) => before + 1,
            _ => before,
        }
    }
}

proof fn lemma_projections_concat(a: Seq<SourceActionView>, b: Seq<SourceActionView>)
    ensures
        fetched_indices(a + b) == fetched_indices(a) + fetched_indices(b),
        emitted_items(a + b) == emitted_items(a) + emitted_items(b),
        source_finish_count(a + b) == source_finish_count(a) + source_finish_count(b),
    decreases b.len(),
{
    if b.len() == 0 {
        assert(a + b =~= a);
        assert(fetched_indices(a) + fetched_indices(b) =~= fetched_indices(a));
        assert(emitted_items(a) + emitted_items(b) =~= emitted_items(a));
    } else {
        lemma_projections_concat(a, b.drop_last());
        assert((a + b).drop_last() =~= a + b.drop_last());
        assert((a + b).last() == b.last());
        assert(fetched_indices(a + b) =~= fetched_indices(a) + fetched_indices(b));
        assert(emitted_items(a + b) =~= emitted_items(a) + emitted_items(b));
    }
}

proof fn lemma_projections_single(a: SourceActionView)
    ensures
        fetched_indices(seq![a]) == match a {
            SourceActionView::FetchChunk { index, .. } => seq![index],
            _ => Seq::<nat>::empty(),
        },
        emitted_items(seq![a]) == match a {
            SourceActionView::Emit { index, data } => seq![(index, data)],
            _ => Seq::<(nat, Seq<u8>)>::empty(),
        },
        source_finish_count(seq![a]) == match a {
            SourceActionView::Finish(_) => 1nat,
            _ => 0nat,
        },
{
    let s = seq![a];
    assert(s.drop_last() =~= Seq::<SourceActionView>::empty());
    assert(s.last() == a);
    assert(fetched_indices(s.drop_last()) =~= Seq::<nat>::empty());
    assert(emitted_items(s.drop_last()) =~= Seq::<(nat, Seq<u8>)>::empty());
    assert(source_finish_count(s.drop_last()) == 0);
    match a {
        SourceActionView::FetchChunk { index, .. } => {
            assert(fetched_indices(s) =~= seq![index]);
        },
        SourceActionView::Emit { index, data } => {
            assert(emitted_items(s) =~= seq![(index, data)]);
        },
        _ => {},
    }
}

/// The requests of a refill are for the next chunks in index order, and a
/// refill hands nothing downstream.
proof fn lemma_refill_projections(m: SourceModel, k: nat)
    requires
        k <= source_room(m),
    ensures
        fetched_indices(source_refill(m).1.take(k as int)) == Seq::new(
            k,
            |i: int| (m.next_fetch() + i) as nat,
        ),
        emitted_items(source_refill(m).1.take(k as int)).len() == 0,
        source_finish_count(source_refill(m).1.take(k as int)) == 0,
    decreases k,
{
    let all = source_refill(m).1;
    let head = all.take(k as int);
    if k == 0 {
        assert(fetched_indices(head) =~= Seq::new(0, |i: int| (m.next_fetch() + i) as nat));
    } else {
        lemma_refill_projections(m, (k - 1) as nat);
        assert(head.drop_last() =~= all.take(k - 1));
        assert(head.last() == fetch_action(m, (m.next_fetch() + k - 1) as nat));
        assert(fetched_indices(head) =~= Seq::new(k, |i: int| (m.next_fetch() + i) as nat));
    }
}

/// What holds between a source and the requests and chunks that it has sent
/// out, at every moment.
pub open spec fn source_core(m: SourceModel, fetched: Seq<nat>, emitted: Seq<(nat, Seq<u8>)>) -> bool {
    &&& source_wf(m)
    &&& forall|k: int| 0 <= k < fetched.len() ==> #[trigger] fetched[k] == k
    &&& forall|k: int| 0 <= k < emitted.len() ==> (#[trigger] emitted[k]).0 == k
    &&& emitted.len() == m.next_emit
    &&& emitted.len() <= fetched.len() <= emitted.len() + m.window
    &&& fetched.len() <= m.count
    &&& !source_terminal(m.phase) ==> fetched.len() == m.next_fetch()
}

/// The source waits for the chunk that goes downstream next, and has asked
/// for as many chunks ahead as the window and the resource allow.
pub open spec fn source_waits(m: SourceModel) -> bool {
    &&& m.next_emit < m.count ==> m.slots.len() > 0 && m.slots[0] is None
    &&& m.slots.len() == m.window || m.next_fetch() == m.count
}

/// What holds of a source between two events, after any run of events from
/// its creation.
pub open spec fn source_inv(
    m: SourceModel,
    fetched: Seq<nat>,
    emitted: Seq<(nat, Seq<u8>)>,
    finished: nat,
) -> bool {
    &&& source_core(m, fetched, emitted)
    &&& m.phase is Streaming ==> m.next_emit < m.count && source_waits(m)
    &&& m.phase is Completed ==> m.next_emit == m.count
    &&& finished == if source_terminal(m.phase) {
        1nat
    } else {
        0nat
    }
}

/// What the source holds and has handed on is what the resource holds at
/// those places.
pub open spec fn source_holds(m: SourceModel, emitted: Seq<(nat, Seq<u8>)>, data: Seq<u8>) -> bool {
    &&& (m.phase is Streaming || m.phase is Completed) ==> m.size == data.len()
    &&& emitted.len() <= chunk_count(data.len(), m.chunk_size)
    &&& forall|k: int|
        0 <= k < emitted.len() ==> (#[trigger] emitted[k]).1 == chunk_range(
            data,
            m.chunk_size,
            emitted[k].0,
        )
    &&& forall|j: int|
        0 <= j < m.slots.len() ==> ((#[trigger] m.slots[j]) matches Some(content) ==> content
            == chunk_range(data, m.chunk_size, (m.next_emit + j) as nat))
}

proof fn lemma_refill_keeps_core(
    m: SourceModel,
    fetched: Seq<nat>,
    emitted: Seq<(nat, Seq<u8>)>,
    data: Seq<u8>,
)
    requires
        source_core(m, fetched, emitted),
        m.phase is Streaming,
    ensures
        source_core(
            source_refill(m).0,
            fetched + fetched_indices(source_refill(m).1),
            emitted + emitted_items(source_refill(m).1),
        ),
        emitted_items(source_refill(m).1).len() == 0,
        source_finish_count(source_refill(m).1) == 0,
        source_holds(m, emitted, data) ==> source_holds(source_refill(m).0, emitted, data),
        source_refill(m).0.slots.len() == m.window || source_refill(m).0.next_fetch() == m.count,
        m.slots.len() > 0 ==> source_refill(m).0.slots[0] == m.slots[0],
        m.slots.len() == 0 && m.next_emit < m.count ==> source_refill(m).0.slots.len() > 0
            && source_refill(m).0.slots[0] is None,
        source_refill(m).0.next_emit == m.next_emit,
{
    let (after, actions) = source_refill(m);
    lemma_refill_projections(m, source_room(m));
    assert(actions.take(source_room(m) as int) =~= actions);
    assert(emitted + emitted_items(actions) =~= emitted);
}

proof fn lemma_drain_keeps_core(
    m: SourceModel,
    fetched: Seq<nat>,
    emitted: Seq<(nat, Seq<u8>)>,
    data: Seq<u8>,
)
    requires
        source_core(m, fetched, emitted),
        m.phase is Streaming,
    ensures
        source_core(
            source_drain(m).0,
            fetched + fetched_indices(source_drain(m).1),
            emitted + emitted_items(source_drain(m).1),
        ),
        source_drain(m).0.phase is Streaming,
        source_drain(m).0.chunk_size == m.chunk_size,
        source_drain(m).0.window == m.window,
        source_drain(m).0.target == m.target,
        source_drain(m).0.size == m.size,
        (m.slots.len() == m.window || m.next_fetch() == m.count) && (m.next_emit < m.count
            ==> m.slots.len() > 0) ==> source_waits(source_drain(m).0),
        source_finish_count(source_drain(m).1) == 0,
        source_holds(m, emitted, data) ==> source_holds(
            source_drain(m).0,
            emitted + emitted_items(source_drain(m).1),
            data,
        ),
    decreases m.count - m.next_emit,
{
    let none = Seq::<SourceActionView>::empty();
    if m.slots.len() > 0 && m.next_emit < m.count && m.slots[0] is Some {
        let content = m.slots[0]->0;
        let emit = SourceActionView::Emit { index: m.next_emit, data: content };
        let handed = SourceModel { next_emit: m.next_emit + 1, slots: m.slots.skip(1), ..m };
        let emitted1 = emitted.push((m.next_emit, content));
        assert(source_core(handed, fetched, emitted1));
        if source_holds(m, emitted, data) {
            assert forall|j: int| 0 <= j < handed.slots.len() implies (
            (#[trigger] handed.slots[j]) matches Some(c) ==> c == chunk_range(
                data,
                m.chunk_size,
                (handed.next_emit + j) as nat,
            )) by {
                assert(handed.slots[j] == m.slots[j + 1]);
            }
            assert(source_holds(handed, emitted1, data));
        }
        let (asked, fetches) = source_refill(handed);
        lemma_refill_keeps_core(handed, fetched, emitted1, data);
        let fetched2 = fetched + fetched_indices(fetches);
        let (after, rest) = source_drain(asked);
        lemma_drain_keeps_core(asked, fetched2, emitted1, data);
        let actions = seq![emit] + fetches + rest;
        assert(source_drain(m).1 == actions);
        lemma_projections_single(emit);
        lemma_projections_concat(seq![emit], fetches);
        lemma_projections_concat(seq![emit] + fetches, rest);
        assert(emitted + emitted_items(actions) =~= emitted1 + emitted_items(rest));
        assert(fetched + fetched_indices(actions) =~= fetched2 + fetched_indices(rest));
    } else {
        assert(source_drain(m).1 =~= none);
        assert(fetched + fetched_indices(none) =~= fetched);
        assert(emitted + emitted_items(none) =~= emitted);
    }
}

proof fn lemma_complete_keeps_inv(m: SourceModel, fetched: Seq<nat>, emitted: Seq<(nat, Seq<u8>)>)
    requires
        source_core(m, fetched, emitted),
        source_waits(m),
        m.phase is Streaming,
    ensures
        source_inv(
            source_complete_if_done(m).0,
            fetched,
            emitted,
            source_finish_count(source_complete_if_done(m).1),
        ),
        fetched_indices(source_complete_if_done(m).1).len() == 0,
        emitted_items(source_complete_if_done(m).1).len() == 0,
{
    if m.next_emit >= m.count {
        lemma_projections_single(SourceActionView::Finish(TransferOutcome::Completed));
    }
}

proof fn lemma_ending_keeps_inv(
    m: SourceModel,
    fetched: Seq<nat>,
    emitted: Seq<(nat, Seq<u8>)>,
    phase: SourcePhase,
    outcome: TransferOutcome,
)
    requires
        source_inv(m, fetched, emitted, 0),
        phase is Aborted || phase is Failed,
    ensures
        source_inv(
            source_ended(m, phase),
            fetched,
            emitted,
            source_finish_count(seq![SourceActionView::Finish(outcome)]),
        ),
        fetched_indices(seq![SourceActionView::Finish(outcome)]).len() == 0,
        emitted_items(seq![SourceActionView::Finish(outcome)]).len() == 0,
{
    lemma_projections_single(SourceActionView::Finish(outcome));
    lemma_chunk_count_is_ceiling(0, m.chunk_size);
}

/// The event comes from a peer that serves the resource `data`: a size is
/// the size of `data`, and a chunk holds the bytes of `data` at its place.
pub open spec fn event_serves(event: SourceEvent, data: Seq<u8>, chunk_size: nat) -> bool {
    match event {
        SourceEvent::Metadata(Ok(size)) => size == data.len(),
        SourceEvent::ChunkFetched { index, result: Ok(chunk) } => chunk.content@ == chunk_range(
            data,
            chunk_size,
            index as nat,
        ),
        _ => true,
    }
}

proof fn lemma_source_step_keeps_inv(
    m: SourceModel,
    fetched: Seq<nat>,
    emitted: Seq<(nat, Seq<u8>)>,
    finished: nat,
    event: SourceEvent,
    data: Seq<u8>,
)
    requires
        source_inv(m, fetched, emitted, finished),
    ensures
        source_inv(
            source_step(m, event).0,
            fetched + fetched_indices(source_step(m, event).1),
            emitted + emitted_items(source_step(m, event).1),
            finished + source_finish_count(source_step(m, event).1),
        ),
        source_terminal(m.phase) ==> source_step(m, event).1.len() == 0,
        source_holds(m, emitted, data) && event_serves(event, data, m.chunk_size) ==> source_holds(
            source_step(m, event).0,
            emitted + emitted_items(source_step(m, event).1),
            data,
        ),
        source_step(m, event).0.chunk_size == m.chunk_size,
        source_step(m, event).0.window == m.window,
        source_step(m, event).0.target == m.target,
{
    let (after, actions) = source_step(m, event);
    let none = Seq::<SourceActionView>::empty();
    assert(fetched + Seq::<nat>::empty() =~= fetched);
    assert(emitted + Seq::<(nat, Seq<u8>)>::empty() =~= emitted);
    if source_terminal(m.phase) {
        assert(actions =~= none);
    } else {
        match event {
            SourceEvent::Abort => {
                lemma_ending_keeps_inv(
                    m,
                    fetched,
                    emitted,
                    SourcePhase::Aborted,
                    TransferOutcome::Aborted,
                );
            },
            SourceEvent::Start => {
                if m.phase is Created && !m.awaiting_metadata {
                    match m.target {
                        Ok(_) => {
                            lemma_projections_single(SourceActionView::FetchMetadata);
                        },
                        Err(e) => {
                            lemma_ending_keeps_inv(
                                m,
                                fetched,
                                emitted,
                                SourcePhase::Failed,
                                TransferOutcome::Failed(e),
                            );
                        },
                    }
                } else {
                    assert(actions =~= none);
                }
            },
            SourceEvent::Metadata(result) => {
                if m.phase is Created && m.awaiting_metadata {
                    match result {
                        Ok(size) => {
                            let known = SourceModel {
                                phase: SourcePhase::Streaming,
                                ..source_metadata_fetched(m, size as nat)
                            };
                            assert(source_core(known, fetched, emitted));
                            lemma_refill_keeps_core(known, fetched, emitted, data);
                            let (asked, fetches) = source_refill(known);
                            lemma_complete_keeps_inv(
                                asked,
                                fetched + fetched_indices(fetches),
                                emitted + emitted_items(fetches),
                            );
                            let (done, finish) = source_complete_if_done(asked);
                            lemma_projections_concat(fetches, finish);
                            assert(fetched + fetched_indices(actions) =~= fetched
                                + fetched_indices(fetches));
                            assert(emitted + emitted_items(actions) =~= emitted);
                            assert(emitted + emitted_items(fetches) =~= emitted);
                        },
                        Err(e) => {
                            lemma_ending_keeps_inv(
                                m,
                                fetched,
                                emitted,
                                SourcePhase::Failed,
                                TransferOutcome::Failed(transfer_error_of(e)),
                            );
                        },
                    }
                } else {
                    assert(actions =~= none);
                }
            },
            SourceEvent::ChunkFetched { index, result } => {
                if source_expects(m, index as nat) {
                    match result {
                        Ok(chunk) => {
                            let at = index - m.next_emit;
                            let stored = SourceModel {
                                slots: m.slots.update(at, Some(chunk.content@)),
                                ..m
                            };
                            assert(source_core(stored, fetched, emitted));
                            lemma_drain_keeps_core(stored, fetched, emitted, data);
                            let (drained, first) = source_drain(stored);
                            lemma_complete_keeps_inv(
                                drained,
                                fetched + fetched_indices(first),
                                emitted + emitted_items(first),
                            );
                            let (done, finish) = source_complete_if_done(drained);
                            lemma_projections_concat(first, finish);
                            assert(fetched + fetched_indices(actions) =~= fetched
                                + fetched_indices(first));
                            assert(emitted + emitted_items(actions) =~= emitted + emitted_items(
                                first,
                            ));
                        },
                        Err(e) => {
                            lemma_ending_keeps_inv(
                                m,
                                fetched,
                                emitted,
                                SourcePhase::Failed,
                                TransferOutcome::Failed(transfer_error_of(e)),
                            );
                        },
                    }
                } else {
                    assert(actions =~= none);
                }
            },
        }
    }
}

proof fn lemma_source_run_keeps_inv(
    target: Result<Endpoint, TransferError>,
    chunk_size: nat,
    window: nat,
    events: Seq<SourceEvent>,
    data: Seq<u8>,
)
    requires
        chunk_size > 0,
        window > 0,
    ensures
        ({
            let (m, actions) = source_run(source_initial(target, chunk_size, window), events);
            &&& source_inv(
                m,
                fetched_indices(actions),
                emitted_items(actions),
                source_finish_count(actions),
            )
            &&& m.chunk_size == chunk_size
            &&& m.window == window
            &&& m.target == target
            &&& (forall|i: int|
                0 <= i < events.len() ==> event_serves(#[trigger] events[i], data, chunk_size))
                ==> source_holds(m, emitted_items(actions), data)
        }),
    decreases events.len(),
{
    let start = source_initial(target, chunk_size, window);
    if events.len() > 0 {
        let earlier = events.drop_last();
        lemma_source_run_keeps_inv(target, chunk_size, window, earlier, data);
        let (before, actions) = source_run(start, earlier);
        let (after, more) = source_step(before, events.last());
        lemma_source_step_keeps_inv(
            before,
            fetched_indices(actions),
            emitted_items(actions),
            source_finish_count(actions),
            events.last(),
            data,
        );
        lemma_projections_concat(actions, more);
        if forall|i: int|
            0 <= i < events.len() ==> event_serves(#[trigger] events[i], data, chunk_size) {
            assert forall|i: int| 0 <= i < earlier.len() implies event_serves(
                #[trigger] earlier[i],
                data,
                chunk_size,
            ) by {
                assert(earlier[i] == events[i]);
            }
            assert(event_serves(events[events.len() - 1], data, chunk_size));
        }
    } else {
        lemma_chunk_count_is_ceiling(0, chunk_size);
    }
}

/// Whatever order the answers come in, a source asks for the chunks in index
/// order and hands them downstream in index order, `0, 1, 2, ...`, each once
/// and none skipped; and it is never more than `window` chunks ahead: at most
/// `window` chunks are asked for and not yet handed downstream, so at most
/// `window` fetch calls are in flight.
pub proof fn lemma_source_ordered_and_bounded(
    target: Result<Endpoint, TransferError>,
    chunk_size: nat,
    window: nat,
    events: Seq<SourceEvent>,
)
    requires
        chunk_size > 0,
        window > 0,
    ensures
        ({
            let (m, actions) = source_run(source_initial(target, chunk_size, window), events);
            let fetched = fetched_indices(actions);
            let emitted = emitted_items(actions);
            &&& forall|k: int| 0 <= k < fetched.len() ==> #[trigger] fetched[k] == k
            &&& forall|k: int| 0 <= k < emitted.len() ==> (#[trigger] emitted[k]).0 == k
            &&& emitted.len() == m.next_emit
            &&& emitted.len() <= fetched.len() <= emitted.len() + window
            &&& fetched.len() <= m.count
            &&& m.in_flight() <= m.slots.len() <= window
            &&& m.phase is Completed ==> emitted.len() == m.count
        }),
{
    lemma_source_run_keeps_inv(target, chunk_size, window, events, Seq::empty());
    let (m, actions) = source_run(source_initial(target, chunk_size, window), events);
    m.slots.lemma_filter_len(|s: Option<Seq<u8>>| s is None);
}

/// A source that streams never stalls by itself: the call for the chunk that
/// goes downstream next is in flight, and so many calls are in flight or
/// answered ahead as the window has room for, or as chunks are left. And the
/// answer to the call for the next chunk hands at least that chunk
/// downstream.
pub proof fn lemma_source_keeps_fetching(
    target: Result<Endpoint, TransferError>,
    chunk_size: nat,
    window: nat,
    events: Seq<SourceEvent>,
)
    requires
        chunk_size > 0,
        window > 0,
    ensures
        ({
            let m = source_run(source_initial(target, chunk_size, window), events).0;
            m.phase is Streaming ==> {
                &&& m.next_emit < m.count
                &&& source_expects(m, m.next_emit)
                &&& m.slots.len() == window || m.next_fetch() == m.count
                &&& forall|chunk: TransferChunk|
                    (#[trigger] source_step(
                        m,
                        SourceEvent::ChunkFetched { index: m.next_emit as u64, result: Ok(chunk) },
                    )).0.next_emit > m.next_emit
            }
        }),
{
    lemma_source_run_keeps_inv(target, chunk_size, window, events, Seq::empty());
    let m = source_run(source_initial(target, chunk_size, window), events).0;
    if m.phase is Streaming {
        assert forall|chunk: TransferChunk|
            (#[trigger] source_step(
                m,
                SourceEvent::ChunkFetched { index: m.next_emit as u64, result: Ok(chunk) },
            )).0.next_emit > m.next_emit by {
            let stored = SourceModel { slots: m.slots.update(0, Some(chunk.content@)), ..m };
            lemma_drain_grows(stored);
            let handed = SourceModel {
                next_emit: stored.next_emit + 1,
                slots: stored.slots.skip(1),
                ..stored
            };
            lemma_drain_grows(source_refill(handed).0);
        }
    }
}

/// Draining never takes back what went downstream.
proof fn lemma_drain_grows(m: SourceModel)
    ensures
        source_drain(m).0.next_emit >= m.next_emit,
        source_drain(m).0.count == m.count,
    decreases m.count - m.next_emit,
{
    if m.slots.len() > 0 && m.next_emit < m.count && m.slots[0] is Some {
        let handed = SourceModel { next_emit: m.next_emit + 1, slots: m.slots.skip(1), ..m };
        lemma_drain_grows(source_refill(handed).0);
    }
}

/// How many more chunks the actions ask for than they hand downstream.
pub open spec fn fetched_ahead(actions: Seq<SourceActionView>) -> int {
    fetched_indices(actions).len() - emitted_items(actions).len()
}

/// At every point of the series of actions, at most `window` more chunks
/// have been asked for than have been handed downstream.
pub open spec fn window_respected(actions: Seq<SourceActionView>, window: nat) -> bool {
    forall|k: int| 0 <= k <= actions.len() ==> fetched_ahead(#[trigger] actions.take(k)) <= window
}

proof fn lemma_ahead_of_prefix(a: Seq<SourceActionView>, b: Seq<SourceActionView>, k: int)
    requires
        0 <= k <= a.len() + b.len(),
    ensures
        k <= a.len() ==> (a + b).take(k) == a.take(k),
        k >= a.len() ==> (a + b).take(k) == a + b.take(k - a.len()) && fetched_ahead(
            (a + b).take(k),
        ) == fetched_ahead(a) + fetched_ahead(b.take(k - a.len())),
{
    if k <= a.len() {
        assert((a + b).take(k) =~= a.take(k));
    }
    if k >= a.len() {
        assert((a + b).take(k) =~= a + b.take(k - a.len()));
        lemma_projections_concat(a, b.take(k - a.len()));
    }
}

proof fn lemma_refill_ahead(m: SourceModel, k: int)
    requires
        0 <= k <= source_refill(m).1.len(),
        m.slots.len() <= m.window,
    ensures
        fetched_ahead(source_refill(m).1.take(k)) == k,
        m.slots.len() + k <= m.window,
        source_refill(m).1.len() == source_room(m),
{
    lemma_refill_projections(m, k as nat);
}

proof fn lemma_drain_ahead(m: SourceModel, k: int)
    requires
        0 <= k <= source_drain(m).1.len(),
        m.slots.len() <= m.window,
    ensures
        m.slots.len() + fetched_ahead(source_drain(m).1.take(k)) <= m.window,
        source_drain(m).0.slots.len() <= m.window,
        source_drain(m).0.slots.len() == m.slots.len() + fetched_ahead(source_drain(m).1),
        source_drain(m).0.window == m.window,
    decreases m.count - m.next_emit,
{
    let all = source_drain(m).1;
    if m.slots.len() > 0 && m.next_emit < m.count && m.slots[0] is Some {
        let emit = SourceActionView::Emit { index: m.next_emit, data: m.slots[0]->0 };
        let handed = SourceModel { next_emit: m.next_emit + 1, slots: m.slots.skip(1), ..m };
        let (asked, fetches) = source_refill(handed);
        let (after, rest) = source_drain(asked);
        let head = seq![emit] + fetches;
        assert(all == head + rest);
        lemma_projections_single(emit);
        lemma_refill_ahead(handed, fetches.len() as int);
        assert(fetches.take(fetches.len() as int) =~= fetches);
        lemma_projections_concat(seq![emit], fetches);
        lemma_drain_ahead(asked, rest.len() as int);
        assert(rest.take(rest.len() as int) =~= rest);
        lemma_projections_concat(head, rest);
        if k == 0 {
            assert(all.take(0) =~= Seq::<SourceActionView>::empty());
        } else if k <= head.len() {
            lemma_ahead_of_prefix(head, rest, k);
            lemma_ahead_of_prefix(seq![emit], fetches, k);
            lemma_refill_ahead(handed, k - 1);
        } else {
            lemma_ahead_of_prefix(head, rest, k);
            lemma_drain_ahead(asked, k - head.len());
        }
    } else {
        assert(all.take(k) =~= Seq::<SourceActionView>::empty());
        assert(all =~= Seq::<SourceActionView>::empty());
    }
}

proof fn lemma_step_ahead(m: SourceModel, event: SourceEvent, k: int)
    requires
        source_wf(m),
        0 <= k <= source_step(m, event).1.len(),
    ensures
        m.slots.len() + fetched_ahead(source_step(m, event).1.take(k)) <= m.window,
{
    let actions = source_step(m, event).1;
    let none = Seq::<SourceActionView>::empty();
    let finish = seq![SourceActionView::Finish(TransferOutcome::Completed)];
    lemma_projections_single(SourceActionView::Finish(TransferOutcome::Completed));
    if k == 0 {
        assert(actions.take(0) =~= none);
    } else {
        match event {
            SourceEvent::Metadata(Ok(size)) => {
                let known = SourceModel {
                    phase: SourcePhase::Streaming,
                    ..source_metadata_fetched(m, size as nat)
                };
                let (asked, fetches) = source_refill(known);
                let tail = source_complete_if_done(asked).1;
                lemma_ahead_of_prefix(fetches, tail, k);
                if k <= fetches.len() {
                    lemma_refill_ahead(known, k);
                } else {
                    lemma_refill_ahead(known, fetches.len() as int);
                    assert(fetches.take(fetches.len() as int) =~= fetches);
                    assert(tail.take(k - fetches.len()) =~= tail);
                }
            },
            SourceEvent::ChunkFetched { index, result: Ok(chunk) } => {
                let stored = SourceModel {
                    slots: m.slots.update(index - m.next_emit, Some(chunk.content@)),
                    ..m
                };
                let (drained, first) = source_drain(stored);
                let tail = source_complete_if_done(drained).1;
                lemma_ahead_of_prefix(first, tail, k);
                if k <= first.len() {
                    lemma_drain_ahead(stored, k);
                } else {
                    lemma_drain_ahead(stored, first.len() as int);
                    assert(first.take(first.len() as int) =~= first);
                    assert(tail.take(k - first.len()) =~= tail);
                }
            },
            _ => {
                assert(actions.len() == 1);
                assert(actions.take(1) =~= actions);
                lemma_projections_single(actions[0]);
                assert(actions =~= seq![actions[0]]);
            },
        }
    }
}

/// At every moment of any run, also in the middle of what the source asks
/// for on one event, at most `window` chunks have been asked for and not yet
/// handed downstream: a further chunk is asked for only after one went
/// downstream.
pub proof fn lemma_source_window_respected(
    target: Result<Endpoint, TransferError>,
    chunk_size: nat,
    window: nat,
    events: Seq<SourceEvent>,
)
    requires
        chunk_size > 0,
        window > 0,
    ensures
        window_respected(source_run(source_initial(target, chunk_size, window), events).1, window),
    decreases events.len(),
{
    let start = source_initial(target, chunk_size, window);
    let all = source_run(start, events).1;
    if events.len() == 0 {
        assert forall|k: int| 0 <= k <= all.len() implies fetched_ahead(#[trigger] all.take(k))
            <= window by {
            assert(all.take(k) =~= Seq::<SourceActionView>::empty());
        }
    } else {
        let earlier = events.drop_last();
        lemma_source_window_respected(target, chunk_size, window, earlier);
        lemma_source_run_keeps_inv(target, chunk_size, window, earlier, Seq::empty());
        let (before, actions) = source_run(start, earlier);
        let more = source_step(before, events.last()).1;
        assert(all == actions + more);
        assert forall|k: int| 0 <= k <= all.len() implies fetched_ahead(#[trigger] all.take(k))
            <= window by {
            lemma_ahead_of_prefix(actions, more, k);
            if k > actions.len() {
                lemma_step_ahead(before, events.last(), k - actions.len());
                assert(more.len() > 0);
                assert(!source_terminal(before.phase));
            }
        }
    }
}

/// Every request among the actions asks for one whole chunk: `chunk_size`
/// bytes from the offset of the chunk's index on.
pub open spec fn fetches_whole_chunks(actions: Seq<SourceActionView>, chunk_size: nat) -> bool {
    forall|i: int|
        0 <= i < actions.len() ==> ((#[trigger] actions[i]) matches SourceActionView::FetchChunk {
            index,
            offset,
            size,
        } ==> offset == chunk_offset(index, chunk_size) && size == chunk_size)
}

proof fn lemma_whole_chunks_concat(
    a: Seq<SourceActionView>,
    b: Seq<SourceActionView>,
    chunk_size: nat,
)
    requires
        fetches_whole_chunks(a, chunk_size),
        fetches_whole_chunks(b, chunk_size),
    ensures
        fetches_whole_chunks(a + b, chunk_size),
{
    let ab = a + b;
    assert forall|i: int| 0 <= i < ab.len() implies ((#[trigger] ab[i]) matches SourceActionView::FetchChunk {
        index,
        offset,
        size,
    } ==> offset == chunk_offset(index, chunk_size) && size == chunk_size) by {
        if i < a.len() {
            assert(ab[i] == a[i]);
        } else {
            assert(ab[i] == b[i - a.len()]);
        }
    }
}

proof fn lemma_drain_whole_chunks(m: SourceModel)
    ensures
        fetches_whole_chunks(source_drain(m).1, m.chunk_size),
    decreases m.count - m.next_emit,
{
    if m.slots.len() > 0 && m.next_emit < m.count && m.slots[0] is Some {
        let emit = SourceActionView::Emit { index: m.next_emit, data: m.slots[0]->0 };
        let handed = SourceModel { next_emit: m.next_emit + 1, slots: m.slots.skip(1), ..m };
        let (asked, fetches) = source_refill(handed);
        lemma_drain_whole_chunks(asked);
        lemma_whole_chunks_concat(seq![emit], fetches, m.chunk_size);
        lemma_whole_chunks_concat(seq![emit] + fetches, source_drain(asked).1, m.chunk_size);
    }
}

proof fn lemma_step_whole_chunks(m: SourceModel, event: SourceEvent)
    ensures
        fetches_whole_chunks(source_step(m, event).1, m.chunk_size),
        source_step(m, event).0.chunk_size == m.chunk_size,
{
    match event {
        SourceEvent::Metadata(Ok(size)) => {
            let known = SourceModel {
                phase: SourcePhase::Streaming,
                ..source_metadata_fetched(m, size as nat)
            };
            let (asked, fetches) = source_refill(known);
            lemma_whole_chunks_concat(fetches, source_complete_if_done(asked).1, m.chunk_size);
        },
        SourceEvent::ChunkFetched { index, result: Ok(chunk) } => {
            let stored = SourceModel {
                slots: m.slots.update(index - m.next_emit, Some(chunk.content@)),
                ..m
            };
            lemma_drain_whole_chunks(stored);
            let (drained, first) = source_drain(stored);
            lemma_drain_keeps_chunk_size(stored);
            lemma_whole_chunks_concat(first, source_complete_if_done(drained).1, m.chunk_size);
        },
        _ => {},
    }
}

proof fn lemma_drain_keeps_chunk_size(m: SourceModel)
    ensures
        source_drain(m).0.chunk_size == m.chunk_size,
    decreases m.count - m.next_emit,
{
    if m.slots.len() > 0 && m.next_emit < m.count && m.slots[0] is Some {
        let handed = SourceModel { next_emit: m.next_emit + 1, slots: m.slots.skip(1), ..m };
        lemma_drain_keeps_chunk_size(source_refill(handed).0);
    }
}

/// Whatever happens, every request that a source makes asks for one whole
/// chunk: `chunk_size` bytes from the offset `index * chunk_size` on.
pub proof fn lemma_source_fetches_whole_chunks(
    target: Result<Endpoint, TransferError>,
    chunk_size: nat,
    window: nat,
    events: Seq<SourceEvent>,
)
    ensures
        fetches_whole_chunks(
            source_run(source_initial(target, chunk_size, window), events).1,
            chunk_size,
        ),
        source_run(source_initial(target, chunk_size, window), events).0.chunk_size == chunk_size,
    decreases events.len(),
{
    if events.len() > 0 {
        let start = source_initial(target, chunk_size, window);
        lemma_source_fetches_whole_chunks(target, chunk_size, window, events.drop_last());
        let (before, actions) = source_run(start, events.drop_last());
        lemma_step_whole_chunks(before, events.last());
        lemma_whole_chunks_concat(actions, source_step(before, events.last()).1, chunk_size);
    }
}

/// The chunks handed downstream, each at the offset of its index.
pub open spec fn emitted_chunks(emitted: Seq<(nat, Seq<u8>)>, chunk_size: nat) -> Seq<ChunkView> {
    Seq::new(
        emitted.len(),
        |k: int| ChunkView { offset: chunk_offset(emitted[k].0, chunk_size), content: emitted[k].1 },
    )
}

/// Where the peer serves the resource `data`, what a source hands downstream
/// is `data` cut into chunks, from the first chunk on with none left out:
/// strictly increasing in offset and without gaps. Once the source has
/// completed, it has handed on all `ceil(len / chunk_size)` chunks, and their
/// contents, end to end, are `data`.
pub proof fn lemma_source_emits_resource(
    target: Result<Endpoint, TransferError>,
    chunk_size: nat,
    window: nat,
    events: Seq<SourceEvent>,
    data: Seq<u8>,
)
    requires
        chunk_size > 0,
        window > 0,
        forall|i: int| 0 <= i < events.len() ==> event_serves(#[trigger] events[i], data, chunk_size),
    ensures
        ({
            let (m, actions) = source_run(source_initial(target, chunk_size, window), events);
            let sent = emitted_chunks(emitted_items(actions), chunk_size);
            let all = split_chunks(data, chunk_size, 0);
            &&& sent.len() <= all.len()
            &&& sent == all.take(sent.len() as int)
            &&& m.phase is Completed ==> {
                &&& sent == all
                &&& sent.len() == chunk_count(data.len(), chunk_size)
                &&& chunk_contents(sent) == data
            }
        }),
{
    lemma_source_run_keeps_inv(target, chunk_size, window, events, data);
    lemma_split_reassembles(data, chunk_size, 0);
    let (m, actions) = source_run(source_initial(target, chunk_size, window), events);
    let emitted = emitted_items(actions);
    let sent = emitted_chunks(emitted, chunk_size);
    let all = split_chunks(data, chunk_size, 0);
    assert(sent =~= all.take(sent.len() as int)) by {
        assert forall|k: int| 0 <= k < sent.len() implies sent[k] == all[k] by {
            assert(emitted[k].0 == k);
        }
    }
    if m.phase is Completed {
        assert(all.take(all.len() as int) =~= all);
    }
}

/// A source that has ended stays as it is and asks for nothing, whatever
/// happens: a late answer is dropped, and a second abort, or an abort that
/// races with the natural end, changes nothing.
pub proof fn lemma_source_silent_after_end(m: SourceModel, events: Seq<SourceEvent>)
    requires
        source_terminal(m.phase),
    ensures
        source_run(m, events) == (m, Seq::<SourceActionView>::empty()),
    decreases events.len(),
{
    if events.len() > 0 {
        lemma_source_silent_after_end(m, events.drop_last());
        assert(Seq::<SourceActionView>::empty() + Seq::<SourceActionView>::empty()
            =~= Seq::<SourceActionView>::empty());
    }
}

/// An abort always ends a source that has not ended yet: the only thing it
/// asks for is to hand the end of the stream downstream, so no chunk follows.
pub proof fn lemma_source_abort_ends(m: SourceModel)
    requires
        !source_terminal(m.phase),
    ensures
        source_step(m, SourceEvent::Abort).0.phase is Aborted,
        source_step(m, SourceEvent::Abort).1 == seq![
            SourceActionView::Finish(TransferOutcome::Aborted),
        ],
{
}

/// The end of the stream is handed downstream at most once over any run of
/// events, and exactly once where the source has ended.
pub proof fn lemma_source_ends_once(
    target: Result<Endpoint, TransferError>,
    chunk_size: nat,
    window: nat,
    events: Seq<SourceEvent>,
)
    requires
        chunk_size > 0,
        window > 0,
    ensures
        ({
            let (m, actions) = source_run(source_initial(target, chunk_size, window), events);
            source_finish_count(actions) == if source_terminal(m.phase) {
                1nat
            } else {
                0nat
            }
        }),
{
    lemma_source_run_keeps_inv(target, chunk_size, window, events, Seq::empty());
}

} // verus!
