//! The fetching side of a download: the resource's size is asked for, its
//! chunks are fetched with a bounded number of calls in flight, and they are
//! handed downstream in index order whatever order they arrive in. The
//! decisions are a state machine; whoever drives it performs the calls and
//! reports back.

use crate::chunk::{
    chunk_count, chunk_offset, count_chunks, lemma_chunk_bounds, lemma_chunk_count_is_ceiling,
    TransferChunk,
};
use crate::data::TransferData;
use crate::endpoint::Endpoint;
use crate::error::{transfer_error_of, CallError, TransferError, TransferOutcome};
use vstd::prelude::*;

verus! {

/// Where a source stands in its life.
#[derive(Clone, Copy, Debug, PartialEq, Eq, Structural)]
pub enum SourcePhase {
    /// Nothing is known of the resource yet.
    Created,
    /// The size of the resource is known and no chunk is asked for yet. A
    /// source passes through this phase on the event that brings the
    /// metadata, and asks for the first chunks in the same step: it is never
    /// found in it between two events.
    MetadataFetched,
    /// Chunks are being fetched and handed downstream.
    Streaming,
    /// Every chunk has been handed downstream.
    Completed,
    /// The caller gave the transfer up.
    Aborted,
    /// A call failed, or the URL named no resource.
    Failed,
}

/// What happened outside the source.
#[derive(Debug, PartialEq, Eq)]
pub enum SourceEvent {
    /// The transfer is to begin.
    Start,
    /// The metadata call has returned: the size of the resource in bytes.
    Metadata(Result<u64, CallError<String>>),
    /// The fetch call for the chunk with this index has returned.
    ChunkFetched { index: u64, result: Result<TransferChunk, CallError<String>> },
    /// The caller gives the transfer up.
    Abort,
}

/// What the driver of a source is to do.
#[derive(Debug, PartialEq, Eq)]
pub enum SourceAction {
    /// Ask the peer for the size of the resource and report the answer.
    FetchMetadata,
    /// Ask the peer for `size` bytes from `offset` on and report the answer
    /// under `index`.
    FetchChunk { index: u64, offset: u64, size: u64 },
    /// Hand the content of the chunk with this index downstream.
    Emit { index: u64, data: TransferData },
    /// Hand the end of the stream downstream: the transfer is over. Calls
    /// still in flight are dropped.
    Finish(TransferOutcome),
}

/// An action as a mathematical value.
pub ghost enum SourceActionView {
    FetchMetadata,
    FetchChunk { index: nat, offset: nat, size: nat },
    Emit { index: nat, data: Seq<u8> },
    Finish(TransferOutcome),
}

impl View for SourceAction {
    type V = SourceActionView;

    open spec fn view(&self) -> SourceActionView {
        match *self {
            SourceAction::FetchMetadata => SourceActionView::FetchMetadata,
            SourceAction::FetchChunk { index, offset, size } => SourceActionView::FetchChunk {
                index: index as nat,
                offset: offset as nat,
                size: size as nat,
            },
            SourceAction::Emit { index, data } => SourceActionView::Emit {
                index: index as nat,
                data: data@,
            },
            SourceAction::Finish(outcome) => SourceActionView::Finish(outcome),
        }
    }
}

/// The views of the actions, in order.
pub open spec fn source_action_views(actions: Seq<SourceAction>) -> Seq<SourceActionView> {
    actions.map_values(|a: SourceAction| a@)
}

/// A source as a mathematical value.
pub ghost struct SourceModel {
    pub phase: SourcePhase,
    /// The peer's endpoint for this transfer, or why the URL gave none.
    pub target: Result<Endpoint, TransferError>,
    pub chunk_size: nat,
    /// How many chunks may be fetched ahead of the one that is handed
    /// downstream next.
    pub window: nat,
    /// Whether the metadata call is on the wire.
    pub awaiting_metadata: bool,
    /// Size of the resource and the number of its chunks, once known.
    pub size: nat,
    pub count: nat,
    /// Index of the chunk that goes downstream next.
    pub next_emit: nat,
    /// The chunks asked for and not handed downstream yet, from `next_emit`
    /// on: the content of each that has arrived, `None` for each still in
    /// flight.
    pub slots: Seq<Option<Seq<u8>>>,
}

impl SourceModel {
    /// Index of the chunk that is asked for next.
    pub open spec fn next_fetch(self) -> nat {
        self.next_emit + self.slots.len()
    }

    /// Number of fetch calls on the wire.
    pub open spec fn in_flight(self) -> nat {
        self.slots.filter(|s: Option<Seq<u8>>| s is None).len()
    }
}

/// A source that has ended: it will do nothing more.
pub open spec fn source_terminal(phase: SourcePhase) -> bool {
    phase is Completed || phase is Aborted || phase is Failed
}

/// The source as it ends with the given phase: what was fetched ahead is
/// dropped.
pub open spec fn source_ended(m: SourceModel, phase: SourcePhase) -> SourceModel {
    SourceModel { phase, awaiting_metadata: false, slots: Seq::empty(), ..m }
}

/// The request for the chunk with the given index.
pub open spec fn fetch_action(m: SourceModel, index: nat) -> SourceActionView {
    SourceActionView::FetchChunk {
        index,
        offset: chunk_offset(index, m.chunk_size),
        size: m.chunk_size,
    }
}

/// How many further chunks can be asked for: as many as the window has room
/// for, and no more than are left.
pub open spec fn source_room(m: SourceModel) -> nat {
    let free = m.window - m.slots.len();
    let left = m.count - m.next_fetch();
    if free <= 0 || left <= 0 {
        0
    } else if free <= left {
        free as nat
    } else {
        left as nat
    }
}

/// Asks for further chunks, in index order, while the window has room and
/// chunks are left.
pub open spec fn source_refill(m: SourceModel) -> (SourceModel, Seq<SourceActionView>) {
    let more = source_room(m);
    (
        SourceModel { slots: m.slots + Seq::new(more, |i: int| None::<Seq<u8>>), ..m },
        Seq::new(more, |i: int| fetch_action(m, (m.next_fetch() + i) as nat)),
    )
}

/// Hands downstream every chunk that has arrived and is next in index order,
/// and asks for a further chunk for each one handed on.
pub open spec fn source_drain(m: SourceModel) -> (SourceModel, Seq<SourceActionView>)
    decreases m.count - m.next_emit,
{
    if m.slots.len() > 0 && m.next_emit < m.count {
        match m.slots[0] {
            Some(content) => {
                let handed = SourceModel {
                    next_emit: m.next_emit + 1,
                    slots: m.slots.skip(1),
                    ..m
                };
                let (asked, fetches) = source_refill(handed);
                let (after, rest) = source_drain(asked);
                (
                    after,
                    seq![SourceActionView::Emit { index: m.next_emit, data: content }] + fetches
                        + rest,
                )
            },
            None => (m, Seq::empty()),
        }
    } else {
        (m, Seq::empty())
    }
}

/// Ends the stream once every chunk has been handed downstream.
pub open spec fn source_complete_if_done(m: SourceModel) -> (SourceModel, Seq<SourceActionView>) {
    if m.next_emit >= m.count {
        (
            source_ended(m, SourcePhase::Completed),
            seq![SourceActionView::Finish(TransferOutcome::Completed)],
        )
    } else {
        (m, Seq::empty())
    }
}

/// The source on learning the size of the resource: the number of chunks is
/// the size divided by the chunk size, rounded up.
pub open spec fn source_metadata_fetched(m: SourceModel, size: nat) -> SourceModel {
    SourceModel {
        phase: SourcePhase::MetadataFetched,
        awaiting_metadata: false,
        size,
        count: chunk_count(size, m.chunk_size),
        ..m
    }
}

/// The source as it begins to stream: the first window of chunks is asked
/// for, or the stream ends at once where there is no chunk.
pub open spec fn source_begin_streaming(m: SourceModel) -> (SourceModel, Seq<SourceActionView>) {
    let (asked, fetches) = source_refill(SourceModel { phase: SourcePhase::Streaming, ..m });
    let (after, finish) = source_complete_if_done(asked);
    (after, fetches + finish)
}

/// Whether the source waits for the chunk with this index.
pub open spec fn source_expects(m: SourceModel, index: nat) -> bool {
    &&& m.phase is Streaming
    &&& m.next_emit <= index < m.next_fetch()
    &&& m.slots[index - m.next_emit] is None
}

/// The source as it fails for the given cause.
pub open spec fn source_failed(m: SourceModel, cause: TransferError) -> (
    SourceModel,
    Seq<SourceActionView>,
) {
    (
        source_ended(m, SourcePhase::Failed),
        seq![SourceActionView::Finish(TransferOutcome::Failed(cause))],
    )
}

/// The transition function of a source: the state after the event, and what
/// the driver is to do, in order.
pub open spec fn source_step(m: SourceModel, event: SourceEvent) -> (
    SourceModel,
    Seq<SourceActionView>,
) {
    if source_terminal(m.phase) {
        (m, Seq::empty())
    } else {
        match event {
            SourceEvent::Abort => (
                source_ended(m, SourcePhase::Aborted),
                seq![SourceActionView::Finish(TransferOutcome::Aborted)],
            ),
            SourceEvent::Start => if m.phase is Created && !m.awaiting_metadata {
                match m.target {
                    Ok(_) => (
                        SourceModel { awaiting_metadata: true, ..m },
                        seq![SourceActionView::FetchMetadata],
                    ),
                    Err(e) => source_failed(m, e),
                }
            } else {
                (m, Seq::empty())
            },
            SourceEvent::Metadata(result) => if m.phase is Created && m.awaiting_metadata {
                match result {
                    Ok(size) => source_begin_streaming(source_metadata_fetched(m, size as nat)),
                    Err(e) => source_failed(m, transfer_error_of(e)),
                }
            } else {
                (m, Seq::empty())
            },
            SourceEvent::ChunkFetched { index, result } => if source_expects(m, index as nat) {
                match result {
                    Ok(chunk) => {
                        let stored = SourceModel {
                            slots: m.slots.update(index - m.next_emit, Some(chunk.content@)),
                            ..m
                        };
                        let (drained, actions) = source_drain(stored);
                        let (after, finish) = source_complete_if_done(drained);
                        (after, actions + finish)
                    },
                    Err(e) => source_failed(m, transfer_error_of(e)),
                }
            } else {
                (m, Seq::empty())
            },
        }
    }
}

/// The states that a source can be in.
pub open spec fn source_wf(m: SourceModel) -> bool {
    &&& m.chunk_size > 0
    &&& m.window > 0
    &&& m.size <= u64::MAX
    &&& m.slots.len() <= m.window
    &&& m.next_fetch() <= m.count
    &&& m.awaiting_metadata ==> m.phase is Created
    &&& m.phase is Created ==> m.size == 0 && m.count == 0 && m.next_emit == 0
    &&& !(m.phase is Created) ==> m.count == chunk_count(m.size, m.chunk_size)
    &&& !(m.phase is MetadataFetched)
    &&& (m.phase is Streaming ==> m.target is Ok)
    &&& (m.awaiting_metadata ==> m.target is Ok)
}

/// A source that has not started.
pub open spec fn source_initial(
    target: Result<Endpoint, TransferError>,
    chunk_size: nat,
    window: nat,
) -> SourceModel {
    SourceModel {
        phase: SourcePhase::Created,
        target,
        chunk_size,
        window,
        awaiting_metadata: false,
        size: 0,
        count: 0,
        next_emit: 0,
        slots: Seq::empty(),
    }
}

/// The content of a slot as a mathematical value.
pub open spec fn slot_view(slot: Option<Vec<u8>>) -> Option<Seq<u8>> {
    match slot {
        Some(content) => Some(content@),
        None => None,
    }
}

/// The fetching half of a download from one peer.
pub struct SourceTransfer {
    phase: SourcePhase,
    target: Result<Endpoint, TransferError>,
    chunk_size: u64,
    window: usize,
    awaiting_metadata: bool,
    size: u64,
    count: u64,
    next_emit: u64,
    slots: Vec<Option<Vec<u8>>>,
}

impl View for SourceTransfer {
    type V = SourceModel;

    closed spec fn view(&self) -> SourceModel {
        SourceModel {
            phase: self.phase,
            target: self.target,
            chunk_size: self.chunk_size as nat,
            window: self.window as nat,
            awaiting_metadata: self.awaiting_metadata,
            size: self.size as nat,
            count: self.count as nat,
            next_emit: self.next_emit as nat,
            slots: self.slots@.map_values(|s: Option<Vec<u8>>| slot_view(s)),
        }
    }
}

impl SourceTransfer {
    /// Holds of every source that `new` made and `step` moved.
    pub closed spec fn wf(&self) -> bool {
        source_wf(self@)
    }

    /// A source for the given peer endpoint, or for the error that the
    /// transfer URL gave, that fetches chunks of `chunk_size` bytes, at most
    /// `window` of them ahead of the one that goes downstream next.
    pub fn new(target: Result<Endpoint, TransferError>, chunk_size: u64, window: usize) -> (s:
        SourceTransfer)
        requires
            chunk_size > 0,
            window > 0,
        ensures
            s.wf(),
            s@ == source_initial(target, chunk_size as nat, window as nat),
    {
        let s = SourceTransfer {
            phase: SourcePhase::Created,
            target,
            chunk_size,
            window,
            awaiting_metadata: false,
            size: 0,
            count: 0,
            next_emit: 0,
            slots: Vec::new(),
        };
        assert(s@.slots =~= Seq::empty());
        s
    }

    /// The phase that the source is in.
    pub fn phase(&self) -> (phase: SourcePhase)
        ensures
            phase == self@.phase,
    {
        self.phase
    }

    /// The endpoint from which the chunks come, if the URL named one.
    pub fn target(&self) -> (target: Option<&Endpoint>)
        ensures
            match self@.target {
                Ok(endpoint) => target == Some(&endpoint),
                Err(_) => target is None,
            },
    {
        match &self.target {
            Ok(endpoint) => Some(endpoint),
            Err(_) => None,
        }
    }

    /// The number of chunks of the resource; 0 until its size is known.
    pub fn chunk_total(&self) -> (count: u64)
        ensures
            count == self@.count,
    {
        self.count
    }

    /// The number of chunks handed downstream so far.
    pub fn emitted(&self) -> (count: u64)
        ensures
            count == self@.next_emit,
    {
        self.next_emit
    }

    /// The number of chunks asked for and not handed downstream yet.
    pub fn outstanding(&self) -> (count: usize)
        ensures
            count == self@.slots.len(),
    {
        self.slots.len()
    }

    fn end(&mut self, phase: SourcePhase)
        requires
            old(self).wf(),
            source_terminal(phase),
        ensures
            final(self).wf(),
            final(self)@ == source_ended(old(self)@, phase),
    {
        proof {
            lemma_chunk_count_is_ceiling(0, self.chunk_size as nat);
        }
        self.phase = phase;
        self.awaiting_metadata = false;
        self.slots = Vec::new();
        assert(self@.slots =~= Seq::empty());
    }

    fn fail(&mut self, cause: TransferError) -> (actions: Vec<SourceAction>)
        requires
            old(self).wf(),
        ensures
            final(self).wf(),
            (final(self)@, source_action_views(actions@)) == source_failed(old(self)@, cause),
    {
        self.end(SourcePhase::Failed);
        let mut actions: Vec<SourceAction> = Vec::new();
        actions.push(SourceAction::Finish(TransferOutcome::Failed(cause)));
        assert(source_action_views(actions@) =~= seq![
            SourceActionView::Finish(TransferOutcome::Failed(cause)),
        ]);
        actions
    }

    fn refill(&mut self, actions: &mut Vec<SourceAction>)
        requires
            old(self).wf(),
            !(old(self)@.phase is Created),
        ensures
            final(self).wf(),
            final(self)@ == source_refill(old(self)@).0,
            source_action_views(final(actions)@) == source_action_views(old(actions)@)
                + source_refill(old(self)@).1,
    {
        let ghost start = self@;
        let ghost before = source_action_views(actions@);
        let ghost more = source_room(start);
        let ghost asked: nat = 0;
        assert(before + Seq::new(0, |i: int| fetch_action(start, (start.next_fetch() + i) as nat))
            =~= before);
        assert(start.slots + Seq::new(0, |i: int| None::<Seq<u8>>) =~= start.slots);
        while self.slots.len() < self.window && self.next_emit + (self.slots.len() as u64)
            < self.count
            invariant
                self.wf(),
                asked <= more,
                more == source_room(start),
                more - asked == source_room(self@),
                self@ == (SourceModel {
                    slots: start.slots + Seq::new(asked, |i: int| None::<Seq<u8>>),
                    ..start
                }),
                source_action_views(actions@) == before + Seq::new(
                    asked,
                    |i: int| fetch_action(start, (start.next_fetch() + i) as nat),
                ),
            decreases more - asked,
        {
            let ghost m = self@;
            let index: u64 = self.next_emit + self.slots.len() as u64;
            proof {
                lemma_chunk_bounds(m.size, m.chunk_size, index as nat);
            }
            let offset: u64 = index * self.chunk_size;
            let ghost so_far = source_action_views(actions@);
            self.slots.push(None);
            actions.push(SourceAction::FetchChunk { index, offset, size: self.chunk_size });
            proof {
                assert(self@.slots =~= m.slots.push(None));
                assert(source_action_views(actions@) =~= so_far.push(
                    fetch_action(start, (start.next_fetch() + asked) as nat),
                ));
                assert(index == start.next_fetch() + asked);
                assert(self@.slots =~= start.slots + Seq::new(
                    asked + 1,
                    |i: int| None::<Seq<u8>>,
                ));
                assert(actions@.last()@ == fetch_action(start, (start.next_fetch() + asked) as nat));
                assert(source_action_views(actions@) =~= before + Seq::new(
                    asked + 1,
                    |i: int| fetch_action(start, (start.next_fetch() + i) as nat),
                ));
                asked = asked + 1;
            }
        }
    }

    fn complete_if_done(&mut self, actions: &mut Vec<SourceAction>)
        requires
            old(self).wf(),
            old(self)@.phase is Streaming,
        ensures
            final(self).wf(),
            final(self)@ == source_complete_if_done(old(self)@).0,
            source_action_views(final(actions)@) == source_action_views(old(actions)@)
                + source_complete_if_done(old(self)@).1,
    {
        let ghost before = source_action_views(actions@);
        if self.next_emit >= self.count {
            self.end(SourcePhase::Completed);
            actions.push(SourceAction::Finish(TransferOutcome::Completed));
            assert(source_action_views(actions@) =~= before + seq![
                SourceActionView::Finish(TransferOutcome::Completed),
            ]);
        } else {
            assert(before + Seq::<SourceActionView>::empty() =~= before);
        }
    }

    /// Moves the source by one event and says what to do next, in order.
    pub fn step(&mut self, event: SourceEvent) -> (actions: Vec<SourceAction>)
        requires
            old(self).wf(),
        ensures
            final(self).wf(),
            (final(self)@, source_action_views(actions@)) == source_step(old(self)@, event),
    {
        let mut actions: Vec<SourceAction> = Vec::new();
        assert(source_action_views(actions@) =~= Seq::empty());
        match self.phase {
            SourcePhase::Completed | SourcePhase::Aborted | SourcePhase::Failed => {
                return actions;
            },
            _ => {},
        }
        match event {
            SourceEvent::Abort => {
                self.end(SourcePhase::Aborted);
                actions.push(SourceAction::Finish(TransferOutcome::Aborted));
                assert(source_action_views(actions@) =~= seq![
                    SourceActionView::Finish(TransferOutcome::Aborted),
                ]);
                actions
            },
            SourceEvent::Start => {
                let fresh = match self.phase {
                    SourcePhase::Created => !self.awaiting_metadata,
                    _ => false,
                };
                if !fresh {
                    return actions;
                }
                let failure = match &self.target {
                    Ok(_) => None,
                    Err(e) => Some(e.duplicate()),
                };
                match failure {
                    None => {
                        let ghost m = self@;
                        self.awaiting_metadata = true;
                        assert(self@ == (SourceModel { awaiting_metadata: true, ..m }));
                        actions.push(SourceAction::FetchMetadata);
                        assert(source_action_views(actions@) =~= seq![
                            SourceActionView::FetchMetadata,
                        ]);
                        actions
                    },
                    Some(e) => self.fail(e),
                }
            },
            SourceEvent::Metadata(result) => {
                if !self.awaiting_metadata {
                    return actions;
                }
                match result {
                    Ok(size) => {
                        let ghost m = self@;
                        self.phase = SourcePhase::Streaming;
                        self.awaiting_metadata = false;
                        self.size = size;
                        self.count = count_chunks(size, self.chunk_size);
                        assert(self@ == (SourceModel {
                            phase: SourcePhase::Streaming,
                            ..source_metadata_fetched(m, size as nat)
                        }));
                        self.refill(&mut actions);
                        self.complete_if_done(&mut actions);
                        actions
                    },
                    Err(e) => self.fail(TransferError::from_call(e)),
                }
            },
            SourceEvent::ChunkFetched { index, result } => {
                let expected = match self.phase {
                    SourcePhase::Streaming => self.next_emit <= index && index - self.next_emit
                        < self.slots.len() as u64 && self.slots[(index
                        - self.next_emit) as usize].is_none(),
                    _ => false,
                };
                if !expected {
                    return actions;
                }
                match result {
                    Ok(chunk) => {
                        let ghost m = self@;
                        let at: usize = (index - self.next_emit) as usize;
                        self.slots.set(at, Some(chunk.content));
                        proof {
                            assert(self@.slots =~= m.slots.update(
                                at as int,
                                Some(chunk.content@),
                            ));
                        }
                        self.drain(&mut actions);
                        self.complete_if_done(&mut actions);
                        actions
                    },
                    Err(e) => self.fail(TransferError::from_call(e)),
                }
            },
        }
    }

    fn drain(&mut self, actions: &mut Vec<SourceAction>)
        requires
            old(self).wf(),
            !(old(self)@.phase is Created),
        ensures
            final(self).wf(),
            final(self)@.phase == old(self)@.phase,
            final(self)@ == source_drain(old(self)@).0,
            source_action_views(final(actions)@) == source_action_views(old(actions)@)
                + source_drain(old(self)@).1,
    {
        let ghost start = self@;
        let ghost before = source_action_views(actions@);
        assert(before + Seq::<SourceActionView>::empty() =~= before);
        while self.slots.len() > 0 && self.next_emit < self.count && self.slots[0].is_some()
            invariant
                self.wf(),
                self@.phase == start.phase,
                !(self@.phase is Created),
                source_drain(start).0 == source_drain(self@).0,
                source_action_views(actions@) + source_drain(self@).1 == before + source_drain(
                    start,
                ).1,
            decreases self@.count - self@.next_emit,
        {
            let ghost m = self@;
            let ghost so_far = source_action_views(actions@);
            let slot = self.slots.remove(0);
            let content = slot.unwrap();
            let index: u64 = self.next_emit;
            self.next_emit = self.next_emit + 1;
            actions.push(SourceAction::Emit { index, data: TransferData::from_vec(content) });
            let ghost handed = self@;
            let ghost with_emit = source_action_views(actions@);
            proof {
                assert(handed.slots =~= m.slots.skip(1));
                assert(handed == (SourceModel {
                    next_emit: m.next_emit + 1,
                    slots: m.slots.skip(1),
                    ..m
                }));
                assert(with_emit =~= so_far + seq![
                    SourceActionView::Emit { index: m.next_emit, data: m.slots[0]->0 },
                ]);
            }
            self.refill(actions);
            proof {
                assert(source_action_views(actions@) + source_drain(self@).1 =~= so_far
                    + source_drain(m).1);
            }
        }
        proof {
            assert(source_drain(self@).1 =~= Seq::<SourceActionView>::empty());
            assert(source_action_views(actions@) + Seq::<SourceActionView>::empty()
                =~= source_action_views(actions@));
        }
    }
}

} // verus!
