//! The receiving side of an upload: data pushed by the caller is cut into
//! chunks and sent to the peer one call at a time. The decisions are a state
//! machine; whoever drives it performs the calls and reports back.

use crate::chunk::{chunk_count, count_chunks, nth_chunk, split_chunks, ChunkView, TransferChunk};
use crate::data::{bytes_contents, bytes_from_vec, bytes_len, TransferData};
use crate::endpoint::Endpoint;
use crate::error::{transfer_error_of, CallError, TransferError, TransferOutcome};
use bytes::Bytes;
use vstd::prelude::*;

verus! {

/// Where a destination stands in its life.
#[derive(Clone, Copy, Debug, PartialEq, Eq, Structural)]
pub enum DestinationPhase {
    /// Not started.
    Created,
    /// Items are taken from the input and sent to the peer.
    Open,
    /// The input ended and all of it was sent.
    Completed,
    /// The caller gave the transfer up.
    Aborted,
    /// A call or the input failed, or the URL named no resource.
    Failed,
}

/// What happened outside the destination.
#[derive(Debug, PartialEq, Eq)]
pub enum DestinationEvent {
    /// The transfer is to begin.
    Start,
    /// The input queue delivered an item, or the error that ends it.
    Item(Result<TransferData, TransferError>),
    /// The upload call on the wire has returned.
    Uploaded(Result<(), CallError<String>>),
    /// The input queue is closed and empty.
    EndOfInput,
    /// The caller gives the transfer up.
    Abort,
}

/// What the driver of a destination is to do next.
#[derive(Debug, PartialEq, Eq)]
pub enum DestinationAction {
    /// Nothing: the event changed nothing.
    Nothing,
    /// Take the next item from the input queue and report it.
    Pull,
    /// Send this chunk to the peer in one call and report how it went.
    Upload(TransferChunk),
    /// Resolve the result channel: the transfer is over.
    Finish(TransferOutcome),
}

/// An action as a mathematical value.
pub ghost enum DestinationActionView {
    Nothing,
    Pull,
    Upload(ChunkView),
    Finish(TransferOutcome),
}

impl View for DestinationAction {
    type V = DestinationActionView;

    open spec fn view(&self) -> DestinationActionView {
        match *self {
            DestinationAction::Nothing => DestinationActionView::Nothing,
            DestinationAction::Pull => DestinationActionView::Pull,
            DestinationAction::Upload(chunk) => DestinationActionView::Upload(chunk@),
            DestinationAction::Finish(outcome) => DestinationActionView::Finish(outcome),
        }
    }
}

/// A destination as a mathematical value.
pub ghost struct DestinationModel {
    pub phase: DestinationPhase,
    /// The peer's endpoint for this transfer, or why the URL gave none.
    pub target: Result<Endpoint, TransferError>,
    pub chunk_size: nat,
    /// Bytes accepted from the input so far: the offset of the next item.
    pub offset: nat,
    /// Chunks of the current item that have not been sent yet.
    pub pending: Seq<ChunkView>,
    /// Whether an upload call is on the wire.
    pub in_flight: bool,
}

/// A destination that has ended: it will do nothing more.
pub open spec fn destination_terminal(phase: DestinationPhase) -> bool {
    phase is Completed || phase is Aborted || phase is Failed
}

/// The destination as it ends with the given phase.
pub open spec fn destination_ended(m: DestinationModel, phase: DestinationPhase) -> DestinationModel {
    DestinationModel { phase, pending: Seq::empty(), in_flight: false, ..m }
}

/// The transition function of a destination: the state after the event, and
/// what the driver is to do.
pub open spec fn destination_step(m: DestinationModel, event: DestinationEvent) -> (
    DestinationModel,
    DestinationActionView,
) {
    if destination_terminal(m.phase) {
        (m, DestinationActionView::Nothing)
    } else {
        match event {
            DestinationEvent::Abort => (
                destination_ended(m, DestinationPhase::Aborted),
                DestinationActionView::Finish(TransferOutcome::Aborted),
            ),
            DestinationEvent::Start => if m.phase is Created {
                match m.target {
                    Ok(_) => (
                        DestinationModel { phase: DestinationPhase::Open, ..m },
                        DestinationActionView::Pull,
                    ),
                    Err(e) => (
                        destination_ended(m, DestinationPhase::Failed),
                        DestinationActionView::Finish(TransferOutcome::Failed(e)),
                    ),
                }
            } else {
                (m, DestinationActionView::Nothing)
            },
            DestinationEvent::Item(item) => if m.phase is Open && !m.in_flight {
                match item {
                    Ok(data) => {
                        let chunks = split_chunks(data@, m.chunk_size, m.offset);
                        if m.offset + data@.len() > u64::MAX {
                            (
                                destination_ended(m, DestinationPhase::Failed),
                                DestinationActionView::Finish(
                                    TransferOutcome::Failed(TransferError::OffsetOverflow),
                                ),
                            )
                        } else if chunks.len() == 0 {
                            (m, DestinationActionView::Pull)
                        } else {
                            (
                                DestinationModel {
                                    offset: m.offset + data@.len(),
                                    pending: chunks.skip(1),
                                    in_flight: true,
                                    ..m
                                },
                                DestinationActionView::Upload(chunks[0]),
                            )
                        }
                    },
                    Err(e) => (
                        destination_ended(m, DestinationPhase::Failed),
                        DestinationActionView::Finish(TransferOutcome::Failed(e)),
                    ),
                }
            } else {
                (m, DestinationActionView::Nothing)
            },
            DestinationEvent::Uploaded(result) => if m.phase is Open && m.in_flight {
                match result {
                    Ok(_) => if m.pending.len() > 0 {
                        (
                            DestinationModel { pending: m.pending.skip(1), ..m },
                            DestinationActionView::Upload(m.pending[0]),
                        )
                    } else {
                        (DestinationModel { in_flight: false, ..m }, DestinationActionView::Pull)
                    },
                    Err(e) => (
                        destination_ended(m, DestinationPhase::Failed),
                        DestinationActionView::Finish(
                            TransferOutcome::Failed(transfer_error_of(e)),
                        ),
                    ),
                }
            } else {
                (m, DestinationActionView::Nothing)
            },
            DestinationEvent::EndOfInput => if m.phase is Open && !m.in_flight {
                (
                    destination_ended(m, DestinationPhase::Completed),
                    DestinationActionView::Finish(TransferOutcome::Completed),
                )
            } else {
                (m, DestinationActionView::Nothing)
            },
        }
    }
}

/// The sending half of an upload to one peer.
pub struct DestinationTransfer {
    phase: DestinationPhase,
    target: Result<Endpoint, TransferError>,
    chunk_size: usize,
    offset: u64,
    /// The item being sent, the offset of its first byte, and the index of
    /// the first of its chunks that is not sent yet.
    item: Bytes,
    item_base: u64,
    next: u64,
    in_flight: bool,
}

impl View for DestinationTransfer {
    type V = DestinationModel;

    closed spec fn view(&self) -> DestinationModel {
        DestinationModel {
            phase: self.phase,
            target: self.target,
            chunk_size: self.chunk_size as nat,
            offset: self.offset as nat,
            pending: split_chunks(
                bytes_contents(self.item),
                self.chunk_size as nat,
                self.item_base as nat,
            ).skip(self.next as int),
            in_flight: self.in_flight,
        }
    }
}

/// The states that a destination can be in.
pub open spec fn destination_wf(m: DestinationModel) -> bool {
    &&& m.chunk_size > 0
    &&& m.offset <= u64::MAX
    &&& m.in_flight ==> m.phase is Open
    &&& !m.in_flight ==> m.pending.len() == 0
    &&& m.phase is Created ==> m.offset == 0
    &&& (m.phase is Open ==> m.target is Ok)
}

/// A destination that has not started.
pub open spec fn destination_initial(
    target: Result<Endpoint, TransferError>,
    chunk_size: nat,
) -> DestinationModel {
    DestinationModel {
        phase: DestinationPhase::Created,
        target,
        chunk_size,
        offset: 0,
        pending: Seq::empty(),
        in_flight: false,
    }
}

impl DestinationTransfer {
    /// Holds of every destination that `new` made and `step` moved.
    pub closed spec fn wf(&self) -> bool {
        &&& destination_wf(self@)
        &&& self.next <= chunk_count(bytes_contents(self.item).len(), self.chunk_size as nat)
        &&& self.item_base + bytes_contents(self.item).len() <= u64::MAX
    }

    /// A destination for the given peer endpoint, or for the error that the
    /// transfer URL gave, that cuts its input into chunks of `chunk_size`
    /// bytes.
    pub fn new(target: Result<Endpoint, TransferError>, chunk_size: usize) -> (d:
        DestinationTransfer)
        requires
            chunk_size > 0,
        ensures
            d.wf(),
            d@ == destination_initial(target, chunk_size as nat),
    {
        let item = bytes_from_vec(Vec::new());
        let d = DestinationTransfer {
            phase: DestinationPhase::Created,
            target,
            chunk_size,
            offset: 0,
            item,
            item_base: 0,
            next: 0,
            in_flight: false,
        };
        assert(d@.pending =~= Seq::empty());
        d
    }

    /// The phase that the destination is in.
    pub fn phase(&self) -> (phase: DestinationPhase)
        ensures
            phase == self@.phase,
    {
        self.phase
    }

    /// The number of bytes accepted from the input so far.
    pub fn offset(&self) -> (offset: u64)
        ensures
            offset == self@.offset,
    {
        self.offset
    }

    /// The endpoint to which the chunks go, if the URL named one.
    pub fn target(&self) -> (target: Option<&Endpoint>)
        ensures
            match self@.target {
                Ok(endpoint) => target == Some(&endpoint),
                Err(_) => target is None,
            },
    {
        match &self.target {
            Ok(endpoint) => Some(endpoint),
            Err(_) => None,
        }
    }

    fn end(&mut self, phase: DestinationPhase)
        requires
            old(self).wf(),
            destination_terminal(phase),
        ensures
            final(self).wf(),
            final(self)@ == destination_ended(old(self)@, phase),
    {
        self.phase = phase;
        self.in_flight = false;
        self.next = self.item_chunks();
        assert(self@.pending =~= Seq::empty());
    }

    /// The number of chunks of the item being sent.
    fn item_chunks(&self) -> (count: u64)
        requires
            self.chunk_size > 0,
        ensures
            count == chunk_count(bytes_contents(self.item).len(), self.chunk_size as nat),
    {
        count_chunks(bytes_len(&self.item) as u64, self.chunk_size as u64)
    }

    /// Moves the destination by one event and says what to do next.
    pub fn step(&mut self, event: DestinationEvent) -> (action: DestinationAction)
        requires
            old(self).wf(),
        ensures
            final(self).wf(),
            (final(self)@, action@) == destination_step(old(self)@, event),
    {
        match self.phase {
            DestinationPhase::Completed | DestinationPhase::Aborted | DestinationPhase::Failed => {
                return DestinationAction::Nothing;
            },
            _ => {},
        }
        match event {
            DestinationEvent::Abort => {
                self.end(DestinationPhase::Aborted);
                DestinationAction::Finish(TransferOutcome::Aborted)
            },
            DestinationEvent::Start => {
                match self.phase {
                    DestinationPhase::Created => {},
                    _ => { return DestinationAction::Nothing; },
                }
                let failure = match &self.target {
                    Ok(_) => None,
                    Err(e) => Some(e.duplicate()),
                };
                match failure {
                    None => {
                        self.phase = DestinationPhase::Open;
                        DestinationAction::Pull
                    },
                    Some(e) => {
                        self.end(DestinationPhase::Failed);
                        DestinationAction::Finish(TransferOutcome::Failed(e))
                    },
                }
            },
            DestinationEvent::Item(item) => {
                let open = match self.phase {
                    DestinationPhase::Open => !self.in_flight,
                    _ => false,
                };
                if !open {
                    return DestinationAction::Nothing;
                }
                match item {
                    Ok(data) => {
                        let bytes = data.into_bytes();
                        let len: usize = bytes_len(&bytes);
                        if len as u64 > u64::MAX - self.offset {
                            self.end(DestinationPhase::Failed);
                            return DestinationAction::Finish(
                                TransferOutcome::Failed(TransferError::OffsetOverflow),
                            );
                        }
                        let count = count_chunks(len as u64, self.chunk_size as u64);
                        if count == 0 {
                            assert(self@.pending =~= Seq::empty());
                            return DestinationAction::Pull;
                        }
                        let chunk = nth_chunk(&bytes, self.chunk_size, self.offset, 0);
                        self.item = bytes;
                        self.item_base = self.offset;
                        self.next = 1;
                        self.offset = self.offset + len as u64;
                        self.in_flight = true;
                        DestinationAction::Upload(chunk)
                    },
                    Err(e) => {
                        self.end(DestinationPhase::Failed);
                        DestinationAction::Finish(TransferOutcome::Failed(e))
                    },
                }
            },
            DestinationEvent::Uploaded(result) => {
                if !self.in_flight {
                    return DestinationAction::Nothing;
                }
                match result {
                    Ok(_) => {
                        if self.next < self.item_chunks() {
                            let chunk = nth_chunk(
                                &self.item,
                                self.chunk_size,
                                self.item_base,
                                self.next,
                            );
                            let ghost before = self@.pending;
                            self.next = self.next + 1;
                            assert(self@.pending =~= before.skip(1));
                            DestinationAction::Upload(chunk)
                        } else {
                            self.in_flight = false;
                            DestinationAction::Pull
                        }
                    },
                    Err(e) => {
                        self.end(DestinationPhase::Failed);
                        DestinationAction::Finish(
                            TransferOutcome::Failed(TransferError::from_call(e)),
                        )
                    },
                }
            },
            DestinationEvent::EndOfInput => {
                let open = match self.phase {
                    DestinationPhase::Open => !self.in_flight,
                    _ => false,
                };
                if !open {
                    return DestinationAction::Nothing;
                }
                self.end(DestinationPhase::Completed);
                DestinationAction::Finish(TransferOutcome::Completed)
            },
        }
    }
}

} // verus!
