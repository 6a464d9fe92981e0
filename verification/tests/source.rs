use yagna_core::chunk::TransferChunk;
use yagna_core::data::TransferData;
use yagna_core::endpoint::{endpoint_for, Endpoint, NodeId};
use yagna_core::error::{CallError, TransferError, TransferOutcome};
use yagna_core::source::{SourceAction, SourceEvent, SourcePhase, SourceTransfer};

fn peer() -> Endpoint {
    endpoint_for(NodeId::parse("0xbeef").unwrap(), "/public/gftp/abc")
}

fn pattern(len: usize) -> Vec<u8> {
    (0..len).map(|i| (i % 251) as u8).collect()
}

fn serve(data: &[u8], offset: u64, size: u64) -> TransferChunk {
    let start = (offset as usize).min(data.len());
    let end = (start + size as usize).min(data.len());
    TransferChunk { offset, content: data[start..end].to_vec() }
}

fn started(chunk_size: u64, window: usize, size: u64) -> (SourceTransfer, Vec<SourceAction>) {
    let mut source = SourceTransfer::new(Ok(peer()), chunk_size, window);
    assert_eq!(source.step(SourceEvent::Start), vec![SourceAction::FetchMetadata]);
    let actions = source.step(SourceEvent::Metadata(Ok(size)));
    (source, actions)
}

fn fetch(index: u64, chunk_size: u64) -> SourceAction {
    SourceAction::FetchChunk { index, offset: index * chunk_size, size: chunk_size }
}

fn emit(index: u64, content: Vec<u8>) -> SourceAction {
    SourceAction::Emit { index, data: TransferData::from_vec(content) }
}

#[test]
fn source_starts_by_asking_for_metadata() {
    let mut source = SourceTransfer::new(Ok(peer()), 4096, 12);
    assert_eq!(source.phase(), SourcePhase::Created);
    assert_eq!(source.target(), Some(&peer()));
    assert_eq!(source.step(SourceEvent::Start), vec![SourceAction::FetchMetadata]);
    assert_eq!(source.phase(), SourcePhase::Created);
    // a second start asks for nothing
    assert_eq!(source.step(SourceEvent::Start), vec![]);
}

#[test]
fn source_with_invalid_url_fails_on_start() {
    let cause = TransferError::InvalidUrlError("Invalid gftp URL".to_string());
    let mut source = SourceTransfer::new(Err(cause.clone()), 4096, 12);
    assert_eq!(source.target(), None);
    assert_eq!(
        source.step(SourceEvent::Start),
        vec![SourceAction::Finish(TransferOutcome::Failed(cause))]
    );
    assert_eq!(source.phase(), SourcePhase::Failed);
}

#[test]
fn source_fills_the_window_after_metadata() {
    let (source, actions) = started(4096, 3, 10 * 4096);
    assert_eq!(actions, vec![fetch(0, 4096), fetch(1, 4096), fetch(2, 4096)]);
    assert_eq!(source.phase(), SourcePhase::Streaming);
    assert_eq!(source.chunk_total(), 10);
    assert_eq!(source.outstanding(), 3);
    assert_eq!(source.emitted(), 0);
}

#[test]
fn source_asks_for_no_more_chunks_than_there_are() {
    let (source, actions) = started(4096, 12, 10000);
    assert_eq!(actions, vec![fetch(0, 4096), fetch(1, 4096), fetch(2, 4096)]);
    assert_eq!(source.chunk_total(), 3);
    assert_eq!(source.outstanding(), 3);
}

#[test]
fn source_of_empty_resource_completes_at_once() {
    let (source, actions) = started(4096, 12, 0);
    assert_eq!(actions, vec![SourceAction::Finish(TransferOutcome::Completed)]);
    assert_eq!(source.phase(), SourcePhase::Completed);
    assert_eq!(source.chunk_total(), 0);
}

#[test]
fn source_emits_in_index_order_whatever_the_completion_order() {
    // window 3; the fetches complete in the order 2, 0, 1
    let data = pattern(3 * 8);
    let (mut source, _) = started(8, 3, data.len() as u64);
    let a2 = source.step(SourceEvent::ChunkFetched { index: 2, result: Ok(serve(&data, 16, 8)) });
    assert_eq!(a2, vec![]);
    let a0 = source.step(SourceEvent::ChunkFetched { index: 0, result: Ok(serve(&data, 0, 8)) });
    assert_eq!(a0, vec![emit(0, data[0..8].to_vec())]);
    let a1 = source.step(SourceEvent::ChunkFetched { index: 1, result: Ok(serve(&data, 8, 8)) });
    assert_eq!(
        a1,
        vec![
            emit(1, data[8..16].to_vec()),
            emit(2, data[16..24].to_vec()),
            SourceAction::Finish(TransferOutcome::Completed),
        ]
    );
    assert_eq!(source.phase(), SourcePhase::Completed);
    assert_eq!(source.emitted(), 3);
}

#[test]
fn source_refills_the_window_as_it_emits() {
    let data = pattern(5 * 4);
    let (mut source, first) = started(4, 2, data.len() as u64);
    assert_eq!(first, vec![fetch(0, 4), fetch(1, 4)]);
    let a = source.step(SourceEvent::ChunkFetched { index: 0, result: Ok(serve(&data, 0, 4)) });
    assert_eq!(a, vec![emit(0, data[0..4].to_vec()), fetch(2, 4)]);
    assert_eq!(source.outstanding(), 2);
    // chunk 2 arrives before chunk 1: it waits
    let a = source.step(SourceEvent::ChunkFetched { index: 2, result: Ok(serve(&data, 8, 4)) });
    assert_eq!(a, vec![]);
    assert_eq!(source.outstanding(), 2);
    let a = source.step(SourceEvent::ChunkFetched { index: 1, result: Ok(serve(&data, 4, 4)) });
    assert_eq!(
        a,
        vec![
            emit(1, data[4..8].to_vec()),
            fetch(3, 4),
            emit(2, data[8..12].to_vec()),
            fetch(4, 4),
        ]
    );
    assert_eq!(source.outstanding(), 2);
    assert_eq!(source.emitted(), 3);
}

#[test]
fn source_never_has_more_than_the_window_outstanding() {
    let chunk = 16u64;
    let window = 4usize;
    let data = pattern(16 * 37 + 5);
    let (mut source, first) = started(chunk, window, data.len() as u64);
    let mut in_flight: Vec<(u64, u64, u64)> = Vec::new();
    let mut emitted: Vec<u64> = Vec::new();
    let mut received: Vec<u8> = Vec::new();
    let mut finished = 0;
    let mut todo = first;
    let mut turn = 0usize;
    loop {
        for action in todo.drain(..) {
            match action {
                SourceAction::FetchChunk { index, offset, size } => {
                    in_flight.push((index, offset, size))
                }
                SourceAction::Emit { index, data } => {
                    emitted.push(index);
                    received.extend_from_slice(&data.into_bytes());
                }
                SourceAction::Finish(outcome) => {
                    assert_eq!(outcome, TransferOutcome::Completed);
                    finished += 1;
                }
                SourceAction::FetchMetadata => panic!("metadata asked for twice"),
            }
            assert!(in_flight.len() <= window);
        }
        assert!(source.outstanding() <= window);
        if in_flight.is_empty() {
            break;
        }
        // answer the calls in an order that is not the order of the requests
        turn += 1;
        let pick = (turn * 7 + 3) % in_flight.len();
        let (index, offset, size) = in_flight.remove(pick);
        todo = source.step(SourceEvent::ChunkFetched {
            index,
            result: Ok(serve(&data, offset, size)),
        });
    }
    assert_eq!(finished, 1);
    assert_eq!(source.phase(), SourcePhase::Completed);
    assert_eq!(emitted, (0..38).collect::<Vec<u64>>());
    assert_eq!(received, data);
}

#[test]
fn source_fails_on_the_first_failed_fetch() {
    let data = pattern(64);
    let (mut source, _) = started(8, 3, data.len() as u64);
    let a = source.step(SourceEvent::ChunkFetched {
        index: 1,
        result: Err(CallError::Remote("no such file".to_string())),
    });
    assert_eq!(
        a,
        vec![SourceAction::Finish(TransferOutcome::Failed(TransferError::Remote(
            "no such file".to_string()
        )))]
    );
    assert_eq!(source.phase(), SourcePhase::Failed);
    assert_eq!(source.outstanding(), 0);
    // a later failure and a late chunk are dropped
    let a = source.step(SourceEvent::ChunkFetched { index: 2, result: Err(CallError::Timeout) });
    assert_eq!(a, vec![]);
    let a = source.step(SourceEvent::ChunkFetched { index: 0, result: Ok(serve(&data, 0, 8)) });
    assert_eq!(a, vec![]);
    assert_eq!(source.phase(), SourcePhase::Failed);
}

#[test]
fn source_fails_when_metadata_fails() {
    let mut source = SourceTransfer::new(Ok(peer()), 4096, 12);
    source.step(SourceEvent::Start);
    let a = source.step(SourceEvent::Metadata(Err(CallError::Timeout)));
    assert_eq!(a, vec![SourceAction::Finish(TransferOutcome::Failed(TransferError::Timeout))]);
    assert_eq!(source.phase(), SourcePhase::Failed);
    let mut source = SourceTransfer::new(Ok(peer()), 4096, 12);
    source.step(SourceEvent::Start);
    let a = source.step(SourceEvent::Metadata(Err(CallError::Transport("no route".to_string()))));
    assert_eq!(
        a,
        vec![SourceAction::Finish(TransferOutcome::Failed(TransferError::Transport(
            "no route".to_string()
        )))]
    );
}

#[test]
fn source_abort_delivers_nothing_more() {
    let data = pattern(64);
    let (mut source, _) = started(8, 3, data.len() as u64);
    source.step(SourceEvent::ChunkFetched { index: 1, result: Ok(serve(&data, 8, 8)) });
    let a = source.step(SourceEvent::Abort);
    assert_eq!(a, vec![SourceAction::Finish(TransferOutcome::Aborted)]);
    assert_eq!(source.phase(), SourcePhase::Aborted);
    // chunk 0 arrives late: neither it nor chunk 1, which was waiting, goes downstream
    let a = source.step(SourceEvent::ChunkFetched { index: 0, result: Ok(serve(&data, 0, 8)) });
    assert_eq!(a, vec![]);
    // abort is idempotent
    assert_eq!(source.step(SourceEvent::Abort), vec![]);
    assert_eq!(source.phase(), SourcePhase::Aborted);
    assert_eq!(source.emitted(), 0);
}

#[test]
fn source_abort_after_completion_changes_nothing() {
    let data = pattern(8);
    let (mut source, _) = started(8, 3, data.len() as u64);
    let a = source.step(SourceEvent::ChunkFetched { index: 0, result: Ok(serve(&data, 0, 8)) });
    assert_eq!(
        a,
        vec![emit(0, data.clone()), SourceAction::Finish(TransferOutcome::Completed)]
    );
    assert_eq!(source.step(SourceEvent::Abort), vec![]);
    assert_eq!(source.phase(), SourcePhase::Completed);
}

#[test]
fn source_abort_before_start() {
    let mut source = SourceTransfer::new(Ok(peer()), 4096, 12);
    assert_eq!(
        source.step(SourceEvent::Abort),
        vec![SourceAction::Finish(TransferOutcome::Aborted)]
    );
    assert_eq!(source.step(SourceEvent::Start), vec![]);
    assert_eq!(source.step(SourceEvent::Metadata(Ok(10))), vec![]);
}

#[test]
fn source_ignores_answers_it_does_not_wait_for() {
    let data = pattern(64);
    let (mut source, _) = started(8, 2, data.len() as u64);
    // outside the window
    let a = source.step(SourceEvent::ChunkFetched { index: 5, result: Ok(serve(&data, 40, 8)) });
    assert_eq!(a, vec![]);
    // metadata twice
    assert_eq!(source.step(SourceEvent::Metadata(Ok(1))), vec![]);
    assert_eq!(source.chunk_total(), 8);
    // the same chunk twice
    let a = source.step(SourceEvent::ChunkFetched { index: 1, result: Ok(serve(&data, 8, 8)) });
    assert_eq!(a, vec![]);
    let a = source.step(SourceEvent::ChunkFetched { index: 1, result: Ok(vec_chunk(8, 9)) });
    assert_eq!(a, vec![]);
    let a = source.step(SourceEvent::ChunkFetched { index: 0, result: Ok(serve(&data, 0, 8)) });
    assert_eq!(
        a,
        vec![
            emit(0, data[0..8].to_vec()),
            fetch(2, 8),
            emit(1, data[8..16].to_vec()),
            fetch(3, 8),
        ]
    );
    // metadata before start is dropped too
    let mut fresh = SourceTransfer::new(Ok(peer()), 8, 2);
    assert_eq!(fresh.step(SourceEvent::Metadata(Ok(16))), vec![]);
    assert_eq!(fresh.phase(), SourcePhase::Created);
}

fn vec_chunk(offset: u64, fill: u8) -> TransferChunk {
    TransferChunk { offset, content: vec![fill; 8] }
}

#[test]
fn source_offsets_near_the_end_of_the_range() {
    let chunk = 1u64 << 62;
    let (source, actions) = started(chunk, 12, u64::MAX);
    assert_eq!(source.chunk_total(), 4);
    assert_eq!(
        actions,
        vec![fetch(0, chunk), fetch(1, chunk), fetch(2, chunk), fetch(3, chunk)]
    );
}
