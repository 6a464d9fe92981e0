use yagna_core::chunk::{count_chunks, TransferChunk};
use yagna_core::data::TransferData;
use yagna_core::destination::{DestinationAction, DestinationEvent, DestinationTransfer};
use yagna_core::endpoint::{endpoint_for, Endpoint, NodeId};
use yagna_core::error::TransferOutcome;
use yagna_core::source::{SourceAction, SourceEvent, SourceTransfer};

fn peer() -> Endpoint {
    endpoint_for(NodeId::parse("0xbeef").unwrap(), "/public/gftp/abc")
}

fn pattern(len: usize) -> Vec<u8> {
    (0..len).map(|i| ((i * 31 + 7) % 256) as u8).collect()
}

/// Runs a whole download of `data` and hands what comes out to an upload; returns the chunks
/// that the upload sends.
fn transfer(data: &[u8], chunk_size: u64, window: usize) -> Vec<TransferChunk> {
    let mut source = SourceTransfer::new(Ok(peer()), chunk_size, window);
    let mut destination = DestinationTransfer::new(Ok(peer()), chunk_size as usize);
    assert_eq!(destination.step(DestinationEvent::Start), DestinationAction::Pull);
    let mut uploads: Vec<TransferChunk> = Vec::new();
    let mut in_flight: Vec<(u64, u64, u64)> = Vec::new();
    let mut todo = source.step(SourceEvent::Start);
    assert_eq!(todo, vec![SourceAction::FetchMetadata]);
    todo = source.step(SourceEvent::Metadata(Ok(data.len() as u64)));
    let mut done = false;
    let mut turn = 0usize;
    loop {
        for action in todo.drain(..) {
            match action {
                SourceAction::FetchMetadata => panic!("metadata asked for twice"),
                SourceAction::FetchChunk { index, offset, size } => {
                    in_flight.push((index, offset, size))
                }
                SourceAction::Emit { data: item, .. } => {
                    let mut next = destination.step(DestinationEvent::Item(Ok(item)));
                    loop {
                        match next {
                            DestinationAction::Upload(chunk) => {
                                uploads.push(chunk);
                                next = destination.step(DestinationEvent::Uploaded(Ok(())));
                            }
                            DestinationAction::Pull => break,
                            other => panic!("unexpected {:?}", other),
                        }
                    }
                }
                SourceAction::Finish(outcome) => {
                    assert_eq!(outcome, TransferOutcome::Completed);
                    assert_eq!(
                        destination.step(DestinationEvent::EndOfInput),
                        DestinationAction::Finish(TransferOutcome::Completed)
                    );
                    done = true;
                }
            }
        }
        if done {
            break;
        }
        turn += 1;
        let pick = (turn * 5 + 1) % in_flight.len();
        let (index, offset, size) = in_flight.remove(pick);
        let start = offset as usize;
        let end = (start + size as usize).min(data.len());
        let chunk = TransferChunk { offset, content: data[start..end].to_vec() };
        todo = source.step(SourceEvent::ChunkFetched { index, result: Ok(chunk) });
    }
    assert!(in_flight.is_empty());
    assert_eq!(destination.offset(), data.len() as u64);
    uploads
}

fn reassemble(uploads: &[TransferChunk]) -> Vec<u8> {
    let mut out = Vec::new();
    for chunk in uploads {
        // each chunk starts where the one before it ended
        assert_eq!(chunk.offset as usize, out.len());
        out.extend_from_slice(&chunk.content);
    }
    out
}

#[test]
fn transfer_of_ten_thousand_bytes() {
    let data = pattern(10000);
    let uploads = transfer(&data, 4096, 12);
    assert_eq!(uploads.len(), 3);
    let offsets: Vec<u64> = uploads.iter().map(|c| c.offset).collect();
    assert_eq!(offsets, vec![0, 4096, 8192]);
    let sizes: Vec<usize> = uploads.iter().map(|c| c.content.len()).collect();
    assert_eq!(sizes, vec![4096, 4096, 1808]);
    assert_eq!(sizes.iter().sum::<usize>(), 10000);
    assert_eq!(reassemble(&uploads), data);
}

#[test]
fn transfer_reconstructs_for_many_sizes() {
    for chunk_size in [1u64, 2, 3, 7, 16, 100] {
        for size in [0usize, 1, 2, 6, 7, 8, 15, 16, 17, 99, 100, 101, 257] {
            for window in [1usize, 2, 5] {
                let data = pattern(size);
                let uploads = transfer(&data, chunk_size, window);
                assert_eq!(uploads.len() as u64, count_chunks(size as u64, chunk_size));
                assert_eq!(reassemble(&uploads), data);
            }
        }
    }
}

#[test]
fn transfer_of_nothing_sends_nothing() {
    let uploads = transfer(&[], 4096, 12);
    assert!(uploads.is_empty());
}

#[test]
fn emitted_item_is_what_the_peer_served() {
    let mut source = SourceTransfer::new(Ok(peer()), 4, 1);
    source.step(SourceEvent::Start);
    source.step(SourceEvent::Metadata(Ok(4)));
    let actions = source.step(SourceEvent::ChunkFetched {
        index: 0,
        result: Ok(TransferChunk { offset: 0, content: vec![9, 8, 7, 6] }),
    });
    assert_eq!(
        actions,
        vec![
            SourceAction::Emit { index: 0, data: TransferData::from_vec(vec![9, 8, 7, 6]) },
            SourceAction::Finish(TransferOutcome::Completed),
        ]
    );
}
