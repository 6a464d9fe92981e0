use yagna_core::chunk::TransferChunk;
use yagna_core::data::TransferData;
use yagna_core::destination::{
    DestinationAction, DestinationEvent, DestinationPhase, DestinationTransfer,
};
use yagna_core::endpoint::{endpoint_for, Endpoint, NodeId};
use yagna_core::error::{CallError, TransferError, TransferOutcome};

fn peer() -> Endpoint {
    endpoint_for(NodeId::parse("0xbeef").unwrap(), "/public/gftp/abc")
}

fn pattern(len: usize) -> Vec<u8> {
    (0..len).map(|i| (i % 251) as u8).collect()
}

fn open(chunk_size: usize) -> DestinationTransfer {
    let mut destination = DestinationTransfer::new(Ok(peer()), chunk_size);
    assert_eq!(destination.step(DestinationEvent::Start), DestinationAction::Pull);
    destination
}

fn item(content: &[u8]) -> DestinationEvent {
    DestinationEvent::Item(Ok(TransferData::from_vec(content.to_vec())))
}

fn upload(offset: u64, content: &[u8]) -> DestinationAction {
    DestinationAction::Upload(TransferChunk { offset, content: content.to_vec() })
}

#[test]
fn destination_opens_on_start() {
    let mut destination = DestinationTransfer::new(Ok(peer()), 4096);
    assert_eq!(destination.phase(), DestinationPhase::Created);
    assert_eq!(destination.target(), Some(&peer()));
    assert_eq!(destination.step(DestinationEvent::Start), DestinationAction::Pull);
    assert_eq!(destination.phase(), DestinationPhase::Open);
    assert_eq!(destination.step(DestinationEvent::Start), DestinationAction::Nothing);
}

#[test]
fn destination_with_invalid_url_fails_on_start() {
    let cause = TransferError::InvalidUrlError("Invalid gftp URL".to_string());
    let mut destination = DestinationTransfer::new(Err(cause.clone()), 4096);
    assert_eq!(destination.target(), None);
    assert_eq!(
        destination.step(DestinationEvent::Start),
        DestinationAction::Finish(TransferOutcome::Failed(cause))
    );
    assert_eq!(destination.phase(), DestinationPhase::Failed);
}

#[test]
fn destination_uploads_ten_thousand_bytes_in_three_calls() {
    let data = pattern(10000);
    let mut destination = open(4096);
    assert_eq!(destination.step(item(&data)), upload(0, &data[0..4096]));
    assert_eq!(destination.offset(), 10000);
    assert_eq!(
        destination.step(DestinationEvent::Uploaded(Ok(()))),
        upload(4096, &data[4096..8192])
    );
    assert_eq!(
        destination.step(DestinationEvent::Uploaded(Ok(()))),
        upload(8192, &data[8192..10000])
    );
    assert_eq!(destination.step(DestinationEvent::Uploaded(Ok(()))), DestinationAction::Pull);
    assert_eq!(
        destination.step(DestinationEvent::EndOfInput),
        DestinationAction::Finish(TransferOutcome::Completed)
    );
    assert_eq!(destination.phase(), DestinationPhase::Completed);
    assert_eq!(destination.offset(), 10000);
}

#[test]
fn destination_keeps_a_running_offset_across_items() {
    let a = pattern(10);
    let b: Vec<u8> = vec![7; 5];
    let mut destination = open(4);
    assert_eq!(destination.step(item(&a)), upload(0, &a[0..4]));
    assert_eq!(destination.step(DestinationEvent::Uploaded(Ok(()))), upload(4, &a[4..8]));
    assert_eq!(destination.step(DestinationEvent::Uploaded(Ok(()))), upload(8, &a[8..10]));
    assert_eq!(destination.step(DestinationEvent::Uploaded(Ok(()))), DestinationAction::Pull);
    // the second item starts at offset 10, not at a multiple of the chunk size
    assert_eq!(destination.step(item(&b)), upload(10, &b[0..4]));
    assert_eq!(destination.step(DestinationEvent::Uploaded(Ok(()))), upload(14, &b[4..5]));
    assert_eq!(destination.step(DestinationEvent::Uploaded(Ok(()))), DestinationAction::Pull);
    assert_eq!(destination.offset(), 15);
}

#[test]
fn destination_skips_empty_items() {
    let mut destination = open(4);
    assert_eq!(destination.step(item(&[])), DestinationAction::Pull);
    assert_eq!(destination.offset(), 0);
    assert_eq!(destination.step(item(&[1, 2])), upload(0, &[1, 2]));
}

#[test]
fn destination_is_sequential_on_the_wire() {
    let data = pattern(10);
    let mut destination = open(4);
    assert_eq!(destination.step(item(&data)), upload(0, &data[0..4]));
    // while an upload is on the wire, a further item and the end of input are not taken
    assert_eq!(destination.step(item(&data)), DestinationAction::Nothing);
    assert_eq!(destination.step(DestinationEvent::EndOfInput), DestinationAction::Nothing);
    assert_eq!(destination.offset(), 10);
    assert_eq!(destination.phase(), DestinationPhase::Open);
    assert_eq!(destination.step(DestinationEvent::Uploaded(Ok(()))), upload(4, &data[4..8]));
}

#[test]
fn destination_fails_on_failed_upload() {
    let data = pattern(10);
    let mut destination = open(4);
    destination.step(item(&data));
    assert_eq!(
        destination.step(DestinationEvent::Uploaded(Err(CallError::Remote("disk full".to_string())))),
        DestinationAction::Finish(TransferOutcome::Failed(TransferError::Remote(
            "disk full".to_string()
        )))
    );
    assert_eq!(destination.phase(), DestinationPhase::Failed);
    // the remaining chunks are not sent
    assert_eq!(destination.step(DestinationEvent::Uploaded(Ok(()))), DestinationAction::Nothing);
    let mut destination = open(4);
    destination.step(item(&data));
    assert_eq!(
        destination.step(DestinationEvent::Uploaded(Err(CallError::Timeout))),
        DestinationAction::Finish(TransferOutcome::Failed(TransferError::Timeout))
    );
    let mut destination = open(4);
    destination.step(item(&data));
    assert_eq!(
        destination.step(DestinationEvent::Uploaded(Err(CallError::Transport(
            "peer is gone".to_string()
        )))),
        DestinationAction::Finish(TransferOutcome::Failed(TransferError::Transport(
            "peer is gone".to_string()
        )))
    );
}

#[test]
fn destination_fails_on_failed_input() {
    let mut destination = open(4);
    assert_eq!(
        destination.step(DestinationEvent::Item(Err(TransferError::Transport(
            "input is gone".to_string()
        )))),
        DestinationAction::Finish(TransferOutcome::Failed(TransferError::Transport(
            "input is gone".to_string()
        )))
    );
    assert_eq!(destination.phase(), DestinationPhase::Failed);
}

#[test]
fn destination_abort_is_idempotent() {
    let data = pattern(10);
    let mut destination = open(4);
    destination.step(item(&data));
    assert_eq!(
        destination.step(DestinationEvent::Abort),
        DestinationAction::Finish(TransferOutcome::Aborted)
    );
    assert_eq!(destination.phase(), DestinationPhase::Aborted);
    assert_eq!(destination.step(DestinationEvent::Abort), DestinationAction::Nothing);
    // the upload that was on the wire returns late: nothing follows
    assert_eq!(destination.step(DestinationEvent::Uploaded(Ok(()))), DestinationAction::Nothing);
    assert_eq!(destination.phase(), DestinationPhase::Aborted);
}

#[test]
fn destination_abort_after_completion_changes_nothing() {
    let mut destination = open(4);
    assert_eq!(
        destination.step(DestinationEvent::EndOfInput),
        DestinationAction::Finish(TransferOutcome::Completed)
    );
    assert_eq!(destination.step(DestinationEvent::Abort), DestinationAction::Nothing);
    assert_eq!(destination.phase(), DestinationPhase::Completed);
}

#[test]
fn destination_abort_before_start() {
    let mut destination = DestinationTransfer::new(Ok(peer()), 4);
    assert_eq!(
        destination.step(DestinationEvent::Abort),
        DestinationAction::Finish(TransferOutcome::Aborted)
    );
    assert_eq!(destination.step(DestinationEvent::Start), DestinationAction::Nothing);
}

#[test]
fn destination_takes_nothing_before_start() {
    let mut destination = DestinationTransfer::new(Ok(peer()), 4);
    assert_eq!(destination.step(item(&[1, 2, 3])), DestinationAction::Nothing);
    assert_eq!(destination.step(DestinationEvent::EndOfInput), DestinationAction::Nothing);
    assert_eq!(destination.step(DestinationEvent::Uploaded(Ok(()))), DestinationAction::Nothing);
    assert_eq!(destination.phase(), DestinationPhase::Created);
    assert_eq!(destination.offset(), 0);
}
