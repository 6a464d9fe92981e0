use bytes::Bytes;
use yagna_core::chunk::{
    count_chunks, nth_chunk, split_into_chunks, try_split_into_chunks, DEFAULT_CHUNK_SIZE,
};
use yagna_core::data::TransferData;

fn pattern(len: usize) -> Vec<u8> {
    (0..len).map(|i| (i % 251) as u8).collect()
}

#[test]
fn chunk_count_rounds_up() {
    assert_eq!(count_chunks(0, 4096), 0);
    assert_eq!(count_chunks(1, 4096), 1);
    assert_eq!(count_chunks(4096, 4096), 1);
    assert_eq!(count_chunks(4097, 4096), 2);
    assert_eq!(count_chunks(10000, 4096), 3);
    assert_eq!(count_chunks(u64::MAX, 1), u64::MAX);
    assert_eq!(count_chunks(u64::MAX, u64::MAX), 1);
    assert_eq!(count_chunks(u64::MAX, 2), 1 << 63);
}

#[test]
fn default_chunk_size_is_forty_kib() {
    assert_eq!(DEFAULT_CHUNK_SIZE, 40 * 1024);
}

#[test]
fn split_of_ten_thousand_bytes() {
    let data = pattern(10000);
    let chunks = split_into_chunks(&Bytes::from(data.clone()), 4096, 0);
    assert_eq!(chunks.len(), 3);
    assert_eq!(chunks[0].offset, 0);
    assert_eq!(chunks[1].offset, 4096);
    assert_eq!(chunks[2].offset, 8192);
    assert_eq!(chunks[0].content.len(), 4096);
    assert_eq!(chunks[1].content.len(), 4096);
    assert_eq!(chunks[2].content.len(), 1808);
    let mut joined = Vec::new();
    for c in &chunks {
        joined.extend_from_slice(&c.content);
    }
    assert_eq!(joined, data);
}

#[test]
fn split_keeps_running_offset() {
    let data = pattern(10);
    let chunks = split_into_chunks(&Bytes::from(data.clone()), 4, 100);
    assert_eq!(chunks.len(), 3);
    assert_eq!(chunks[0].offset, 100);
    assert_eq!(chunks[1].offset, 104);
    assert_eq!(chunks[2].offset, 108);
    assert_eq!(chunks[2].content, vec![8u8, 9u8]);
    let third = nth_chunk(&Bytes::from(data), 4, 100, 2);
    assert_eq!(third.offset, 108);
    assert_eq!(third.content, vec![8u8, 9u8]);
}

#[test]
fn split_of_nothing_is_nothing() {
    let chunks = split_into_chunks(&Bytes::new(), 4096, 7);
    assert!(chunks.is_empty());
}

#[test]
fn split_that_cannot_be_done() {
    let data = Bytes::from(pattern(10));
    assert_eq!(try_split_into_chunks(&data, 0, 0), None);
    assert_eq!(try_split_into_chunks(&data, 4, u64::MAX - 9), None);
    let chunks = try_split_into_chunks(&data, 4, u64::MAX - 10).unwrap();
    assert_eq!(chunks.len(), 3);
    assert_eq!(chunks[2].offset, u64::MAX - 2);
    assert_eq!(try_split_into_chunks(&data, 4, 0), Some(split_into_chunks(&data, 4, 0)));
    assert_eq!(try_split_into_chunks(&Bytes::new(), 4, u64::MAX), Some(vec![]));
}

#[test]
fn transfer_data_wraps_bytes() {
    let data = TransferData::from_vec(vec![1, 2, 3]);
    assert_eq!(data.len(), 3);
    assert_eq!(data.into_bytes(), Bytes::from(vec![1u8, 2, 3]));
    let data = TransferData::from(Bytes::from_static(b"abcd"));
    assert_eq!(data.len(), 4);
    assert_eq!(data.as_bytes(), &Bytes::from_static(b"abcd"));
}
