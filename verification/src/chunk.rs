//! Chunk arithmetic of the transfer pipeline: how a resource of a given size
//! is cut into fixed-size chunks, and how pushed data is cut into uploads.

use crate::data::{bytes_contents, bytes_copy_range, bytes_len};
use bytes::Bytes;
use vstd::prelude::*;

verus! {

/// Chunk size used by transfers unless told otherwise, in bytes.
pub const DEFAULT_CHUNK_SIZE: u64 = 40960;

/// The least number of chunks of `chunk_size` bytes that cover `size` bytes.
pub open spec fn chunk_count(size: nat, chunk_size: nat) -> nat
    recommends
        chunk_size > 0,
{
    if size % chunk_size == 0 {
        size / chunk_size
    } else {
        size / chunk_size + 1
    }
}

/// `chunk_count` is the ceiling of `size / chunk_size`: enough chunks to
/// cover `size` bytes, and one fewer would not.
pub proof fn lemma_chunk_count_is_ceiling(size: nat, chunk_size: nat)
    requires
        chunk_size > 0,
    ensures
        chunk_count(size, chunk_size) * chunk_size >= size,
        size > 0 ==> (chunk_count(size, chunk_size) - 1) * chunk_size < size,
        size == 0 ==> chunk_count(size, chunk_size) == 0,
{
    let q = size / chunk_size;
    let r = size % chunk_size;
    assert(size == q * chunk_size + r && 0 <= r < chunk_size) by (nonlinear_arith)
        requires
            chunk_size > 0,
            q == size / chunk_size,
            r == size % chunk_size,
    ;
    assert((q + 1) * chunk_size == q * chunk_size + chunk_size) by (nonlinear_arith);
    assert((q - 1) * chunk_size == q * chunk_size - chunk_size) by (nonlinear_arith);
    if size == 0 {
        assert(q == 0) by (nonlinear_arith)
            requires
                0 == q * chunk_size + r,
                0 <= r,
                chunk_size > 0,
                q >= 0,
        ;
    }
}

/// Computes the number of chunks needed for a resource of `size` bytes.
pub fn count_chunks(size: u64, chunk_size: u64) -> (n: u64)
    requires
        chunk_size > 0,
    ensures
        n == chunk_count(size as nat, chunk_size as nat),
{
    let q: u64 = size / chunk_size;
    if size % chunk_size == 0 {
        q
    } else {
        assert(q < u64::MAX) by (nonlinear_arith)
            requires
                q == size as int / chunk_size as int,
                size as int % chunk_size as int != 0,
                chunk_size > 0,
                size <= u64::MAX,
        ;
        q + 1
    }
}

/// A contiguous byte range of a larger resource.
#[derive(Debug, PartialEq, Eq)]
pub struct TransferChunk {
    pub offset: u64,
    pub content: Vec<u8>,
}

/// A chunk as a mathematical value.
pub ghost struct ChunkView {
    pub offset: nat,
    pub content: Seq<u8>,
}

impl View for TransferChunk {
    type V = ChunkView;

    open spec fn view(&self) -> ChunkView {
        ChunkView { offset: self.offset as nat, content: self.content@ }
    }
}

/// The views of a sequence of chunks, in order.
pub open spec fn chunk_views(chunks: Seq<TransferChunk>) -> Seq<ChunkView> {
    chunks.map_values(|c: TransferChunk| c@)
}

/// Offset of the chunk with the given index.
pub open spec fn chunk_offset(index: nat, chunk_size: nat) -> nat {
    index * chunk_size
}

/// The bytes of `data` that belong to the chunk with the given index: at most
/// `chunk_size` bytes from `index * chunk_size` on, cut off at the end of `data`.
pub open spec fn chunk_range(data: Seq<u8>, chunk_size: nat, index: nat) -> Seq<u8> {
    let len = data.len() as int;
    let start = if index * chunk_size <= len {
        index * chunk_size as int
    } else {
        len
    };
    let end = if start + chunk_size <= len {
        start + chunk_size
    } else {
        len
    };
    data.subrange(start, end)
}

/// `data` cut into chunks of `chunk_size` bytes (the last one may be shorter),
/// the first of them placed at offset `base`.
pub open spec fn split_chunks(data: Seq<u8>, chunk_size: nat, base: nat) -> Seq<ChunkView> {
    Seq::new(
        chunk_count(data.len(), chunk_size),
        |i: int|
            ChunkView {
                offset: base + chunk_offset(i as nat, chunk_size),
                content: chunk_range(data, chunk_size, i as nat),
            },
    )
}

/// The contents of the chunks, one after the other.
pub open spec fn chunk_contents(chunks: Seq<ChunkView>) -> Seq<u8>
    decreases chunks.len(),
{
    if chunks.len() == 0 {
        Seq::empty()
    } else {
        chunk_contents(chunks.drop_last()) + chunks.last().content
    }
}

/// Each chunk starts where the one before it ended, the first one at `base`.
pub open spec fn contiguous_from(chunks: Seq<ChunkView>, base: nat) -> bool {
    forall|i: int|
        0 <= i < chunks.len() ==> (#[trigger] chunks[i]).offset == base + chunk_contents(
            chunks.take(i),
        ).len()
}

/// The contents of two runs of chunks, one after the other, are the contents
/// of the first followed by those of the second.
pub proof fn lemma_contents_concat(a: Seq<ChunkView>, b: Seq<ChunkView>)
    ensures
        chunk_contents(a + b) == chunk_contents(a) + chunk_contents(b),
    decreases b.len(),
{
    if b.len() == 0 {
        assert(a + b =~= a);
        assert(chunk_contents(a) + chunk_contents(b) =~= chunk_contents(a));
    } else {
        lemma_contents_concat(a, b.drop_last());
        assert((a + b).drop_last() =~= a + b.drop_last());
        assert((a + b).last() == b.last());
        assert(chunk_contents(a + b) =~= chunk_contents(a) + chunk_contents(b));
    }
}

/// A run of chunks that continues a contiguous one where it ended is
/// contiguous with it.
pub proof fn lemma_contiguous_concat(a: Seq<ChunkView>, b: Seq<ChunkView>, base: nat)
    requires
        contiguous_from(a, base),
        contiguous_from(b, base + chunk_contents(a).len()),
    ensures
        contiguous_from(a + b, base),
{
    let ab = a + b;
    assert forall|i: int| 0 <= i < ab.len() implies (#[trigger] ab[i]).offset == base
        + chunk_contents(ab.take(i)).len() by {
        if i < a.len() {
            assert(ab.take(i) =~= a.take(i));
            assert(ab[i] == a[i]);
        } else {
            let j = i - a.len();
            assert(ab.take(i) =~= a + b.take(j));
            lemma_contents_concat(a, b.take(j));
            assert(ab[i] == b[j]);
        }
    }
}

/// The front part of a contiguous run of chunks is contiguous.
pub proof fn lemma_contiguous_front(a: Seq<ChunkView>, b: Seq<ChunkView>, base: nat)
    requires
        contiguous_from(a + b, base),
    ensures
        contiguous_from(a, base),
{
    let ab = a + b;
    assert forall|i: int| 0 <= i < a.len() implies (#[trigger] a[i]).offset == base
        + chunk_contents(a.take(i)).len() by {
        assert(ab.take(i) =~= a.take(i));
        assert(ab[i] == a[i]);
    }
}

/// Every chunk before the last starts and ends inside the resource; the last
/// one starts inside it.
pub proof fn lemma_chunk_bounds(size: nat, chunk_size: nat, index: nat)
    requires
        chunk_size > 0,
        index < chunk_count(size, chunk_size),
    ensures
        index * chunk_size < size,
        index + 1 < chunk_count(size, chunk_size) ==> (index + 1) * chunk_size <= size,
        index + 1 == chunk_count(size, chunk_size) ==> size <= (index + 1) * chunk_size,
        (index + 1) * chunk_size == index * chunk_size + chunk_size,
{
    let q = size / chunk_size;
    let r = size % chunk_size;
    assert(size == q * chunk_size + r && 0 <= r < chunk_size) by (nonlinear_arith)
        requires
            chunk_size > 0,
            q == size / chunk_size,
            r == size % chunk_size,
    ;
    assert((index + 1) * chunk_size == index * chunk_size + chunk_size) by (nonlinear_arith);
    assert(index + 1 <= q ==> (index + 1) * chunk_size <= q * chunk_size) by (nonlinear_arith)
        requires
            chunk_size > 0,
    ;
    assert(index >= q ==> index * chunk_size >= q * chunk_size) by (nonlinear_arith)
        requires
            chunk_size > 0,
    ;
}

/// The first `k` chunks of a split hold the first `k * chunk_size` bytes of
/// the data, or all of it where it is shorter.
proof fn lemma_split_prefix(data: Seq<u8>, chunk_size: nat, base: nat, k: nat)
    requires
        chunk_size > 0,
        k <= chunk_count(data.len(), chunk_size),
    ensures
        k * chunk_size <= data.len() ==> chunk_contents(
            split_chunks(data, chunk_size, base).take(k as int),
        ) == data.take(k * chunk_size as int),
        k * chunk_size > data.len() ==> chunk_contents(
            split_chunks(data, chunk_size, base).take(k as int),
        ) == data,
    decreases k,
{
    let split = split_chunks(data, chunk_size, base);
    let head = split.take(k as int);
    if k == 0 {
        assert(0 * chunk_size == 0) by (nonlinear_arith);
        assert(data.take(0) =~= Seq::<u8>::empty());
    } else {
        let j = (k - 1) as nat;
        lemma_split_prefix(data, chunk_size, base, j);
        lemma_chunk_bounds(data.len(), chunk_size, j);
        assert(head.drop_last() =~= split.take(j as int));
        assert(head.last() == split[j as int]);
        let before = data.take(j * chunk_size as int);
        assert(chunk_contents(head) == before + chunk_range(data, chunk_size, j));
        if k * chunk_size <= data.len() {
            assert(before + chunk_range(data, chunk_size, j) =~= data.take(
                k * chunk_size as int,
            ));
        } else {
            assert(before + chunk_range(data, chunk_size, j) =~= data);
        }
    }
}

/// Cutting data into chunks loses and adds nothing: there are
/// `ceil(len / chunk_size)` chunks, none empty and none longer than
/// `chunk_size`, all but the last exactly that long; each starts where the one
/// before it ended; and their contents, put end to end, are the data.
pub proof fn lemma_split_reassembles(data: Seq<u8>, chunk_size: nat, base: nat)
    requires
        chunk_size > 0,
    ensures
        split_chunks(data, chunk_size, base).len() == chunk_count(data.len(), chunk_size),
        chunk_contents(split_chunks(data, chunk_size, base)) == data,
        contiguous_from(split_chunks(data, chunk_size, base), base),
        forall|i: int|
            0 <= i < split_chunks(data, chunk_size, base).len() ==> 0 < (#[trigger] split_chunks(
                data,
                chunk_size,
                base,
            )[i]).content.len() <= chunk_size,
        forall|i: int|
            0 <= i < split_chunks(data, chunk_size, base).len() - 1 ==> (#[trigger] split_chunks(
                data,
                chunk_size,
                base,
            )[i]).content.len() == chunk_size,
{
    let split = split_chunks(data, chunk_size, base);
    let n = chunk_count(data.len(), chunk_size);
    lemma_chunk_count_is_ceiling(data.len(), chunk_size);
    lemma_split_prefix(data, chunk_size, base, n);
    assert(split.take(n as int) =~= split);
    assert(data.take(data.len() as int) =~= data);
    assert forall|i: int| 0 <= i < split.len() implies (#[trigger] split[i]).offset == base
        + chunk_contents(split.take(i)).len() by {
        lemma_split_prefix(data, chunk_size, base, i as nat);
        lemma_chunk_bounds(data.len(), chunk_size, i as nat);
    }
    assert forall|i: int| 0 <= i < split.len() implies 0 < (#[trigger] split[i]).content.len()
        <= chunk_size by {
        lemma_chunk_bounds(data.len(), chunk_size, i as nat);
    }
    assert forall|i: int| 0 <= i < split.len() - 1 implies (#[trigger] split[i]).content.len()
        == chunk_size by {
        lemma_chunk_bounds(data.len(), chunk_size, i as nat);
    }
}

/// Copies out the chunk with the given index of the buffer cut into chunks of
/// `chunk_size` bytes, with its offset in the whole transfer, of which the
/// buffer starts at `offset`.
pub fn nth_chunk(bytes: &Bytes, chunk_size: usize, offset: u64, index: u64) -> (chunk:
    TransferChunk)
    requires
        chunk_size > 0,
        offset + bytes_contents(*bytes).len() <= u64::MAX,
        index < chunk_count(bytes_contents(*bytes).len(), chunk_size as nat),
    ensures
        chunk@ == split_chunks(bytes_contents(*bytes), chunk_size as nat, offset as nat)[index as int],
{
    let len: usize = bytes_len(bytes);
    proof {
        lemma_chunk_bounds(len as nat, chunk_size as nat, index as nat);
    }
    let start: usize = (index as usize) * chunk_size;
    let rest: usize = len - start;
    let take: usize = if rest < chunk_size {
        rest
    } else {
        chunk_size
    };
    let content = bytes_copy_range(bytes, start, start + take);
    TransferChunk { offset: offset + start as u64, content }
}

/// Cuts the buffer into chunks of `chunk_size` bytes, the last one possibly
/// shorter, and gives each its offset in the whole transfer, of which the
/// buffer starts at `offset`.
pub fn split_into_chunks(bytes: &Bytes, chunk_size: usize, offset: u64) -> (chunks: Vec<
    TransferChunk,
>)
    requires
        chunk_size > 0,
        offset + bytes_contents(*bytes).len() <= u64::MAX,
    ensures
        chunk_views(chunks@) == split_chunks(
            bytes_contents(*bytes),
            chunk_size as nat,
            offset as nat,
        ),
{
    let len: usize = bytes_len(bytes);
    let n: u64 = count_chunks(len as u64, chunk_size as u64);
    let ghost want = split_chunks(bytes_contents(*bytes), chunk_size as nat, offset as nat);
    let mut chunks: Vec<TransferChunk> = Vec::new();
    let mut i: u64 = 0;
    while i < n
        invariant
            chunk_size > 0,
            offset + bytes_contents(*bytes).len() <= u64::MAX,
            n == chunk_count(bytes_contents(*bytes).len(), chunk_size as nat),
            want == split_chunks(bytes_contents(*bytes), chunk_size as nat, offset as nat),
            i <= n,
            chunks@.len() == i,
            forall|k: int| 0 <= k < i ==> (#[trigger] chunks@[k])@ == want[k],
        decreases n - i,
    {
        let chunk = nth_chunk(bytes, chunk_size, offset, i);
        chunks.push(chunk);
        i = i + 1;
    }
    assert(chunk_views(chunks@) =~= want);
    chunks
}

/// Cuts the buffer into chunks as `split_into_chunks` does, where that can be
/// done: `None` for a chunk size of 0, and where the end of the buffer would
/// lie beyond the last offset.
pub fn try_split_into_chunks(bytes: &Bytes, chunk_size: usize, offset: u64) -> (chunks: Option<
    Vec<TransferChunk>,
>)
    ensures
        chunk_size == 0 || offset + bytes_contents(*bytes).len() > u64::MAX <==> chunks is None,
        chunks matches Some(list) ==> chunk_views(list@) == split_chunks(
            bytes_contents(*bytes),
            chunk_size as nat,
            offset as nat,
        ),
{
    let len: usize = bytes_len(bytes);
    if chunk_size == 0 || len as u64 > u64::MAX - offset {
        None
    } else {
        Some(split_into_chunks(bytes, chunk_size, offset))
    }
}

} // verus!
