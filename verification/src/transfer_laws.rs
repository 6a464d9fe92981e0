//! What holds of a whole transfer, from the peer that serves a resource
//! through a source and a destination to the peer that stores it.

use crate::chunk::{
    chunk_contents, chunk_count, contiguous_from, lemma_chunk_bounds, lemma_split_reassembles,
    split_chunks, ChunkView,
};
use crate::destination_laws::{
    chunks_fit, joined, lemma_planned_uploads_hold_items, planned_uploads,
};
use vstd::prelude::*;

verus! {

/// The contents of the chunks, chunk by chunk.
pub open spec fn contents_of(chunks: Seq<ChunkView>) -> Seq<Seq<u8>> {
    chunks.map_values(|c: ChunkView| c.content)
}

/// An item that fits into one chunk is uploaded as one chunk, whole.
pub proof fn lemma_small_item_is_one_chunk(item: Seq<u8>, chunk_size: nat, base: nat)
    requires
        0 < item.len() <= chunk_size,
    ensures
        split_chunks(item, chunk_size, base) == seq![ChunkView { offset: base, content: item }],
{
    let len = item.len();
    assert(chunk_count(len, chunk_size) == 1) by {
        if len == chunk_size {
            assert(len % chunk_size == 0 && len / chunk_size == 1) by (nonlinear_arith)
                requires
                    len == chunk_size,
                    chunk_size > 0,
            ;
        } else {
            assert(len % chunk_size == len && len / chunk_size == 0) by (nonlinear_arith)
                requires
                    0 < len < chunk_size,
            ;
        }
    }
    assert(0 * chunk_size == 0) by (nonlinear_arith);
    let split = split_chunks(item, chunk_size, base);
    assert(split[0].content =~= item);
    assert(split =~= seq![ChunkView { offset: base, content: item }]);
}

proof fn lemma_replanned_prefix(data: Seq<u8>, chunk_size: nat, k: nat)
    requires
        chunk_size > 0,
        k <= chunk_count(data.len(), chunk_size),
    ensures
        planned_uploads(contents_of(split_chunks(data, chunk_size, 0)).take(k as int), chunk_size)
            == split_chunks(data, chunk_size, 0).take(k as int),
        k < chunk_count(data.len(), chunk_size) ==> joined(
            contents_of(split_chunks(data, chunk_size, 0)).take(k as int),
        ).len() == k * chunk_size,
    decreases k,
{
    let emitted = split_chunks(data, chunk_size, 0);
    let items = contents_of(emitted);
    let head = items.take(k as int);
    if k == 0 {
        assert(0 * chunk_size == 0) by (nonlinear_arith);
        assert(emitted.take(0) =~= Seq::<ChunkView>::empty());
    } else {
        let j = (k - 1) as nat;
        lemma_replanned_prefix(data, chunk_size, j);
        lemma_split_reassembles(data, chunk_size, 0);
        lemma_chunk_bounds(data.len(), chunk_size, j);
        assert(head.drop_last() =~= items.take(j as int));
        assert(head.last() == emitted[j as int].content);
        lemma_small_item_is_one_chunk(head.last(), chunk_size, j * chunk_size);
        assert(emitted[j as int] == (ChunkView {
            offset: j * chunk_size,
            content: emitted[j as int].content,
        }));
        assert(emitted.take(j as int) + seq![emitted[j as int]] =~= emitted.take(k as int));
    }
}

/// A transfer reconstructs the resource exactly. Let a source that has
/// completed hand the resource `data` downstream in chunks of `chunk_size`
/// bytes, and let a destination with the same chunk size take these chunks in
/// as its items. Then the uploads that the destination sends are the very
/// chunks of the resource: `ceil(len / chunk_size)` of them, contiguous from
/// offset 0, and their contents, end to end, are `data`, byte for byte.
pub proof fn lemma_transfer_reconstructs(data: Seq<u8>, chunk_size: nat)
    requires
        chunk_size > 0,
    ensures
        ({
            let emitted = split_chunks(data, chunk_size, 0);
            let uploads = planned_uploads(contents_of(emitted), chunk_size);
            &&& uploads == emitted
            &&& uploads.len() == chunk_count(data.len(), chunk_size)
            &&& contiguous_from(uploads, 0)
            &&& chunk_contents(uploads) == data
            &&& chunk_contents(uploads).len() == data.len()
        }),
{
    let emitted = split_chunks(data, chunk_size, 0);
    let items = contents_of(emitted);
    lemma_replanned_prefix(data, chunk_size, chunk_count(data.len(), chunk_size));
    lemma_split_reassembles(data, chunk_size, 0);
    assert(items.take(items.len() as int) =~= items);
    assert(emitted.take(emitted.len() as int) =~= emitted);
}

/// The contents of chunks, joined item by item, are their contents end to
/// end.
pub proof fn lemma_joined_contents(chunks: Seq<ChunkView>)
    ensures
        joined(contents_of(chunks)) == chunk_contents(chunks),
    decreases chunks.len(),
{
    if chunks.len() > 0 {
        lemma_joined_contents(chunks.drop_last());
        assert(contents_of(chunks).drop_last() =~= contents_of(chunks.drop_last()));
    }
}

/// A transfer reconstructs the resource exactly also where the two sides cut
/// it differently: whatever the chunk size of the source and that of the
/// destination, the uploads are contiguous from offset 0, none is empty or
/// longer than the destination's chunk size, and their contents, end to end,
/// are `data`, byte for byte.
pub proof fn lemma_transfer_reconstructs_across_sizes(
    data: Seq<u8>,
    source_chunk_size: nat,
    destination_chunk_size: nat,
)
    requires
        source_chunk_size > 0,
        destination_chunk_size > 0,
    ensures
        ({
            let emitted = split_chunks(data, source_chunk_size, 0);
            let uploads = planned_uploads(contents_of(emitted), destination_chunk_size);
            &&& contiguous_from(uploads, 0)
            &&& chunks_fit(uploads, destination_chunk_size)
            &&& chunk_contents(uploads) == data
        }),
{
    let emitted = split_chunks(data, source_chunk_size, 0);
    lemma_split_reassembles(data, source_chunk_size, 0);
    lemma_joined_contents(emitted);
    lemma_planned_uploads_hold_items(contents_of(emitted), destination_chunk_size);
}

} // verus!
