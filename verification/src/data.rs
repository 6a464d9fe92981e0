//! The payload that moves through a transfer, held in a shared byte buffer,
//! and the few buffer operations the pipeline relies on.

use bytes::Bytes;
use vstd::prelude::*;
use vstd::slice::{slice_subrange, slice_to_vec};

verus! {

/// The byte buffer of the `bytes` crate. What it holds is known only through
/// `bytes_contents`.
#[verifier::external_type_specification]
#[verifier::external_body]
pub struct ExBytes(bytes::Bytes);

/// The bytes that a buffer holds, first to last. Nothing is proved of it:
/// the operations below say what the crate's source shows of them.
pub uninterp spec fn bytes_contents(b: Bytes) -> Seq<u8>;

/// `Bytes::from(Vec<u8>)`: the buffer takes the vector over and holds exactly
/// its bytes.
#[verifier::external_body]
pub(crate) fn bytes_from_vec(v: Vec<u8>) -> (b: Bytes)
    ensures
        bytes_contents(b) == v@,
{
    Bytes::from(v)
}

/// `Bytes::len`: the number of bytes held.
#[verifier::external_body]
pub(crate) fn bytes_len(b: &Bytes) -> (n: usize)
    ensures
        n == bytes_contents(*b).len(),
{
    b.len()
}

/// The `Deref` of `Bytes` to a slice: the bytes held, as a slice.
#[verifier::external_body]
pub(crate) fn bytes_as_slice(b: &Bytes) -> (slice: &[u8])
    ensures
        slice@ == bytes_contents(*b),
{
    &**b
}

/// A copy of the bytes at positions `start..end` of the buffer, in order.
pub(crate) fn bytes_copy_range(b: &Bytes, start: usize, end: usize) -> (v: Vec<u8>)
    requires
        start <= end <= bytes_contents(*b).len(),
    ensures
        v@ == bytes_contents(*b).subrange(start as int, end as int),
{
    slice_to_vec(slice_subrange(bytes_as_slice(b), start, end))
}

/// One item of a transfer stream or sink.
#[derive(Debug, PartialEq, Eq)]
pub enum TransferData {
    Bytes(Bytes),
}

impl View for TransferData {
    type V = Seq<u8>;

    open spec fn view(&self) -> Seq<u8> {
        match *self {
            TransferData::Bytes(b) => bytes_contents(b),
        }
    }
}

impl From<Bytes> for TransferData {
    /// Wraps a buffer as a transfer item.
    fn from(bytes: Bytes) -> (data: TransferData) {
        TransferData::Bytes(bytes)
    }
}

impl vstd::std_specs::convert::FromSpecImpl<Bytes> for TransferData {
    open spec fn obeys_from_spec() -> bool {
        true
    }

    open spec fn from_spec(bytes: Bytes) -> TransferData {
        TransferData::Bytes(bytes)
    }
}

impl TransferData {
    /// Wraps a vector of bytes as a transfer item.
    pub fn from_vec(content: Vec<u8>) -> (data: TransferData)
        ensures
            data@ == content@,
    {
        TransferData::Bytes(bytes_from_vec(content))
    }

    /// The buffer of the item.
    pub fn as_bytes(&self) -> (bytes: &Bytes)
        ensures
            bytes_contents(*bytes) == self@,
    {
        match self {
            TransferData::Bytes(b) => b,
        }
    }

    /// Unwraps the buffer.
    pub fn into_bytes(self) -> (bytes: Bytes)
        ensures
            bytes_contents(bytes) == self@,
    {
        match self {
            TransferData::Bytes(b) => b,
        }
    }

    /// Number of bytes in the item.
    pub fn len(&self) -> (n: usize)
        ensures
            n == self@.len(),
    {
        match self {
            TransferData::Bytes(b) => bytes_len(b),
        }
    }
}

} // verus!
