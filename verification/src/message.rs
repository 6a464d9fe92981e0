//! The typed message contract: each message type declares once the name of
//! its operation, what a handler answers with, and the error it may give.

use crate::chunk::TransferChunk;
use crate::endpoint::{Endpoint, EndpointView};
use crate::payment::{PaymentDocument, SendError};
use vstd::prelude::*;
use vstd::string::StringExecFns;

verus! {

/// The contract of one operation of the bus.
pub trait RpcMessage {
    /// What a handler answers with.
    type Item;

    /// The error that a handler may answer with.
    type Error;

    /// The name of the operation: the same in every process and every
    /// version, since peers find the operation by it.
    spec fn operation_id() -> Seq<char>;

    /// The name of the operation.
    fn id() -> (id: &'static str)
        ensures
            id@ == Self::operation_id(),
    ;
}

/// The address of an operation of a service: the service path, a slash, and
/// the name of the operation.
pub open spec fn operation_address(service_path: Seq<char>, id: Seq<char>) -> Seq<char> {
    service_path + seq!['/'] + id
}

/// The address to which a message of type `M` for the service goes.
pub fn call_address<M: RpcMessage>(service_path: &str) -> (address: String)
    ensures
        address@ == operation_address(service_path@, M::operation_id()),
{
    proof {
        reveal_strlit("/");
    }
    assert("/"@ =~= seq!['/']);
    let address = service_path.to_owned();
    let address = address.concat("/");
    address.concat(M::id())
}

/// The endpoint to which a message of type `M` for the service behind
/// `service` goes: the same peer, at the address of the operation.
pub fn message_endpoint<M: RpcMessage>(service: &Endpoint) -> (endpoint: Endpoint)
    ensures
        endpoint@ == (EndpointView {
            node: service@.node,
            path: operation_address(service@.path, M::operation_id()),
        }),
        endpoint.node == service.node,
{
    Endpoint { node: service.node.duplicate(), path: call_address::<M>(service.path.as_str()) }
}

/// What a peer knows of a resource that it serves.
#[derive(Clone, Copy, Debug, PartialEq, Eq, Structural)]
pub struct GftpMetadata {
    pub file_size: u64,
}

/// Asks for the metadata of the resource.
#[derive(Clone, Copy, Debug, PartialEq, Eq, Structural)]
pub struct GetMetadata {}

/// Asks for `size` bytes of the resource from `offset` on.
#[derive(Clone, Copy, Debug, PartialEq, Eq, Structural)]
pub struct GetChunk {
    pub offset: u64,
    pub size: u64,
}

/// Hands a chunk of the resource to the peer that stores it.
#[derive(Debug, PartialEq, Eq)]
pub struct UploadChunk {
    pub chunk: TransferChunk,
}

/// Hands a debit note to its recipient.
#[derive(Debug, PartialEq, Eq)]
pub struct SendDebitNote(pub PaymentDocument);

/// Hands an invoice to its recipient.
#[derive(Debug, PartialEq, Eq)]
pub struct SendInvoice(pub PaymentDocument);

impl RpcMessage for GetMetadata {
    type Item = GftpMetadata;

    type Error = String;

    open spec fn operation_id() -> Seq<char> {
        "GetMetadata"@
    }

    fn id() -> (id: &'static str) {
        "GetMetadata"
    }
}

impl RpcMessage for GetChunk {
    type Item = TransferChunk;

    type Error = String;

    open spec fn operation_id() -> Seq<char> {
        "GetChunk"@
    }

    fn id() -> (id: &'static str) {
        "GetChunk"
    }
}

impl RpcMessage for UploadChunk {
    type Item = ();

    type Error = String;

    open spec fn operation_id() -> Seq<char> {
        "UploadChunk"@
    }

    fn id() -> (id: &'static str) {
        "UploadChunk"
    }
}

impl RpcMessage for SendDebitNote {
    type Item = ();

    type Error = SendError;

    open spec fn operation_id() -> Seq<char> {
        "SendDebitNote"@
    }

    fn id() -> (id: &'static str) {
        "SendDebitNote"
    }
}

impl RpcMessage for SendInvoice {
    type Item = ();

    type Error = SendError;

    open spec fn operation_id() -> Seq<char> {
        "SendInvoice"@
    }

    fn id() -> (id: &'static str) {
        "SendInvoice"
    }
}

/// The names of the operations of the library's messages.
pub open spec fn operation_ids() -> Seq<Seq<char>> {
    seq![
        GetMetadata::operation_id(),
        GetChunk::operation_id(),
        UploadChunk::operation_id(),
        SendDebitNote::operation_id(),
        SendInvoice::operation_id(),
    ]
}

/// No two message types share the name of their operation.
pub proof fn lemma_operation_ids_differ()
    ensures
        operation_ids().no_duplicates(),
{
    reveal_strlit("GetMetadata");
    reveal_strlit("GetChunk");
    reveal_strlit("UploadChunk");
    reveal_strlit("SendDebitNote");
    reveal_strlit("SendInvoice");
    let ids = operation_ids();
    assert(ids[0].len() == 11 && ids[1].len() == 8 && ids[2].len() == 11 && ids[3].len() == 13
        && ids[4].len() == 11);
    assert(ids[0][0] == 'G' && ids[2][0] == 'U' && ids[4][0] == 'S');
}

/// Operations of one service with different names have different addresses,
/// and an address tells the operation's name.
pub proof fn lemma_operation_address_injective(service_path: Seq<char>, a: Seq<char>, b: Seq<char>)
    requires
        operation_address(service_path, a) == operation_address(service_path, b),
    ensures
        a == b,
{
    let prefix = service_path + seq!['/'];
    assert((prefix + a).skip(prefix.len() as int) =~= a);
    assert((prefix + b).skip(prefix.len() as int) =~= b);
}

/// Whether the text holds no slash, as the name of an operation does.
pub open spec fn slash_free(text: Seq<char>) -> bool {
    forall|i: int| 0 <= i < text.len() ==> text[i] != '/'
}

/// An address tells both the service and the operation: two addresses are
/// the same only for the same service path and the same operation name. So
/// the calls of one transfer, whose service path holds its token, never meet
/// those of another.
pub proof fn lemma_operation_address_tells_both(
    path_a: Seq<char>,
    id_a: Seq<char>,
    path_b: Seq<char>,
    id_b: Seq<char>,
)
    requires
        slash_free(id_a),
        slash_free(id_b),
        operation_address(path_a, id_a) == operation_address(path_b, id_b),
    ensures
        path_a == path_b,
        id_a == id_b,
{
    let a = operation_address(path_a, id_a);
    let b = operation_address(path_b, id_b);
    let n = path_a.len() as int;
    let m = path_b.len() as int;
    let head_a = path_a + seq!['/'];
    let head_b = path_b + seq!['/'];
    assert(a.len() == head_a.len() + id_a.len());
    assert(b.len() == head_b.len() + id_b.len());
    assert(a[n] == head_a[n]);
    assert(b[m] == head_b[m]);
    if n < m {
        assert(a[m] == id_a[m - head_a.len()]);
    }
    if m < n {
        assert(b[n] == id_b[n - head_b.len()]);
    }
    assert(path_a =~= a.take(n));
    assert(path_b =~= b.take(m));
    assert(id_a =~= a.skip(n + 1));
    assert(id_b =~= b.skip(m + 1));
}

/// The names of the library's operations hold no slash.
pub proof fn lemma_operation_ids_slash_free()
    ensures
        forall|i: int| 0 <= i < operation_ids().len() ==> slash_free(#[trigger] operation_ids()[i]),
{
    reveal_strlit("GetMetadata");
    reveal_strlit("GetChunk");
    reveal_strlit("UploadChunk");
    reveal_strlit("SendDebitNote");
    reveal_strlit("SendInvoice");
}

} // verus!
