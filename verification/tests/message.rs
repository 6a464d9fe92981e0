use yagna_core::message::{
    call_address, GetChunk, GetMetadata, RpcMessage, SendDebitNote, SendInvoice, UploadChunk,
};

#[test]
fn operation_ids() {
    assert_eq!(GetMetadata::id(), "GetMetadata");
    assert_eq!(GetChunk::id(), "GetChunk");
    assert_eq!(UploadChunk::id(), "UploadChunk");
    assert_eq!(SendDebitNote::id(), "SendDebitNote");
    assert_eq!(SendInvoice::id(), "SendInvoice");
}

#[test]
fn operation_addresses() {
    assert_eq!(call_address::<GetChunk>("/public/gftp/abc"), "/public/gftp/abc/GetChunk");
    assert_eq!(call_address::<GetMetadata>("/public/gftp/abc"), "/public/gftp/abc/GetMetadata");
    assert_eq!(call_address::<UploadChunk>(""), "/UploadChunk");
    assert_eq!(call_address::<SendInvoice>("/public/payment"), "/public/payment/SendInvoice");
    assert_eq!(call_address::<SendDebitNote>("/public/payment"), "/public/payment/SendDebitNote");
}
