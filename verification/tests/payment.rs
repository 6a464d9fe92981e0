use yagna_core::endpoint::NodeId;
use yagna_core::error::CallError;
use yagna_core::payment::{
    call_timeout, reply_for_failure, reply_for_get, reply_for_list, reply_not_implemented,
    status_for_failure, AgreementParties, DbError, DocumentKind, HttpReply, HttpStatus,
    PaymentDocument, ReplyBody, SendError,
};
use yagna_core::payment_flows::{
    IssueAction, IssueEvent, IssueFlow, IssuePhase, SendAction, SendEvent, SendFlow, SendPhase,
};
use yagna_core::routes::{register_endpoints, stub_reply, Method, PaymentHandler, RouteEntry};

fn text(status: HttpStatus, body: &str) -> HttpReply {
    HttpReply { status, body: ReplyBody::Text(body.to_string()) }
}

fn empty(status: HttpStatus) -> HttpReply {
    HttpReply { status, body: ReplyBody::Empty }
}

fn document(issuer: &str, recipient: &str) -> PaymentDocument {
    PaymentDocument {
        id: "doc-1".to_string(),
        issuer_id: issuer.to_string(),
        recipient_id: recipient.to_string(),
    }
}

#[test]
fn status_codes() {
    assert_eq!(HttpStatus::Success.code(), 200);
    assert_eq!(HttpStatus::Created.code(), 201);
    assert_eq!(HttpStatus::BadRequest.code(), 400);
    assert_eq!(HttpStatus::Unauthorized.code(), 401);
    assert_eq!(HttpStatus::NotFound.code(), 404);
    assert_eq!(HttpStatus::InternalServerError.code(), 500);
    assert_eq!(HttpStatus::NotImplemented.code(), 501);
    assert_eq!(HttpStatus::GatewayTimeout.code(), 504);
}

#[test]
fn bus_failures_map_to_statuses() {
    assert_eq!(status_for_failure(&CallError::Timeout).code(), 504);
    assert_eq!(
        status_for_failure(&CallError::Remote(SendError::BadRequest("no".to_string()))).code(),
        400
    );
    assert_eq!(status_for_failure(&CallError::Transport("unreachable".to_string())).code(), 500);
    assert_eq!(
        status_for_failure(&CallError::Remote(SendError::ServiceError("no".to_string()))).code(),
        500
    );
    assert_eq!(reply_for_failure(CallError::Timeout), empty(HttpStatus::GatewayTimeout));
    assert_eq!(
        reply_for_failure(CallError::Remote(SendError::BadRequest("no amount".to_string()))),
        text(HttpStatus::BadRequest, "no amount")
    );
    assert_eq!(
        reply_for_failure(CallError::Remote(SendError::ServiceError("down".to_string()))),
        text(HttpStatus::InternalServerError, "down")
    );
    assert_eq!(
        reply_for_failure(CallError::Transport("peer is gone".to_string())),
        text(HttpStatus::InternalServerError, "peer is gone")
    );
}

#[test]
fn query_timeout_in_milliseconds() {
    assert_eq!(call_timeout(0), None);
    assert_eq!(call_timeout(1), Some(1000));
    assert_eq!(call_timeout(12), Some(12000));
    assert_eq!(call_timeout(u32::MAX), Some(4294967295000));
}

#[test]
fn get_replies() {
    let doc = document("0xa", "0xb");
    assert_eq!(
        reply_for_get(Ok(Some(doc.clone())), "0xa"),
        HttpReply { status: HttpStatus::Success, body: ReplyBody::Document }
    );
    // somebody else's document is as good as none
    assert_eq!(reply_for_get(Ok(Some(doc)), "0xc"), empty(HttpStatus::NotFound));
    assert_eq!(reply_for_get(Ok(None), "0xa"), empty(HttpStatus::NotFound));
    assert_eq!(
        reply_for_get(Err("locked".to_string()), "0xa"),
        text(HttpStatus::InternalServerError, "locked")
    );
}

#[test]
fn list_replies() {
    assert_eq!(
        reply_for_list(Ok(())),
        HttpReply { status: HttpStatus::Success, body: ReplyBody::Documents }
    );
    assert_eq!(
        reply_for_list(Err("locked".to_string())),
        text(HttpStatus::InternalServerError, "locked")
    );
    assert_eq!(reply_not_implemented(), empty(HttpStatus::NotImplemented));
}

fn ready_to_send(timeout: u32) -> SendFlow {
    SendFlow::new(DocumentKind::DebitNote, NodeId::parse("0xa").unwrap(), timeout)
}

#[test]
fn send_happy_path() {
    let mut flow = ready_to_send(5);
    assert_eq!(flow.phase(), SendPhase::AwaitingDocument);
    assert_eq!(
        flow.step(SendEvent::Loaded(Ok(Some(document("0xa", "0xb"))))),
        SendAction::CallPeer { recipient: NodeId::parse("0xb").unwrap(), timeout: Some(5000) }
    );
    assert_eq!(flow.phase(), SendPhase::AwaitingPeer);
    assert_eq!(flow.step(SendEvent::PeerAnswered(Ok(()))), SendAction::MarkReceived);
    assert_eq!(flow.phase(), SendPhase::AwaitingStore);
    assert_eq!(
        flow.step(SendEvent::Stored(Ok(()))),
        SendAction::Reply(empty(HttpStatus::Success))
    );
    assert_eq!(flow.phase(), SendPhase::Done);
    assert_eq!(flow.step(SendEvent::Stored(Ok(()))), SendAction::Nothing);
}

#[test]
fn send_without_timeout() {
    let mut flow = ready_to_send(0);
    assert_eq!(
        flow.step(SendEvent::Loaded(Ok(Some(document("0xa", "0xb"))))),
        SendAction::CallPeer { recipient: NodeId::parse("0xb").unwrap(), timeout: None }
    );
}

#[test]
fn send_of_unknown_document() {
    let mut flow = ready_to_send(5);
    assert_eq!(
        flow.step(SendEvent::Loaded(Ok(None))),
        SendAction::Reply(empty(HttpStatus::NotFound))
    );
    assert_eq!(flow.phase(), SendPhase::Done);
    let mut flow = ready_to_send(5);
    assert_eq!(
        flow.step(SendEvent::Loaded(Err("locked".to_string()))),
        SendAction::Reply(text(HttpStatus::InternalServerError, "locked"))
    );
}

#[test]
fn send_by_somebody_else() {
    let mut flow = ready_to_send(5);
    assert_eq!(
        flow.step(SendEvent::Loaded(Ok(Some(document("0xc", "0xb"))))),
        SendAction::Reply(text(
            HttpStatus::Unauthorized,
            "Identity 0xa is not authorized to send this debit note"
        ))
    );
    assert_eq!(flow.phase(), SendPhase::Done);
    // the message names the kind of the document
    let mut flow = SendFlow::new(DocumentKind::Invoice, NodeId::parse("0xa").unwrap(), 5);
    assert_eq!(
        flow.step(SendEvent::Loaded(Ok(Some(document("0xc", "0xb"))))),
        SendAction::Reply(text(
            HttpStatus::Unauthorized,
            "Identity 0xa is not authorized to send this invoice"
        ))
    );
}

#[test]
fn send_without_recipient() {
    let mut flow = ready_to_send(5);
    assert_eq!(
        flow.step(SendEvent::Loaded(Ok(Some(document("0xa", ""))))),
        SendAction::Reply(text(HttpStatus::InternalServerError, "MissingIdentity"))
    );
}

#[test]
fn send_failures_of_the_peer() {
    let cases: Vec<(CallError<SendError>, HttpReply)> = vec![
        (CallError::Timeout, empty(HttpStatus::GatewayTimeout)),
        (
            CallError::Remote(SendError::BadRequest("no amount".to_string())),
            text(HttpStatus::BadRequest, "no amount"),
        ),
        (
            CallError::Remote(SendError::ServiceError("down".to_string())),
            text(HttpStatus::InternalServerError, "down"),
        ),
        (
            CallError::Transport("peer is gone".to_string()),
            text(HttpStatus::InternalServerError, "peer is gone"),
        ),
    ];
    for (failure, reply) in cases {
        let mut flow = ready_to_send(5);
        flow.step(SendEvent::Loaded(Ok(Some(document("0xa", "0xb")))));
        assert_eq!(flow.step(SendEvent::PeerAnswered(Err(failure))), SendAction::Reply(reply));
        assert_eq!(flow.phase(), SendPhase::Done);
        // the document is not marked as received
        assert_eq!(flow.step(SendEvent::Stored(Ok(()))), SendAction::Nothing);
    }
}

#[test]
fn send_failure_of_the_store() {
    let mut flow = ready_to_send(5);
    flow.step(SendEvent::Loaded(Ok(Some(document("0xa", "0xb")))));
    flow.step(SendEvent::PeerAnswered(Ok(())));
    assert_eq!(
        flow.step(SendEvent::Stored(Err("locked".to_string()))),
        SendAction::Reply(text(HttpStatus::InternalServerError, "locked"))
    );
}

#[test]
fn send_ignores_events_out_of_turn() {
    let mut flow = ready_to_send(5);
    assert_eq!(flow.step(SendEvent::PeerAnswered(Ok(()))), SendAction::Nothing);
    assert_eq!(flow.step(SendEvent::Stored(Ok(()))), SendAction::Nothing);
    assert_eq!(flow.phase(), SendPhase::AwaitingDocument);
    flow.step(SendEvent::Loaded(Ok(Some(document("0xa", "0xb")))));
    assert_eq!(flow.step(SendEvent::Loaded(Ok(None))), SendAction::Nothing);
    assert_eq!(flow.phase(), SendPhase::AwaitingPeer);
}

fn parties(provider: Option<&str>, requestor: Option<&str>) -> AgreementParties {
    AgreementParties {
        provider_id: provider.map(|s| s.to_string()),
        requestor_id: requestor.map(|s| s.to_string()),
    }
}

#[test]
fn issue_happy_path() {
    let mut flow = IssueFlow::new(DocumentKind::Invoice, "0xa", "agr-1");
    assert_eq!(flow.phase(), IssuePhase::AwaitingAgreement);
    assert_eq!(
        flow.step(IssueEvent::AgreementLoaded(Ok(Some(parties(Some("0xa"), Some("0xb")))))),
        IssueAction::Store { issuer_id: "0xa".to_string(), recipient_id: "0xb".to_string() }
    );
    assert_eq!(flow.phase(), IssuePhase::AwaitingStore);
    assert_eq!(
        flow.step(IssueEvent::Stored(Ok(true))),
        IssueAction::Reply(HttpReply { status: HttpStatus::Created, body: ReplyBody::Document })
    );
    assert_eq!(flow.phase(), IssuePhase::Done);
    assert_eq!(flow.step(IssueEvent::Stored(Ok(true))), IssueAction::Nothing);
}

#[test]
fn issue_under_unknown_agreement() {
    let mut flow = IssueFlow::new(DocumentKind::Invoice, "0xa", "agr-1");
    assert_eq!(
        flow.step(IssueEvent::AgreementLoaded(Ok(None))),
        IssueAction::Reply(text(HttpStatus::BadRequest, "Agreement not found: agr-1"))
    );
    let mut flow = IssueFlow::new(DocumentKind::Invoice, "0xa", "agr-1");
    assert_eq!(
        flow.step(IssueEvent::AgreementLoaded(Err("market down".to_string()))),
        IssueAction::Reply(text(HttpStatus::InternalServerError, "market down"))
    );
}

#[test]
fn issue_by_somebody_else() {
    let mut flow = IssueFlow::new(DocumentKind::Invoice, "0xc", "agr-1");
    assert_eq!(
        flow.step(IssueEvent::AgreementLoaded(Ok(Some(parties(Some("0xa"), Some("0xb")))))),
        IssueAction::Reply(text(
            HttpStatus::Unauthorized,
            "Identity 0xc is not authorized to issue this invoice"
        ))
    );
    let mut flow = IssueFlow::new(DocumentKind::DebitNote, "0xc", "agr-1");
    assert_eq!(
        flow.step(IssueEvent::AgreementLoaded(Ok(Some(parties(Some("0xa"), Some("0xb")))))),
        IssueAction::Reply(text(
            HttpStatus::Unauthorized,
            "Identity 0xc is not authorized to issue this debit note"
        ))
    );
}

#[test]
fn issue_with_missing_identity() {
    let mut flow = IssueFlow::new(DocumentKind::Invoice, "0xa", "agr-1");
    assert_eq!(
        flow.step(IssueEvent::AgreementLoaded(Ok(Some(parties(None, Some("0xb")))))),
        IssueAction::Reply(text(HttpStatus::InternalServerError, "MissingIdentity"))
    );
    let mut flow = IssueFlow::new(DocumentKind::Invoice, "0xa", "agr-1");
    assert_eq!(
        flow.step(IssueEvent::AgreementLoaded(Ok(Some(parties(Some("0xa"), None))))),
        IssueAction::Reply(text(HttpStatus::InternalServerError, "MissingIdentity"))
    );
    // who is not the provider learns that first
    let mut flow = IssueFlow::new(DocumentKind::Invoice, "0xc", "agr-1");
    assert_eq!(
        flow.step(IssueEvent::AgreementLoaded(Ok(Some(parties(Some("0xa"), None))))),
        IssueAction::Reply(text(
            HttpStatus::Unauthorized,
            "Identity 0xc is not authorized to issue this invoice"
        ))
    );
}

#[test]
fn issue_failures_of_the_store() {
    let cases: Vec<(Result<bool, DbError>, HttpReply)> = vec![
        (Ok(false), text(HttpStatus::InternalServerError, "Database error")),
        (Err(DbError::Query("no such column".to_string())), text(HttpStatus::BadRequest, "no such column")),
        (Err(DbError::Other("locked".to_string())), text(HttpStatus::InternalServerError, "locked")),
    ];
    for (answer, reply) in cases {
        let mut flow = IssueFlow::new(DocumentKind::DebitNote, "0xa", "agr-1");
        flow.step(IssueEvent::AgreementLoaded(Ok(Some(parties(Some("0xa"), Some("0xb"))))));
        assert_eq!(flow.step(IssueEvent::Stored(answer)), IssueAction::Reply(reply));
        assert_eq!(flow.phase(), IssuePhase::Done);
    }
}

#[test]
fn issue_ignores_events_out_of_turn() {
    let mut flow = IssueFlow::new(DocumentKind::Invoice, "0xa", "agr-1");
    assert_eq!(flow.step(IssueEvent::Stored(Ok(true))), IssueAction::Nothing);
    assert_eq!(flow.phase(), IssuePhase::AwaitingAgreement);
}

#[test]
fn routes_of_the_payment_interface() {
    let routes = register_endpoints();
    let expected = vec![
        (Method::Post, "/debitNotes", PaymentHandler::IssueDebitNote),
        (Method::Get, "/debitNotes", PaymentHandler::GetDebitNotes),
        (Method::Get, "/debitNotes/{debit_note_id}", PaymentHandler::GetDebitNote),
        (Method::Get, "/debitNotes/{debit_note_id}/payments", PaymentHandler::GetDebitNotePayments),
        (Method::Post, "/debitNotes/{debit_note_id}/send", PaymentHandler::SendDebitNote),
        (Method::Post, "/debitNotes/{debit_note_id}/cancel", PaymentHandler::CancelDebitNote),
        (Method::Get, "/debitNoteEvents", PaymentHandler::GetDebitNoteEvents),
        (Method::Post, "/invoices", PaymentHandler::IssueInvoice),
        (Method::Get, "/invoices", PaymentHandler::GetInvoices),
        (Method::Get, "/invoices/{invoice_id}", PaymentHandler::GetInvoice),
        (Method::Get, "/invoices/{invoice_id}/payments", PaymentHandler::GetInvoicePayments),
        (Method::Post, "/invoices/{invoice_id}/send", PaymentHandler::SendInvoice),
        (Method::Post, "/invoices/{invoice_id}/cancel", PaymentHandler::CancelInvoice),
        (Method::Get, "/invoiceEvents", PaymentHandler::GetInvoiceEvents),
        (Method::Get, "/payments", PaymentHandler::GetPayments),
        (Method::Get, "/payments/{payment_id}", PaymentHandler::GetPayment),
    ];
    assert_eq!(routes.len(), 16);
    for (route, (method, path, handler)) in routes.iter().zip(expected) {
        assert_eq!(route, &RouteEntry { method, path, handler });
    }
}

#[test]
fn handlers_without_work_say_so() {
    for handler in [
        PaymentHandler::GetDebitNotePayments,
        PaymentHandler::CancelDebitNote,
        PaymentHandler::GetDebitNoteEvents,
        PaymentHandler::GetInvoicePayments,
        PaymentHandler::CancelInvoice,
        PaymentHandler::GetInvoiceEvents,
        PaymentHandler::GetPayments,
        PaymentHandler::GetPayment,
    ] {
        assert_eq!(stub_reply(handler), Some(empty(HttpStatus::NotImplemented)));
    }
    for handler in [
        PaymentHandler::IssueDebitNote,
        PaymentHandler::GetDebitNotes,
        PaymentHandler::GetDebitNote,
        PaymentHandler::SendDebitNote,
        PaymentHandler::IssueInvoice,
        PaymentHandler::GetInvoices,
        PaymentHandler::GetInvoice,
        PaymentHandler::SendInvoice,
    ] {
        assert_eq!(stub_reply(handler), None);
    }
}
