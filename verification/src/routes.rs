//! The routes of the provider's payment interface: which handler serves
//! which method and path.

use crate::payment::{empty_reply, reply_not_implemented, HttpReply, HttpStatus};
use vstd::prelude::*;

verus! {

/// The HTTP methods that the interface uses.
#[derive(Clone, Copy, Debug, PartialEq, Eq, Structural)]
pub enum Method {
    Get,
    Post,
}

/// The handlers of the interface.
#[derive(Clone, Copy, Debug, PartialEq, Eq, Structural)]
pub enum PaymentHandler {
    IssueDebitNote,
    GetDebitNotes,
    GetDebitNote,
    GetDebitNotePayments,
    SendDebitNote,
    CancelDebitNote,
    GetDebitNoteEvents,
    IssueInvoice,
    GetInvoices,
    GetInvoice,
    GetInvoicePayments,
    SendInvoice,
    CancelInvoice,
    GetInvoiceEvents,
    GetPayments,
    GetPayment,
}

/// One route.
#[derive(Clone, Copy, Debug, PartialEq, Eq)]
pub struct RouteEntry {
    pub method: Method,
    pub path: &'static str,
    pub handler: PaymentHandler,
}

/// A route as a mathematical value.
pub ghost struct RouteEntryView {
    pub method: Method,
    pub path: Seq<char>,
    pub handler: PaymentHandler,
}

impl View for RouteEntry {
    type V = RouteEntryView;

    open spec fn view(&self) -> RouteEntryView {
        RouteEntryView { method: self.method, path: self.path@, handler: self.handler }
    }
}

/// The number of routes.
pub open spec fn route_count() -> nat {
    16
}

/// The routes of the interface, in the order in which they are registered.
pub open spec fn route_at(i: int) -> RouteEntryView {
    if i == 0 {
        RouteEntryView {
            method: Method::Post,
            path: "/debitNotes"@,
            handler: PaymentHandler::IssueDebitNote,
        }
    } else if i == 1 {
        RouteEntryView {
            method: Method::Get,
            path: "/debitNotes"@,
            handler: PaymentHandler::GetDebitNotes,
        }
    } else if i == 2 {
        RouteEntryView {
            method: Method::Get,
            path: "/debitNotes/{debit_note_id}"@,
            handler: PaymentHandler::GetDebitNote,
        }
    } else if i == 3 {
        RouteEntryView {
            method: Method::Get,
            path: "/debitNotes/{debit_note_id}/payments"@,
            handler: PaymentHandler::GetDebitNotePayments,
        }
    } else if i == 4 {
        RouteEntryView {
            method: Method::Post,
            path: "/debitNotes/{debit_note_id}/send"@,
            handler: PaymentHandler::SendDebitNote,
        }
    } else if i == 5 {
        RouteEntryView {
            method: Method::Post,
            path: "/debitNotes/{debit_note_id}/cancel"@,
            handler: PaymentHandler::CancelDebitNote,
        }
    } else if i == 6 {
        RouteEntryView {
            method: Method::Get,
            path: "/debitNoteEvents"@,
            handler: PaymentHandler::GetDebitNoteEvents,
        }
    } else if i == 7 {
        RouteEntryView {
            method: Method::Post,
            path: "/invoices"@,
            handler: PaymentHandler::IssueInvoice,
        }
    } else if i == 8 {
        RouteEntryView {
            method: Method::Get,
            path: "/invoices"@,
            handler: PaymentHandler::GetInvoices,
        }
    } else if i == 9 {
        RouteEntryView {
            method: Method::Get,
            path: "/invoices/{invoice_id}"@,
            handler: PaymentHandler::GetInvoice,
        }
    } else if i == 10 {
        RouteEntryView {
            method: Method::Get,
            path: "/invoices/{invoice_id}/payments"@,
            handler: PaymentHandler::GetInvoicePayments,
        }
    } else if i == 11 {
        RouteEntryView {
            method: Method::Post,
            path: "/invoices/{invoice_id}/send"@,
            handler: PaymentHandler::SendInvoice,
        }
    } else if i == 12 {
        RouteEntryView {
            method: Method::Post,
            path: "/invoices/{invoice_id}/cancel"@,
            handler: PaymentHandler::CancelInvoice,
        }
    } else if i == 13 {
        RouteEntryView {
            method: Method::Get,
            path: "/invoiceEvents"@,
            handler: PaymentHandler::GetInvoiceEvents,
        }
    } else if i == 14 {
        RouteEntryView {
            method: Method::Get,
            path: "/payments"@,
            handler: PaymentHandler::GetPayments,
        }
    } else {
        RouteEntryView {
            method: Method::Get,
            path: "/payments/{payment_id}"@,
            handler: PaymentHandler::GetPayment,
        }
    }
}

fn entry(method: Method, path: &'static str, handler: PaymentHandler) -> (e: RouteEntry)
    ensures
        e@ == (RouteEntryView { method, path: path@, handler }),
{
    RouteEntry { method, path, handler }
}

/// The routes of the interface, in the order in which they are registered.
pub fn register_endpoints() -> (routes: Vec<RouteEntry>)
    ensures
        routes@.len() == route_count(),
        forall|i: int| 0 <= i < routes@.len() ==> (#[trigger] routes@[i])@ == route_at(i),
{
    let mut routes: Vec<RouteEntry> = Vec::new();
    routes.push(entry(Method::Post, "/debitNotes", PaymentHandler::IssueDebitNote));
    routes.push(entry(Method::Get, "/debitNotes", PaymentHandler::GetDebitNotes));
    routes.push(entry(Method::Get, "/debitNotes/{debit_note_id}", PaymentHandler::GetDebitNote));
    routes.push(
        entry(
            Method::Get,
            "/debitNotes/{debit_note_id}/payments",
            PaymentHandler::GetDebitNotePayments,
        ),
    );
    routes.push(
        entry(Method::Post, "/debitNotes/{debit_note_id}/send", PaymentHandler::SendDebitNote),
    );
    routes.push(
        entry(Method::Post, "/debitNotes/{debit_note_id}/cancel", PaymentHandler::CancelDebitNote),
    );
    routes.push(entry(Method::Get, "/debitNoteEvents", PaymentHandler::GetDebitNoteEvents));
    routes.push(entry(Method::Post, "/invoices", PaymentHandler::IssueInvoice));
    routes.push(entry(Method::Get, "/invoices", PaymentHandler::GetInvoices));
    routes.push(entry(Method::Get, "/invoices/{invoice_id}", PaymentHandler::GetInvoice));
    routes.push(
        entry(Method::Get, "/invoices/{invoice_id}/payments", PaymentHandler::GetInvoicePayments),
    );
    routes.push(entry(Method::Post, "/invoices/{invoice_id}/send", PaymentHandler::SendInvoice));
    routes.push(
        entry(Method::Post, "/invoices/{invoice_id}/cancel", PaymentHandler::CancelInvoice),
    );
    routes.push(entry(Method::Get, "/invoiceEvents", PaymentHandler::GetInvoiceEvents));
    routes.push(entry(Method::Get, "/payments", PaymentHandler::GetPayments));
    routes.push(entry(Method::Get, "/payments/{payment_id}", PaymentHandler::GetPayment));
    routes
}

/// Whether the handler does its work; the others answer that they are not
/// implemented.
pub open spec fn handler_implemented(handler: PaymentHandler) -> bool {
    match handler {
        PaymentHandler::IssueDebitNote
        | PaymentHandler::GetDebitNotes
        | PaymentHandler::GetDebitNote
        | PaymentHandler::SendDebitNote
        | PaymentHandler::IssueInvoice
        | PaymentHandler::GetInvoices
        | PaymentHandler::GetInvoice
        | PaymentHandler::SendInvoice => true,
        _ => false,
    }
}

/// The reply of a handler that does no work of its own: not implemented.
/// `None` for a handler that does its work.
pub fn stub_reply(handler: PaymentHandler) -> (reply: Option<HttpReply>)
    ensures
        handler_implemented(handler) <==> reply is None,
        reply matches Some(r) ==> r@ == empty_reply(HttpStatus::NotImplemented),
{
    match handler {
        PaymentHandler::IssueDebitNote
        | PaymentHandler::GetDebitNotes
        | PaymentHandler::GetDebitNote
        | PaymentHandler::SendDebitNote
        | PaymentHandler::IssueInvoice
        | PaymentHandler::GetInvoices
        | PaymentHandler::GetInvoice
        | PaymentHandler::SendInvoice => None,
        _ => Some(reply_not_implemented()),
    }
}

/// Every handler has exactly one route.
pub proof fn lemma_one_route_per_handler(handler: PaymentHandler)
    ensures
        exists|i: int| 0 <= i < route_count() && (#[trigger] route_at(i)).handler == handler,
        forall|i: int, j: int|
            0 <= i < route_count() && 0 <= j < route_count() && (#[trigger] route_at(i)).handler
                == handler && (#[trigger] route_at(j)).handler == handler ==> i == j,
{
    let i: int = match handler {
        PaymentHandler::IssueDebitNote => 0,
        PaymentHandler::GetDebitNotes => 1,
        PaymentHandler::GetDebitNote => 2,
        PaymentHandler::GetDebitNotePayments => 3,
        PaymentHandler::SendDebitNote => 4,
        PaymentHandler::CancelDebitNote => 5,
        PaymentHandler::GetDebitNoteEvents => 6,
        PaymentHandler::IssueInvoice => 7,
        PaymentHandler::GetInvoices => 8,
        PaymentHandler::GetInvoice => 9,
        PaymentHandler::GetInvoicePayments => 10,
        PaymentHandler::SendInvoice => 11,
        PaymentHandler::CancelInvoice => 12,
        PaymentHandler::GetInvoiceEvents => 13,
        PaymentHandler::GetPayments => 14,
        PaymentHandler::GetPayment => 15,
    };
    assert(route_at(i).handler == handler);
}

} // verus!
