//! The handlers of the payment interface that talk to the store and to the
//! peer in turn: issuing a document, and sending one to its recipient.

use crate::endpoint::NodeId;
use crate::error::CallError;
use crate::payment::{
    call_timeout, empty_reply, failure_reply, reply_for_failure, text_reply, timeout_millis,
    AgreementParties, BodyView, DbError, DocumentKind, HttpReply, HttpStatus, PaymentDocument,
    ReplyBody, ReplyView, SendError,
};
use vstd::prelude::*;
use vstd::string::StringExecFns;

verus! {

/// The message for a record that lacks the identity of a party.
pub open spec fn missing_identity_text() -> Seq<char> {
    "MissingIdentity"@
}

/// What a document of the kind is called in messages.
pub open spec fn kind_text(kind: DocumentKind) -> Seq<char> {
    match kind {
        DocumentKind::Invoice => "invoice"@,
        DocumentKind::DebitNote => "debit note"@,
    }
}

/// The message for a caller that did not issue the document it wants sent.
pub open spec fn cannot_send_text(caller: Seq<char>, kind: DocumentKind) -> Seq<char> {
    "Identity "@ + caller + " is not authorized to send this "@ + kind_text(kind)
}

/// The message for a caller that is not the provider of the agreement.
pub open spec fn cannot_issue_text(caller: Seq<char>, kind: DocumentKind) -> Seq<char> {
    "Identity "@ + caller + " is not authorized to issue this "@ + kind_text(kind)
}

/// The message for an agreement that the market does not know.
pub open spec fn no_agreement_text(agreement_id: Seq<char>) -> Seq<char> {
    "Agreement not found: "@ + agreement_id
}

fn reply_text(status: HttpStatus, text: String) -> (reply: HttpReply)
    ensures
        reply@ == text_reply(status, text@),
{
    HttpReply { status, body: ReplyBody::Text(text) }
}

fn reply_empty(status: HttpStatus) -> (reply: HttpReply)
    ensures
        reply@ == empty_reply(status),
{
    HttpReply { status, body: ReplyBody::Empty }
}

/// How far the sending of a document has got.
#[derive(Clone, Copy, Debug, PartialEq, Eq, Structural)]
pub enum SendPhase {
    AwaitingDocument,
    AwaitingPeer,
    AwaitingStore,
    Done,
}

/// What happened outside a send handler.
#[derive(Debug, PartialEq, Eq)]
pub enum SendEvent {
    /// The store looked the document up.
    Loaded(Result<Option<PaymentDocument>, String>),
    /// The call to the recipient's payment service returned.
    PeerAnswered(Result<(), CallError<SendError>>),
    /// The store marked the document as received.
    Stored(Result<(), String>),
}

/// What the driver of a send handler is to do next.
#[derive(Debug, PartialEq, Eq)]
pub enum SendAction {
    /// Nothing: the event changed nothing.
    Nothing,
    /// Send the document to the payment service of the recipient, with the
    /// given timeout in milliseconds, and report the answer.
    CallPeer { recipient: NodeId, timeout: Option<u64> },
    /// Mark the document as received in the store and report how it went.
    MarkReceived,
    /// Answer the request.
    Reply(HttpReply),
}

/// An action as a mathematical value.
pub ghost enum SendActionView {
    Nothing,
    CallPeer { recipient: Seq<char>, timeout: Option<u64> },
    MarkReceived,
    Reply(ReplyView),
}

impl View for SendAction {
    type V = SendActionView;

    open spec fn view(&self) -> SendActionView {
        match *self {
            SendAction::Nothing => SendActionView::Nothing,
            SendAction::CallPeer { recipient, timeout } => SendActionView::CallPeer {
                recipient: recipient@,
                timeout,
            },
            SendAction::MarkReceived => SendActionView::MarkReceived,
            SendAction::Reply(reply) => SendActionView::Reply(reply@),
        }
    }
}

/// A send handler as a mathematical value.
pub ghost struct SendModel {
    pub phase: SendPhase,
    /// The kind of the document to send.
    pub kind: DocumentKind,
    /// Who asks for the document to be sent.
    pub caller: Seq<char>,
    /// The timeout that the query gives, in seconds; 0 for none.
    pub timeout: u32,
}

/// The handler as it answers the request.
pub open spec fn send_done(m: SendModel, reply: ReplyView) -> (SendModel, SendActionView) {
    (SendModel { phase: SendPhase::Done, ..m }, SendActionView::Reply(reply))
}

/// The transition function of a send handler: the state after the event, and
/// what the driver is to do.
pub open spec fn send_step(m: SendModel, event: SendEvent) -> (SendModel, SendActionView) {
    match (m.phase, event) {
        (SendPhase::AwaitingDocument, SendEvent::Loaded(Ok(Some(document)))) => {
            if document.issuer_id@ != m.caller {
                send_done(m, text_reply(HttpStatus::Unauthorized, cannot_send_text(m.caller, m.kind)))
            } else if document.recipient_id@.len() == 0 {
                send_done(m, text_reply(HttpStatus::InternalServerError, missing_identity_text()))
            } else {
                (
                    SendModel { phase: SendPhase::AwaitingPeer, ..m },
                    SendActionView::CallPeer {
                        recipient: document.recipient_id@,
                        timeout: timeout_millis(m.timeout),
                    },
                )
            }
        },
        (SendPhase::AwaitingDocument, SendEvent::Loaded(Ok(None))) => send_done(
            m,
            empty_reply(HttpStatus::NotFound),
        ),
        (SendPhase::AwaitingDocument, SendEvent::Loaded(Err(e))) => send_done(
            m,
            text_reply(HttpStatus::InternalServerError, e@),
        ),
        (SendPhase::AwaitingPeer, SendEvent::PeerAnswered(Ok(_))) => (
            SendModel { phase: SendPhase::AwaitingStore, ..m },
            SendActionView::MarkReceived,
        ),
        (SendPhase::AwaitingPeer, SendEvent::PeerAnswered(Err(e))) => send_done(
            m,
            failure_reply(e),
        ),
        (SendPhase::AwaitingStore, SendEvent::Stored(Ok(_))) => send_done(
            m,
            empty_reply(HttpStatus::Success),
        ),
        (SendPhase::AwaitingStore, SendEvent::Stored(Err(e))) => send_done(
            m,
            text_reply(HttpStatus::InternalServerError, e@),
        ),
        _ => (m, SendActionView::Nothing),
    }
}

/// The handler of a request to send an issued document to its recipient.
pub struct SendFlow {
    phase: SendPhase,
    kind: DocumentKind,
    caller: NodeId,
    timeout: u32,
}

impl View for SendFlow {
    type V = SendModel;

    closed spec fn view(&self) -> SendModel {
        SendModel {
            phase: self.phase,
            kind: self.kind,
            caller: self.caller@,
            timeout: self.timeout,
        }
    }
}

impl SendFlow {
    /// The handler of a request by `caller` to send a document of the kind,
    /// with the timeout that the query gives, in seconds. The first thing to
    /// do is to look the document up.
    pub fn new(kind: DocumentKind, caller: NodeId, timeout: u32) -> (flow: SendFlow)
        ensures
            flow@ == (SendModel {
                phase: SendPhase::AwaitingDocument,
                kind,
                caller: caller@,
                timeout,
            }),
    {
        SendFlow { phase: SendPhase::AwaitingDocument, kind, caller, timeout }
    }

    /// How far the handler has got.
    pub fn phase(&self) -> (phase: SendPhase)
        ensures
            phase == self@.phase,
    {
        self.phase
    }

    fn done(&mut self, reply: HttpReply) -> (action: SendAction)
        ensures
            (final(self)@, action@) == send_done(old(self)@, reply@),
    {
        self.phase = SendPhase::Done;
        SendAction::Reply(reply)
    }

    /// Moves the handler by one event and says what to do next.
    pub fn step(&mut self, event: SendEvent) -> (action: SendAction)
        ensures
            (final(self)@, action@) == send_step(old(self)@, event),
    {
        match self.phase {
            SendPhase::AwaitingDocument => match event {
                SendEvent::Loaded(Ok(Some(document))) => {
                    if document.issuer_id != self.caller.as_str().to_owned() {
                        let text = String::from_str("Identity ");
                        let text = text.concat(self.caller.as_str());
                        let text = text.concat(" is not authorized to send this ");
                        let text = match self.kind {
                            DocumentKind::Invoice => text.concat("invoice"),
                            DocumentKind::DebitNote => text.concat("debit note"),
                        };
                        return self.done(reply_text(HttpStatus::Unauthorized, text));
                    }
                    match NodeId::parse(document.recipient_id.as_str()) {
                        Some(recipient) => {
                            self.phase = SendPhase::AwaitingPeer;
                            SendAction::CallPeer { recipient, timeout: call_timeout(self.timeout) }
                        },
                        None => self.done(
                            reply_text(
                                HttpStatus::InternalServerError,
                                String::from_str("MissingIdentity"),
                            ),
                        ),
                    }
                },
                SendEvent::Loaded(Ok(None)) => self.done(reply_empty(HttpStatus::NotFound)),
                SendEvent::Loaded(Err(e)) => self.done(
                    reply_text(HttpStatus::InternalServerError, e),
                ),
                _ => SendAction::Nothing,
            },
            SendPhase::AwaitingPeer => match event {
                SendEvent::PeerAnswered(Ok(_)) => {
                    self.phase = SendPhase::AwaitingStore;
                    SendAction::MarkReceived
                },
                SendEvent::PeerAnswered(Err(e)) => self.done(reply_for_failure(e)),
                _ => SendAction::Nothing,
            },
            SendPhase::AwaitingStore => match event {
                SendEvent::Stored(Ok(_)) => self.done(reply_empty(HttpStatus::Success)),
                SendEvent::Stored(Err(e)) => self.done(
                    reply_text(HttpStatus::InternalServerError, e),
                ),
                _ => SendAction::Nothing,
            },
            SendPhase::Done => SendAction::Nothing,
        }
    }
}

/// The state that a run of events leaves a send handler in, and the actions
/// that it asked for on the way, in order.
pub open spec fn send_run(m: SendModel, events: Seq<SendEvent>) -> (SendModel, Seq<SendActionView>)
    decreases events.len(),
{
    if events.len() == 0 {
        (m, Seq::empty())
    } else {
        let (before, actions) = send_run(m, events.drop_last());
        let (after, action) = send_step(before, events.last());
        (after, actions.push(action))
    }
}

/// How many of the actions answer the request.
pub open spec fn send_reply_count(actions: Seq<SendActionView>) -> nat
    decreases actions.len(),
{
    if actions.len() == 0 {
        0
    } else {
        let before = send_reply_count(actions.drop_last());
        match actions.last() {
            SendActionView::Reply(_) => before + 1,
            _ => before,
        }
    }
}

/// A request to send a document is answered at most once, and exactly once
/// when its handler is done; a handler that is done asks for nothing more.
pub proof fn lemma_send_answers_once(start: SendModel, events: Seq<SendEvent>)
    requires
        start.phase is AwaitingDocument,
    ensures
        ({
            let (m, actions) = send_run(start, events);
            &&& send_reply_count(actions) == if m.phase is Done {
                1nat
            } else {
                0nat
            }
            &&& forall|event: SendEvent|
                m.phase is Done ==> #[trigger] send_step(m, event) == (m, SendActionView::Nothing)
        }),
    decreases events.len(),
{
    if events.len() > 0 {
        lemma_send_answers_once(start, events.drop_last());
        let (before, earlier) = send_run(start, events.drop_last());
        let action = send_step(before, events.last()).1;
        assert(earlier.push(action).drop_last() =~= earlier);
    }
}

/// A document goes to its recipient only at the request of its issuer, and
/// it is marked as received only when the recipient has taken it.
pub proof fn lemma_send_is_authorized(m: SendModel, event: SendEvent)
    ensures
        send_step(m, event).1 is CallPeer ==> (event matches SendEvent::Loaded(Ok(Some(document)))
            && document.issuer_id@ == m.caller && send_step(m, event).1 == (
        SendActionView::CallPeer {
            recipient: document.recipient_id@,
            timeout: timeout_millis(m.timeout),
        })),
        send_step(m, event).1 is MarkReceived ==> m.phase is AwaitingPeer
            && event matches SendEvent::PeerAnswered(Ok(_)),
{
}

/// How far the issuing of a document has got.
#[derive(Clone, Copy, Debug, PartialEq, Eq, Structural)]
pub enum IssuePhase {
    AwaitingAgreement,
    AwaitingStore,
    Done,
}

/// What happened outside an issue handler.
#[derive(Debug, PartialEq, Eq)]
pub enum IssueEvent {
    /// The market looked the agreement up.
    AgreementLoaded(Result<Option<AgreementParties>, String>),
    /// The store created the document and read it back: whether it found it.
    Stored(Result<bool, DbError>),
}

/// What the driver of an issue handler is to do next.
#[derive(Debug, PartialEq, Eq)]
pub enum IssueAction {
    /// Nothing: the event changed nothing.
    Nothing,
    /// Create the document in the store with this issuer and recipient, read
    /// it back, and report how it went.
    Store { issuer_id: String, recipient_id: String },
    /// Answer the request.
    Reply(HttpReply),
}

/// An action as a mathematical value.
pub ghost enum IssueActionView {
    Nothing,
    Store { issuer_id: Seq<char>, recipient_id: Seq<char> },
    Reply(ReplyView),
}

impl View for IssueAction {
    type V = IssueActionView;

    open spec fn view(&self) -> IssueActionView {
        match *self {
            IssueAction::Nothing => IssueActionView::Nothing,
            IssueAction::Store { issuer_id, recipient_id } => IssueActionView::Store {
                issuer_id: issuer_id@,
                recipient_id: recipient_id@,
            },
            IssueAction::Reply(reply) => IssueActionView::Reply(reply@),
        }
    }
}

/// An issue handler as a mathematical value.
pub ghost struct IssueModel {
    pub phase: IssuePhase,
    pub kind: DocumentKind,
    /// Who asks for the document to be issued.
    pub caller: Seq<char>,
    /// The agreement that the document is issued under.
    pub agreement_id: Seq<char>,
}

/// The handler as it answers the request.
pub open spec fn issue_done(m: IssueModel, reply: ReplyView) -> (IssueModel, IssueActionView) {
    (IssueModel { phase: IssuePhase::Done, ..m }, IssueActionView::Reply(reply))
}

/// The transition function of an issue handler: the state after the event,
/// and what the driver is to do.
pub open spec fn issue_step(m: IssueModel, event: IssueEvent) -> (IssueModel, IssueActionView) {
    match (m.phase, event) {
        (IssuePhase::AwaitingAgreement, IssueEvent::AgreementLoaded(Ok(Some(parties)))) => {
            match parties.provider_id {
                None => issue_done(
                    m,
                    text_reply(HttpStatus::InternalServerError, missing_identity_text()),
                ),
                Some(provider) => if provider@ != m.caller {
                    issue_done(
                        m,
                        text_reply(HttpStatus::Unauthorized, cannot_issue_text(m.caller, m.kind)),
                    )
                } else {
                    match parties.requestor_id {
                        None => issue_done(
                            m,
                            text_reply(HttpStatus::InternalServerError, missing_identity_text()),
                        ),
                        Some(requestor) => (
                            IssueModel { phase: IssuePhase::AwaitingStore, ..m },
                            IssueActionView::Store {
                                issuer_id: m.caller,
                                recipient_id: requestor@,
                            },
                        ),
                    }
                },
            }
        },
        (IssuePhase::AwaitingAgreement, IssueEvent::AgreementLoaded(Ok(None))) => issue_done(
            m,
            text_reply(HttpStatus::BadRequest, no_agreement_text(m.agreement_id)),
        ),
        (IssuePhase::AwaitingAgreement, IssueEvent::AgreementLoaded(Err(e))) => issue_done(
            m,
            text_reply(HttpStatus::InternalServerError, e@),
        ),
        (IssuePhase::AwaitingStore, IssueEvent::Stored(Ok(found))) => if found {
            issue_done(m, ReplyView { status: HttpStatus::Created, body: BodyView::Document })
        } else {
            issue_done(m, text_reply(HttpStatus::InternalServerError, "Database error"@))
        },
        (IssuePhase::AwaitingStore, IssueEvent::Stored(Err(DbError::Query(e)))) => issue_done(
            m,
            text_reply(HttpStatus::BadRequest, e@),
        ),
        (IssuePhase::AwaitingStore, IssueEvent::Stored(Err(DbError::Other(e)))) => issue_done(
            m,
            text_reply(HttpStatus::InternalServerError, e@),
        ),
        _ => (m, IssueActionView::Nothing),
    }
}

/// The handler of a request to issue an invoice or a debit note.
pub struct IssueFlow {
    phase: IssuePhase,
    kind: DocumentKind,
    caller: String,
    agreement_id: String,
}

impl View for IssueFlow {
    type V = IssueModel;

    closed spec fn view(&self) -> IssueModel {
        IssueModel {
            phase: self.phase,
            kind: self.kind,
            caller: self.caller@,
            agreement_id: self.agreement_id@,
        }
    }
}

impl IssueFlow {
    /// The handler of a request by `caller` to issue a document of the kind
    /// under the agreement. The first thing to do is to look the agreement
    /// up.
    pub fn new(kind: DocumentKind, caller: &str, agreement_id: &str) -> (flow: IssueFlow)
        ensures
            flow@ == (IssueModel {
                phase: IssuePhase::AwaitingAgreement,
                kind,
                caller: caller@,
                agreement_id: agreement_id@,
            }),
    {
        IssueFlow {
            phase: IssuePhase::AwaitingAgreement,
            kind,
            caller: caller.to_owned(),
            agreement_id: agreement_id.to_owned(),
        }
    }

    /// How far the handler has got.
    pub fn phase(&self) -> (phase: IssuePhase)
        ensures
            phase == self@.phase,
    {
        self.phase
    }

    fn done(&mut self, reply: HttpReply) -> (action: IssueAction)
        ensures
            (final(self)@, action@) == issue_done(old(self)@, reply@),
    {
        self.phase = IssuePhase::Done;
        IssueAction::Reply(reply)
    }

    fn missing_identity(&mut self) -> (action: IssueAction)
        ensures
            (final(self)@, action@) == issue_done(
                old(self)@,
                text_reply(HttpStatus::InternalServerError, missing_identity_text()),
            ),
    {
        self.done(
            reply_text(HttpStatus::InternalServerError, String::from_str("MissingIdentity")),
        )
    }

    /// Moves the handler by one event and says what to do next.
    pub fn step(&mut self, event: IssueEvent) -> (action: IssueAction)
        ensures
            (final(self)@, action@) == issue_step(old(self)@, event),
    {
        match self.phase {
            IssuePhase::AwaitingAgreement => match event {
                IssueEvent::AgreementLoaded(Ok(Some(parties))) => {
                    let provider = match parties.provider_id {
                        Some(provider) => provider,
                        None => { return self.missing_identity(); },
                    };
                    if provider != self.caller {
                        let text = String::from_str("Identity ");
                        let text = text.concat(self.caller.as_str());
                        let text = text.concat(" is not authorized to issue this ");
                        let text = match self.kind {
                            DocumentKind::Invoice => text.concat("invoice"),
                            DocumentKind::DebitNote => text.concat("debit note"),
                        };
                        return self.done(reply_text(HttpStatus::Unauthorized, text));
                    }
                    match parties.requestor_id {
                        Some(requestor) => {
                            self.phase = IssuePhase::AwaitingStore;
                            IssueAction::Store {
                                issuer_id: self.caller.clone(),
                                recipient_id: requestor,
                            }
                        },
                        None => self.missing_identity(),
                    }
                },
                IssueEvent::AgreementLoaded(Ok(None)) => {
                    let text = String::from_str("Agreement not found: ");
                    let text = text.concat(self.agreement_id.as_str());
                    self.done(reply_text(HttpStatus::BadRequest, text))
                },
                IssueEvent::AgreementLoaded(Err(e)) => self.done(
                    reply_text(HttpStatus::InternalServerError, e),
                ),
                _ => IssueAction::Nothing,
            },
            IssuePhase::AwaitingStore => match event {
                IssueEvent::Stored(Ok(found)) => {
                    if found {
                        self.done(
                            HttpReply { status: HttpStatus::Created, body: ReplyBody::Document },
                        )
                    } else {
                        self.done(
                            reply_text(
                                HttpStatus::InternalServerError,
                                String::from_str("Database error"),
                            ),
                        )
                    }
                },
                IssueEvent::Stored(Err(DbError::Query(e))) => self.done(
                    reply_text(HttpStatus::BadRequest, e),
                ),
                IssueEvent::Stored(Err(DbError::Other(e))) => self.done(
                    reply_text(HttpStatus::InternalServerError, e),
                ),
                _ => IssueAction::Nothing,
            },
            IssuePhase::Done => IssueAction::Nothing,
        }
    }
}

/// The state that a run of events leaves an issue handler in, and the
/// actions that it asked for on the way, in order.
pub open spec fn issue_run(m: IssueModel, events: Seq<IssueEvent>) -> (
    IssueModel,
    Seq<IssueActionView>,
)
    decreases events.len(),
{
    if events.len() == 0 {
        (m, Seq::empty())
    } else {
        let (before, actions) = issue_run(m, events.drop_last());
        let (after, action) = issue_step(before, events.last());
        (after, actions.push(action))
    }
}

/// How many of the actions answer the request.
pub open spec fn issue_reply_count(actions: Seq<IssueActionView>) -> nat
    decreases actions.len(),
{
    if actions.len() == 0 {
        0
    } else {
        let before = issue_reply_count(actions.drop_last());
        match actions.last() {
            IssueActionView::Reply(_) => before + 1,
            _ => before,
        }
    }
}

/// A request to issue a document is answered at most once, and exactly once
/// when its handler is done; a handler that is done asks for nothing more.
pub proof fn lemma_issue_answers_once(start: IssueModel, events: Seq<IssueEvent>)
    requires
        start.phase is AwaitingAgreement,
    ensures
        ({
            let (m, actions) = issue_run(start, events);
            &&& issue_reply_count(actions) == if m.phase is Done {
                1nat
            } else {
                0nat
            }
            &&& forall|event: IssueEvent|
                m.phase is Done ==> #[trigger] issue_step(m, event) == (
                    m,
                    IssueActionView::Nothing,
                )
        }),
    decreases events.len(),
{
    if events.len() > 0 {
        lemma_issue_answers_once(start, events.drop_last());
        let (before, earlier) = issue_run(start, events.drop_last());
        let action = issue_step(before, events.last()).1;
        assert(earlier.push(action).drop_last() =~= earlier);
    }
}

/// A document is stored only for the provider of its agreement, as issuer,
/// with the requestor of the agreement as recipient.
pub proof fn lemma_issue_is_authorized(m: IssueModel, event: IssueEvent)
    ensures
        stores_for_provider(m, event),
{
}

/// Whether the handler, if it stores a document on the event, stores it for
/// the caller as the provider of the agreement that the event brings, with the
/// requestor of that agreement as recipient.
pub open spec fn stores_for_provider(m: IssueModel, event: IssueEvent) -> bool {
    issue_step(m, event).1 matches IssueActionView::Store { issuer_id, recipient_id } ==> {
        &&& event matches IssueEvent::AgreementLoaded(Ok(Some(parties)))
        &&& parties.provider_id matches Some(provider)
        &&& parties.requestor_id matches Some(requestor)
        &&& provider@ == m.caller
        &&& issuer_id == m.caller
        &&& recipient_id == requestor@
    }
}

} // verus!
