//! Agreements between a provider and a requestor: the record that the market
//! keeps of one, and the form in which clients see it.

use crate::endpoint::NodeId;
use crate::market::{Proposal, ProposalId, SubscriptionId, Timestamp};
use serde_json::Value;
use vstd::prelude::*;
use vstd::string::StringExecFns;

verus! {

/// A JSON document of the `serde_json` crate, carried as an opaque value.
#[verifier::external_type_specification]
#[verifier::external_body]
pub struct ExJsonValue(serde_json::Value);

/// What `serde_json` makes of a text: the document that it parses the text
/// into, or, for a text that is no JSON document, the words of its error. It
/// depends on the text alone.
pub uninterp spec fn json_parsed(text: Seq<char>) -> Result<Value, Seq<char>>;

/// `serde_json::from_str` into a `Value`: the parsed document, or, for a text
/// that the parser rejects, its error in the form that the error's `Display`
/// gives. The claim is that both depend on the text alone: the same text
/// always gives the same document, or is always rejected in the same words.
#[verifier::external_body]
pub(crate) fn parse_json(text: &str) -> (parsed: Result<Value, String>)
    ensures
        match parsed {
            Ok(value) => json_parsed(text@) == Ok::<Value, Seq<char>>(value),
            Err(message) => json_parsed(text@) == Err::<Value, Seq<char>>(message@),
        },
{
    serde_json::from_str::<Value>(text).map_err(|e| e.to_string())
}

/// State of an agreement as the market keeps it.
#[derive(Clone, Copy, Debug, PartialEq, Eq, Structural)]
pub enum AgreementState {
    /// Newly created by a Requestor (based on Proposal)
    Proposal,
    /// Confirmed by a Requestor and sent to Provider for approval
    Pending,
    /// Cancelled by a Requestor
    Cancelled,
    /// Rejected by a Provider
    Rejected,
    /// Approved by both sides
    Approved,
    /// Not accepted, rejected nor cancelled within validity period
    Expired,
    /// Finished after approval
    Terminated,
}

/// State of an agreement as clients see it.
#[derive(Clone, Copy, Debug, PartialEq, Eq, Structural)]
pub enum ClientAgreementState {
    Proposal,
    Pending,
    Cancelled,
    Rejected,
    Approved,
    Expired,
    Terminated,
}

/// The client's state for a state of the market: the one of the same name.
pub open spec fn client_state_of(state: AgreementState) -> ClientAgreementState {
    match state {
        AgreementState::Proposal => ClientAgreementState::Proposal,
        AgreementState::Pending => ClientAgreementState::Pending,
        AgreementState::Cancelled => ClientAgreementState::Cancelled,
        AgreementState::Rejected => ClientAgreementState::Rejected,
        AgreementState::Approved => ClientAgreementState::Approved,
        AgreementState::Expired => ClientAgreementState::Expired,
        AgreementState::Terminated => ClientAgreementState::Terminated,
    }
}

impl From<AgreementState> for ClientAgreementState {
    fn from(agreement_state: AgreementState) -> (state: ClientAgreementState) {
        match agreement_state {
            AgreementState::Proposal => ClientAgreementState::Proposal,
            AgreementState::Pending => ClientAgreementState::Pending,
            AgreementState::Cancelled => ClientAgreementState::Cancelled,
            AgreementState::Rejected => ClientAgreementState::Rejected,
            AgreementState::Approved => ClientAgreementState::Approved,
            AgreementState::Expired => ClientAgreementState::Expired,
            AgreementState::Terminated => ClientAgreementState::Terminated,
        }
    }
}

impl vstd::std_specs::convert::FromSpecImpl<AgreementState> for ClientAgreementState {
    open spec fn obeys_from_spec() -> bool {
        true
    }

    open spec fn from_spec(agreement_state: AgreementState) -> ClientAgreementState {
        client_state_of(agreement_state)
    }
}

/// The name under which a state is stored and shown.
pub open spec fn state_name(state: AgreementState) -> Seq<char> {
    match state {
        AgreementState::Proposal => "Proposal"@,
        AgreementState::Pending => "Pending"@,
        AgreementState::Cancelled => "Cancelled"@,
        AgreementState::Rejected => "Rejected"@,
        AgreementState::Approved => "Approved"@,
        AgreementState::Expired => "Expired"@,
        AgreementState::Terminated => "Terminated"@,
    }
}

/// No two states share a name.
pub proof fn lemma_state_names_differ(a: AgreementState, b: AgreementState)
    requires
        state_name(a) == state_name(b),
    ensures
        a == b,
{
    reveal_strlit("Proposal");
    reveal_strlit("Pending");
    reveal_strlit("Cancelled");
    reveal_strlit("Rejected");
    reveal_strlit("Approved");
    reveal_strlit("Expired");
    reveal_strlit("Terminated");
    let x = state_name(a);
    let y = state_name(b);
    assert(x.len() == y.len());
    assert(x[0] == y[0]);
    assert(x[1] == y[1]);
}

impl AgreementState {
    /// The name of the state.
    pub fn name(&self) -> (name: &'static str)
        ensures
            name@ == state_name(*self),
    {
        match self {
            AgreementState::Proposal => "Proposal",
            AgreementState::Pending => "Pending",
            AgreementState::Cancelled => "Cancelled",
            AgreementState::Rejected => "Rejected",
            AgreementState::Approved => "Approved",
            AgreementState::Expired => "Expired",
            AgreementState::Terminated => "Terminated",
        }
    }

    /// The state with the given name, if there is one.
    pub fn from_name(name: &str) -> (state: Option<AgreementState>)
        ensures
            match state {
                Some(s) => name@ == state_name(s),
                None => forall|s: AgreementState| name@ != #[trigger] state_name(s),
            },
    {
        let text = name.to_owned();
        if text == String::from_str("Proposal") {
            Some(AgreementState::Proposal)
        } else if text == String::from_str("Pending") {
            Some(AgreementState::Pending)
        } else if text == String::from_str("Cancelled") {
            Some(AgreementState::Cancelled)
        } else if text == String::from_str("Rejected") {
            Some(AgreementState::Rejected)
        } else if text == String::from_str("Approved") {
            Some(AgreementState::Approved)
        } else if text == String::from_str("Expired") {
            Some(AgreementState::Expired)
        } else if text == String::from_str("Terminated") {
            Some(AgreementState::Terminated)
        } else {
            None
        }
    }
}

/// The record of an agreement.
#[derive(Debug, PartialEq, Eq)]
pub struct Agreement {
    pub id: ProposalId,
    pub offer_properties: String,
    pub offer_constraints: String,
    pub demand_properties: String,
    pub demand_constraints: String,
    pub offer_id: SubscriptionId,
    pub demand_id: SubscriptionId,
    pub offer_proposal_id: ProposalId,
    pub demand_proposal_id: ProposalId,
    pub provider_id: NodeId,
    pub requestor_id: NodeId,
    pub session_id: Option<String>,
    pub creation_ts: Timestamp,
    /// End of validity period. The agreement needs to be accepted, rejected
    /// or cancelled before this date; otherwise it expires.
    pub valid_to: Timestamp,
    pub approved_ts: Option<Timestamp>,
    pub state: AgreementState,
    pub proposed_signature: Option<String>,
    pub approved_signature: Option<String>,
    pub committed_signature: Option<String>,
}

/// A demand as clients see it.
#[derive(Debug, PartialEq, Eq)]
pub struct ClientDemand {
    pub properties: Value,
    pub constraints: String,
    pub requestor_id: NodeId,
    pub demand_id: String,
    pub timestamp: Timestamp,
}

/// An offer as clients see it.
#[derive(Debug, PartialEq, Eq)]
pub struct ClientOffer {
    pub properties: Value,
    pub constraints: String,
    pub provider_id: NodeId,
    pub offer_id: String,
    pub timestamp: Timestamp,
}

/// An agreement as clients see it.
#[derive(Debug, PartialEq, Eq)]
pub struct ClientAgreement {
    pub agreement_id: String,
    pub demand: ClientDemand,
    pub offer: ClientOffer,
    pub valid_to: Timestamp,
    pub approved_date: Option<Timestamp>,
    pub state: ClientAgreementState,
    pub timestamp: Timestamp,
    pub app_session_id: Option<String>,
    pub proposed_signature: Option<String>,
    pub approved_signature: Option<String>,
    pub committed_signature: Option<String>,
}

/// An error as clients see it: a message.
#[derive(Clone, Debug, PartialEq, Eq)]
pub struct ErrorMessage {
    pub message: Option<String>,
}

/// The message for properties that are no JSON document. `side` is `Demand`
/// or `Offer`, `cause` the parser's words.
pub open spec fn properties_error_text(side: Seq<char>, cause: Seq<char>) -> Seq<char> {
    "Can't serialize "@ + side + " properties. Error: "@ + cause
}

/// The error for properties that are no JSON document.
pub fn properties_error(side: &str, cause: &str) -> (error: ErrorMessage)
    ensures
        error.message matches Some(text) && text@ == properties_error_text(side@, cause@),
{
    let text = String::from_str("Can't serialize ");
    let text = text.concat(side);
    let text = text.concat(" properties. Error: ");
    let text = text.concat(cause);
    ErrorMessage { message: Some(text) }
}

/// Whether `client` is the agreement as clients see it, with the given parsed
/// properties of the demand and of the offer: every field carried over, the
/// identifiers as text, the state under its client name, and no session.
pub open spec fn is_client_form(
    client: ClientAgreement,
    agreement: Agreement,
    demand_properties: Value,
    offer_properties: Value,
) -> bool {
    &&& client.agreement_id == agreement.id.id
    &&& client.demand.properties == demand_properties
    &&& client.demand.constraints == agreement.demand_constraints
    &&& client.demand.requestor_id == agreement.requestor_id
    &&& client.demand.demand_id@ == agreement.demand_id.to_text_spec()
    &&& client.demand.timestamp == agreement.creation_ts
    &&& client.offer.properties == offer_properties
    &&& client.offer.constraints == agreement.offer_constraints
    &&& client.offer.provider_id == agreement.provider_id
    &&& client.offer.offer_id@ == agreement.offer_id.to_text_spec()
    &&& client.offer.timestamp == agreement.creation_ts
    &&& client.valid_to == agreement.valid_to
    &&& client.approved_date == agreement.approved_ts
    &&& client.state == client_state_of(agreement.state)
    &&& client.timestamp == agreement.creation_ts
    &&& client.app_session_id is None
    &&& client.proposed_signature == agreement.proposed_signature
    &&& client.approved_signature == agreement.approved_signature
    &&& client.committed_signature == agreement.committed_signature
}

impl Agreement {
    /// The agreement that a requestor's demand proposal and a provider's
    /// offer proposal make, at the moment `creation_ts` and under the given
    /// identifier: in state `Proposal`, unsigned and unapproved, with no
    /// session.
    pub fn new_with_ts(
        agreement_id: ProposalId,
        demand_proposal: Proposal,
        offer_proposal: Proposal,
        valid_to: Timestamp,
        creation_ts: Timestamp,
    ) -> (agreement: Agreement)
        ensures
            agreement == (Agreement {
                id: agreement_id,
                offer_properties: offer_proposal.body.properties,
                offer_constraints: offer_proposal.body.constraints,
                demand_properties: demand_proposal.body.properties,
                demand_constraints: demand_proposal.body.constraints,
                offer_id: offer_proposal.negotiation.offer_id,
                demand_id: demand_proposal.negotiation.demand_id,
                offer_proposal_id: offer_proposal.body.id,
                demand_proposal_id: demand_proposal.body.id,
                provider_id: offer_proposal.negotiation.provider_id,
                requestor_id: demand_proposal.negotiation.requestor_id,
                session_id: None,
                creation_ts,
                valid_to,
                approved_ts: None,
                state: AgreementState::Proposal,
                proposed_signature: None,
                approved_signature: None,
                committed_signature: None,
            }),
    {
        Agreement {
            id: agreement_id,
            offer_properties: offer_proposal.body.properties,
            offer_constraints: offer_proposal.body.constraints,
            demand_properties: demand_proposal.body.properties,
            demand_constraints: demand_proposal.body.constraints,
            offer_id: offer_proposal.negotiation.offer_id,
            demand_id: demand_proposal.negotiation.demand_id,
            offer_proposal_id: offer_proposal.body.id,
            demand_proposal_id: demand_proposal.body.id,
            provider_id: offer_proposal.negotiation.provider_id,
            requestor_id: demand_proposal.negotiation.requestor_id,
            session_id: None,
            creation_ts,
            valid_to,
            approved_ts: None,
            state: AgreementState::Proposal,
            proposed_signature: None,
            approved_signature: None,
            committed_signature: None,
        }
    }

    /// The agreement as clients see it, given the parsed properties of the
    /// demand and of the offer.
    pub fn client_with(self, demand_properties: Value, offer_properties: Value) -> (client:
        ClientAgreement)
        ensures
            is_client_form(client, self, demand_properties, offer_properties),
    {
        let demand_id = self.demand_id.to_text();
        let offer_id = self.offer_id.to_text();
        let demand = ClientDemand {
            properties: demand_properties,
            constraints: self.demand_constraints,
            requestor_id: self.requestor_id,
            demand_id,
            timestamp: self.creation_ts,
        };
        let offer = ClientOffer {
            properties: offer_properties,
            constraints: self.offer_constraints,
            provider_id: self.provider_id,
            offer_id,
            timestamp: self.creation_ts,
        };
        ClientAgreement {
            agreement_id: self.id.into_client(),
            demand,
            offer,
            valid_to: self.valid_to,
            approved_date: self.approved_ts,
            state: ClientAgreementState::from(self.state),
            timestamp: self.creation_ts,
            app_session_id: None,
            proposed_signature: self.proposed_signature,
            approved_signature: self.approved_signature,
            committed_signature: self.committed_signature,
        }
    }

    /// The agreement as clients see it, with the properties of the demand and
    /// of the offer parsed, each from its own text. Both must be JSON
    /// documents: where the demand's are not, the error says so, and else
    /// where the offer's are not.
    pub fn into_client(self) -> (client: Result<ClientAgreement, ErrorMessage>)
        ensures
            match json_parsed(self.demand_properties@) {
                Err(cause) => client matches Err(e) && e.message matches Some(text) && text@
                    == properties_error_text("Demand"@, cause),
                Ok(demand) => match json_parsed(self.offer_properties@) {
                    Err(cause) => client matches Err(e) && e.message matches Some(text) && text@
                        == properties_error_text("Offer"@, cause),
                    Ok(offer) => client matches Ok(c) && is_client_form(c, self, demand, offer),
                },
            },
    {
        let demand_properties = match parse_json(self.demand_properties.as_str()) {
            Ok(value) => value,
            Err(cause) => { return Err(properties_error("Demand", cause.as_str())); },
        };
        let offer_properties = match parse_json(self.offer_properties.as_str()) {
            Ok(value) => value,
            Err(cause) => { return Err(properties_error("Offer", cause.as_str())); },
        };
        Ok(self.client_with(demand_properties, offer_properties))
    }
}

} // verus!
