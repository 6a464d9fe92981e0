use yagna_core::agreement::{
    properties_error, Agreement, AgreementState, ClientAgreementState, ErrorMessage,
};
use yagna_core::endpoint::NodeId;
use yagna_core::market::{
    Negotiation, OwnerType, Proposal, ProposalBody, ProposalId, SubscriptionId, Timestamp,
};
use yagna_core::payment::HttpStatus;
use yagna_core::rest_api::{
    path_error, PathAgreement, PathSubscription, PathSubscriptionProposal,
};

fn subscription(random: &str, hash: &str) -> SubscriptionId {
    SubscriptionId { random_id: random.to_string(), hash: hash.to_string() }
}

fn proposal(id: &str, owner: OwnerType, properties: &str, constraints: &str) -> Proposal {
    Proposal {
        negotiation: Negotiation {
            offer_id: subscription("o1", "0ffe"),
            demand_id: subscription("d1", "de3a"),
            provider_id: NodeId::parse("0xprovider").unwrap(),
            requestor_id: NodeId::parse("0xrequestor").unwrap(),
        },
        body: ProposalBody {
            id: ProposalId { id: id.to_string(), owner },
            properties: properties.to_string(),
            constraints: constraints.to_string(),
        },
    }
}

fn agreement(demand_properties: &str, offer_properties: &str) -> Agreement {
    Agreement::new_with_ts(
        ProposalId { id: "agr".to_string(), owner: OwnerType::Requestor },
        proposal("dp", OwnerType::Requestor, demand_properties, "(demand)"),
        proposal("op", OwnerType::Provider, offer_properties, "(offer)"),
        Timestamp { secs: 2000, nanos: 5 },
        Timestamp { secs: 1000, nanos: 7 },
    )
}

#[test]
fn agreement_state_names() {
    let all = [
        (AgreementState::Proposal, "Proposal", ClientAgreementState::Proposal),
        (AgreementState::Pending, "Pending", ClientAgreementState::Pending),
        (AgreementState::Cancelled, "Cancelled", ClientAgreementState::Cancelled),
        (AgreementState::Rejected, "Rejected", ClientAgreementState::Rejected),
        (AgreementState::Approved, "Approved", ClientAgreementState::Approved),
        (AgreementState::Expired, "Expired", ClientAgreementState::Expired),
        (AgreementState::Terminated, "Terminated", ClientAgreementState::Terminated),
    ];
    for (state, name, client) in all {
        assert_eq!(state.name(), name);
        assert_eq!(AgreementState::from_name(name), Some(state));
        assert_eq!(ClientAgreementState::from(state), client);
    }
    assert_eq!(AgreementState::from_name("proposal"), None);
    assert_eq!(AgreementState::from_name(""), None);
    assert_eq!(AgreementState::from_name("Approved "), None);
}

#[test]
fn subscription_id_as_text() {
    assert_eq!(subscription("abc", "0123").to_text(), "abc-0123");
    assert_eq!(subscription("abc", "0123").duplicate(), subscription("abc", "0123"));
    assert_eq!(
        ProposalId { id: "xyz".to_string(), owner: OwnerType::Provider }.into_client(),
        "xyz"
    );
}

#[test]
fn subscription_id_from_text() {
    assert_eq!(SubscriptionId::from_text("abc-0123"), Some(subscription("abc", "0123")));
    assert_eq!(SubscriptionId::from_text("a-b"), Some(subscription("a", "b")));
    for text in ["", "-", "abc", "abc-", "-0123", "a-b-c", "a--b", "--", "a-b-"] {
        assert_eq!(SubscriptionId::from_text(text), None, "{:?}", text);
    }
    // not only ASCII
    assert_eq!(SubscriptionId::from_text("\u{e9}t\u{e9}-\u{fc}"), Some(subscription("\u{e9}t\u{e9}", "\u{fc}")));
    // the text form is read back as it was written
    let id = subscription("c0ffee", "0123456789abcdef");
    assert_eq!(SubscriptionId::from_text(&id.to_text()), Some(id));
}

#[test]
fn unreadable_path_is_a_bad_request() {
    let (status, error) = path_error("missing field".to_string());
    assert_eq!(status, HttpStatus::BadRequest);
    assert_eq!(status.code(), 400);
    assert_eq!(error, ErrorMessage { message: Some("missing field".to_string()) });
}

#[test]
fn new_agreement_is_a_proposal() {
    let a = agreement("{}", "{}");
    assert_eq!(a.id, ProposalId { id: "agr".to_string(), owner: OwnerType::Requestor });
    assert_eq!(a.state, AgreementState::Proposal);
    assert_eq!(a.demand_properties, "{}");
    assert_eq!(a.offer_properties, "{}");
    assert_eq!(a.demand_constraints, "(demand)");
    assert_eq!(a.offer_constraints, "(offer)");
    assert_eq!(a.offer_id, subscription("o1", "0ffe"));
    assert_eq!(a.demand_id, subscription("d1", "de3a"));
    assert_eq!(a.offer_proposal_id.id, "op");
    assert_eq!(a.demand_proposal_id.id, "dp");
    assert_eq!(a.provider_id, NodeId::parse("0xprovider").unwrap());
    assert_eq!(a.requestor_id, NodeId::parse("0xrequestor").unwrap());
    assert_eq!(a.session_id, None);
    assert_eq!(a.creation_ts, Timestamp { secs: 1000, nanos: 7 });
    assert_eq!(a.valid_to, Timestamp { secs: 2000, nanos: 5 });
    assert_eq!(a.approved_ts, None);
    assert_eq!(a.proposed_signature, None);
    assert_eq!(a.approved_signature, None);
    assert_eq!(a.committed_signature, None);
}

#[test]
fn agreement_into_client() {
    let mut a = agreement(r#"{"golem.node.id.name": "requestor", "n": 3}"#, r#"{"cpu": {"cores": 4}}"#);
    a.state = AgreementState::Approved;
    a.approved_ts = Some(Timestamp { secs: 1500, nanos: 0 });
    a.proposed_signature = Some("sig-p".to_string());
    a.session_id = Some("session".to_string());
    let client = a.into_client().unwrap();
    assert_eq!(client.agreement_id, "agr");
    assert_eq!(client.state, ClientAgreementState::Approved);
    assert_eq!(client.demand.properties["n"], 3);
    assert_eq!(client.demand.properties["golem.node.id.name"], "requestor");
    assert_eq!(client.demand.constraints, "(demand)");
    assert_eq!(client.demand.requestor_id, NodeId::parse("0xrequestor").unwrap());
    assert_eq!(client.demand.demand_id, "d1-de3a");
    assert_eq!(client.demand.timestamp, Timestamp { secs: 1000, nanos: 7 });
    assert_eq!(client.offer.properties["cpu"]["cores"], 4);
    assert_eq!(client.offer.constraints, "(offer)");
    assert_eq!(client.offer.provider_id, NodeId::parse("0xprovider").unwrap());
    assert_eq!(client.offer.offer_id, "o1-0ffe");
    assert_eq!(client.offer.timestamp, Timestamp { secs: 1000, nanos: 7 });
    assert_eq!(client.valid_to, Timestamp { secs: 2000, nanos: 5 });
    assert_eq!(client.approved_date, Some(Timestamp { secs: 1500, nanos: 0 }));
    assert_eq!(client.timestamp, Timestamp { secs: 1000, nanos: 7 });
    assert_eq!(client.app_session_id, None);
    assert_eq!(client.proposed_signature, Some("sig-p".to_string()));
    assert_eq!(client.approved_signature, None);
    assert_eq!(client.committed_signature, None);
}

#[test]
fn agreement_with_broken_demand_properties() {
    let error = agreement("{not json", "{}").into_client().unwrap_err();
    let message = error.message.unwrap();
    let cause = serde_json::from_str::<serde_json::Value>("{not json").unwrap_err().to_string();
    assert_eq!(message, format!("Can't serialize Demand properties. Error: {}", cause));
}

#[test]
fn agreement_with_broken_offer_properties() {
    let error = agreement("{}", "").into_client().unwrap_err();
    let message = error.message.unwrap();
    let cause = serde_json::from_str::<serde_json::Value>("").unwrap_err().to_string();
    assert_eq!(message, format!("Can't serialize Offer properties. Error: {}", cause));
    // where both are broken, the demand's error is the one reported
    let error = agreement("[", "]").into_client().unwrap_err();
    assert!(error.message.unwrap().starts_with("Can't serialize Demand properties. Error: "));
}

#[test]
fn properties_error_message() {
    assert_eq!(
        properties_error("Offer", "EOF"),
        ErrorMessage { message: Some("Can't serialize Offer properties. Error: EOF".to_string()) }
    );
}

#[test]
fn rest_paths_hold_their_identifiers() {
    let path = PathAgreement { agreement_id: "agr".to_string() };
    assert_eq!(path.agreement_id, "agr");
    let path = PathSubscription { subscription_id: subscription("a", "b") };
    assert_eq!(path.subscription_id.to_text(), "a-b");
    let path = PathSubscriptionProposal {
        subscription_id: subscription("a", "b"),
        proposal_id: "p".to_string(),
    };
    assert_eq!(path.proposal_id, "p");
    assert_eq!(path.subscription_id, subscription("a", "b"));
}
