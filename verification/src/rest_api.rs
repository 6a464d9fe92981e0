//! Parameters that the market's REST interface reads from request paths.

use crate::agreement::ErrorMessage;
use crate::market::SubscriptionId;
use crate::payment::HttpStatus;
use vstd::prelude::*;

verus! {

/// Path of a request about one agreement.
#[derive(Clone, Debug, PartialEq, Eq)]
pub struct PathAgreement {
    pub agreement_id: String,
}

/// Path of a request about one subscription.
#[derive(Clone, Debug, PartialEq, Eq)]
pub struct PathSubscription {
    pub subscription_id: SubscriptionId,
}

/// Path of a request about one proposal of a subscription.
#[derive(Clone, Debug, PartialEq, Eq)]
pub struct PathSubscriptionProposal {
    pub subscription_id: SubscriptionId,
    pub proposal_id: String,
}

/// The reply to a request whose path cannot be read: a bad request, with
/// the cause as the message.
pub fn path_error(cause: String) -> (reply: (HttpStatus, ErrorMessage))
    ensures
        reply.0 == HttpStatus::BadRequest,
        reply.1.message == Some(cause),
{
    (HttpStatus::BadRequest, ErrorMessage { message: Some(cause) })
}

} // verus!
