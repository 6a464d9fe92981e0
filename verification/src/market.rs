//! Identifiers and proposals of the market, as far as agreements are made
//! from them.

use crate::endpoint::NodeId;
use vstd::prelude::*;
use vstd::string::{StrSliceExecFns, StringExecFns};

verus! {

/// Which side of the market holds a record.
#[derive(Clone, Copy, Debug, PartialEq, Eq, Structural)]
pub enum OwnerType {
    Provider,
    Requestor,
}

/// A point in time: seconds since the epoch, and nanoseconds within the
/// second.
#[derive(Clone, Copy, Debug, PartialEq, Eq, Structural)]
pub struct Timestamp {
    pub secs: i64,
    pub nanos: u32,
}

/// Identifier of an offer or a demand on the market: a random part and the
/// hash of the subscription's content.
#[derive(Clone, Debug, PartialEq, Eq)]
pub struct SubscriptionId {
    pub random_id: String,
    pub hash: String,
}

/// The text form of a subscription identifier: the two parts, joined by a
/// hyphen.
pub open spec fn subscription_text(random_id: Seq<char>, hash: Seq<char>) -> Seq<char> {
    random_id + seq!['-'] + hash
}

/// Whether the text can be a part of a subscription identifier: it is not
/// empty and holds no hyphen.
pub open spec fn is_id_part(part: Seq<char>) -> bool {
    part.len() > 0 && forall|i: int| 0 <= i < part.len() ==> part[i] != '-'
}

/// The text form tells the parts: two identifiers with the same text form
/// have the same parts.
pub proof fn lemma_subscription_text_injective(
    random_a: Seq<char>,
    hash_a: Seq<char>,
    random_b: Seq<char>,
    hash_b: Seq<char>,
)
    requires
        is_id_part(random_a),
        is_id_part(random_b),
        subscription_text(random_a, hash_a) == subscription_text(random_b, hash_b),
    ensures
        random_a == random_b,
        hash_a == hash_b,
{
    let a = subscription_text(random_a, hash_a);
    let b = subscription_text(random_b, hash_b);
    let n = random_a.len() as int;
    let m = random_b.len() as int;
    assert(a[n] == '-');
    assert(b[m] == '-');
    if n < m {
        assert(b[n] == random_b[n]);
    }
    if m < n {
        assert(a[m] == random_a[m]);
    }
    assert(random_a =~= a.take(n));
    assert(random_b =~= b.take(m));
    assert(hash_a =~= a.skip(n + 1));
    assert(hash_b =~= b.skip(m + 1));
}

impl SubscriptionId {
    /// Reads an identifier from its text form: a random part and a hash,
    /// both not empty and without a hyphen, joined by a hyphen. Any other text
    /// is no identifier.
    pub fn from_text(text: &str) -> (id: Option<SubscriptionId>)
        ensures
            match id {
                Some(s) => s.to_text_spec() == text@ && is_id_part(s.random_id@) && is_id_part(
                    s.hash@,
                ),
                None => forall|random_id: Seq<char>, hash: Seq<char>|
                    is_id_part(random_id) && is_id_part(hash) ==> #[trigger] subscription_text(
                        random_id,
                        hash,
                    ) != text@,
            },
    {
        let len = text.unicode_len();
        let mut at: usize = 0;
        while at < len && text.get_char(at) != '-'
            invariant
                at <= len,
                len == text@.len(),
                forall|i: int| 0 <= i < at ==> text@[i] != '-',
            decreases len - at,
        {
            at = at + 1;
        }
        if at == 0 || at >= len || at + 1 >= len {
            proof {
                assert forall|random_id: Seq<char>, hash: Seq<char>|
                    is_id_part(random_id) && is_id_part(hash) implies #[trigger] subscription_text(
                    random_id,
                    hash,
                ) != text@ by {
                    let joined = subscription_text(random_id, hash);
                    if joined == text@ {
                        let n = random_id.len() as int;
                        assert(joined[n] == '-');
                        if at < n {
                            assert(joined[at as int] == random_id[at as int]);
                        }
                        assert(joined.len() == n + 1 + hash.len());
                    }
                }
            }
            return None;
        }
        let mut end: usize = at + 1;
        while end < len && text.get_char(end) != '-'
            invariant
                at < end <= len,
                len == text@.len(),
                forall|i: int| at < i < end ==> text@[i] != '-',
            decreases len - end,
        {
            end = end + 1;
        }
        if end < len {
            proof {
                assert forall|random_id: Seq<char>, hash: Seq<char>|
                    is_id_part(random_id) && is_id_part(hash) implies #[trigger] subscription_text(
                    random_id,
                    hash,
                ) != text@ by {
                    let joined = subscription_text(random_id, hash);
                    if joined == text@ {
                        let n = random_id.len() as int;
                        assert(joined[n] == '-');
                        if at < n {
                            assert(joined[at as int] == random_id[at as int]);
                        }
                        if n < at {
                            assert(text@[n] != '-');
                        }
                        assert(joined[end as int] == hash[end - n - 1]);
                    }
                }
            }
            return None;
        }
        let random_id = text.substring_char(0, at).to_owned();
        let hash = text.substring_char(at + 1, len).to_owned();
        proof {
            assert(text@ =~= subscription_text(random_id@, hash@));
        }
        Some(SubscriptionId { random_id, hash })
    }

    /// A copy of the identifier.
    pub fn duplicate(&self) -> (copy: SubscriptionId)
        ensures
            copy == *self,
    {
        SubscriptionId { random_id: self.random_id.clone(), hash: self.hash.clone() }
    }

    /// The text form of the identifier.
    pub open spec fn to_text_spec(&self) -> Seq<char> {
        subscription_text(self.random_id@, self.hash@)
    }

    /// The identifier as text.
    pub fn to_text(&self) -> (text: String)
        ensures
            text@ == self.to_text_spec(),
    {
        proof {
            reveal_strlit("-");
        }
        let text = self.random_id.clone();
        let text = text.concat("-");
        assert("-"@ =~= seq!['-']);
        text.concat(self.hash.as_str())
    }
}

/// Identifier of a proposal or of the agreement made from it.
#[derive(Clone, Debug, PartialEq, Eq)]
pub struct ProposalId {
    pub id: String,
    pub owner: OwnerType,
}

impl ProposalId {
    /// The identifier as clients see it: without the owner.
    pub fn into_client(self) -> (id: String)
        ensures
            id == self.id,
    {
        self.id
    }
}

/// What a proposal says: the properties offered or demanded, as a JSON
/// document, and the constraints on the other side.
#[derive(Debug, PartialEq, Eq)]
pub struct ProposalBody {
    pub id: ProposalId,
    pub properties: String,
    pub constraints: String,
}

/// The negotiation that a proposal belongs to.
#[derive(Debug, PartialEq, Eq)]
pub struct Negotiation {
    pub offer_id: SubscriptionId,
    pub demand_id: SubscriptionId,
    pub provider_id: NodeId,
    pub requestor_id: NodeId,
}

/// A proposal within a negotiation.
#[derive(Debug, PartialEq, Eq)]
pub struct Proposal {
    pub negotiation: Negotiation,
    pub body: ProposalBody,
}

} // verus!
