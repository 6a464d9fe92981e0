//! The address registry of a bus: which handler serves which service
//! address. An address has at most one handler.

use crate::assoc::{
    assoc_map, assoc_unique, lemma_assoc_domain, lemma_assoc_entry, lemma_assoc_push,
    lemma_assoc_remove,
};
use crate::error::BindError;
use vstd::prelude::*;

verus! {

/// Names a handler that is bound to the bus.
pub type HandlerId = u64;

/// One address with its handler.
#[derive(Debug, PartialEq, Eq)]
pub struct Binding {
    pub address: String,
    pub handler: HandlerId,
}

/// The registry: service addresses with their handlers.
pub struct AddressRegistry {
    bindings: Vec<Binding>,
}

impl View for AddressRegistry {
    type V = Map<Seq<char>, HandlerId>;

    closed spec fn view(&self) -> Map<Seq<char>, HandlerId> {
        assoc_map(self.pairs())
    }
}

/// The registry after a `bind`, and whether the address was free.
pub open spec fn registry_bind(
    bound: Map<Seq<char>, HandlerId>,
    address: Seq<char>,
    handler: HandlerId,
) -> (Map<Seq<char>, HandlerId>, Result<(), BindError>) {
    if bound.contains_key(address) {
        (bound, Err(BindError::AddressConflict))
    } else {
        (bound.insert(address, handler), Ok(()))
    }
}

/// The handler that serves the address, if it is bound.
pub open spec fn registry_resolve(bound: Map<Seq<char>, HandlerId>, address: Seq<char>) -> Option<
    HandlerId,
> {
    if bound.contains_key(address) {
        Some(bound[address])
    } else {
        None
    }
}

impl AddressRegistry {
    closed spec fn pairs(&self) -> Seq<(Seq<char>, HandlerId)> {
        self.bindings@.map_values(|b: Binding| (b.address@, b.handler))
    }

    /// Holds of every registry that `new` made and the methods changed.
    pub closed spec fn wf(&self) -> bool {
        assoc_unique(self.pairs())
    }

    /// A registry with no address bound.
    pub fn new() -> (registry: AddressRegistry)
        ensures
            registry.wf(),
            registry@ == Map::<Seq<char>, HandlerId>::empty(),
    {
        let registry = AddressRegistry { bindings: Vec::new() };
        assert(registry@ =~= Map::<Seq<char>, HandlerId>::empty());
        registry
    }

    fn find(&self, address: &str) -> (place: Option<usize>)
        requires
            self.wf(),
        ensures
            match place {
                Some(i) => i < self.bindings@.len() && self.pairs()[i as int].0 == address@
                    && self@.contains_key(address@) && self@[address@]
                    == self.bindings@[i as int].handler,
                None => !self@.contains_key(address@),
            },
    {
        let key = address.to_owned();
        let mut i: usize = 0;
        while i < self.bindings.len()
            invariant
                i <= self.bindings@.len(),
                key@ == address@,
                self.wf(),
                forall|j: int| 0 <= j < i ==> (#[trigger] self.pairs()[j]).0 != address@,
            decreases self.bindings@.len() - i,
        {
            if self.bindings[i].address == key {
                proof {
                    lemma_assoc_entry(self.pairs(), i as int);
                }
                return Some(i);
            }
            i = i + 1;
        }
        None
    }

    /// Binds the handler to the address, unless the address has a handler
    /// already: then the registry stays as it is and the bind fails with
    /// `AddressConflict`.
    pub fn bind(&mut self, address: &str, handler: HandlerId) -> (bound: Result<(), BindError>)
        requires
            old(self).wf(),
        ensures
            final(self).wf(),
            (final(self)@, bound) == registry_bind(old(self)@, address@, handler),
    {
        match self.find(address) {
            Some(_) => Err(BindError::AddressConflict),
            None => {
                proof {
                    lemma_assoc_push(self.pairs(), address@, handler);
                }
                let ghost before = self.pairs();
                self.bindings.push(Binding { address: address.to_owned(), handler });
                assert(self.pairs() =~= before.push((address@, handler)));
                Ok(())
            },
        }
    }

    /// Takes the handler of the address out of the registry and returns it,
    /// if the address is bound.
    pub fn unbind(&mut self, address: &str) -> (handler: Option<HandlerId>)
        requires
            old(self).wf(),
        ensures
            final(self).wf(),
            handler == registry_resolve(old(self)@, address@),
            final(self)@ == old(self)@.remove(address@),
    {
        match self.find(address) {
            Some(i) => {
                proof {
                    lemma_assoc_remove(self.pairs(), i as int);
                }
                let ghost before = self.pairs();
                let binding = self.bindings.remove(i);
                assert(self.pairs() =~= before.remove(i as int));
                Some(binding.handler)
            },
            None => {
                assert(self@ =~= self@.remove(address@));
                None
            },
        }
    }

    /// The handler that serves the address, if it is bound.
    pub fn resolve(&self, address: &str) -> (handler: Option<HandlerId>)
        requires
            self.wf(),
        ensures
            handler == registry_resolve(self@, address@),
    {
        match self.find(address) {
            Some(i) => Some(self.bindings[i].handler),
            None => None,
        }
    }

    /// The number of addresses bound.
    pub fn len(&self) -> (count: usize)
        requires
            self.wf(),
        ensures
            count == self@.dom().len(),
            self@.dom().finite(),
    {
        proof {
            self.lemma_domain_size();
        }
        self.bindings.len()
    }

    proof fn lemma_domain_size(&self)
        requires
            self.wf(),
        ensures
            self@.dom().finite(),
            self@.dom().len() == self.bindings@.len(),
    {
        lemma_assoc_domain(self.pairs());
    }
}

/// Of two binds to one address the first wins: the second fails with
/// `AddressConflict` and changes nothing, so the first handler stays bound and
/// is the one that every later call to the address resolves to.
pub proof fn lemma_first_bind_wins(
    bound: Map<Seq<char>, HandlerId>,
    address: Seq<char>,
    first: HandlerId,
    second: HandlerId,
)
    requires
        registry_bind(bound, address, first).1 is Ok,
    ensures
        ({
            let after_first = registry_bind(bound, address, first).0;
            let (after_second, outcome) = registry_bind(after_first, address, second);
            &&& outcome == Err::<(), BindError>(BindError::AddressConflict)
            &&& after_second == after_first
            &&& registry_resolve(after_second, address) == Some(first)
        }),
{
}

/// A bind touches no other address: what the other addresses resolve to is
/// what they resolved to before.
pub proof fn lemma_bind_keeps_others(
    bound: Map<Seq<char>, HandlerId>,
    address: Seq<char>,
    handler: HandlerId,
    other: Seq<char>,
)
    requires
        other != address,
    ensures
        registry_resolve(registry_bind(bound, address, handler).0, other) == registry_resolve(
            bound,
            other,
        ),
{
}

} // verus!
