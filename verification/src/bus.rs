//! The core of the message bus: where a call goes, local handler or remote
//! peer, and the record of each call in flight, which a response, a timeout
//! or a transport failure resolves exactly once.

use crate::assoc::{
    assoc_has, assoc_map, assoc_unique, lemma_assoc_entry, lemma_assoc_push, lemma_assoc_remove,
};
use crate::endpoint::{Endpoint, EndpointView, NodeId};
use crate::error::{BindError, CallError};
use crate::message::{call_address, operation_address, RpcMessage};
use crate::registry::{registry_bind, registry_resolve, AddressRegistry, HandlerId};
use vstd::prelude::*;

verus! {

/// What a call is addressed to: a service address of this bus, or an
/// endpoint on some peer.
#[derive(Debug, PartialEq, Eq)]
pub enum Target {
    Address(String),
    Endpoint(Endpoint),
}

/// A target as a mathematical value.
pub ghost enum TargetView {
    Address(Seq<char>),
    Endpoint(EndpointView),
}

impl View for Target {
    type V = TargetView;

    open spec fn view(&self) -> TargetView {
        match *self {
            Target::Address(address) => TargetView::Address(address@),
            Target::Endpoint(endpoint) => TargetView::Endpoint(endpoint@),
        }
    }
}

/// Where a request is to go.
#[derive(Debug, PartialEq, Eq)]
pub enum Route {
    /// To a handler bound to this bus, in process.
    Local(HandlerId),
    /// Over the transport, to the bus of the peer.
    Remote { node: NodeId, path: String },
}

/// A route as a mathematical value.
pub ghost enum RouteView {
    Local(HandlerId),
    Remote { node: Seq<char>, path: Seq<char> },
}

impl View for Route {
    type V = RouteView;

    open spec fn view(&self) -> RouteView {
        match *self {
            Route::Local(handler) => RouteView::Local(handler),
            Route::Remote { node, path } => RouteView::Remote { node: node@, path: path@ },
        }
    }
}

/// The view of an optional route.
pub open spec fn opt_route_view(route: Option<Route>) -> Option<RouteView> {
    match route {
        Some(r) => Some(r@),
        None => None,
    }
}

/// What resolves a call in flight.
#[derive(Debug, PartialEq, Eq)]
pub enum CallEvent<R, E> {
    /// The handler answered, with its result or with its own error.
    Response(Result<R, E>),
    /// The transport could not deliver the request or the response, for the
    /// reason that the text gives.
    TransportFailed(String),
    /// The timer of the call went off.
    TimerFired,
}

/// A call that the bus has accepted: the token under which its resolution is
/// reported, where the request goes, and when the bus stops waiting.
#[derive(Debug, PartialEq, Eq)]
pub struct IssuedCall {
    pub token: u64,
    pub route: Route,
    pub deadline: Option<u64>,
}

/// The record of a call in flight.
#[derive(Debug, PartialEq, Eq)]
pub struct PendingCall {
    pub token: u64,
    pub deadline: Option<u64>,
}

/// A bus as a mathematical value.
pub ghost struct BusModel {
    /// The identity of the node that the bus runs on.
    pub node: Seq<char>,
    /// The handlers bound, by address.
    pub bound: Map<Seq<char>, HandlerId>,
    /// The deadlines of the calls in flight, by token.
    pub pending: Map<u64, Option<u64>>,
    /// The token of the next call.
    pub next_token: nat,
}

/// The states that a bus can be in: every call in flight has a token that
/// has been handed out.
pub open spec fn bus_wf(m: BusModel) -> bool {
    &&& m.next_token <= u64::MAX
    &&& forall|token: u64| #[trigger] m.pending.contains_key(token) ==> token < m.next_token
}

/// Where a request to the target goes: to the handler bound to the address,
/// also where an endpoint names this node itself; to the peer otherwise.
/// Nowhere, if the address has no handler here.
pub open spec fn bus_route(m: BusModel, target: TargetView) -> Option<RouteView> {
    match target {
        TargetView::Address(address) => match registry_resolve(m.bound, address) {
            Some(handler) => Some(RouteView::Local(handler)),
            None => None,
        },
        TargetView::Endpoint(endpoint) => if endpoint.node == m.node {
            match registry_resolve(m.bound, endpoint.path) {
                Some(handler) => Some(RouteView::Local(handler)),
                None => None,
            }
        } else {
            Some(RouteView::Remote { node: endpoint.node, path: endpoint.path })
        },
    }
}

/// The text of the failure of a request that can go nowhere.
pub open spec fn unreachable_text() -> Seq<char> {
    "the target cannot be reached"@
}

/// The text of the failure of a call that the bus does not issue: the target
/// cannot be reached, or, where it can, the bus has handed out all its tokens.
pub open spec fn call_refusal_text(m: BusModel, target: TargetView) -> Seq<char> {
    if bus_route(m, target) is None {
        unreachable_text()
    } else {
        "the bus has no token left"@
    }
}

/// When the bus stops waiting for a call issued at `now`.
pub open spec fn call_deadline(now: u64, timeout: Option<u64>) -> Option<u64> {
    match timeout {
        Some(t) => Some(
            if now + t <= u64::MAX {
                (now + t) as u64
            } else {
                u64::MAX
            },
        ),
        None => None,
    }
}

/// Whether a call can be issued: the target can be routed and a token is
/// left.
pub open spec fn bus_can_call(m: BusModel, target: TargetView) -> bool {
    bus_route(m, target) is Some && m.next_token < u64::MAX
}

/// The bus after a call was issued.
pub open spec fn bus_called(m: BusModel, now: u64, timeout: Option<u64>) -> BusModel {
    BusModel {
        pending: m.pending.insert(m.next_token as u64, call_deadline(now, timeout)),
        next_token: m.next_token + 1,
        ..m
    }
}

/// Whether the call with this token is in flight and its deadline has come
/// at the time `now`.
pub open spec fn call_overdue(m: BusModel, token: u64, now: u64) -> bool {
    &&& m.pending.contains_key(token)
    &&& m.pending[token] matches Some(deadline) && deadline <= now
}

/// Whether an event at the time `now` resolves the call with this token:
/// the call is in flight, and a timer counts only from the deadline on.
pub open spec fn bus_settles(m: BusModel, token: u64, timer: bool, now: u64) -> bool {
    &&& m.pending.contains_key(token)
    &&& timer ==> call_overdue(m, token, now)
}

/// What a call resolves to on the given event.
pub open spec fn call_outcome<R, E>(event: CallEvent<R, E>) -> Result<R, CallError<E>> {
    match event {
        CallEvent::Response(Ok(value)) => Ok(value),
        CallEvent::Response(Err(e)) => Err(CallError::Remote(e)),
        CallEvent::TransportFailed(cause) => Err(CallError::Transport(cause)),
        CallEvent::TimerFired => Err(CallError::Timeout),
    }
}

/// What the call with this token resolves to on an event at the time `now`.
/// From the deadline on the call has timed out, whatever the event is: a
/// response that is reported after the deadline comes too late.
pub open spec fn settle_outcome<R, E>(
    m: BusModel,
    token: u64,
    event: CallEvent<R, E>,
    now: u64,
) -> Result<R, CallError<E>> {
    if call_overdue(m, token, now) {
        Err(CallError::Timeout)
    } else {
        call_outcome(event)
    }
}

/// The bus after an event for the call with this token.
pub open spec fn bus_settled(m: BusModel, token: u64, timer: bool, now: u64) -> BusModel {
    if bus_settles(m, token, timer, now) {
        BusModel { pending: m.pending.remove(token), ..m }
    } else {
        m
    }
}

/// The message bus of a node.
pub struct Bus {
    node: NodeId,
    registry: AddressRegistry,
    pending: Vec<PendingCall>,
    next_token: u64,
}

impl View for Bus {
    type V = BusModel;

    closed spec fn view(&self) -> BusModel {
        BusModel {
            node: self.node@,
            bound: self.registry@,
            pending: assoc_map(self.calls()),
            next_token: self.next_token as nat,
        }
    }
}

impl Bus {
    closed spec fn calls(&self) -> Seq<(u64, Option<u64>)> {
        self.pending@.map_values(|c: PendingCall| (c.token, c.deadline))
    }

    /// Holds of every bus that `new` made and the methods changed.
    pub closed spec fn wf(&self) -> bool {
        &&& self.registry.wf()
        &&& assoc_unique(self.calls())
        &&& bus_wf(self@)
    }

    /// The bus of the given node: nothing bound, nothing in flight.
    pub fn new(node: NodeId) -> (bus: Bus)
        ensures
            bus.wf(),
            bus@ == (BusModel {
                node: node@,
                bound: Map::empty(),
                pending: Map::empty(),
                next_token: 0,
            }),
    {
        let bus = Bus { node, registry: AddressRegistry::new(), pending: Vec::new(), next_token: 0 };
        assert(bus@.pending =~= Map::<u64, Option<u64>>::empty());
        bus
    }

    /// Binds the handler to the address, unless the address has a handler
    /// already: then nothing changes and the bind fails with
    /// `AddressConflict`.
    pub fn bind(&mut self, address: &str, handler: HandlerId) -> (bound: Result<(), BindError>)
        requires
            old(self).wf(),
        ensures
            final(self).wf(),
            bound == registry_bind(old(self)@.bound, address@, handler).1,
            final(self)@ == (BusModel {
                bound: registry_bind(old(self)@.bound, address@, handler).0,
                ..old(self)@
            }),
    {
        self.registry.bind(address, handler)
    }

    /// Binds the handler to the operation of messages of type `M` of a
    /// service: to the address that calls with such messages to the service
    /// go to.
    pub fn bind_message<M: RpcMessage>(&mut self, service_path: &str, handler: HandlerId) -> (bound:
        Result<(), BindError>)
        requires
            old(self).wf(),
        ensures
            final(self).wf(),
            bound == registry_bind(
                old(self)@.bound,
                operation_address(service_path@, M::operation_id()),
                handler,
            ).1,
            final(self)@ == (BusModel {
                bound: registry_bind(
                    old(self)@.bound,
                    operation_address(service_path@, M::operation_id()),
                    handler,
                ).0,
                ..old(self)@
            }),
    {
        let address = call_address::<M>(service_path);
        self.bind(address.as_str(), handler)
    }

    /// Takes the handler of the address off the bus and returns it, if the
    /// address is bound.
    pub fn unbind(&mut self, address: &str) -> (handler: Option<HandlerId>)
        requires
            old(self).wf(),
        ensures
            final(self).wf(),
            handler == registry_resolve(old(self)@.bound, address@),
            final(self)@ == (BusModel { bound: old(self)@.bound.remove(address@), ..old(self)@ }),
    {
        self.registry.unbind(address)
    }

    /// Where a request to the target goes, if anywhere.
    pub fn route(&self, target: &Target) -> (route: Option<Route>)
        requires
            self.wf(),
        ensures
            opt_route_view(route) == bus_route(self@, target@),
    {
        match target {
            Target::Address(address) => match self.registry.resolve(address.as_str()) {
                Some(handler) => Some(Route::Local(handler)),
                None => None,
            },
            Target::Endpoint(endpoint) => {
                if endpoint.node.same_as(&self.node) {
                    match self.registry.resolve(endpoint.path.as_str()) {
                        Some(handler) => Some(Route::Local(handler)),
                        None => None,
                    }
                } else {
                    Some(
                        Route::Remote {
                            node: endpoint.node.duplicate(),
                            path: endpoint.path.clone(),
                        },
                    )
                }
            },
        }
    }

    /// Fire and forget: says where the request goes, and keeps no record of
    /// it. A request that can go nowhere fails with `Transport`; the failure
    /// is for the log, the sender does not wait for anything.
    pub fn send<E>(&self, target: &Target) -> (sent: Result<Route, CallError<E>>)
        requires
            self.wf(),
        ensures
            match bus_route(self@, target@) {
                Some(route) => sent matches Ok(r) && r@ == route,
                None => sent matches Err(CallError::Transport(cause)) && cause@
                    == unreachable_text(),
            },
    {
        match self.route(target) {
            Some(route) => Ok(route),
            None => Err(CallError::Transport("the target cannot be reached".to_owned())),
        }
    }

    /// Issues a call at the time `now`: says where the request goes and
    /// records the call as in flight, to be resolved once under the token
    /// handed out. A call that can go nowhere, such as one to an address
    /// that has no handler, fails at once with `Transport` and leaves no
    /// record.
    pub fn call<E>(&mut self, target: &Target, now: u64, timeout: Option<u64>) -> (issued: Result<
        IssuedCall,
        CallError<E>,
    >)
        requires
            old(self).wf(),
        ensures
            final(self).wf(),
            if bus_can_call(old(self)@, target@) {
                &&& final(self)@ == bus_called(old(self)@, now, timeout)
                &&& issued matches Ok(call)
                &&& call.token == old(self)@.next_token
                &&& Some(call.route@) == bus_route(old(self)@, target@)
                &&& call.deadline == call_deadline(now, timeout)
            } else {
                &&& final(self)@ == old(self)@
                &&& issued matches Err(CallError::Transport(cause))
                &&& cause@ == call_refusal_text(old(self)@, target@)
            },
    {
        let route = match self.route(target) {
            Some(route) => route,
            None => {
                return Err(CallError::Transport("the target cannot be reached".to_owned()));
            },
        };
        if self.next_token == u64::MAX {
            return Err(CallError::Transport("the bus has no token left".to_owned()));
        }
        let deadline = match timeout {
            Some(t) => match now.checked_add(t) {
                Some(d) => Some(d),
                None => Some(u64::MAX),
            },
            None => None,
        };
        let token = self.next_token;
        proof {
            assert(!assoc_has(self.calls(), token)) by {
                if assoc_has(self.calls(), token) {
                    assert(self@.pending.contains_key(token));
                }
            }
            lemma_assoc_push(self.calls(), token, deadline);
        }
        let ghost before = self.calls();
        self.pending.push(PendingCall { token, deadline });
        self.next_token = self.next_token + 1;
        assert(self.calls() =~= before.push((token, deadline)));
        assert(assoc_unique(self.calls()));
        assert(self@.pending == old(self)@.pending.insert(token, deadline));
        assert(bus_wf(self@));
        Ok(IssuedCall { token, route, deadline })
    }

    fn find(&self, token: u64) -> (place: Option<usize>)
        requires
            self.wf(),
        ensures
            match place {
                Some(i) => i < self.pending@.len() && self.calls()[i as int].0 == token
                    && self@.pending.contains_key(token) && self@.pending[token]
                    == self.pending@[i as int].deadline,
                None => !self@.pending.contains_key(token),
            },
    {
        let mut i: usize = 0;
        while i < self.pending.len()
            invariant
                i <= self.pending@.len(),
                self.wf(),
                forall|j: int| 0 <= j < i ==> (#[trigger] self.calls()[j]).0 != token,
            decreases self.pending@.len() - i,
        {
            if self.pending[i].token == token {
                proof {
                    lemma_assoc_entry(self.calls(), i as int);
                }
                return Some(i);
            }
            i = i + 1;
        }
        None
    }

    /// Whether the call with this token is in flight.
    pub fn is_pending(&self, token: u64) -> (pending: bool)
        requires
            self.wf(),
        ensures
            pending == self@.pending.contains_key(token),
    {
        self.find(token).is_some()
    }

    /// Reports an event for the call with this token, at the time `now`. If
    /// the call is in flight, and in the case of a timer its deadline has
    /// come, the call is resolved: its record is destroyed, and the result
    /// says what the caller gets. That is a timeout from the deadline on,
    /// also where the event is a response: it came too late. Else nothing
    /// changes and the event is dropped: so is whatever comes after the call
    /// was resolved.
    pub fn settle<R, E>(&mut self, token: u64, event: CallEvent<R, E>, now: u64) -> (outcome:
        Option<Result<R, CallError<E>>>)
        requires
            old(self).wf(),
        ensures
            final(self).wf(),
            final(self)@ == bus_settled(old(self)@, token, event is TimerFired, now),
            outcome == if bus_settles(old(self)@, token, event is TimerFired, now) {
                Some(settle_outcome(old(self)@, token, event, now))
            } else {
                None
            },
    {
        let place = match self.find(token) {
            Some(i) => i,
            None => { return None; },
        };
        let due = match self.pending[place].deadline {
            Some(deadline) => deadline <= now,
            None => false,
        };
        let outcome = if due {
            Err(CallError::Timeout)
        } else {
            match event {
                CallEvent::Response(Ok(value)) => Ok(value),
                CallEvent::Response(Err(e)) => Err(CallError::Remote(e)),
                CallEvent::TransportFailed(cause) => Err(CallError::Transport(cause)),
                CallEvent::TimerFired => { return None; },
            }
        };
        proof {
            lemma_assoc_remove(self.calls(), place as int);
        }
        let ghost before = self.calls();
        self.pending.remove(place);
        assert(self.calls() =~= before.remove(place as int));
        Some(outcome)
    }
}

} // verus!
