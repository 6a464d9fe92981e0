//! What holds of a bus whatever is done with it: a call to an address
//! without a handler fails at once, and a call is resolved once and for all.

use crate::bus::{
    bus_called, bus_can_call, bus_route, bus_settled, bus_settles, bus_wf, call_deadline,
    call_outcome, call_overdue, settle_outcome, BusModel, CallEvent, RouteView, TargetView,
};
use crate::error::CallError;
use crate::registry::{registry_bind, HandlerId};
use vstd::prelude::*;

verus! {

/// A call to a local address without a handler can go nowhere: it is not
/// issued, so it fails with `Transport` at once and nothing waits for it.
pub proof fn lemma_unbound_call_fails(m: BusModel, address: Seq<char>)
    requires
        !m.bound.contains_key(address),
    ensures
        bus_route(m, TargetView::Address(address)) is None,
        !bus_can_call(m, TargetView::Address(address)),
{
}

/// A call is resolved once: the event that resolves it destroys its record,
/// and no event after it resolves it again. So a call that timed out stays
/// timed out, and the response that comes later is dropped.
pub proof fn lemma_settled_once(
    m: BusModel,
    token: u64,
    timer: bool,
    now: u64,
    later_timer: bool,
    later: u64,
)
    requires
        bus_settles(m, token, timer, now),
    ensures
        !bus_settles(bus_settled(m, token, timer, now), token, later_timer, later),
        bus_settled(bus_settled(m, token, timer, now), token, later_timer, later) == bus_settled(
            m,
            token,
            timer,
            now,
        ),
{
}

/// The deadline decides: whatever is reported of a call from its deadline
/// on resolves it with a timeout, a response too, and whatever is reported
/// before the deadline resolves it with what is reported.
pub proof fn lemma_deadline_decides<R, E>(m: BusModel, token: u64, event: CallEvent<R, E>, now: u64)
    requires
        bus_settles(m, token, event is TimerFired, now),
    ensures
        call_overdue(m, token, now) ==> settle_outcome(m, token, event, now) == Err::<
            R,
            CallError<E>,
        >(CallError::Timeout),
        !call_overdue(m, token, now) ==> !(event is TimerFired) && settle_outcome(
            m,
            token,
            event,
            now,
        ) == call_outcome(event),
{
}

/// A call that exceeds its timeout is overdue: once the time that the
/// timeout allows has passed since the call was issued, its deadline has
/// come.
pub proof fn lemma_call_exceeding_timeout_is_overdue(
    m: BusModel,
    now: u64,
    timeout: u64,
    later: u64,
)
    requires
        bus_wf(m),
        m.next_token < u64::MAX,
        later >= now + timeout,
    ensures
        call_overdue(bus_called(m, now, Some(timeout)), m.next_token as u64, later),
        call_deadline(now, Some(timeout)) matches Some(deadline) && deadline <= later,
{
}

/// One thing done with a bus.
pub ghost enum BusOp {
    Bind { address: Seq<char>, handler: HandlerId },
    Unbind { address: Seq<char> },
    Call { target: TargetView, now: u64, timeout: Option<u64> },
    Settle { token: u64, timer: bool, now: u64 },
}

/// The bus after one thing was done with it.
pub open spec fn bus_apply(m: BusModel, op: BusOp) -> BusModel {
    match op {
        BusOp::Bind { address, handler } => BusModel {
            bound: registry_bind(m.bound, address, handler).0,
            ..m
        },
        BusOp::Unbind { address } => BusModel { bound: m.bound.remove(address), ..m },
        BusOp::Call { target, now, timeout } => if bus_can_call(m, target) {
            bus_called(m, now, timeout)
        } else {
            m
        },
        BusOp::Settle { token, timer, now } => bus_settled(m, token, timer, now),
    }
}

/// The bus after a series of things was done with it, in order.
pub open spec fn bus_run(m: BusModel, ops: Seq<BusOp>) -> BusModel
    decreases ops.len(),
{
    if ops.len() == 0 {
        m
    } else {
        bus_apply(bus_run(m, ops.drop_last()), ops.last())
    }
}

/// Tokens are never handed out twice: whatever is done with a bus, a token
/// that was handed out and whose call is no longer in flight never names a
/// call in flight again. So no event can resolve a call a second time, however
/// late it comes and whatever happened in between.
pub proof fn lemma_resolved_stays_resolved(m: BusModel, token: u64, ops: Seq<BusOp>)
    requires
        bus_wf(m),
        token < m.next_token,
        !m.pending.contains_key(token),
    ensures
        bus_wf(bus_run(m, ops)),
        m.next_token <= bus_run(m, ops).next_token,
        !bus_run(m, ops).pending.contains_key(token),
        forall|timer: bool, now: u64| !bus_settles(bus_run(m, ops), token, timer, now),
    decreases ops.len(),
{
    if ops.len() > 0 {
        lemma_resolved_stays_resolved(m, token, ops.drop_last());
    }
}

/// Whether the series never takes the handler off the address.
pub open spec fn keeps_bound(ops: Seq<BusOp>, address: Seq<char>) -> bool {
    forall|i: int| 0 <= i < ops.len() ==> (#[trigger] ops[i]) != (BusOp::Unbind { address })
}

/// The handler that was bound to an address first keeps it: whatever is done
/// with the bus, binds to the same address among it, every call to the
/// address goes to that handler, as long as nobody takes it off.
pub proof fn lemma_first_handler_keeps_address(
    m: BusModel,
    address: Seq<char>,
    handler: HandlerId,
    ops: Seq<BusOp>,
)
    requires
        m.bound.contains_key(address),
        m.bound[address] == handler,
        keeps_bound(ops, address),
    ensures
        bus_run(m, ops).bound.contains_key(address),
        bus_run(m, ops).bound[address] == handler,
        bus_route(bus_run(m, ops), TargetView::Address(address)) == Some(RouteView::Local(handler)),
    decreases ops.len(),
{
    if ops.len() > 0 {
        let earlier = ops.drop_last();
        assert forall|i: int| 0 <= i < earlier.len() implies (#[trigger] earlier[i]) != (
        BusOp::Unbind { address }) by {
            assert(earlier[i] == ops[i]);
        }
        lemma_first_handler_keeps_address(m, address, handler, earlier);
        assert(ops.last() == ops[ops.len() - 1]);
    }
}

/// The deadline of a call stands: whatever is done with the bus, a call that
/// is still in flight has the deadline that it was issued with. So a call
/// that exceeds its timeout resolves with a timeout, whatever happened in
/// between and whatever is reported of it then.
pub proof fn lemma_deadline_stands(m: BusModel, token: u64, ops: Seq<BusOp>)
    requires
        bus_wf(m),
        m.pending.contains_key(token),
    ensures
        bus_wf(bus_run(m, ops)),
        m.next_token <= bus_run(m, ops).next_token,
        bus_run(m, ops).pending.contains_key(token) ==> bus_run(m, ops).pending[token]
            == m.pending[token],
        forall|now: u64|
            bus_run(m, ops).pending.contains_key(token) && call_overdue(m, token, now)
                ==> #[trigger] call_overdue(bus_run(m, ops), token, now),
    decreases ops.len(),
{
    if ops.len() > 0 {
        lemma_deadline_stands(m, token, ops.drop_last());
    }
}

/// A call that is issued gets a token that no call in flight has, and that
/// no call before it had.
pub proof fn lemma_call_token_is_fresh(m: BusModel, target: TargetView, now: u64, timeout: Option<u64>)
    requires
        bus_wf(m),
        bus_can_call(m, target),
    ensures
        !m.pending.contains_key(m.next_token as u64),
        bus_called(m, now, timeout).pending.contains_key(m.next_token as u64),
        bus_wf(bus_called(m, now, timeout)),
{
}

} // verus!
