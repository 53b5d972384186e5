//! What holds of the client core, whatever the calls and frames: laws that
//! relate several of its steps, each proved from the steps' definitions.

use crate::client::{
    abandons, call_outcome, frame_delivery, frame_state, frame_target, finish_state, seen,
    submit_result, submit_state, ClientView, Delivery, DeliveryView, ResolutionView,
};
use crate::codec::decode_spec;
use crate::error::{CallErrorView, ErrorKind};
use vstd::prelude::*;

verus! {

/// A call that is submitted while connected, and answered by a frame that
/// echoes its id with a result and no error, ends in exactly that result:
/// the frame is delivered to the call's own slot, the call leaves the table,
/// and its outcome is the result.
pub proof fn law_echoed_result_is_returned<S, T>(
    s: ClientView<S, T>,
    id: Seq<char>,
    method: Seq<char>,
    params: serde_json::Value,
    slot: T,
    frame: Seq<char>,
    result: serde_json::Value,
)
    requires
        s.connected(),
        submit_result(s, id, method, params) is Ok,
        frame.len() > 0,
        decode_spec(frame) matches Ok(resp) && resp.id == id && resp.error is None && resp.result
            == Some(result),
    ensures
        ({
            let registered = submit_state(s, id, method, params, slot);
            &&& registered.pending.contains_key(id)
            &&& frame_delivery(registered, frame) == Some(
                DeliveryView { id, slot, payload: Some(frame) },
            )
            &&& call_outcome(id, seen(frame_delivery(registered, frame).unwrap())) == Ok::<
                serde_json::Value,
                CallErrorView,
            >(result)
            &&& frame_state(registered, frame).pending == s.pending.remove(id)
        }),
{
    let registered = submit_state(s, id, method, params, slot);
    assert(frame_target(frame) == Some((id, true)));
    assert(registered.pending.insert(id, slot).remove(id) =~= registered.pending.remove(id));
    assert(s.pending.insert(id, slot).remove(id) =~= s.pending.remove(id));
}

/// A call that is submitted while disconnected ends in a transport error at
/// once, and the table never holds an entry for it.
pub proof fn law_disconnected_call_registers_nothing<S, T>(
    s: ClientView<S, T>,
    id: Seq<char>,
    method: Seq<char>,
    params: serde_json::Value,
    slot: T,
)
    requires
        !s.connected(),
    ensures
        submit_result(s, id, method, params) matches Err(e) && e.kind() == ErrorKind::Transport,
        submit_state(s, id, method, params, slot) == s,
{
}

/// A call that times out ends in the timeout error, its id is gone from the
/// table, every other call stays as it was, and a response that comes late
/// for it is dropped without any effect.
pub proof fn law_timeout_leaves_no_entry<S, T>(s: ClientView<S, T>, id: Seq<char>, late: Seq<char>)
    requires
        frame_target(late) matches Some(t) && t.0 == id,
    ensures
        ({
            let after = finish_state(s, id, ResolutionView::TimedOut);
            &&& call_outcome(id, ResolutionView::TimedOut) == Err::<
                serde_json::Value,
                CallErrorView,
            >(CallErrorView::TimedOut)
            &&& !after.pending.contains_key(id)
            &&& after.pending == s.pending.remove(id)
            &&& frame_delivery(after, late) is None
            &&& frame_state(after, late) == after
        }),
{
}

/// When the connection is lost, every call in flight ends in the
/// abandonment error, and the table is empty at once.
pub proof fn law_loss_abandons_every_call<S, T>(s: ClientView<S, T>, deliveries: Seq<Delivery<T>>)
    requires
        abandons(deliveries, s.pending),
    ensures
        s.offline().pending == Map::<Seq<char>, T>::empty(),
        !s.offline().connected(),
        deliveries.len() == s.pending.dom().len(),
        forall|id: Seq<char>| #[trigger]
            s.pending.contains_key(id) ==> exists|i: int|
                0 <= i < deliveries.len() && (#[trigger] deliveries[i]).id@ == id
                    && deliveries[i].slot == s.pending[id],
        forall|i: int|
            0 <= i < deliveries.len() ==> call_outcome(
                (#[trigger] deliveries[i]).id@,
                seen(deliveries[i]@),
            ) == Err::<serde_json::Value, CallErrorView>(CallErrorView::ConnectionLost),
{
    assert forall|id: Seq<char>| #[trigger] s.pending.contains_key(id) implies exists|i: int|
        0 <= i < deliveries.len() && (#[trigger] deliveries[i]).id@ == id && deliveries[i].slot
            == s.pending[id] by {
        let i = choose|i: int| 0 <= i < deliveries.len() && (#[trigger] deliveries[i]).id@ == id;
        assert(deliveries[i].slot == s.pending[id]);
    }
    assert forall|i: int| 0 <= i < deliveries.len() implies call_outcome(
        (#[trigger] deliveries[i]).id@,
        seen(deliveries[i]@),
    ) == Err::<serde_json::Value, CallErrorView>(CallErrorView::ConnectionLost) by {
        assert(deliveries[i]@.payload == Some(Seq::<char>::empty()));
    }
}

/// A frame that speaks to no call in flight is dropped: nothing is
/// delivered and the state stays as it was. A frame that speaks to a call
/// in flight touches that call alone: every other call stays in the table
/// with its own slot.
pub proof fn law_frame_touches_one_call_at_most<S, T>(
    s: ClientView<S, T>,
    frame: Seq<char>,
    other: Seq<char>,
)
    ensures
        (frame_target(frame) matches Some(t) && s.pending.contains_key(t.0)) || (frame_delivery(
            s,
            frame,
        ) is None && frame_state(s, frame) == s),
        frame_delivery(s, frame) matches Some(d) ==> s.pending.contains_key(d.id) && d.slot
            == s.pending[d.id] && !frame_state(s, frame).pending.contains_key(d.id),
        !(frame_delivery(s, frame) matches Some(d) && d.id == other) ==> {
            &&& frame_state(s, frame).pending.contains_key(other) == s.pending.contains_key(other)
            &&& s.pending.contains_key(other) ==> frame_state(s, frame).pending[other]
                == s.pending[other]
        },
{
}

/// Responses are matched by id, not by order: whether the response to
/// another call came first or not, a frame is delivered to the same call,
/// with the same slot and the same payload.
pub proof fn law_order_of_responses_is_irrelevant<S, T>(
    s: ClientView<S, T>,
    first: Seq<char>,
    second: Seq<char>,
)
    requires
        frame_delivery(s, first) matches Some(a) && frame_delivery(s, second) matches Some(b)
            && a.id != b.id,
    ensures
        frame_delivery(frame_state(s, first), second) == frame_delivery(s, second),
        frame_delivery(frame_state(s, second), first) == frame_delivery(s, first),
        frame_state(frame_state(s, first), second) == frame_state(frame_state(s, second), first),
{
    let a = frame_delivery(s, first).unwrap();
    let b = frame_delivery(s, second).unwrap();
    assert(s.pending.remove(a.id).remove(b.id) =~= s.pending.remove(b.id).remove(a.id));
}

/// A response is accepted only by the call whose id it echoes: for every
/// other call it is a protocol violation.
pub proof fn law_foreign_response_is_rejected(id: Seq<char>, payload: Seq<char>)
    requires
        payload.len() > 0,
        decode_spec(payload) matches Ok(resp) && resp.id != id,
    ensures
        call_outcome(id, ResolutionView::Received(payload)) == Err::<
            serde_json::Value,
            CallErrorView,
        >(CallErrorView::MismatchedId),
        CallErrorView::MismatchedId.kind() == ErrorKind::ProtocolViolation,
{
}

} // verus!
