//! The client core: the connection state and the pending call table behind one
//! value, and every decision of the call path, the inbound path and the
//! connection supervisor as a step on it.
//!
//! The core does no I/O and never waits. Whoever drives it performs what a
//! step asks for (write a frame, resolve a completion slot, connect, sleep)
//! and reports back what happened. `S` is the handle of the send half of a
//! live connection, `T` the completion slot that a caller waits on.

use crate::codec::{
    build_request, decode_response, decode_spec, encode_request, extract_id_from_response,
    interpret_response, outcome_view, request_for, request_text, response_outcome, salvaged_id,
};
use crate::error::{CallError, CallErrorView, ErrorKind};
use crate::ident::fresh_id;
use crate::json::{
    as_u64, json_error_text, json_member, json_object, json_string, json_u64, member,
    object_value, string_value,
};
use crate::pending::{
    distinct_ids, has_id, index_of_id, lemma_table_len, table_of, Pending, PendingTable,
};
use vstd::prelude::*;

verus! {

/// Seconds that a call waits for its response.
pub const REQUEST_TIMEOUT_SECS: u64 = 10;

/// Seconds between the loss of a connection and the next attempt to connect.
pub const RECONNECT_DELAY_SECS: u64 = 5;

/// The nonce that is assumed where the remote end gives none.
pub const DEFAULT_NONCE: u64 = 1;

/// Whether a connection is live, and if so the handle of its send half.
#[derive(Debug)]
pub enum ConnectionState<S> {
    Disconnected,
    Connected(S),
}

/// What is to be done with one completion slot: hand it the payload, or give
/// it up without one where there is none.
#[derive(Debug)]
pub struct Delivery<T> {
    pub id: String,
    pub slot: T,
    pub payload: Option<String>,
}

/// A [`Delivery`] with its strings as character sequences.
pub struct DeliveryView<T> {
    pub id: Seq<char>,
    pub slot: T,
    pub payload: Option<Seq<char>>,
}

impl<T> View for Delivery<T> {
    type V = DeliveryView<T>;

    open spec fn view(&self) -> DeliveryView<T> {
        DeliveryView {
            id: self.id@,
            slot: self.slot,
            payload: match self.payload {
                Some(p) => Some(p@),
                None => None,
            },
        }
    }
}

/// What the caller of a call saw on its completion slot.
#[derive(Clone, Debug, PartialEq, Eq)]
pub enum Resolution {
    /// The slot received a payload.
    Received(String),
    /// The slot was given up without a payload.
    SenderDropped,
    /// Nothing came within the time allowed.
    TimedOut,
}

/// A [`Resolution`] with its payload as a character sequence.
pub enum ResolutionView {
    Received(Seq<char>),
    SenderDropped,
    TimedOut,
}

impl View for Resolution {
    type V = ResolutionView;

    open spec fn view(&self) -> ResolutionView {
        match self {
            Resolution::Received(p) => ResolutionView::Received(p@),
            Resolution::SenderDropped => ResolutionView::SenderDropped,
            Resolution::TimedOut => ResolutionView::TimedOut,
        }
    }
}

/// A call that was registered: its id and the frame to write.
#[derive(Clone, Debug, PartialEq, Eq)]
pub struct Submission {
    pub id: String,
    pub frame: String,
}

/// A call that was not registered: its id, the reason, and its slot handed
/// back.
#[derive(Debug)]
pub struct Rejection<T> {
    pub id: String,
    pub error: CallError,
    pub slot: T,
}

/// What a failed write leaves to do: the error for the call whose frame was
/// being written, and the deliveries for the calls that the lost connection
/// takes with it.
#[derive(Debug)]
pub struct WriteFailure<T> {
    pub error: CallError,
    pub deliveries: Vec<Delivery<T>>,
}

/// What the connection supervisor is told.
#[derive(Debug)]
pub enum ConnectionEvent<S> {
    /// The supervisor starts.
    Started,
    /// An attempt to connect succeeded; holds the send half.
    Established(S),
    /// An attempt to connect failed.
    ConnectFailed,
    /// The live connection ended or failed.
    Lost,
    /// The delay before the next attempt is over.
    DelayElapsed,
}

/// What the connection supervisor asks for next.
#[derive(Clone, Copy, Debug, PartialEq, Eq, Structural)]
pub enum SupervisorAction {
    /// Try to connect to the endpoint.
    Connect,
    /// Read frames from the live connection until it ends.
    Listen,
    /// Wait so many seconds, then report that the delay is over.
    Wait { seconds: u64 },
}

/// One step of the connection supervisor: what to do next, and the
/// completion slots to resolve first.
#[derive(Debug)]
pub struct Step<T> {
    pub action: SupervisorAction,
    pub deliveries: Vec<Delivery<T>>,
}

/// The state of a client as contracts see it.
pub struct ClientView<S, T> {
    pub url: Seq<char>,
    pub connection: ConnectionState<S>,
    pub pending: Map<Seq<char>, T>,
}

impl<S, T> ClientView<S, T> {
    /// Whether a connection is live.
    pub open spec fn connected(self) -> bool {
        self.connection is Connected
    }

    /// The state with another pending table.
    pub open spec fn with_pending(self, pending: Map<Seq<char>, T>) -> Self {
        ClientView { url: self.url, connection: self.connection, pending }
    }

    /// The state after the connection is gone: no connection, no call in flight.
    pub open spec fn offline(self) -> Self {
        ClientView {
            url: self.url,
            connection: ConnectionState::Disconnected,
            pending: Map::empty(),
        }
    }
}

/// What submitting a call does: the frame to write, or the reason why there
/// is none. A request that cannot be serialised fails whatever the
/// connection; with no live connection nothing is submitted.
pub open spec fn submit_result<S, T>(
    s: ClientView<S, T>,
    id: Seq<char>,
    method: Seq<char>,
    params: serde_json::Value,
) -> Result<Seq<char>, CallErrorView> {
    match request_text(request_for(id, method, params)) {
        Err(e) => Err(CallErrorView::Encode(json_error_text(e))),
        Ok(frame) => if s.connected() {
            Ok(frame)
        } else {
            Err(CallErrorView::NotConnected)
        },
    }
}

/// The state after submitting a call: the call is registered exactly where
/// a frame is handed out.
pub open spec fn submit_state<S, T>(
    s: ClientView<S, T>,
    id: Seq<char>,
    method: Seq<char>,
    params: serde_json::Value,
    slot: T,
) -> ClientView<S, T> {
    if submit_result(s, id, method, params) is Ok {
        s.with_pending(s.pending.insert(id, slot))
    } else {
        s
    }
}

/// The call that a frame speaks to, and whether the frame is a response
/// envelope. An empty frame speaks to none. A frame that decodes speaks to
/// the call of its id. From any other frame the id is salvaged if it can be.
pub open spec fn frame_target(text: Seq<char>) -> Option<(Seq<char>, bool)> {
    if text.len() == 0 {
        None
    } else {
        match decode_spec(text) {
            Ok(resp) => Some((resp.id, true)),
            Err(_) => match salvaged_id(text) {
                Some(id) => Some((id, false)),
                None => None,
            },
        }
    }
}

/// The delivery that a frame causes: to a call in flight that the frame
/// speaks to, the frame's text if it is a response envelope, and no payload
/// if only its id could be salvaged.
pub open spec fn frame_delivery<S, T>(s: ClientView<S, T>, text: Seq<char>) -> Option<
    DeliveryView<T>,
> {
    match frame_target(text) {
        Some((id, decoded)) => if s.pending.contains_key(id) {
            Some(
                DeliveryView {
                    id,
                    slot: s.pending[id],
                    payload: if decoded {
                        Some(text)
                    } else {
                        None
                    },
                },
            )
        } else {
            None
        },
        None => None,
    }
}

/// The state after a frame: the call that gets a delivery leaves the table,
/// and nothing else changes.
pub open spec fn frame_state<S, T>(s: ClientView<S, T>, text: Seq<char>) -> ClientView<S, T> {
    match frame_delivery(s, text) {
        Some(d) => s.with_pending(s.pending.remove(d.id)),
        None => s,
    }
}

/// How a call ends, given what its caller saw on the completion slot.
pub open spec fn call_outcome(id: Seq<char>, resolution: ResolutionView) -> Result<
    serde_json::Value,
    CallErrorView,
> {
    match resolution {
        ResolutionView::Received(payload) => response_outcome(id, payload),
        ResolutionView::SenderDropped => Err(CallErrorView::NoResponse),
        ResolutionView::TimedOut => Err(CallErrorView::TimedOut),
    }
}

/// The state after a call ended: a call that timed out leaves the table; a
/// call that ended otherwise left it when its slot was resolved.
pub open spec fn finish_state<S, T>(
    s: ClientView<S, T>,
    id: Seq<char>,
    resolution: ResolutionView,
) -> ClientView<S, T> {
    if resolution is TimedOut {
        s.with_pending(s.pending.remove(id))
    } else {
        s
    }
}

/// What a caller sees on its completion slot after a delivery.
pub open spec fn seen<T>(d: DeliveryView<T>) -> ResolutionView {
    match d.payload {
        Some(p) => ResolutionView::Received(p),
        None => ResolutionView::SenderDropped,
    }
}

/// The deliveries abandon exactly the calls of a table: each call of the
/// table gets one delivery, to its own slot, with the empty payload, and
/// there is no other delivery.
pub open spec fn abandons<T>(ds: Seq<Delivery<T>>, pending: Map<Seq<char>, T>) -> bool {
    &&& pending.dom().finite()
    &&& ds.len() == pending.dom().len()
    &&& forall|i: int|
        0 <= i < ds.len() ==> {
            &&& pending.contains_key((#[trigger] ds[i]).id@)
            &&& pending[ds[i].id@] == ds[i].slot
            &&& ds[i]@.payload == Some(Seq::<char>::empty())
        }
    &&& forall|i: int, j: int|
        0 <= i < ds.len() && 0 <= j < ds.len() && i != j ==> (#[trigger] ds[i]).id@ != (
        #[trigger] ds[j]).id@
    &&& forall|id: Seq<char>| #[trigger]
        pending.contains_key(id) ==> exists|i: int|
            0 <= i < ds.len() && (#[trigger] ds[i]).id@ == id
}

/// What the supervisor asks for after an event.
pub open spec fn next_action<S>(event: ConnectionEvent<S>) -> SupervisorAction {
    match event {
        ConnectionEvent::Started => SupervisorAction::Connect,
        ConnectionEvent::Established(_) => SupervisorAction::Listen,
        ConnectionEvent::ConnectFailed => SupervisorAction::Wait { seconds: RECONNECT_DELAY_SECS },
        ConnectionEvent::Lost => SupervisorAction::Wait { seconds: RECONNECT_DELAY_SECS },
        ConnectionEvent::DelayElapsed => SupervisorAction::Connect,
    }
}

/// The state after the supervisor saw an event.
pub open spec fn supervised_state<S, T>(s: ClientView<S, T>, event: ConnectionEvent<S>) -> ClientView<
    S,
    T,
> {
    match event {
        ConnectionEvent::Started => s,
        ConnectionEvent::Established(sink) => ClientView {
            url: s.url,
            connection: ConnectionState::Connected(sink),
            pending: s.pending,
        },
        ConnectionEvent::ConnectFailed => s.offline(),
        ConnectionEvent::Lost => s.offline(),
        ConnectionEvent::DelayElapsed => s,
    }
}

/// The calls that the supervisor abandons on an event.
pub open spec fn abandoned_by<S, T>(s: ClientView<S, T>, event: ConnectionEvent<S>) -> Map<
    Seq<char>,
    T,
> {
    match event {
        ConnectionEvent::ConnectFailed => s.pending,
        ConnectionEvent::Lost => s.pending,
        _ => Map::empty(),
    }
}

/// The parameters of the call that asks for an address's next nonce.
pub open spec fn nonce_params(address: Seq<char>) -> serde_json::Value {
    json_object("address"@, json_string(address))
}

/// The nonce that a call's outcome gives: the unsigned integer under `nonce`
/// of a result, and the default for every other outcome.
pub open spec fn nonce_of(outcome: Result<serde_json::Value, CallErrorView>) -> u64 {
    match outcome {
        Ok(v) => match json_member(v, "nonce"@) {
            Some(n) => match json_u64(n) {
                Some(k) => k,
                None => DEFAULT_NONCE,
            },
            None => DEFAULT_NONCE,
        },
        Err(_) => DEFAULT_NONCE,
    }
}

/// Reads the nonce out of a call's outcome, falling back to the default.
/// The fallback makes the nonce a hint, not an authority.
pub fn nonce_from_outcome(outcome: &Result<serde_json::Value, CallError>) -> (r: u64)
    ensures
        r == nonce_of(outcome_view(*outcome)),
{
    match outcome {
        Ok(v) => match member(v, "nonce") {
            Some(n) => match as_u64(&n) {
                Some(k) => k,
                None => DEFAULT_NONCE,
            },
            None => DEFAULT_NONCE,
        },
        Err(_) => DEFAULT_NONCE,
    }
}

/// Turns the entries of a drained table into deliveries of the empty payload.
fn abandon_all<T>(entries: Vec<Pending<T>>) -> (r: Vec<Delivery<T>>)
    requires
        distinct_ids(entries@),
    ensures
        abandons(r@, table_of(entries@)),
{
    let ghost drained = entries@;
    let ghost n = drained.len() as int;
    let mut entries = entries;
    let mut out: Vec<Delivery<T>> = Vec::new();
    while entries.len() > 0
        invariant
            n == drained.len(),
            entries@.len() <= n,
            entries@ == drained.take(entries@.len() as int),
            out@.len() == n - entries@.len(),
            forall|j: int|
                0 <= j < out@.len() ==> {
                    &&& (#[trigger] out@[j]).id@ == drained[n - 1 - j].id@
                    &&& out@[j].slot == drained[n - 1 - j].slot
                    &&& out@[j]@.payload == Some(Seq::<char>::empty())
                },
        decreases entries@.len(),
    {
        let ghost k = entries@.len() as int;
        let e = entries.pop().unwrap();
        assert(e == drained[k - 1]);
        assert(entries@ =~= drained.take(k - 1));
        let payload = String::new();
        out.push(Delivery { id: e.id, slot: e.slot, payload: Some(payload) });
    }
    proof {
        let ds = out@;
        let pending = table_of(drained);
        lemma_table_len(drained);
        assert forall|i: int| 0 <= i < ds.len() implies {
            &&& pending.contains_key((#[trigger] ds[i]).id@)
            &&& pending[ds[i].id@] == ds[i].slot
            &&& ds[i]@.payload == Some(Seq::<char>::empty())
        } by {
            let a = n - 1 - i;
            assert(drained[a].id@ == ds[i].id@);
            assert(has_id(drained, ds[i].id@));
            let b = index_of_id(drained, ds[i].id@);
            assert(a == b);
        }
        assert forall|i: int, j: int| 0 <= i < ds.len() && 0 <= j < ds.len() && i != j implies (
        #[trigger] ds[i]).id@ != (#[trigger] ds[j]).id@ by {
            assert(drained[n - 1 - i].id@ == ds[i].id@);
            assert(drained[n - 1 - j].id@ == ds[j].id@);
        }
        assert forall|id: Seq<char>| #[trigger] pending.contains_key(id) implies exists|i: int|
            0 <= i < ds.len() && (#[trigger] ds[i]).id@ == id by {
            let a = index_of_id(drained, id);
            let i = n - 1 - a;
            assert(ds[i].id@ == drained[a].id@);
        }
    }
    out
}

/// The client core.
pub struct ClutchNodeClient<S, T> {
    url: String,
    connection: ConnectionState<S>,
    pending: PendingTable<T>,
}

impl<S, T> View for ClutchNodeClient<S, T> {
    type V = ClientView<S, T>;

    closed spec fn view(&self) -> ClientView<S, T> {
        ClientView { url: self.url@, connection: self.connection, pending: self.pending@ }
    }
}

impl<S, T> ClutchNodeClient<S, T> {
    /// A client for an endpoint: not connected, no call in flight.
    pub fn new(url: String) -> (r: Self)
        ensures
            r@.url == url@,
            r@.connection is Disconnected,
            r@.pending == Map::<Seq<char>, T>::empty(),
    {
        ClutchNodeClient { url, connection: ConnectionState::Disconnected, pending: PendingTable::new() }
    }

    /// The endpoint that the client connects to.
    pub fn url(&self) -> (r: &str)
        ensures
            r@ == self@.url,
    {
        self.url.as_str()
    }

    /// Whether a connection is live.
    pub fn is_connected(&self) -> (r: bool)
        ensures
            r == self@.connected(),
    {
        match &self.connection {
            ConnectionState::Connected(_) => true,
            ConnectionState::Disconnected => false,
        }
    }

    /// The send half of the live connection, if there is one.
    pub fn sink(&self) -> (r: Option<&S>)
        ensures
            match r {
                Some(s) => self@.connection == ConnectionState::Connected(*s),
                None => self@.connection is Disconnected,
            },
    {
        match &self.connection {
            ConnectionState::Connected(s) => Some(s),
            ConnectionState::Disconnected => None,
        }
    }

    /// The number of calls in flight.
    pub fn pending_count(&self) -> (r: usize)
        ensures
            self@.pending.dom().finite(),
            r == self@.pending.dom().len(),
    {
        self.pending.len()
    }

    /// Whether a call is in flight under the id.
    pub fn is_pending(&self, id: &str) -> (r: bool)
        ensures
            r == self@.pending.contains_key(id@),
    {
        self.pending.contains(id)
    }

    /// Submits a call under a given id: builds and serialises its request
    /// and, where a connection is live, registers the slot under the id and
    /// hands out the frame to write. Where the call is not registered the
    /// table stays as it was and the slot comes back with the reason.
    pub fn submit(&mut self, id: String, method: &str, params: serde_json::Value, slot: T) -> (r:
        Result<Submission, Rejection<T>>)
        ensures
            final(self)@ == submit_state(old(self)@, id@, method@, params, slot),
            match r {
                Ok(sub) => sub.id@ == id@ && submit_result(old(self)@, id@, method@, params) == Ok::<
                    Seq<char>,
                    CallErrorView,
                >(sub.frame@),
                Err(rej) => rej.id@ == id@ && rej.slot == slot && submit_result(
                    old(self)@,
                    id@,
                    method@,
                    params,
                ) == Err::<Seq<char>, CallErrorView>(rej.error@),
            },
    {
        let request = build_request(id.clone(), method, params);
        let frame = match encode_request(&request) {
            Ok(frame) => frame,
            Err(error) => {
                return Err(Rejection { id, error, slot });
            },
        };
        if !self.is_connected() {
            return Err(Rejection { id, error: CallError::NotConnected, slot });
        }
        self.pending.insert(id.clone(), slot);
        Ok(Submission { id, frame })
    }

    /// Submits a call under a fresh id. The id is drawn at random; whatever
    /// it is, the call is submitted as [`Self::submit`] does under that id,
    /// and the id comes back with the outcome.
    pub fn send_request(&mut self, method: &str, params: serde_json::Value, slot: T) -> (r: Result<
        Submission,
        Rejection<T>,
    >)
        ensures
            ({
                let id = match r {
                    Ok(sub) => sub.id@,
                    Err(rej) => rej.id@,
                };
                &&& final(self)@ == submit_state(old(self)@, id, method@, params, slot)
                &&& match r {
                    Ok(sub) => submit_result(old(self)@, id, method@, params) == Ok::<
                        Seq<char>,
                        CallErrorView,
                    >(sub.frame@),
                    Err(rej) => rej.slot == slot && submit_result(old(self)@, id, method@, params)
                        == Err::<Seq<char>, CallErrorView>(rej.error@),
                }
            }),
            !old(self)@.connected() ==> r is Err && final(self)@ == old(self)@ && r->Err_0.error@.kind()
                == ErrorKind::Transport,
    {
        let id = fresh_id();
        self.submit(id, method, params, slot)
    }

    /// Submits the call that asks the remote end for the next nonce of an
    /// address.
    pub fn get_next_nonce(&mut self, address: &str, slot: T) -> (r: Result<Submission, Rejection<T>>)
        ensures
            ({
                let id = match r {
                    Ok(sub) => sub.id@,
                    Err(rej) => rej.id@,
                };
                let params = nonce_params(address@);
                &&& final(self)@ == submit_state(old(self)@, id, "get_next_nonce"@, params, slot)
                &&& match r {
                    Ok(sub) => submit_result(old(self)@, id, "get_next_nonce"@, params) == Ok::<
                        Seq<char>,
                        CallErrorView,
                    >(sub.frame@),
                    Err(rej) => rej.slot == slot && submit_result(
                        old(self)@,
                        id,
                        "get_next_nonce"@,
                        params,
                    ) == Err::<Seq<char>, CallErrorView>(rej.error@),
                }
            }),
    {
        let params = object_value("address", string_value(address));
        self.send_request("get_next_nonce", params, slot)
    }

    /// Takes one text frame from the connection. A frame that speaks to a
    /// call in flight takes that call out of the table and yields the
    /// delivery to its slot. Every other frame is dropped and changes
    /// nothing.
    pub fn on_frame(&mut self, text: String) -> (r: Option<Delivery<T>>)
        ensures
            final(self)@ == frame_state(old(self)@, text@),
            match r {
                Some(d) => frame_delivery(old(self)@, text@) == Some(d@),
                None => frame_delivery(old(self)@, text@) is None,
            },
    {
        if text.as_str().is_empty() {
            return None;
        }
        let (id, decoded) = match decode_response(text.as_str()) {
            Ok(response) => (response.id, true),
            Err(_) => match extract_id_from_response(text.as_str()) {
                Some(id) => (id, false),
                None => {
                    return None;
                },
            },
        };
        match self.pending.remove(id.as_str()) {
            Some(slot) => {
                let payload = if decoded {
                    Some(text)
                } else {
                    None
                };
                Some(Delivery { id, slot, payload })
            },
            None => {
                assert(self@.pending =~= old(self)@.pending);
                None
            },
        }
    }

    /// Ends a call: decides its outcome from what its caller saw on the
    /// completion slot, and takes a call that timed out out of the table, so
    /// that a late response finds no entry.
    pub fn finish_call(&mut self, id: &str, resolution: Resolution) -> (r: Result<
        serde_json::Value,
        CallError,
    >)
        ensures
            outcome_view(r) == call_outcome(id@, resolution@),
            final(self)@ == finish_state(old(self)@, id@, resolution@),
    {
        match resolution {
            Resolution::Received(payload) => interpret_response(id, payload.as_str()),
            Resolution::SenderDropped => Err(CallError::NoResponse),
            Resolution::TimedOut => {
                self.pending.remove(id);
                Err(CallError::TimedOut)
            },
        }
    }

    /// Records that a connection is live.
    pub fn connection_established(&mut self, sink: S)
        ensures
            final(self)@ == supervised_state(old(self)@, ConnectionEvent::Established(sink)),
    {
        self.connection = ConnectionState::Connected(sink);
    }

    /// Records that the connection is gone: resets the connection state and
    /// drains the table. Every call that was in flight gets a delivery of
    /// the empty payload.
    pub fn connection_lost(&mut self) -> (r: Vec<Delivery<T>>)
        ensures
            final(self)@ == old(self)@.offline(),
            abandons(r@, old(self)@.pending),
    {
        self.connection = ConnectionState::Disconnected;
        let entries = self.pending.drain();
        abandon_all(entries)
    }

    /// Records that writing the frame of a call failed. The call leaves the
    /// table and ends in a transport error, and the connection is treated
    /// as lost, which abandons every other call in flight.
    pub fn write_failed(&mut self, id: &str, reason: &str) -> (r: WriteFailure<T>)
        ensures
            final(self)@ == old(self)@.offline(),
            r.error@ == CallErrorView::SendFailed(reason@),
            abandons(r.deliveries@, old(self)@.pending.remove(id@)),
    {
        self.pending.remove(id);
        let deliveries = self.connection_lost();
        WriteFailure { error: CallError::SendFailed(reason.to_owned()), deliveries }
    }

    /// One step of the connection supervisor. A connection that comes up is
    /// recorded and listened to. A connection that is lost, or that does not
    /// come up, resets the state, abandons every call in flight and is
    /// followed by the fixed delay; after the delay the supervisor connects
    /// again, without end.
    pub fn supervise(&mut self, event: ConnectionEvent<S>) -> (r: Step<T>)
        ensures
            final(self)@ == supervised_state(old(self)@, event),
            r.action == next_action(event),
            abandons(r.deliveries@, abandoned_by(old(self)@, event)),
    {
        match event {
            ConnectionEvent::Started => {
                proof {
                    lemma_nothing_abandoned::<T>();
                }
                Step { action: SupervisorAction::Connect, deliveries: Vec::new() }
            },
            ConnectionEvent::Established(sink) => {
                self.connection_established(sink);
                proof {
                    lemma_nothing_abandoned::<T>();
                }
                Step { action: SupervisorAction::Listen, deliveries: Vec::new() }
            },
            ConnectionEvent::ConnectFailed => {
                let deliveries = self.connection_lost();
                Step { action: SupervisorAction::Wait { seconds: RECONNECT_DELAY_SECS }, deliveries }
            },
            ConnectionEvent::Lost => {
                let deliveries = self.connection_lost();
                Step { action: SupervisorAction::Wait { seconds: RECONNECT_DELAY_SECS }, deliveries }
            },
            ConnectionEvent::DelayElapsed => {
                proof {
                    lemma_nothing_abandoned::<T>();
                }
                Step { action: SupervisorAction::Connect, deliveries: Vec::new() }
            },
        }
    }
}

/// No delivery abandons the calls of the empty table.
pub proof fn lemma_nothing_abandoned<T>()
    ensures
        abandons(Seq::<Delivery<T>>::empty(), Map::<Seq<char>, T>::empty()),
{
    assert(Map::<Seq<char>, T>::empty().dom() =~= Set::<Seq<char>>::empty());
}

} // verus!
