//! One end of a session: the state that pairs outbound requests with inbound
//! responses.
//!
//! An [`Agent`] issues request ids from a counter, remembers for each
//! outstanding request the completion slot that its caller waits on, and
//! queues the envelopes that the writer of the transport has to send. It does
//! no I/O: whoever drives the transport hands it the decoded envelopes and
//! takes the queued ones.

use crate::connect::CHANNEL_CAPACITY;
use crate::json::Json;
use crate::rpc::{
    Envelope, JsonRPC, Notification, Request, RequestId, RequestView, Response, ResponseError,
};
use crate::types::{DownloadParams, Status, StatusView};
use std::collections::{HashMap, VecDeque};
use vstd::prelude::*;

verus! {

/// The mathematical value of an [`Agent`] whose completion slots have the
/// type `T`.
pub struct AgentState<T> {
    /// The id that the next request gets.
    pub next_request_id: u64,
    /// The slot of each request that still waits for its response.
    pub pending: Map<u64, T>,
    /// The envelopes that wait to be sent, the oldest first.
    pub outbox: Seq<Envelope>,
    /// Whether the transport has ended.
    pub closed: bool,
}

impl<T> AgentState<T> {
    /// What holds of every agent: each pending id was issued, so it is below
    /// the counter, nothing is pending once the transport has ended, and the
    /// queue for the writer holds no more envelopes than it has room for.
    pub open spec fn well_formed(self) -> bool {
        &&& self.pending.dom().finite()
        &&& forall|id: u64| self.pending.contains_key(id) ==> id < self.next_request_id
        &&& self.closed ==> self.pending == Map::<u64, T>::empty()
        &&& self.outbox.len() <= CHANNEL_CAPACITY
    }

    /// Whether the queue for the writer has room for one more envelope.
    pub open spec fn has_room(self) -> bool {
        self.outbox.len() < CHANNEL_CAPACITY
    }

    /// The agent of a fresh session.
    pub open spec fn start() -> AgentState<T> {
        AgentState {
            next_request_id: 0,
            pending: Map::empty(),
            outbox: Seq::empty(),
            closed: false,
        }
    }

    /// Whether a request can be issued: the transport is there, an id is
    /// left, and the queue for the writer has room. The largest id stands
    /// for "no id" and is never issued.
    pub open spec fn can_send(self) -> bool {
        !self.closed && self.next_request_id < u64::MAX && self.has_room()
    }

    /// Why no request can be issued, where none can.
    pub open spec fn refusal(self) -> CallError {
        if self.closed {
            CallError::Closed
        } else if self.next_request_id == u64::MAX {
            CallError::Exhausted
        } else {
            CallError::Full
        }
    }

    /// After a request for `method` was issued with `slot` to complete.
    /// The id is the counter's value; the counter goes up by one.
    pub open spec fn send(self, method: Seq<char>, params: crate::json::JsonValue, slot: T)
        -> AgentState<T> {
        AgentState {
            next_request_id: (self.next_request_id + 1) as u64,
            pending: self.pending.insert(self.next_request_id, slot),
            outbox: self.outbox.push(
                Envelope::Request(RequestView { id: self.next_request_id, method, params }),
            ),
            closed: self.closed,
        }
    }

    /// After an inbound envelope was handled: a response takes its id out of
    /// the pending requests, anything else changes nothing.
    pub open spec fn receive(self, envelope: Envelope) -> AgentState<T> {
        match envelope {
            Envelope::Response(response) => AgentState {
                pending: self.pending.remove(response.id),
                ..self
            },
            _ => self,
        }
    }

    /// After an envelope was queued for the writer.
    pub open spec fn enqueue(self, envelope: Envelope) -> AgentState<T> {
        AgentState { outbox: self.outbox.push(envelope), ..self }
    }

    /// After the writer took the oldest queued envelope.
    pub open spec fn dequeue(self) -> AgentState<T> {
        AgentState { outbox: self.outbox.drop_first(), ..self }
    }

    /// After the transport ended: every pending slot is dropped.
    pub open spec fn close(self) -> AgentState<T> {
        AgentState { pending: Map::empty(), closed: true, ..self }
    }
}

/// The values of queued envelopes.
pub open spec fn envelopes(queue: Seq<JsonRPC>) -> Seq<Envelope> {
    Seq::new(queue.len(), |i: int| queue[i]@)
}

/// One end of a session. `T` is the completion slot that a caller of
/// [`Agent::send_request`] leaves behind and gets back with the response.
#[derive(Debug)]
pub struct Agent<T> {
    next_request_id: u64,
    pending: HashMap<u64, T>,
    outbox: VecDeque<JsonRPC>,
    closed: bool,
}

/// Why no request was issued.
#[derive(Clone, Copy, Debug, PartialEq, Eq, Structural)]
pub enum CallError {
    /// The transport has ended.
    Closed,
    /// Every id of the session has been issued.
    Exhausted,
    /// The queue for the writer is full: the caller has to wait until the
    /// writer has taken an envelope.
    Full,
}

/// What became of an inbound envelope.
#[derive(Debug, PartialEq, Eq)]
pub enum Handled<T> {
    /// A response to a pending request: its slot, to be completed with the
    /// response.
    Completed(T, Response),
    /// A response to no pending request. It goes no further.
    Unknown(Response),
    /// A request of the other end, to be answered by a handler.
    Request(Request),
    /// A notification.
    Notification(Notification),
}

/// Why a status call gave no status.
#[derive(Debug, PartialEq, Eq)]
pub enum StatusError {
    /// The agent answered with an error.
    Failed(ResponseError),
    /// The response carries neither an error nor a result.
    Empty,
    /// The result is no status report.
    Malformed,
    /// No answer came: the transport ended first.
    Canceled,
}

/// The mathematical value of a [`StatusError`].
pub enum StatusErrorView {
    Failed(crate::rpc::ResponseErrorView),
    Empty,
    Malformed,
    Canceled,
}

impl View for StatusError {
    type V = StatusErrorView;

    open spec fn view(&self) -> StatusErrorView {
        match self {
            StatusError::Failed(error) => StatusErrorView::Failed(error@),
            StatusError::Empty => StatusErrorView::Empty,
            StatusError::Malformed => StatusErrorView::Malformed,
            StatusError::Canceled => StatusErrorView::Canceled,
        }
    }
}

/// The value of an answer that may not have come.
pub open spec fn optional_response(answer: Option<&Response>) -> Option<crate::rpc::ResponseView> {
    match answer {
        Some(response) => Some(response@),
        None => None,
    }
}

/// What the answer to `$/status` says: the status in its result, unless no
/// answer came, or the answer carries an error or no status.
pub open spec fn answered_status(answer: Option<crate::rpc::ResponseView>) -> Result<
    StatusView,
    StatusErrorView,
> {
    match answer {
        None => Err(StatusErrorView::Canceled),
        Some(response) => match response.error {
            Some(error) => Err(StatusErrorView::Failed(error)),
            None => match response.result {
                None => Err(StatusErrorView::Empty),
                Some(result) => match StatusView::of_json(result) {
                    Some(status) => Ok(status),
                    None => Err(StatusErrorView::Malformed),
                },
            },
        },
    }
}

/// Whether the answer to `$/ping` says that the peer is dead: no answer
/// came, or the answer carries an error.
pub open spec fn ping_failed(answer: Option<crate::rpc::ResponseView>) -> bool {
    match answer {
        None => true,
        Some(response) => response.error is Some,
    }
}

/// The view of what a status call gave.
pub open spec fn status_result(r: Result<Status, StatusError>) -> Result<
    StatusView,
    StatusErrorView,
> {
    match r {
        Ok(status) => Ok(status@),
        Err(e) => Err(e@),
    }
}

impl<T> View for Agent<T> {
    type V = AgentState<T>;

    closed spec fn view(&self) -> AgentState<T> {
        AgentState {
            next_request_id: self.next_request_id,
            pending: self.pending@,
            outbox: envelopes(self.outbox@),
            closed: self.closed,
        }
    }
}

impl<T> Agent<T> {
    /// The agent of a fresh session: ids start at 0, nothing is pending,
    /// nothing is queued.
    pub fn new() -> (agent: Agent<T>)
        ensures
            agent@ == AgentState::<T>::start(),
    {
        let agent = Agent {
            next_request_id: 0,
            pending: HashMap::new(),
            outbox: VecDeque::new(),
            closed: false,
        };
        assert(envelopes(agent.outbox@) =~= Seq::<Envelope>::empty());
        agent
    }

    /// The id that the next request gets.
    pub fn next_request_id(&self) -> (id: RequestId)
        ensures
            id@ == self@.next_request_id,
    {
        RequestId(self.next_request_id)
    }

    /// Whether the request `id` still waits for its response.
    pub fn is_pending(&self, id: RequestId) -> (pending: bool)
        ensures
            pending == self@.pending.contains_key(id@),
    {
        self.pending.contains_key(&id.0)
    }

    /// How many requests wait for their response.
    pub fn pending_len(&self) -> (n: usize)
        ensures
            n == self@.pending.len(),
    {
        self.pending.len()
    }

    /// How many envelopes wait to be sent.
    pub fn outbox_len(&self) -> (n: usize)
        ensures
            n == self@.outbox.len(),
    {
        self.outbox.len()
    }

    /// Whether the transport has ended.
    pub fn is_closed(&self) -> (closed: bool)
        ensures
            closed == self@.closed,
    {
        self.closed
    }

    /// Issues a request: takes the next id, remembers `slot` under it and
    /// queues the request for the writer. The slot is remembered before the
    /// request can leave. Returns the id.
    ///
    /// Fails, and hands the slot back, when the transport has ended, the ids
    /// are used up, or the queue for the writer is full; nothing changes
    /// then.
    pub fn send_request(&mut self, method: &str, params: Json, slot: T) -> (r: Result<
        RequestId,
        (CallError, T),
    >)
        ensures
            match r {
                Ok(id) => {
                    &&& old(self)@.can_send()
                    &&& id@ == old(self)@.next_request_id
                    &&& final(self)@ == old(self)@.send(method@, params@, slot)
                },
                Err((error, returned)) => {
                    &&& !old(self)@.can_send()
                    &&& error == old(self)@.refusal()
                    &&& returned == slot
                    &&& final(self)@ == old(self)@
                },
            },
    {
        if self.closed {
            return Err((CallError::Closed, slot));
        }
        if self.next_request_id == u64::MAX {
            return Err((CallError::Exhausted, slot));
        }
        if self.outbox.len() >= CHANNEL_CAPACITY {
            return Err((CallError::Full, slot));
        }
        let id = self.next_request_id;
        let request = Request::new(RequestId(id), method.to_owned(), params);
        let ghost before = self.outbox@;
        self.pending.insert(id, slot);
        self.outbox.push_back(JsonRPC::Request(request));
        self.next_request_id = id + 1;
        proof {
            assert(envelopes(self.outbox@) =~= envelopes(before).push(
                Envelope::Request(RequestView { id, method: method@, params: params@ }),
            ));
        }
        Ok(RequestId(id))
    }

    /// Issues the liveness probe `$/ping`.
    pub fn ping(&mut self, slot: T) -> (r: Result<RequestId, (CallError, T)>)
        ensures
            match r {
                Ok(id) => {
                    &&& old(self)@.can_send()
                    &&& id@ == old(self)@.next_request_id
                    &&& final(self)@ == old(self)@.send("$/ping"@, crate::json::JsonValue::Null, slot)
                },
                Err((error, returned)) => {
                    &&& !old(self)@.can_send()
                    &&& error == old(self)@.refusal()
                    &&& returned == slot
                    &&& final(self)@ == old(self)@
                },
            },
    {
        self.send_request("$/ping", Json::Null, slot)
    }

    /// Issues `$/status`, which asks the other end who and what it is.
    pub fn status(&mut self, slot: T) -> (r: Result<RequestId, (CallError, T)>)
        ensures
            match r {
                Ok(id) => {
                    &&& old(self)@.can_send()
                    &&& id@ == old(self)@.next_request_id
                    &&& final(self)@ == old(self)@.send(
                        "$/status"@,
                        crate::json::JsonValue::Null,
                        slot,
                    )
                },
                Err((error, returned)) => {
                    &&& !old(self)@.can_send()
                    &&& error == old(self)@.refusal()
                    &&& returned == slot
                    &&& final(self)@ == old(self)@
                },
            },
    {
        self.send_request("$/status", Json::Null, slot)
    }

    /// Issues `$/download` with the store path to fetch and the substituter
    /// to fetch it from.
    pub fn download(&mut self, params: &DownloadParams, slot: T) -> (r: Result<
        RequestId,
        (CallError, T),
    >)
        ensures
            match r {
                Ok(id) => {
                    &&& old(self)@.can_send()
                    &&& id@ == old(self)@.next_request_id
                    &&& final(self)@ == old(self)@.send("$/download"@, params@.to_json(), slot)
                },
                Err((error, returned)) => {
                    &&& !old(self)@.can_send()
                    &&& error == old(self)@.refusal()
                    &&& returned == slot
                    &&& final(self)@ == old(self)@
                },
            },
    {
        self.send_request("$/download", params.to_json(), slot)
    }

    /// Issues `$/activate` with the store path of the system to switch to.
    pub fn activate(&mut self, params: &crate::types::ActivateParams, slot: T) -> (r: Result<
        RequestId,
        (CallError, T),
    >)
        ensures
            match r {
                Ok(id) => {
                    &&& old(self)@.can_send()
                    &&& id@ == old(self)@.next_request_id
                    &&& final(self)@ == old(self)@.send("$/activate"@, params@.to_json(), slot)
                },
                Err((error, returned)) => {
                    &&& !old(self)@.can_send()
                    &&& error == old(self)@.refusal()
                    &&& returned == slot
                    &&& final(self)@ == old(self)@
                },
            },
    {
        self.send_request("$/activate", params.to_json(), slot)
    }

    /// Handles one inbound envelope.
    ///
    /// A response leaves the pending requests: where its id was pending, the
    /// slot comes back with it, to be completed; where not, the response is
    /// handed back as unknown and goes no further. A request or a
    /// notification changes nothing and is handed on.
    pub fn process_inbox(&mut self, envelope: JsonRPC) -> (handled: Handled<T>)
        ensures
            final(self)@ == old(self)@.receive(envelope@),
            match envelope {
                JsonRPC::Response(response) => if old(self)@.pending.contains_key(response.id@) {
                    handled == Handled::Completed(old(self)@.pending[response.id@], response)
                } else {
                    handled == Handled::<T>::Unknown(response)
                },
                JsonRPC::Request(request) => handled == Handled::<T>::Request(request),
                JsonRPC::Notification(notification) => handled == Handled::<T>::Notification(
                    notification,
                ),
            },
    {
        match envelope {
            JsonRPC::Request(request) => Handled::Request(request),
            JsonRPC::Notification(notification) => Handled::Notification(notification),
            JsonRPC::Response(response) => {
                let id = response.id.0;
                match self.pending.remove(&id) {
                    Some(slot) => Handled::Completed(slot, response),
                    None => {
                        proof {
                            assert(self.pending@ =~= old(self).pending@);
                        }
                        Handled::Unknown(response)
                    },
                }
            },
        }
    }

    /// Whether the queue for the writer has room for one more envelope.
    pub fn has_room(&self) -> (room: bool)
        ensures
            room == self@.has_room(),
    {
        self.outbox.len() < CHANNEL_CAPACITY
    }

    /// Queues an envelope for the writer, behind those that are queued.
    ///
    /// Where the queue is full, nothing changes and the envelope comes
    /// back: the caller has to wait until the writer has taken one.
    pub fn enqueue(&mut self, envelope: JsonRPC) -> (r: Result<(), JsonRPC>)
        ensures
            match r {
                Ok(_) => old(self)@.has_room() && final(self)@ == old(self)@.enqueue(envelope@),
                Err(returned) => !old(self)@.has_room() && returned == envelope && final(self)@
                    == old(self)@,
            },
    {
        if self.outbox.len() >= CHANNEL_CAPACITY {
            return Err(envelope);
        }
        let ghost before = self.outbox@;
        self.outbox.push_back(envelope);
        proof {
            assert(envelopes(self.outbox@) =~= envelopes(before).push(envelope@));
        }
        Ok(())
    }

    /// Answers a request of the other end: `handler` makes the response,
    /// which is queued for the writer. Where the queue is full, nothing
    /// changes and the response comes back, to be queued later.
    pub fn answer<F: FnOnce(Request) -> Response>(&mut self, request: Request, handler: F) -> (r:
        Result<(), Response>)
        requires
            call_requires(handler, (request,)),
        ensures
            exists|response: Response|
                call_ensures(handler, (request,), response) && match r {
                    Ok(_) => old(self)@.has_room() && final(self)@ == old(self)@.enqueue(
                        Envelope::Response(response@),
                    ),
                    Err(returned) => {
                        &&& !old(self)@.has_room()
                        &&& returned == response
                        &&& final(self)@ == old(self)@
                    },
                },
    {
        let response = handler(request);
        if self.outbox.len() >= CHANNEL_CAPACITY {
            return Err(response);
        }
        let ghost before = self.outbox@;
        self.outbox.push_back(JsonRPC::Response(response));
        proof {
            assert(envelopes(self.outbox@) =~= envelopes(before).push(
                Envelope::Response(response@),
            ));
        }
        Ok(())
    }

    /// Takes the oldest queued envelope for the writer to send, if one is
    /// queued.
    pub fn process_outbox(&mut self) -> (next: Option<JsonRPC>)
        ensures
            match next {
                Some(envelope) => {
                    &&& old(self)@.outbox.len() > 0
                    &&& envelope@ == old(self)@.outbox[0]
                    &&& final(self)@ == old(self)@.dequeue()
                },
                None => {
                    &&& old(self)@.outbox.len() == 0
                    &&& final(self)@ == old(self)@
                },
            },
    {
        let ghost before = self.outbox@;
        let next = self.outbox.pop_front();
        proof {
            if next is Some {
                assert(envelopes(self.outbox@) =~= envelopes(before).drop_first());
            }
        }
        next
    }

    /// Ends the session: every pending slot is dropped, so that whoever waits
    /// on one sees it canceled, and no request can be issued any more.
    pub fn close(&mut self)
        ensures
            final(self)@ == old(self)@.close(),
    {
        self.pending.clear();
        self.closed = true;
    }

    /// What the response to `$/ping` says: the peer is alive unless it
    /// answered with an error.
    pub fn ping_outcome(response: &Response) -> (r: Result<(), ResponseError>)
        ensures
            match r {
                Ok(_) => response@.error is None,
                Err(error) => response@.error == Some(error@),
            },
    {
        match &response.error {
            Some(error) => Err(error.clone()),
            None => Ok(()),
        }
    }

    /// What the response to `$/status` says: the status in its result, unless
    /// the peer answered with an error or without a status.
    pub fn status_outcome(response: &Response) -> (r: Result<Status, StatusError>)
        ensures
            status_result(r) == answered_status(Some(response@)),
    {
        match &response.error {
            Some(error) => Err(StatusError::Failed(error.clone())),
            None => match &response.result {
                None => Err(StatusError::Empty),
                Some(result) => match Status::from_json(result) {
                    Some(status) => Ok(status),
                    None => Err(StatusError::Malformed),
                },
            },
        }
    }

    /// What the answer to `$/status` says, where `None` stands for an answer
    /// that never came because the transport ended.
    pub fn status_answer(answer: Option<&Response>) -> (r: Result<Status, StatusError>)
        ensures
            status_result(r) == answered_status(optional_response(answer)),
    {
        match answer {
            Some(response) => Agent::<T>::status_outcome(response),
            None => Err(StatusError::Canceled),
        }
    }

    /// Whether the answer to `$/ping` says that the peer is dead, where
    /// `None` stands for an answer that never came.
    pub fn ping_answer(answer: Option<&Response>) -> (failed: bool)
        ensures
            failed == ping_failed(optional_response(answer)),
    {
        match answer {
            Some(response) => response.error.is_some(),
            None => true,
        }
    }
}

/// One step in the life of an agent.
pub enum Step<T> {
    /// A caller issues a request.
    Send { method: Seq<char>, params: crate::json::JsonValue, slot: T },
    /// The inbound pump hands over an envelope.
    Receive(Envelope),
    /// A handler queues an envelope for the writer.
    Enqueue(Envelope),
    /// The writer takes the oldest queued envelope and sends it.
    Dequeue,
    /// The transport ends.
    Close,
}

impl<T> AgentState<T> {
    /// The state after one step. A request that cannot be issued, an
    /// envelope that finds no room and a writer that finds nothing queued
    /// change nothing.
    pub open spec fn step(self, step: Step<T>) -> AgentState<T> {
        match step {
            Step::Send { method, params, slot } => if self.can_send() {
                self.send(method, params, slot)
            } else {
                self
            },
            Step::Receive(envelope) => self.receive(envelope),
            Step::Enqueue(envelope) => if self.has_room() {
                self.enqueue(envelope)
            } else {
                self
            },
            Step::Dequeue => if self.outbox.len() > 0 {
                self.dequeue()
            } else {
                self
            },
            Step::Close => self.close(),
        }
    }

    /// The state of a session after `steps`, taken from its start.
    pub open spec fn after(steps: Seq<Step<T>>) -> AgentState<T>
        decreases steps.len(),
    {
        if steps.len() == 0 {
            AgentState::start()
        } else {
            AgentState::after(steps.drop_last()).step(steps.last())
        }
    }

    /// The envelopes that were queued for the writer during `steps`, in the
    /// order in which they were queued.
    pub open spec fn offered(steps: Seq<Step<T>>) -> Seq<Envelope>
        decreases steps.len(),
    {
        if steps.len() == 0 {
            Seq::empty()
        } else {
            let before = AgentState::<T>::after(steps.drop_last());
            let earlier = AgentState::<T>::offered(steps.drop_last());
            match steps.last() {
                Step::Send { method, params, slot } => if before.can_send() {
                    earlier.push(
                        Envelope::Request(
                            RequestView { id: before.next_request_id, method, params },
                        ),
                    )
                } else {
                    earlier
                },
                Step::Enqueue(envelope) => if before.has_room() {
                    earlier.push(envelope)
                } else {
                    earlier
                },
                _ => earlier,
            }
        }
    }

    /// The envelopes that the writer sent during `steps`, in the order in
    /// which it sent them.
    pub open spec fn sent(steps: Seq<Step<T>>) -> Seq<Envelope>
        decreases steps.len(),
    {
        if steps.len() == 0 {
            Seq::empty()
        } else {
            let before = AgentState::<T>::after(steps.drop_last());
            let earlier = AgentState::<T>::sent(steps.drop_last());
            match steps.last() {
                Step::Dequeue => if before.outbox.len() > 0 {
                    earlier.push(before.outbox[0])
                } else {
                    earlier
                },
                _ => earlier,
            }
        }
    }
}

/// Whatever happens in a session, its agent stays well formed: every pending
/// id is below the counter, and nothing is pending after the transport has
/// ended.
pub proof fn lemma_always_well_formed<T>(steps: Seq<Step<T>>)
    ensures
        AgentState::<T>::after(steps).well_formed(),
    decreases steps.len(),
{
    if steps.len() > 0 {
        lemma_always_well_formed(steps.drop_last());
        let before = AgentState::<T>::after(steps.drop_last());
        let after = before.step(steps.last());
        if after.closed {
            assert(after.pending =~= Map::<u64, T>::empty());
        }
    }
}

/// A request gets an id that is not pending, and no id is issued twice: the
/// counter only grows.
pub proof fn lemma_ids_are_fresh<T>(steps: Seq<Step<T>>, step: Step<T>)
    ensures
        ({
            let before = AgentState::<T>::after(steps);
            let after = before.step(step);
            &&& before.next_request_id <= after.next_request_id
            &&& !before.pending.contains_key(before.next_request_id)
            &&& forall|id: u64|
                after.pending.contains_key(id) && !before.pending.contains_key(id) ==> id
                    == before.next_request_id && step is Send
        }),
{
    lemma_always_well_formed(steps);
}

/// A response takes its id out of the pending requests, and a second
/// response under the same id finds nothing: it changes nothing.
pub proof fn lemma_response_taken_once<T>(state: AgentState<T>, response: crate::rpc::ResponseView)
    ensures
        ({
            let once = state.receive(Envelope::Response(response));
            &&& !once.pending.contains_key(response.id)
            &&& forall|id: u64|
                id != response.id ==> (once.pending.contains_key(id)
                    <==> state.pending.contains_key(id))
            &&& once.receive(Envelope::Response(response)) == once
        }),
{
    let once = state.receive(Envelope::Response(response));
    assert(once.pending.remove(response.id) =~= once.pending);
}

/// What the writer has sent and what still waits, taken together, is what
/// was queued, in the order of queueing: the wire sees the envelopes first
/// in, first out, none twice and none out of turn.
pub proof fn lemma_wire_is_fifo<T>(steps: Seq<Step<T>>)
    ensures
        AgentState::<T>::sent(steps) + AgentState::<T>::after(steps).outbox
            == AgentState::<T>::offered(steps),
    decreases steps.len(),
{
    let sent = AgentState::<T>::sent(steps);
    let waiting = AgentState::<T>::after(steps).outbox;
    let offered = AgentState::<T>::offered(steps);
    if steps.len() == 0 {
        assert(sent + waiting =~= offered);
    } else {
        lemma_wire_is_fifo(steps.drop_last());
        let before = AgentState::<T>::after(steps.drop_last());
        let earlier = AgentState::<T>::sent(steps.drop_last());
        assert(earlier + before.outbox == AgentState::<T>::offered(steps.drop_last()));
        assert(sent + waiting =~= offered);
    }
}

/// When the transport ends, nothing stays pending, and nothing becomes
/// pending again: no request can be issued, and a late response finds no
/// slot.
pub proof fn lemma_close_cancels_all<T>(state: AgentState<T>, later: Seq<Step<T>>)
    ensures
        state.close().pending == Map::<u64, T>::empty(),
        !state.close().can_send(),
        run_from(state.close(), later).pending == Map::<u64, T>::empty(),
        run_from(state.close(), later).closed,
    decreases later.len(),
{
    if later.len() > 0 {
        lemma_close_cancels_all(state, later.drop_last());
        let before = run_from(state.close(), later.drop_last());
        assert(before.step(later.last()).pending =~= Map::<u64, T>::empty());
    }
}

/// The state that `steps` lead to from `state`.
pub open spec fn run_from<T>(state: AgentState<T>, steps: Seq<Step<T>>) -> AgentState<T>
    decreases steps.len(),
{
    if steps.len() == 0 {
        state
    } else {
        run_from(state, steps.drop_last()).step(steps.last())
    }
}

} // verus!
