//! The registry of live sessions.
//!
//! The [`AgentManager`] knows, for each agent that has shaken hands, the
//! session that reaches it. A session enters the registry when the agent has
//! told who it is, and leaves it when its transport ends or when the agent
//! does not answer a ping.

use crate::agent::{
    answered_status, optional_response, ping_failed, Agent, AgentState, CallError, Handled,
    StatusError, Step,
};
use crate::json::{Json, JsonValue};
use crate::rpc::{JsonRPC, RequestId, Response};
use crate::store::{Store, StoreView};
use crate::types::{AgentId, DownloadParams, DownloadParamsView, Status};
use std::collections::HashMap;
use vstd::prelude::*;
use vstd::std_specs::iter::IteratorSpec;

verus! {

/// The seconds between two rounds of pings.
pub const HEARTBEAT_SECS: u64 = 5;

/// The mathematical value of an [`AgentManager`]: the agent of each session,
/// by the identity of the host that it reaches.
pub type Registry<T> = Map<u128, AgentState<T>>;

/// The registry of live sessions. `T` is the completion slot of the calls
/// that are made through it.
#[derive(Debug)]
pub struct AgentManager<T> {
    agents: HashMap<u128, Agent<T>>,
}

impl<T> View for AgentManager<T> {
    type V = Registry<T>;

    closed spec fn view(&self) -> Registry<T> {
        self.agents@.map_values(|agent: Agent<T>| agent@)
    }
}

/// Why a call did not go out.
#[derive(Clone, Copy, Debug, PartialEq, Eq, Structural)]
pub enum SendError {
    /// No session reaches the agent.
    Offline,
    /// The session cannot issue the request.
    Call(CallError),
}

/// What one ping of a round of pings gave.
#[derive(Clone, Copy, Debug, PartialEq, Eq, Structural)]
pub struct Probe {
    /// The agent that was pinged.
    pub agent_id: AgentId,
    /// Whether the ping resolved to an error.
    pub failed: bool,
}

impl Probe {
    /// What the ping of the agent `agent_id` gave, from the answer to it:
    /// the ping failed where no answer came and where the answer carries an
    /// error.
    pub fn answered(agent_id: AgentId, answer: Option<&Response>) -> (probe: Probe)
        ensures
            probe.agent_id == agent_id,
            probe.failed == ping_failed(optional_response(answer)),
    {
        let failed = match answer {
            Some(response) => response.error.is_some(),
            None => true,
        };
        Probe { agent_id, failed }
    }
}

/// Why a handshake did not register a session.
#[derive(Debug, PartialEq, Eq)]
pub enum HandshakeError {
    /// The agent did not tell who it is.
    Status(StatusError),
    /// The agent told who it is, but the transport of the session has ended
    /// since.
    Closed,
}

/// What was done for a configuration that has a new evaluation.
#[derive(Debug, PartialEq, Eq)]
pub enum Update<T> {
    /// The agent was told to download the store path: the request went out
    /// under this id.
    Sent(AgentId, RequestId),
    /// No agent is assigned to the configuration. The slot comes back.
    Unassigned(T),
    /// The configuration has no evaluation at the revision. The slot comes
    /// back.
    Unevaluated(T),
    /// The agent did not get the request. The slot comes back.
    Unsent(AgentId, SendError, T),
}

/// The agents that the probes of a round found dead.
pub open spec fn failed(probes: Seq<Probe>) -> Set<u128> {
    Set::new(
        |agent_id: u128|
            exists|i: int|
                0 <= i < probes.len() && (#[trigger] probes[i]).agent_id@ == agent_id
                    && probes[i].failed,
    )
}

/// Why no request goes out to the agent `agent_id`, where none does.
pub open spec fn refusal<T>(registry: Registry<T>, agent_id: u128) -> SendError {
    if !registry.contains_key(agent_id) {
        SendError::Offline
    } else {
        SendError::Call(registry[agent_id].refusal())
    }
}

/// The registry after a request was issued to the agent `agent_id`, if a
/// session reaches it and can issue one.
pub open spec fn after_send<T>(
    registry: Registry<T>,
    agent_id: u128,
    method: Seq<char>,
    params: JsonValue,
    slot: T,
) -> Registry<T> {
    if registry.contains_key(agent_id) && registry[agent_id].can_send() {
        registry.insert(agent_id, registry[agent_id].send(method, params, slot))
    } else {
        registry
    }
}

impl StoreView {
    /// What the store keeps of an agent that has shaken hands: the agent is
    /// written unless it is there, the system it runs is written down, and
    /// the agents are matched to configurations anew.
    pub open spec fn connect(self, agent_id: u128, current_system: Seq<char>) -> StoreView {
        let known = if self.agent(agent_id) is None {
            self.insert_agent(agent_id).0
        } else {
            self
        };
        known.set_current_system(agent_id, current_system).0.match_by_current_system()
    }
}

impl<T> AgentManager<T> {
    /// The registry without sessions.
    pub fn start() -> (manager: AgentManager<T>)
        ensures
            manager@ == Map::<u128, AgentState<T>>::empty(),
    {
        let manager = AgentManager { agents: HashMap::new() };
        assert(manager@ =~= Map::<u128, AgentState<T>>::empty());
        manager
    }

    /// How many sessions are registered.
    pub fn len(&self) -> (n: usize)
        ensures
            n == self@.len(),
    {
        assert(self@.dom() =~= self.agents@.dom());
        self.agents.len()
    }

    /// Whether a session reaches the agent `agent_id`.
    pub fn contains(&self, agent_id: AgentId) -> (registered: bool)
        ensures
            registered == self@.contains_key(agent_id@),
    {
        self.agents.contains_key(&agent_id.0)
    }

    /// The session that reaches the agent `agent_id`.
    pub fn get(&self, agent_id: AgentId) -> (agent: Option<&Agent<T>>)
        ensures
            match agent {
                Some(agent) => self@.contains_key(agent_id@) && self@[agent_id@] == agent@,
                None => !self@.contains_key(agent_id@),
            },
    {
        self.agents.get(&agent_id.0)
    }

    /// The agents that sessions reach, in no particular order, each once:
    /// those that a round of pings has to ping.
    pub fn heartbeat_targets(&self) -> (targets: Vec<AgentId>)
        ensures
            targets@.len() == self@.len(),
            forall|agent_id: u128|
                self@.contains_key(agent_id) <==> exists|i: int|
                    0 <= i < targets@.len() && (#[trigger] targets@[i])@ == agent_id,
            forall|i: int, j: int|
                0 <= i < j < targets@.len() ==> (#[trigger] targets@[i])@ != (
                #[trigger] targets@[j])@,
    {
        let mut targets: Vec<AgentId> = Vec::new();
        for key in keys: self.agents.keys()
            invariant
                targets@.len() == keys.index(),
                forall|k: int| 0 <= k < targets@.len() ==> targets@[k]@ == *keys.seq()[k],
                keys.seq() == vstd::std_specs::hash::spec_keys_iter(&self.agents).remaining(),
        {
            targets.push(AgentId(*key));
        }
        proof {
            let all = vstd::std_specs::hash::spec_keys_iter(&self.agents).remaining().unref();
            assert(self@.dom() =~= self.agents@.dom());
            assert(all.len() == targets@.len());
            assert forall|agent_id: u128| self@.contains_key(agent_id) implies exists|i: int|
                0 <= i < targets@.len() && (#[trigger] targets@[i])@ == agent_id by {
                assert(all.to_set().contains(agent_id));
                let i = choose|i: int| 0 <= i < all.len() && all[i] == agent_id;
                assert(targets@[i]@ == agent_id);
            }
            assert forall|agent_id: u128|
                (exists|i: int|
                    0 <= i < targets@.len() && (#[trigger] targets@[i])@
                        == agent_id) implies self@.contains_key(agent_id) by {
                let i = choose|i: int|
                    0 <= i < targets@.len() && (#[trigger] targets@[i])@ == agent_id;
                assert(all[i] == agent_id);
                assert(all.to_set().contains(all[i]));
            }
            assert forall|i: int, j: int| 0 <= i < j < targets@.len() implies (
            #[trigger] targets@[i])@ != (#[trigger] targets@[j])@ by {
                assert(all[i] != all[j]);
            }
        }
        targets
    }

    /// Registers a session under the identity of its agent. A session that
    /// was registered under it before is closed and handed back, to be
    /// thrown away.
    ///
    /// A session whose transport has ended already is not registered; it
    /// comes back as the error, and nothing changes.
    pub fn register(&mut self, agent_id: AgentId, agent: Agent<T>) -> (r: Result<
        Option<Agent<T>>,
        Agent<T>,
    >)
        ensures
            match r {
                Ok(previous) => {
                    &&& !agent@.closed
                    &&& final(self)@ == old(self)@.insert(agent_id@, agent@)
                    &&& match previous {
                        Some(previous) => old(self)@.contains_key(agent_id@) && previous@ == old(
                            self,
                        )@[agent_id@].close(),
                        None => !old(self)@.contains_key(agent_id@),
                    }
                },
                Err(returned) => {
                    &&& agent@.closed
                    &&& returned == agent
                    &&& final(self)@ == old(self)@
                },
            },
    {
        if agent.is_closed() {
            return Err(agent);
        }
        let previous = self.agents.insert(agent_id.0, agent);
        proof {
            assert(self@ =~= old(self)@.insert(agent_id@, agent@));
        }
        match previous {
            Some(mut previous) => {
                previous.close();
                Ok(Some(previous))
            },
            None => Ok(None),
        }
    }

    /// Takes in a session whose agent has told who it is.
    ///
    /// The store gets to know the agent and the system it runs, and the
    /// agents are matched to configurations anew. The session is registered
    /// under the agent's identity. A session that was registered under it
    /// before is closed and handed back, to be thrown away.
    ///
    /// A session whose transport has ended already is not registered; it
    /// comes back as the error, and nothing changes.
    pub fn add_agent(&mut self, status: &Status, agent: Agent<T>, store: &mut Store) -> (r: Result<
        Option<Agent<T>>,
        Agent<T>,
    >)
        ensures
            match r {
                Ok(previous) => {
                    &&& !agent@.closed
                    &&& final(self)@ == old(self)@.insert(status@.id, agent@)
                    &&& final(store)@ == old(store)@.connect(status@.id, status@.system.current)
                    &&& match previous {
                        Some(previous) => old(self)@.contains_key(status@.id) && previous@ == old(
                            self,
                        )@[status@.id].close(),
                        None => !old(self)@.contains_key(status@.id),
                    }
                },
                Err(returned) => {
                    &&& agent@.closed
                    &&& returned == agent
                    &&& final(self)@ == old(self)@
                    &&& final(store)@ == old(store)@
                },
            },
    {
        if agent.is_closed() {
            return Err(agent);
        }
        if store.agent(status.id).is_none() {
            let _ = store.insert_agent(status.id);
        }
        let _ = store.set_current_system(status.id, status.system.current.as_str());
        store.match_agent_to_configuration();
        self.register(status.id, agent)
    }

    /// Ends the handshake of a fresh session, from the answer to `$/status`,
    /// where `None` stands for an answer that never came.
    ///
    /// Where the answer holds the status of the agent and the transport of
    /// the session is there, the session is taken in as [`add_agent`] takes
    /// it in, and the status comes back with the session that was registered
    /// before. In every other case the handshake fails with the reason: the
    /// session comes back, and the registry and the store stay as they were.
    ///
    /// [`add_agent`]: AgentManager::add_agent
    pub fn handshake(&mut self, answer: Option<&Response>, agent: Agent<T>, store: &mut Store) -> (r:
        Result<(Status, Option<Agent<T>>), (HandshakeError, Agent<T>)>)
        ensures
            match answered_status(optional_response(answer)) {
                Err(reason) => {
                    &&& r matches Err((HandshakeError::Status(error), returned))
                    &&& error@ == reason
                    &&& returned == agent
                    &&& final(self)@ == old(self)@
                    &&& final(store)@ == old(store)@
                },
                Ok(status) => if agent@.closed {
                    &&& r matches Err((HandshakeError::Closed, returned))
                    &&& returned == agent
                    &&& final(self)@ == old(self)@
                    &&& final(store)@ == old(store)@
                } else {
                    &&& r matches Ok((told, previous))
                    &&& told@ == status
                    &&& final(self)@ == old(self)@.insert(status.id, agent@)
                    &&& final(store)@ == old(store)@.connect(status.id, status.system.current)
                    &&& match previous {
                        Some(previous) => old(self)@.contains_key(status.id) && previous@ == old(
                            self,
                        )@[status.id].close(),
                        None => !old(self)@.contains_key(status.id),
                    }
                },
            },
    {
        let status = match Agent::<T>::status_answer(answer) {
            Ok(status) => status,
            Err(error) => {
                return Err((HandshakeError::Status(error), agent));
            },
        };
        match self.add_agent(&status, agent, store) {
            Ok(previous) => Ok((status, previous)),
            Err(agent) => Err((HandshakeError::Closed, agent)),
        }
    }

    /// Takes the session of the agent `agent_id` out of the registry, closed:
    /// its transport has ended. Gives `None` where no session reaches the
    /// agent.
    pub fn disconnect(&mut self, agent_id: AgentId) -> (gone: Option<Agent<T>>)
        ensures
            final(self)@ == old(self)@.remove(agent_id@),
            match gone {
                Some(gone) => old(self)@.contains_key(agent_id@) && gone@ == old(
                    self,
                )@[agent_id@].close(),
                None => !old(self)@.contains_key(agent_id@),
            },
    {
        let gone = self.agents.remove(&agent_id.0);
        proof {
            assert(self@ =~= old(self)@.remove(agent_id@));
        }
        match gone {
            Some(mut gone) => {
                gone.close();
                Some(gone)
            },
            None => None,
        }
    }

    /// Takes in what a round of pings gave: the session of an agent leaves
    /// the registry exactly when a ping of that agent resolved to an error.
    /// The sessions of all other agents stay as they are.
    pub fn heartbeat(&mut self, probes: &Vec<Probe>)
        ensures
            final(self)@ == old(self)@.remove_keys(failed(probes@)),
    {
        let mut i: usize = 0;
        while i < probes.len()
            invariant
                i <= probes.len(),
                self@ == old(self)@.remove_keys(failed(probes@.take(i as int))),
            decreases probes.len() - i,
        {
            let ghost before = self@;
            let ghost seen = failed(probes@.take(i as int));
            let ghost next = failed(probes@.take(i as int + 1));
            proof {
                assert forall|agent_id: u128| next.contains(agent_id) <==> (seen.contains(agent_id)
                    || (probes@[i as int].failed && probes@[i as int].agent_id@ == agent_id)) by {
                    if seen.contains(agent_id) {
                        let k = choose|k: int|
                            0 <= k < probes@.take(i as int).len() && (#[trigger] probes@.take(
                                i as int,
                            )[k]).agent_id@ == agent_id && probes@.take(i as int)[k].failed;
                        assert(probes@.take(i as int + 1)[k] == probes@.take(i as int)[k]);
                    }
                    if probes@[i as int].failed && probes@[i as int].agent_id@ == agent_id {
                        assert(probes@.take(i as int + 1)[i as int] == probes@[i as int]);
                    }
                    if next.contains(agent_id) {
                        let k = choose|k: int|
                            0 <= k < probes@.take(i as int + 1).len() && (#[trigger] probes@.take(
                                i as int + 1,
                            )[k]).agent_id@ == agent_id && probes@.take(i as int + 1)[k].failed;
                        if k < i {
                            assert(probes@.take(i as int)[k] == probes@.take(i as int + 1)[k]);
                        }
                    }
                }
            }
            if probes[i].failed {
                let _ = self.agents.remove(&probes[i].agent_id.0);
                proof {
                    assert(self@ =~= before.remove(probes@[i as int].agent_id@));
                }
            }
            proof {
                assert(self@ =~= old(self)@.remove_keys(next));
            }
            i += 1;
        }
        proof {
            assert(probes@.take(probes.len() as int) =~= probes@);
        }
    }

    /// Issues a request to the agent `agent_id` through its session.
    ///
    /// Fails, and hands the slot back, where no session reaches the agent or
    /// the session cannot issue the request; nothing changes then.
    pub fn send_request(&mut self, agent_id: AgentId, method: &str, params: Json, slot: T) -> (r:
        Result<RequestId, (SendError, T)>)
        ensures
            final(self)@ == after_send(old(self)@, agent_id@, method@, params@, slot),
            match r {
                Ok(id) => {
                    &&& old(self)@.contains_key(agent_id@)
                    &&& old(self)@[agent_id@].can_send()
                    &&& id@ == old(self)@[agent_id@].next_request_id
                },
                Err((error, returned)) => {
                    &&& returned == slot
                    &&& error == refusal(old(self)@, agent_id@)
                    &&& !(old(self)@.contains_key(agent_id@) && old(self)@[agent_id@].can_send())
                },
            },
    {
        match self.agents.remove(&agent_id.0) {
            Some(mut agent) => {
                let r = agent.send_request(method, params, slot);
                self.agents.insert(agent_id.0, agent);
                proof {
                    assert(self@ =~= old(self)@.insert(agent_id@, agent@));
                    if r is Err {
                        assert(self@ =~= old(self)@);
                    }
                }
                match r {
                    Ok(id) => Ok(id),
                    Err((error, slot)) => Err((SendError::Call(error), slot)),
                }
            },
            None => {
                proof {
                    assert(self@ =~= old(self)@);
                }
                Err((SendError::Offline, slot))
            },
        }
    }

    /// Pings the agent `agent_id`.
    pub fn ping(&mut self, agent_id: AgentId, slot: T) -> (r: Result<RequestId, (SendError, T)>)
        ensures
            final(self)@ == after_send(old(self)@, agent_id@, "$/ping"@, JsonValue::Null, slot),
            r is Ok <==> old(self)@.contains_key(agent_id@) && old(self)@[agent_id@].can_send(),
            r matches Ok(id) ==> id@ == old(self)@[agent_id@].next_request_id,
            r matches Err((error, returned)) ==> returned == slot && error == refusal(
                old(self)@,
                agent_id@,
            ),
    {
        self.send_request(agent_id, "$/ping", Json::Null, slot)
    }

    /// Tells the agent `agent_id` to download a store path.
    pub fn download(&mut self, agent_id: AgentId, params: &DownloadParams, slot: T) -> (r: Result<
        RequestId,
        (SendError, T),
    >)
        ensures
            final(self)@ == after_send(
                old(self)@,
                agent_id@,
                "$/download"@,
                params@.to_json(),
                slot,
            ),
            r is Ok <==> old(self)@.contains_key(agent_id@) && old(self)@[agent_id@].can_send(),
            r matches Ok(id) ==> id@ == old(self)@[agent_id@].next_request_id,
            r matches Err((error, returned)) ==> returned == slot && error == refusal(
                old(self)@,
                agent_id@,
            ),
    {
        self.send_request(agent_id, "$/download", params.to_json(), slot)
    }

    /// Tells the agent `agent_id` to activate a store path.
    pub fn activate(
        &mut self,
        agent_id: AgentId,
        params: &crate::types::ActivateParams,
        slot: T,
    ) -> (r: Result<RequestId, (SendError, T)>)
        ensures
            final(self)@ == after_send(
                old(self)@,
                agent_id@,
                "$/activate"@,
                params@.to_json(),
                slot,
            ),
            r is Ok <==> old(self)@.contains_key(agent_id@) && old(self)@[agent_id@].can_send(),
            r matches Ok(id) ==> id@ == old(self)@[agent_id@].next_request_id,
            r matches Err((error, returned)) ==> returned == slot && error == refusal(
                old(self)@,
                agent_id@,
            ),
    {
        self.send_request(agent_id, "$/activate", params.to_json(), slot)
    }

    /// Hands an inbound envelope to the session of the agent `agent_id`.
    /// Gives `None`, and drops the envelope, where no session reaches the
    /// agent.
    pub fn process_inbox(&mut self, agent_id: AgentId, envelope: JsonRPC) -> (handled: Option<
        Handled<T>,
    >)
        ensures
            match handled {
                Some(_) => {
                    &&& old(self)@.contains_key(agent_id@)
                    &&& final(self)@ == old(self)@.insert(
                        agent_id@,
                        old(self)@[agent_id@].receive(envelope@),
                    )
                },
                None => !old(self)@.contains_key(agent_id@) && final(self)@ == old(self)@,
            },
            handled matches Some(Handled::Completed(slot, response)) ==> old(
                self,
            )@[agent_id@].pending.contains_key(response.id@) && slot == old(
                self,
            )@[agent_id@].pending[response.id@] && envelope == JsonRPC::Response(response),
            handled matches Some(Handled::Unknown(response)) ==> !old(
                self,
            )@[agent_id@].pending.contains_key(response.id@) && envelope == JsonRPC::Response(
                response,
            ),
            handled matches Some(Handled::Request(request)) ==> envelope == JsonRPC::Request(
                request,
            ),
            handled matches Some(Handled::Notification(notification)) ==> envelope
                == JsonRPC::Notification(notification),
    {
        match self.agents.remove(&agent_id.0) {
            Some(mut agent) => {
                let handled = agent.process_inbox(envelope);
                self.agents.insert(agent_id.0, agent);
                proof {
                    assert(self@ =~= old(self)@.insert(agent_id@, agent@));
                }
                Some(handled)
            },
            None => {
                proof {
                    assert(self@ =~= old(self)@);
                }
                None
            },
        }
    }

    /// Queues an envelope for the writer of the session of the agent
    /// `agent_id`. Where no session reaches the agent or the queue of the
    /// session is full, nothing changes and the envelope comes back.
    pub fn enqueue(&mut self, agent_id: AgentId, envelope: JsonRPC) -> (r: Result<(), JsonRPC>)
        ensures
            match r {
                Ok(_) => {
                    &&& old(self)@.contains_key(agent_id@)
                    &&& old(self)@[agent_id@].has_room()
                    &&& final(self)@ == old(self)@.insert(
                        agent_id@,
                        old(self)@[agent_id@].enqueue(envelope@),
                    )
                },
                Err(returned) => {
                    &&& !(old(self)@.contains_key(agent_id@) && old(self)@[agent_id@].has_room())
                    &&& returned == envelope
                    &&& final(self)@ == old(self)@
                },
            },
    {
        match self.agents.remove(&agent_id.0) {
            Some(mut agent) => {
                let r = agent.enqueue(envelope);
                self.agents.insert(agent_id.0, agent);
                proof {
                    assert(self@ =~= old(self)@.insert(agent_id@, agent@));
                    if r is Err {
                        assert(self@ =~= old(self)@);
                    }
                }
                r
            },
            None => {
                proof {
                    assert(self@ =~= old(self)@);
                }
                Err(envelope)
            },
        }
    }

    /// Takes the oldest envelope that waits to be sent to the agent
    /// `agent_id`, if a session reaches the agent and one waits.
    pub fn process_outbox(&mut self, agent_id: AgentId) -> (next: Option<JsonRPC>)
        ensures
            match next {
                Some(envelope) => {
                    &&& old(self)@.contains_key(agent_id@)
                    &&& old(self)@[agent_id@].outbox.len() > 0
                    &&& envelope@ == old(self)@[agent_id@].outbox[0]
                    &&& final(self)@ == old(self)@.insert(
                        agent_id@,
                        old(self)@[agent_id@].dequeue(),
                    )
                },
                None => {
                    &&& final(self)@ == old(self)@
                    &&& old(self)@.contains_key(agent_id@) ==> old(self)@[agent_id@].outbox.len()
                        == 0
                },
            },
    {
        match self.agents.remove(&agent_id.0) {
            Some(mut agent) => {
                let next = agent.process_outbox();
                self.agents.insert(agent_id.0, agent);
                proof {
                    assert(self@ =~= old(self)@.insert(agent_id@, agent@));
                    if next is None {
                        assert(self@ =~= old(self)@);
                    }
                }
                next
            },
            None => {
                proof {
                    assert(self@ =~= old(self)@);
                }
                None
            },
        }
    }

    /// Reacts to a new evaluation of a configuration, given the agent that
    /// is assigned to the configuration and the store path that the
    /// configuration evaluates to: the agent, if there is one and a session
    /// reaches it, is told to download the store path from the substituter
    /// at `from`.
    pub fn update_agent(
        &mut self,
        assigned: Option<AgentId>,
        store_path: Option<String>,
        from: &str,
        slot: T,
    ) -> (update: Update<T>)
        ensures
            match (assigned, store_path) {
                (None, _) => update == Update::Unassigned(slot) && final(self)@ == old(self)@,
                (Some(_), None) => update == Update::Unevaluated(slot) && final(self)@ == old(
                    self,
                )@,
                (Some(agent_id), Some(store_path)) => {
                    &&& final(self)@ == after_send(
                        old(self)@,
                        agent_id@,
                        "$/download"@,
                        (DownloadParamsView { store_path: store_path@, from: from@ }).to_json(),
                        slot,
                    )
                    &&& if old(self)@.contains_key(agent_id@) && old(self)@[agent_id@].can_send() {
                        update == Update::<T>::Sent(
                            agent_id,
                            RequestId(old(self)@[agent_id@].next_request_id),
                        )
                    } else {
                        update == Update::Unsent(agent_id, refusal(old(self)@, agent_id@), slot)
                    }
                },
            },
    {
        let agent_id = match assigned {
            Some(agent_id) => agent_id,
            None => {
                return Update::Unassigned(slot);
            },
        };
        let store_path = match store_path {
            Some(store_path) => store_path,
            None => {
                return Update::Unevaluated(slot);
            },
        };
        let params = DownloadParams { store_path, from: from.to_owned() };
        match self.download(agent_id, &params, slot) {
            Ok(id) => Update::Sent(agent_id, id),
            Err((error, slot)) => Update::Unsent(agent_id, error, slot),
        }
    }

    /// Reacts to a new evaluation of a configuration: the agent that is
    /// assigned to the configuration, if there is one and a session reaches
    /// it, is told to download the store path that the configuration
    /// evaluates to at the revision, from the substituter at `from`.
    pub fn process_update(
        &mut self,
        store: &Store,
        nixos_configuration_id: i64,
        flake_revision_id: i64,
        from: &str,
        slot: T,
    ) -> (update: Update<T>)
        ensures
            match (
                store@.agent_of(nixos_configuration_id),
                store@.store_path_of(flake_revision_id, nixos_configuration_id),
            ) {
                (None, _) => update == Update::Unassigned(slot) && final(self)@ == old(self)@,
                (Some(_), None) => update == Update::Unevaluated(slot) && final(self)@ == old(
                    self,
                )@,
                (Some(agent_id), Some(store_path)) => {
                    &&& final(self)@ == after_send(
                        old(self)@,
                        agent_id,
                        "$/download"@,
                        (DownloadParamsView { store_path, from: from@ }).to_json(),
                        slot,
                    )
                    &&& if old(self)@.contains_key(agent_id) && old(self)@[agent_id].can_send() {
                        update == Update::<T>::Sent(
                            AgentId(agent_id),
                            RequestId(old(self)@[agent_id].next_request_id),
                        )
                    } else {
                        update == Update::Unsent(
                            AgentId(agent_id),
                            refusal(old(self)@, agent_id),
                            slot,
                        )
                    }
                },
            },
    {
        let assigned = store.agent_of(nixos_configuration_id);
        let store_path = store.store_path_of(flake_revision_id, nixos_configuration_id);
        self.update_agent(assigned, store_path, from, slot)
    }
}

/// One step in the life of the registry.
pub enum RegistryStep<T> {
    /// A session whose agent has told who it is comes in.
    Add { agent_id: u128, agent: AgentState<T> },
    /// Something happens in the session of an agent.
    Act { agent_id: u128, step: Step<T> },
    /// The transport of the session of an agent ends.
    Disconnect { agent_id: u128 },
    /// A round of pings ends, with these agents found dead.
    Heartbeat { failed: Set<u128> },
}

/// The registry after one step. A session comes in only while its transport
/// is there, and goes out when its transport ends.
pub open spec fn registry_step<T>(registry: Registry<T>, step: RegistryStep<T>) -> Registry<T> {
    match step {
        RegistryStep::Add { agent_id, agent } => if agent.closed {
            registry
        } else {
            registry.insert(agent_id, agent)
        },
        RegistryStep::Act { agent_id, step } => if !registry.contains_key(agent_id) {
            registry
        } else if step is Close {
            registry.remove(agent_id)
        } else {
            registry.insert(agent_id, registry[agent_id].step(step))
        },
        RegistryStep::Disconnect { agent_id } => registry.remove(agent_id),
        RegistryStep::Heartbeat { failed } => registry.remove_keys(failed),
    }
}

/// The registry after `steps`, taken from the registry without sessions.
pub open spec fn registry_after<T>(steps: Seq<RegistryStep<T>>) -> Registry<T>
    decreases steps.len(),
{
    if steps.len() == 0 {
        Map::empty()
    } else {
        registry_step(registry_after(steps.drop_last()), steps.last())
    }
}

/// Issuing a request through the registry is a step of the session of the
/// agent, where a session reaches it, and changes nothing where none does.
pub proof fn lemma_send_is_a_step<T>(
    registry: Registry<T>,
    agent_id: u128,
    method: Seq<char>,
    params: JsonValue,
    slot: T,
)
    ensures
        after_send(registry, agent_id, method, params, slot) == registry_step(
            registry,
            RegistryStep::Act { agent_id, step: Step::Send { method, params, slot } },
        ),
{
    assert(after_send(registry, agent_id, method, params, slot) =~= registry_step(
        registry,
        RegistryStep::Act { agent_id, step: Step::Send { method, params, slot } },
    ));
}

/// Whatever happens, the transport of every registered session is there: no
/// session in the registry has been seen to close.
pub proof fn lemma_registered_sessions_are_open<T>(steps: Seq<RegistryStep<T>>, agent_id: u128)
    requires
        registry_after(steps).contains_key(agent_id),
    ensures
        !registry_after(steps)[agent_id].closed,
    decreases steps.len(),
{
    if steps.len() > 0 {
        let before = registry_after(steps.drop_last());
        if before.contains_key(agent_id) {
            lemma_registered_sessions_are_open(steps.drop_last(), agent_id);
        }
    }
}

/// A round of pings takes a session out of the registry exactly when the
/// ping of its agent resolved to an error; every other session stays as it
/// is.
pub proof fn lemma_heartbeat_removes_the_dead<T>(
    registry: Registry<T>,
    probes: Seq<Probe>,
    agent_id: u128,
)
    ensures
        registry.remove_keys(failed(probes)).contains_key(agent_id) <==> registry.contains_key(
            agent_id,
        ) && !failed(probes).contains(agent_id),
        registry.remove_keys(failed(probes)).contains_key(agent_id) ==> registry.remove_keys(
            failed(probes),
        )[agent_id] == registry[agent_id],
        failed(probes).contains(agent_id) <==> exists|i: int|
            0 <= i < probes.len() && (#[trigger] probes[i]).agent_id@ == agent_id
                && probes[i].failed,
{
}

} // verus!
