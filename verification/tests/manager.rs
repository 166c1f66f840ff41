use nxy::agent::{Agent, CallError, Handled, StatusError};
use nxy::json::Json;
use nxy::manager::{AgentManager, HandshakeError, Probe, SendError, Update, HEARTBEAT_SECS};
use nxy::nix::{create_flake, process_configurations, Evaluated, FlakeMetadata};
use nxy::rpc::{JsonRPC, Request, RequestId, Response};
use nxy::store::{AgentRecord, Store};
use nxy::types::{ActivateParams, AgentId, DownloadParams, Status, System};

const A6FE: AgentId = AgentId(0xa6fe_1234_0000_4000_8000_0000_0000_0001);

fn status(id: AgentId, current: &str) -> Status {
    Status {
        id,
        system: System { current: current.to_string(), booted: current.to_string() },
        version: "0.1.0".to_string(),
    }
}

fn store_with_alpha_and_beta() -> Store {
    let mut store = Store::new();
    let metadata = FlakeMetadata {
        revision: "r1".to_string(),
        last_modified: 0,
        url: "github:x/y/r1".to_string(),
    };
    let revision = create_flake(&mut store, "github:x/y", &metadata, Json::Null).unwrap();
    let configs = vec![
        Evaluated { name: "alpha".into(), store_path: "/nix/store/AAA-alpha".into() },
        Evaluated { name: "beta".into(), store_path: "/nix/store/BBB-beta".into() },
    ];
    process_configurations(&mut store, revision, &configs).unwrap();
    store
}

#[test]
fn the_heartbeat_comes_every_five_seconds() {
    assert_eq!(HEARTBEAT_SECS, 5);
}

#[test]
fn a_handshake_registers_the_agent_and_writes_its_row() {
    let mut manager: AgentManager<u8> = AgentManager::start();
    let mut store = Store::new();
    assert_eq!(manager.len(), 0);
    let outcome = manager.add_agent(&status(A6FE, "/nix/store/sys"), Agent::new(), &mut store);
    assert!(matches!(outcome, Ok(None)));
    assert_eq!(manager.len(), 1);
    assert!(manager.contains(A6FE));
    assert!(manager.get(A6FE).is_some());
    assert_eq!(
        store.get_agents(),
        vec![AgentRecord {
            agent_id: A6FE,
            current_system: Some("/nix/store/sys".to_string()),
            nixos_configuration_id: None,
        }]
    );
}

#[test]
fn a_second_handshake_replaces_the_session_and_closes_the_old_one() {
    let mut manager: AgentManager<&str> = AgentManager::start();
    let mut store = Store::new();
    let mut first = Agent::new();
    first.ping("waiting").unwrap();
    manager.add_agent(&status(A6FE, "/nix/store/old"), first, &mut store).unwrap();
    let previous =
        manager.add_agent(&status(A6FE, "/nix/store/new"), Agent::new(), &mut store).unwrap();
    let previous = previous.unwrap();
    assert!(previous.is_closed());
    assert_eq!(previous.pending_len(), 0);
    assert_eq!(manager.len(), 1);
    assert_eq!(manager.get(A6FE).unwrap().next_request_id(), RequestId(0));
    assert_eq!(store.get_agents().len(), 1);
    assert_eq!(store.agent(A6FE).unwrap().current_system, Some("/nix/store/new".to_string()));
}

#[test]
fn a_handshake_assigns_the_configuration_that_the_agent_runs() {
    let mut manager: AgentManager<u8> = AgentManager::start();
    let mut store = store_with_alpha_and_beta();
    manager.add_agent(&status(A6FE, "/nix/store/AAA-alpha"), Agent::new(), &mut store).unwrap();
    assert_eq!(store.agent(A6FE).unwrap().nixos_configuration_id, Some(1));
    assert_eq!(store.configuration(1).unwrap().name, "alpha");
    manager.add_agent(&status(AgentId(2), "/nix/store/other"), Agent::new(), &mut store).unwrap();
    assert_eq!(store.agent(AgentId(2)).unwrap().nixos_configuration_id, None);
}

#[test]
fn a_closed_session_is_not_registered() {
    let mut manager: AgentManager<u8> = AgentManager::start();
    let mut store = Store::new();
    let mut agent = Agent::new();
    agent.close();
    let outcome = manager.add_agent(&status(A6FE, "/nix/store/sys"), agent, &mut store);
    assert!(matches!(outcome, Err(returned) if returned.is_closed()));
    assert_eq!(manager.len(), 0);
    assert_eq!(store.get_agents(), vec![]);
}

#[test]
fn the_heartbeat_removes_exactly_the_agents_whose_ping_failed() {
    let mut manager: AgentManager<u8> = AgentManager::start();
    let mut store = Store::new();
    for id in 1..6 {
        manager.add_agent(&status(AgentId(id), "/s"), Agent::new(), &mut store).unwrap();
    }
    let mut targets = manager.heartbeat_targets();
    targets.sort();
    assert_eq!(targets, (1..6).map(AgentId).collect::<Vec<_>>());
    manager.heartbeat(&vec![
        Probe { agent_id: AgentId(1), failed: false },
        Probe { agent_id: AgentId(2), failed: true },
        Probe { agent_id: AgentId(3), failed: false },
        Probe { agent_id: AgentId(4), failed: true },
        Probe { agent_id: AgentId(9), failed: true },
    ]);
    let mut left = manager.heartbeat_targets();
    left.sort();
    assert_eq!(left, vec![AgentId(1), AgentId(3), AgentId(5)]);
    assert_eq!(manager.len(), 3);
    manager.heartbeat(&vec![]);
    assert_eq!(manager.len(), 3);
    assert_eq!(store.get_agents().len(), 5);
}

#[test]
fn an_agent_whose_session_was_closed_leaves_at_the_next_heartbeat_only() {
    let mut manager: AgentManager<u8> = AgentManager::start();
    let mut store = Store::new();
    manager.add_agent(&status(AgentId(1), "/s"), Agent::new(), &mut store).unwrap();
    manager.add_agent(&status(AgentId(2), "/s"), Agent::new(), &mut store).unwrap();
    manager.ping(AgentId(1), 0).unwrap();
    manager.ping(AgentId(2), 0).unwrap();
    manager.heartbeat(&vec![
        Probe { agent_id: AgentId(1), failed: true },
        Probe { agent_id: AgentId(2), failed: false },
    ]);
    assert!(!manager.contains(AgentId(1)));
    assert!(manager.contains(AgentId(2)));
    assert_eq!(manager.get(AgentId(2)).unwrap().pending_len(), 1);
}

#[test]
fn a_disconnect_takes_the_session_out_closed() {
    let mut manager: AgentManager<u8> = AgentManager::start();
    let mut store = Store::new();
    manager.add_agent(&status(A6FE, "/s"), Agent::new(), &mut store).unwrap();
    manager.ping(A6FE, 1).unwrap();
    let gone = manager.disconnect(A6FE).unwrap();
    assert!(gone.is_closed());
    assert_eq!(gone.pending_len(), 0);
    assert!(!manager.contains(A6FE));
    assert!(manager.disconnect(A6FE).is_none());
    assert_eq!(manager.ping(A6FE, 7), Err((SendError::Offline, 7)));
}

#[test]
fn calls_go_through_the_session_of_the_agent() {
    let mut manager: AgentManager<&str> = AgentManager::start();
    let mut store = Store::new();
    manager.add_agent(&status(A6FE, "/s"), Agent::new(), &mut store).unwrap();
    assert_eq!(manager.ping(A6FE, "p"), Ok(RequestId(0)));
    let download = DownloadParams { store_path: "/nix/store/A".into(), from: "http://s".into() };
    assert_eq!(manager.download(A6FE, &download, "d"), Ok(RequestId(1)));
    let activate = ActivateParams { store_path: "/nix/store/A".into() };
    assert_eq!(manager.activate(A6FE, &activate, "a"), Ok(RequestId(2)));
    assert_eq!(manager.send_request(A6FE, "m", Json::Int(1), "m"), Ok(RequestId(3)));
    assert_eq!(manager.send_request(AgentId(5), "m", Json::Null, "x"), Err((SendError::Offline, "x")));
    assert_eq!(
        manager.process_outbox(A6FE),
        Some(JsonRPC::Request(Request::new(RequestId(0), "$/ping".to_string(), Json::Null)))
    );
    assert_eq!(
        manager.process_outbox(A6FE),
        Some(JsonRPC::Request(Request::new(
            RequestId(1),
            "$/download".to_string(),
            download.to_json()
        )))
    );
    let answer = Response::new_ok(RequestId(1), Json::Null);
    assert_eq!(
        manager.process_inbox(A6FE, JsonRPC::Response(answer.clone())),
        Some(Handled::Completed("d", answer.clone()))
    );
    assert_eq!(
        manager.process_inbox(A6FE, JsonRPC::Response(answer.clone())),
        Some(Handled::Unknown(answer.clone()))
    );
    assert_eq!(manager.process_inbox(AgentId(5), JsonRPC::Response(answer)), None);
    assert_eq!(manager.process_outbox(AgentId(5)), None);
    assert_eq!(manager.get(A6FE).unwrap().pending_len(), 3);
    assert_eq!(manager.get(A6FE).unwrap().outbox_len(), 2);
}

#[test]
fn a_new_evaluation_is_downloaded_by_the_assigned_agent() {
    let mut manager: AgentManager<&str> = AgentManager::start();
    let mut store = store_with_alpha_and_beta();
    manager.add_agent(&status(A6FE, "/nix/store/AAA-alpha"), Agent::new(), &mut store).unwrap();
    assert_eq!(
        manager.process_update(&store, 1, 1, "http://server:8080", "slot"),
        Update::Sent(A6FE, RequestId(0))
    );
    assert_eq!(
        manager.process_outbox(A6FE).unwrap().encode(),
        "{\"jsonrpc\":\"2.0\",\"id\":0,\"method\":\"$/download\",\"params\":{\"store_path\":\"/nix/store/AAA-alpha\",\"from\":\"http://server:8080\"}}"
    );
    assert_eq!(manager.process_update(&store, 2, 1, "http://s", "slot"), Update::Unassigned("slot"));
    assert_eq!(manager.process_update(&store, 1, 9, "http://s", "slot"), Update::Unevaluated("slot"));
    manager.disconnect(A6FE);
    assert_eq!(
        manager.process_update(&store, 1, 1, "http://s", "slot"),
        Update::Unsent(A6FE, SendError::Offline, "slot")
    );
    let _ = CallError::Closed;
}

#[test]
fn a_session_is_registered_without_the_store() {
    let mut manager: AgentManager<u8> = AgentManager::start();
    assert!(matches!(manager.register(A6FE, Agent::new()), Ok(None)));
    let mut second = Agent::new();
    second.ping(1).unwrap();
    let previous = manager.register(A6FE, second).unwrap().unwrap();
    assert!(previous.is_closed());
    assert_eq!(previous.next_request_id(), RequestId(0));
    assert_eq!(manager.get(A6FE).unwrap().next_request_id(), RequestId(1));
    let mut closed = Agent::new();
    closed.close();
    assert!(manager.register(AgentId(3), closed).is_err());
    assert_eq!(manager.len(), 1);
}

#[test]
fn an_envelope_is_queued_for_a_registered_agent() {
    let mut manager: AgentManager<u8> = AgentManager::start();
    manager.register(A6FE, Agent::new()).unwrap();
    let note = JsonRPC::Response(Response::new_err(RequestId::none(), -32700, "bad".into()));
    assert_eq!(manager.enqueue(A6FE, note.clone()), Ok(()));
    assert_eq!(manager.enqueue(AgentId(4), note.clone()), Err(note.clone()));
    assert_eq!(manager.process_outbox(A6FE), Some(note));
    assert_eq!(manager.process_outbox(A6FE), None);
}

#[test]
fn an_update_goes_to_the_agent_that_was_looked_up() {
    let mut manager: AgentManager<&str> = AgentManager::start();
    manager.register(A6FE, Agent::new()).unwrap();
    assert_eq!(
        manager.update_agent(Some(A6FE), Some("/nix/store/A".to_string()), "http://s", "slot"),
        Update::Sent(A6FE, RequestId(0))
    );
    assert_eq!(
        manager.update_agent(None, Some("/nix/store/A".to_string()), "http://s", "slot"),
        Update::Unassigned("slot")
    );
    assert_eq!(manager.update_agent(Some(A6FE), None, "http://s", "slot"), Update::Unevaluated("slot"));
    assert_eq!(
        manager.update_agent(Some(AgentId(2)), Some("/nix/store/A".into()), "http://s", "slot"),
        Update::Unsent(AgentId(2), SendError::Offline, "slot")
    );
    assert_eq!(manager.get(A6FE).unwrap().outbox_len(), 1);
}

#[test]
fn a_handshake_with_a_status_registers_the_session() {
    let mut manager: AgentManager<u8> = AgentManager::start();
    let mut store = store_with_alpha_and_beta();
    let told = status(A6FE, "/nix/store/AAA-alpha");
    let answer = Response::new_ok(RequestId(0), told.to_json());
    let (read, previous) = manager.handshake(Some(&answer), Agent::new(), &mut store).unwrap();
    assert_eq!(read, told);
    assert!(previous.is_none());
    assert!(manager.contains(A6FE));
    assert_eq!(
        store.get_agents(),
        vec![AgentRecord {
            agent_id: A6FE,
            current_system: Some("/nix/store/AAA-alpha".to_string()),
            nixos_configuration_id: Some(1),
        }]
    );
}

#[test]
fn a_handshake_without_a_status_changes_nothing() {
    let mut manager: AgentManager<u8> = AgentManager::start();
    let mut store = store_with_alpha_and_beta();
    manager.add_agent(&status(AgentId(9), "/nix/store/sys"), Agent::new(), &mut store).unwrap();
    let agents = store.get_agents();
    let failed = Response::new_err(RequestId(0), -32603, "no link".to_string());
    let empty = Response { id: RequestId(0), result: None, error: None };
    let undecodable = Response::new_ok(RequestId(0), Json::text("who?"));
    let cases = vec![
        (Some(&failed), StatusError::Failed(failed.error.clone().unwrap())),
        (Some(&empty), StatusError::Empty),
        (Some(&undecodable), StatusError::Malformed),
        (None, StatusError::Canceled),
    ];
    for (answer, reason) in cases {
        let mut agent = Agent::new();
        agent.status(3).unwrap();
        match manager.handshake(answer, agent, &mut store) {
            Err((HandshakeError::Status(told), returned)) => {
                assert_eq!(told, reason);
                assert_eq!(returned.pending_len(), 1);
                assert!(!returned.is_closed());
            }
            other => panic!("{other:?}"),
        }
        assert_eq!(manager.len(), 1);
        assert!(manager.contains(AgentId(9)));
        assert!(!manager.contains(A6FE));
        assert_eq!(store.get_agents(), agents);
    }
    let told = Response::new_ok(RequestId(0), status(A6FE, "/nix/store/AAA-alpha").to_json());
    let mut closed = Agent::new();
    closed.close();
    assert!(matches!(
        manager.handshake(Some(&told), closed, &mut store),
        Err((HandshakeError::Closed, _))
    ));
    assert_eq!(manager.len(), 1);
    assert_eq!(store.get_agents(), agents);
}

#[test]
fn a_ping_without_an_answer_counts_as_failed() {
    let pong = Response::new_ok(RequestId(0), Json::text("pong"));
    let down = Response::new_err(RequestId(0), -32603, "down".to_string());
    assert_eq!(Probe::answered(A6FE, Some(&pong)), Probe { agent_id: A6FE, failed: false });
    assert_eq!(Probe::answered(A6FE, Some(&down)), Probe { agent_id: A6FE, failed: true });
    assert_eq!(Probe::answered(A6FE, None), Probe { agent_id: A6FE, failed: true });
    let mut manager: AgentManager<u8> = AgentManager::start();
    manager.register(A6FE, Agent::new()).unwrap();
    manager.register(AgentId(2), Agent::new()).unwrap();
    manager.heartbeat(&vec![Probe::answered(A6FE, None), Probe::answered(AgentId(2), Some(&pong))]);
    assert!(!manager.contains(A6FE));
    assert!(manager.contains(AgentId(2)));
}
