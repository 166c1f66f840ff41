use nxy::agent::{Agent, CallError, Handled, StatusError};
use nxy::json::Json;
use nxy::rpc::{JsonRPC, Notification, Request, RequestId, Response, ResponseError};
use nxy::types::{ActivateParams, AgentId, DownloadParams, Status, System};

#[test]
fn a_fresh_agent_has_nothing_pending_or_queued() {
    let agent: Agent<u32> = Agent::new();
    assert_eq!(agent.next_request_id(), RequestId(0));
    assert_eq!(agent.pending_len(), 0);
    assert_eq!(agent.outbox_len(), 0);
    assert!(!agent.is_closed());
    assert!(!agent.is_pending(RequestId(0)));
}

#[test]
fn ids_start_at_zero_and_go_up_by_one() {
    let mut agent: Agent<&str> = Agent::new();
    assert_eq!(agent.send_request("a", Json::Null, "first"), Ok(RequestId(0)));
    assert_eq!(agent.send_request("b", Json::Null, "second"), Ok(RequestId(1)));
    assert_eq!(agent.ping("third"), Ok(RequestId(2)));
    assert_eq!(agent.next_request_id(), RequestId(3));
    assert_eq!(agent.pending_len(), 3);
    assert!(agent.is_pending(RequestId(0)));
    assert!(agent.is_pending(RequestId(1)));
    assert!(agent.is_pending(RequestId(2)));
    assert!(!agent.is_pending(RequestId(3)));
}

#[test]
fn a_request_is_queued_when_it_is_issued() {
    let mut agent: Agent<u8> = Agent::new();
    let params = Json::Array(vec![Json::Int(1)]);
    agent.send_request("method", params.clone(), 0).unwrap();
    assert_eq!(
        agent.process_outbox(),
        Some(JsonRPC::Request(Request::new(RequestId(0), "method".to_string(), params)))
    );
    assert_eq!(agent.process_outbox(), None);
}

#[test]
fn the_calls_of_the_server_name_their_methods() {
    let mut agent: Agent<u8> = Agent::new();
    agent.ping(0).unwrap();
    agent.status(0).unwrap();
    let download =
        DownloadParams { store_path: "/nix/store/AAA-alpha".into(), from: "http://s:8080".into() };
    agent.download(&download, 0).unwrap();
    let activate = ActivateParams { store_path: "/nix/store/AAA-alpha".into() };
    agent.activate(&activate, 0).unwrap();
    let sent: Vec<String> = std::iter::from_fn(|| agent.process_outbox())
        .map(|envelope| envelope.encode())
        .collect();
    assert_eq!(
        sent,
        vec![
            "{\"jsonrpc\":\"2.0\",\"id\":0,\"method\":\"$/ping\"}",
            "{\"jsonrpc\":\"2.0\",\"id\":1,\"method\":\"$/status\"}",
            "{\"jsonrpc\":\"2.0\",\"id\":2,\"method\":\"$/download\",\"params\":{\"store_path\":\"/nix/store/AAA-alpha\",\"from\":\"http://s:8080\"}}",
            "{\"jsonrpc\":\"2.0\",\"id\":3,\"method\":\"$/activate\",\"params\":{\"store_path\":\"/nix/store/AAA-alpha\"}}",
        ]
    );
}

#[test]
fn a_response_completes_its_request_exactly_once() {
    let mut agent: Agent<&str> = Agent::new();
    agent.ping("slot 0").unwrap();
    agent.ping("slot 1").unwrap();
    let response = Response::new_ok(RequestId(1), Json::text("pong"));
    assert_eq!(
        agent.process_inbox(JsonRPC::Response(response.clone())),
        Handled::Completed("slot 1", response.clone())
    );
    assert!(!agent.is_pending(RequestId(1)));
    assert!(agent.is_pending(RequestId(0)));
    assert_eq!(
        agent.process_inbox(JsonRPC::Response(response.clone())),
        Handled::Unknown(response)
    );
    assert_eq!(agent.pending_len(), 1);
}

#[test]
fn a_response_to_no_request_goes_no_further() {
    let mut agent: Agent<u8> = Agent::new();
    agent.ping(1).unwrap();
    let stray = Response::new_err(RequestId::none(), -32700, "bad frame".to_string());
    assert_eq!(agent.process_inbox(JsonRPC::Response(stray.clone())), Handled::Unknown(stray));
    assert_eq!(agent.pending_len(), 1);
    assert_eq!(agent.outbox_len(), 1);
}

#[test]
fn requests_and_notifications_are_handed_on() {
    let mut agent: Agent<u8> = Agent::new();
    let request = Request::new(RequestId(5), "$/ping".to_string(), Json::Null);
    assert_eq!(
        agent.process_inbox(JsonRPC::Request(request.clone())),
        Handled::Request(request)
    );
    let notification = Notification::new("n".to_string(), Json::Null);
    assert_eq!(
        agent.process_inbox(JsonRPC::Notification(notification.clone())),
        Handled::Notification(notification)
    );
    assert_eq!(agent.pending_len(), 0);
    assert_eq!(agent.outbox_len(), 0);
}

#[test]
fn the_writer_gets_the_envelopes_first_in_first_out() {
    let mut agent: Agent<u8> = Agent::new();
    agent.ping(0).unwrap();
    let reply = JsonRPC::Response(Response::new_ok(RequestId(9), Json::Null));
    agent.enqueue(reply.clone()).unwrap();
    agent.status(0).unwrap();
    assert_eq!(agent.outbox_len(), 3);
    let first = agent.process_outbox().unwrap();
    let note = JsonRPC::Notification(Notification::new("late".to_string(), Json::Null));
    agent.enqueue(note.clone()).unwrap();
    let rest: Vec<JsonRPC> = std::iter::from_fn(|| agent.process_outbox()).collect();
    assert_eq!(
        first,
        JsonRPC::Request(Request::new(RequestId(0), "$/ping".to_string(), Json::Null))
    );
    assert_eq!(
        rest,
        vec![
            reply,
            JsonRPC::Request(Request::new(RequestId(1), "$/status".to_string(), Json::Null)),
            note,
        ]
    );
}

#[test]
fn a_request_is_answered_by_the_handler() {
    let mut agent: Agent<u8> = Agent::new();
    let request = Request::new(RequestId(8), "$/ping".to_string(), Json::Null);
    agent.answer(request, |request| Response::new_ok(request.id, Json::text("pong"))).unwrap();
    assert_eq!(
        agent.process_outbox(),
        Some(JsonRPC::Response(Response::new_ok(RequestId(8), Json::text("pong"))))
    );
    assert_eq!(agent.pending_len(), 0);
}

#[test]
fn closing_cancels_every_pending_request() {
    let mut agent: Agent<std::rc::Rc<()>> = Agent::new();
    let slot = std::rc::Rc::new(());
    agent.ping(slot.clone()).unwrap();
    agent.ping(slot.clone()).unwrap();
    assert_eq!(std::rc::Rc::strong_count(&slot), 3);
    agent.close();
    assert_eq!(std::rc::Rc::strong_count(&slot), 1);
    assert!(agent.is_closed());
    assert_eq!(agent.pending_len(), 0);
    let late = Response::new_ok(RequestId(0), Json::Null);
    assert_eq!(agent.process_inbox(JsonRPC::Response(late.clone())), Handled::Unknown(late));
}

#[test]
fn a_closed_agent_issues_no_request() {
    let mut agent: Agent<&str> = Agent::new();
    agent.close();
    assert_eq!(agent.send_request("m", Json::Null, "slot"), Err((CallError::Closed, "slot")));
    assert_eq!(agent.ping("slot"), Err((CallError::Closed, "slot")));
    assert_eq!(agent.next_request_id(), RequestId(0));
    assert_eq!(agent.outbox_len(), 0);
}

#[test]
fn ping_outcome_is_an_error_exactly_for_an_error() {
    assert_eq!(
        Agent::<u8>::ping_outcome(&Response::new_ok(RequestId(0), Json::text("pong"))),
        Ok(())
    );
    assert_eq!(
        Agent::<u8>::ping_outcome(&Response::new_err(RequestId(0), -32603, "down".to_string())),
        Err(ResponseError { code: -32603, message: "down".to_string(), data: None })
    );
}

#[test]
fn status_outcome_reads_the_status() {
    let status = Status {
        id: AgentId(0xa6fe_0000_0000_4000_8000_0000_0000_0001),
        system: System { current: "/nix/store/AAA-alpha".into(), booted: "/nix/store/B".into() },
        version: "0.1.0".into(),
    };
    assert_eq!(
        Agent::<u8>::status_outcome(&Response::new_ok(RequestId(0), status.to_json())),
        Ok(status)
    );
    assert_eq!(
        Agent::<u8>::status_outcome(&Response::new_ok(RequestId(0), Json::Null)),
        Err(StatusError::Malformed)
    );
    assert_eq!(
        Agent::<u8>::status_outcome(&Response { id: RequestId(0), result: None, error: None }),
        Err(StatusError::Empty)
    );
    assert_eq!(
        Agent::<u8>::status_outcome(&Response::new_err(RequestId(0), 1, "no".to_string())),
        Err(StatusError::Failed(ResponseError { code: 1, message: "no".into(), data: None }))
    );
}

#[test]
fn a_full_queue_takes_no_more_envelopes() {
    let mut agent: Agent<u32> = Agent::new();
    for n in 0..4096u32 {
        assert!(agent.has_room());
        assert_eq!(agent.ping(n), Ok(RequestId(n as u64)));
    }
    assert!(!agent.has_room());
    assert_eq!(agent.outbox_len(), 4096);
    assert_eq!(agent.ping(7), Err((CallError::Full, 7)));
    assert_eq!(agent.send_request("m", Json::Null, 8), Err((CallError::Full, 8)));
    let note = JsonRPC::Notification(Notification::new("n".to_string(), Json::Null));
    assert_eq!(agent.enqueue(note.clone()), Err(note.clone()));
    let request = Request::new(RequestId(1), "$/ping".to_string(), Json::Null);
    let pong = Response::new_ok(RequestId(1), Json::text("pong"));
    assert_eq!(agent.answer(request, |r| Response::new_ok(r.id, Json::text("pong"))), Err(pong));
    assert_eq!(agent.next_request_id(), RequestId(4096));
    assert_eq!(agent.pending_len(), 4096);
    assert_eq!(agent.outbox_len(), 4096);
    assert!(agent.process_outbox().is_some());
    assert!(agent.has_room());
    assert_eq!(agent.enqueue(note), Ok(()));
    assert_eq!(agent.ping(9), Err((CallError::Full, 9)));
}

#[test]
fn an_answer_that_never_came_is_a_failure() {
    assert_eq!(Agent::<u8>::status_answer(None), Err(StatusError::Canceled));
    assert!(Agent::<u8>::ping_answer(None));
    let pong = Response::new_ok(RequestId(0), Json::text("pong"));
    assert!(!Agent::<u8>::ping_answer(Some(&pong)));
    let failed = Response::new_err(RequestId(0), -32603, "down".to_string());
    assert!(Agent::<u8>::ping_answer(Some(&failed)));
    assert_eq!(Agent::<u8>::status_answer(Some(&pong)), Err(StatusError::Malformed));
    assert_eq!(
        Agent::<u8>::status_answer(Some(&failed)),
        Err(StatusError::Failed(ResponseError {
            code: -32603,
            message: "down".to_string(),
            data: None
        }))
    );
}
