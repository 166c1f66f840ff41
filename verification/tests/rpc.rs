use nxy::json::Json;
use nxy::rpc::{
    ErrorCode, JsonRPC, Notification, ParseError, Request, RequestId, Response, ResponseError,
};

fn object(entries: Vec<(&str, Json)>) -> Json {
    Json::Object(entries.into_iter().map(|(k, v)| (k.to_string(), v)).collect())
}

fn text(s: &str) -> Json {
    Json::Text(s.to_string())
}

#[test]
fn error_codes_have_their_canonical_values() {
    assert_eq!(ErrorCode::ParseError.code(), -32700);
    assert_eq!(ErrorCode::InvalidRequest.code(), -32600);
    assert_eq!(ErrorCode::MethodNotFound.code(), -32601);
    assert_eq!(ErrorCode::InvalidParams.code(), -32602);
    assert_eq!(ErrorCode::InternalError.code(), -32603);
    assert_eq!(ErrorCode::ServerErrorStart.code(), -32099);
    assert_eq!(ErrorCode::ServerErrorEnd.code(), -32000);
}

#[test]
fn request_id_converts_from_u64() {
    assert_eq!(RequestId::from(7), RequestId(7));
    assert_eq!(RequestId::from(7).value(), 7);
    assert_eq!(RequestId::none(), RequestId(u64::MAX));
    let id: RequestId = u64::MAX.into();
    assert_eq!(id, RequestId::none());
}

#[test]
fn encode_request_writes_the_tag_first() {
    let request = Request::new(RequestId(0), "$/ping".to_string(), Json::Null);
    assert_eq!(
        JsonRPC::Request(request).encode(),
        "{\"jsonrpc\":\"2.0\",\"id\":0,\"method\":\"$/ping\"}"
    );
}

#[test]
fn encode_request_with_params() {
    let params = object(vec![("store_path", text("/nix/store/AAA-alpha"))]);
    let request = Request::new(RequestId(3), "$/activate".to_string(), params);
    assert_eq!(
        JsonRPC::from(request).encode(),
        "{\"jsonrpc\":\"2.0\",\"id\":3,\"method\":\"$/activate\",\"params\":{\"store_path\":\"/nix/store/AAA-alpha\"}}"
    );
}

#[test]
fn encode_response_ok() {
    let response = Response::new_ok(RequestId(1), text("pong"));
    assert_eq!(
        JsonRPC::Response(response).encode(),
        "{\"jsonrpc\":\"2.0\",\"id\":1,\"result\":\"pong\"}"
    );
}

#[test]
fn encode_response_err() {
    let response = Response::new_err(RequestId(2), -32601, "no such method".to_string());
    assert_eq!(
        JsonRPC::Response(response).encode(),
        "{\"jsonrpc\":\"2.0\",\"id\":2,\"error\":{\"code\":-32601,\"message\":\"no such method\"}}"
    );
}

#[test]
fn encode_notification() {
    let notification = Notification::new("log".to_string(), Json::Array(vec![Json::Int(1)]));
    assert_eq!(
        JsonRPC::Notification(notification).encode(),
        "{\"jsonrpc\":\"2.0\",\"method\":\"log\",\"params\":[1]}"
    );
}

#[test]
fn every_encoding_carries_the_version_tag() {
    let envelopes = vec![
        JsonRPC::Request(Request::new(RequestId(9), "m".to_string(), Json::Bool(true))),
        JsonRPC::Response(Response::new_ok(RequestId(9), Json::Null)),
        JsonRPC::Response(Response::new_err(RequestId(9), 1, "e".to_string())),
        JsonRPC::Notification(Notification::new("n".to_string(), Json::Null)),
    ];
    for envelope in envelopes {
        let json = Json::parse(&envelope.encode()).unwrap();
        assert_eq!(json.get("jsonrpc"), Some(&text("2.0")));
        assert_eq!(envelope.to_json().get("jsonrpc"), Some(&text("2.0")));
    }
}

#[test]
fn decode_gives_back_what_encode_wrote() {
    let data = object(vec![("stderr", text("boom")), ("codes", Json::Array(vec![Json::Int(-1)]))]);
    let envelopes = vec![
        JsonRPC::Request(Request::new(RequestId(0), "$/status".to_string(), Json::Null)),
        JsonRPC::Request(Request::new(
            RequestId(u64::MAX - 1),
            "$/download".to_string(),
            object(vec![("store_path", text("/nix/store/x")), ("from", text("http://s"))]),
        )),
        JsonRPC::Response(Response::new_ok(RequestId(4), Json::Null)),
        JsonRPC::Response(Response::new_ok(RequestId(4), text("pong"))),
        JsonRPC::Response(Response::new_err(RequestId(5), -32603, "nix copy failed".to_string())),
        JsonRPC::Response(Response {
            id: RequestId(6),
            result: Some(Json::Int(1)),
            error: Some(ResponseError { code: i32::MIN, message: String::new(), data: Some(data) }),
        }),
        JsonRPC::Notification(Notification::new("tick".to_string(), Json::Null)),
        JsonRPC::Notification(Notification::new("tick".to_string(), Json::Real("1.5".to_string()))),
    ];
    for envelope in envelopes {
        assert_eq!(JsonRPC::decode(&envelope.encode()), Ok(envelope.clone()));
        assert_eq!(JsonRPC::from_json(&envelope.to_json()), Ok(envelope));
    }
}

#[test]
fn decode_tells_the_three_kinds_apart() {
    assert_eq!(
        JsonRPC::decode("{\"jsonrpc\":\"2.0\",\"id\":7,\"method\":\"$/ping\"}"),
        Ok(JsonRPC::Request(Request::new(RequestId(7), "$/ping".to_string(), Json::Null)))
    );
    assert_eq!(
        JsonRPC::decode("{\"id\":7,\"result\":null}"),
        Ok(JsonRPC::Response(Response::new_ok(RequestId(7), Json::Null)))
    );
    assert_eq!(
        JsonRPC::decode("{\"method\":\"hello\",\"params\":[true]}"),
        Ok(JsonRPC::Notification(Notification::new(
            "hello".to_string(),
            Json::Array(vec![Json::Bool(true)])
        )))
    );
}

#[test]
fn decode_ignores_unknown_fields() {
    assert_eq!(
        JsonRPC::decode("{\"id\":1,\"method\":\"m\",\"extra\":{\"a\":1},\"jsonrpc\":\"1.0\"}"),
        Ok(JsonRPC::Request(Request::new(RequestId(1), "m".to_string(), Json::Null)))
    );
}

#[test]
fn decode_takes_an_id_that_is_no_number_for_no_id() {
    assert_eq!(
        JsonRPC::decode("{\"id\":\"x\",\"method\":\"m\"}"),
        Ok(JsonRPC::Notification(Notification::new("m".to_string(), Json::Null)))
    );
    assert_eq!(
        JsonRPC::decode("{\"id\":-1,\"method\":\"m\"}"),
        Ok(JsonRPC::Notification(Notification::new("m".to_string(), Json::Null)))
    );
    assert_eq!(
        JsonRPC::decode("{\"id\":18446744073709551615,\"method\":\"m\"}"),
        Ok(JsonRPC::Request(Request::new(RequestId::none(), "m".to_string(), Json::Null)))
    );
}

#[test]
fn decode_rejects_an_id_without_result_or_error() {
    assert_eq!(JsonRPC::decode("{\"jsonrpc\":\"2.0\",\"id\":1}"), Err(ParseError::MissingResult));
    assert_eq!(
        JsonRPC::decode("{\"jsonrpc\":\"2.0\",\"id\":1,\"error\":null}"),
        Err(ParseError::MissingResult)
    );
    assert_eq!(
        JsonRPC::from_json(&object(vec![("id", Json::Int(1)), ("method", Json::Int(5))])),
        Err(ParseError::MissingResult)
    );
}

#[test]
fn decode_rejects_what_is_no_envelope() {
    assert_eq!(JsonRPC::decode("[1,2]"), Err(ParseError::NotAnObject));
    assert_eq!(JsonRPC::decode("\"text\""), Err(ParseError::NotAnObject));
    assert_eq!(JsonRPC::decode("{}"), Err(ParseError::MissingMethod));
    assert_eq!(JsonRPC::decode("{\"result\":1}"), Err(ParseError::MissingMethod));
    assert_eq!(
        JsonRPC::decode("{\"id\":1,\"error\":{\"code\":\"x\",\"message\":\"m\"}}"),
        Err(ParseError::InvalidError)
    );
    assert_eq!(
        JsonRPC::decode("{\"id\":1,\"error\":{\"code\":2147483648,\"message\":\"m\"}}"),
        Err(ParseError::InvalidError)
    );
    assert_eq!(
        JsonRPC::decode("{\"id\":1,\"result\":1,\"error\":5}"),
        Err(ParseError::InvalidError)
    );
}

#[test]
fn decode_reports_the_reason_for_malformed_text() {
    match JsonRPC::decode("{\"id\":") {
        Err(ParseError::Syntax(reason)) => {
            assert!(reason.contains("EOF"), "{reason}");
        }
        other => panic!("{other:?}"),
    }
    assert_eq!(ParseError::Syntax("why".to_string()).message(), "why");
    assert_eq!(ParseError::NotAnObject.message(), "the message is not a JSON object");
    assert_eq!(
        ParseError::MissingMethod.message(),
        "the message has neither an id nor a method"
    );
    assert_eq!(
        ParseError::MissingResult.message(),
        "the message has an id but no method, result or error"
    );
    assert_eq!(
        ParseError::InvalidError.message(),
        "the error of the response lacks a code or a message"
    );
}

#[test]
fn response_error_reads_its_data() {
    let json = object(vec![
        ("code", Json::Int(-32000)),
        ("message", text("m")),
        ("data", Json::Null),
    ]);
    assert_eq!(
        ResponseError::from_json(&json),
        Some(ResponseError { code: -32000, message: "m".to_string(), data: Some(Json::Null) })
    );
    assert_eq!(ResponseError::from_json(&Json::Null), None);
}
