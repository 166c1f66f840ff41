//! The envelopes of the session protocol and their JSON form.
//!
//! An envelope is a request, a response or a notification. On the wire it is
//! one JSON object that carries the tag `"jsonrpc":"2.0"`; a reader tells the
//! three apart by the fields that are there and ignores fields it does not
//! know.

use crate::json::{entry_values, lookup, push_entry, Json, JsonValue};
use vstd::prelude::*;

verus! {

/// The number that pairs a response with its request. It is unique among the
/// requests that one end of a session has sent.
#[derive(Clone, Copy, Debug, PartialEq, Eq, Structural, PartialOrd, Ord, Hash)]
pub struct RequestId(pub u64);

impl View for RequestId {
    type V = u64;

    open spec fn view(&self) -> u64 {
        self.0
    }
}

impl From<u64> for RequestId {
    fn from(v: u64) -> (id: RequestId) {
        RequestId(v)
    }
}

impl vstd::std_specs::convert::FromSpecImpl<u64> for RequestId {
    open spec fn obeys_from_spec() -> bool {
        true
    }

    open spec fn from_spec(v: u64) -> RequestId {
        RequestId(v)
    }
}

impl RequestId {
    /// The id that stands for "no id": the largest 64-bit number. No session
    /// lives long enough to issue it.
    pub fn none() -> (id: RequestId)
        ensures
            id@ == u64::MAX,
    {
        RequestId(u64::MAX)
    }

    /// The number itself.
    pub fn value(&self) -> (v: u64)
        ensures
            v == self@,
    {
        self.0
    }
}

/// A call of `method` with `params`, to be answered under `id`.
#[derive(Debug, PartialEq, Eq)]
pub struct Request {
    pub id: RequestId,
    pub method: String,
    pub params: Json,
}

/// What went wrong with a request.
#[derive(Debug, PartialEq, Eq)]
pub struct ResponseError {
    pub code: i32,
    pub message: String,
    pub data: Option<Json>,
}

/// The answer to the request with the same `id`.
#[derive(Debug, PartialEq, Eq)]
pub struct Response {
    pub id: RequestId,
    pub result: Option<Json>,
    pub error: Option<ResponseError>,
}

/// A message that expects no answer.
#[derive(Debug, PartialEq, Eq)]
pub struct Notification {
    pub method: String,
    pub params: Json,
}

/// One message of the session protocol.
#[derive(Debug, PartialEq, Eq)]
pub enum JsonRPC {
    Request(Request),
    Response(Response),
    Notification(Notification),
}

/// The error codes of the protocol.
#[derive(Clone, Copy, Debug, PartialEq, Eq, Structural)]
#[non_exhaustive]
pub enum ErrorCode {
    ParseError,
    InvalidRequest,
    MethodNotFound,
    InvalidParams,
    InternalError,
    ServerErrorStart,
    ServerErrorEnd,
}

impl ErrorCode {
    /// The number that stands for this code on the wire.
    pub open spec fn number(self) -> int {
        match self {
            ErrorCode::ParseError => -32700,
            ErrorCode::InvalidRequest => -32600,
            ErrorCode::MethodNotFound => -32601,
            ErrorCode::InvalidParams => -32602,
            ErrorCode::InternalError => -32603,
            ErrorCode::ServerErrorStart => -32099,
            ErrorCode::ServerErrorEnd => -32000,
        }
    }

    /// The number that stands for this code on the wire.
    pub fn code(self) -> (c: i32)
        ensures
            c == self.number(),
    {
        match self {
            ErrorCode::ParseError => -32700,
            ErrorCode::InvalidRequest => -32600,
            ErrorCode::MethodNotFound => -32601,
            ErrorCode::InvalidParams => -32602,
            ErrorCode::InternalError => -32603,
            ErrorCode::ServerErrorStart => -32099,
            ErrorCode::ServerErrorEnd => -32000,
        }
    }
}

/// Why a text is no envelope.
#[derive(Debug, PartialEq, Eq)]
pub enum ParseError {
    /// The text is not JSON; the parser's reason is inside.
    Syntax(String),
    /// The document is not an object.
    NotAnObject,
    /// The object carries neither an id nor a method.
    MissingMethod,
    /// The object carries an id, but no method, result or error.
    MissingResult,
    /// The field `error` is not an object with a 32-bit `code` and a string
    /// `message`.
    InvalidError,
}

impl ParseError {
    /// The reason in words.
    pub open spec fn reason(self) -> Seq<char> {
        match self {
            ParseError::Syntax(reason) => reason@,
            ParseError::NotAnObject => "the message is not a JSON object"@,
            ParseError::MissingMethod => "the message has neither an id nor a method"@,
            ParseError::MissingResult => "the message has an id but no method, result or error"@,
            ParseError::InvalidError => "the error of the response lacks a code or a message"@,
        }
    }

    /// The reason in words.
    pub fn message(&self) -> (text: String)
        ensures
            text@ == self.reason(),
    {
        match self {
            ParseError::Syntax(reason) => reason.clone(),
            ParseError::NotAnObject => "the message is not a JSON object".to_owned(),
            ParseError::MissingMethod => "the message has neither an id nor a method".to_owned(),
            ParseError::MissingResult => {
                "the message has an id but no method, result or error".to_owned()
            },
            ParseError::InvalidError => {
                "the error of the response lacks a code or a message".to_owned()
            },
        }
    }
}

/// The mathematical value of a [`Request`].
pub struct RequestView {
    pub id: u64,
    pub method: Seq<char>,
    pub params: JsonValue,
}

/// The mathematical value of a [`ResponseError`].
pub struct ResponseErrorView {
    pub code: i32,
    pub message: Seq<char>,
    pub data: Option<JsonValue>,
}

/// The mathematical value of a [`Response`].
pub struct ResponseView {
    pub id: u64,
    pub result: Option<JsonValue>,
    pub error: Option<ResponseErrorView>,
}

/// The mathematical value of a [`Notification`].
pub struct NotificationView {
    pub method: Seq<char>,
    pub params: JsonValue,
}

/// The mathematical value of a [`JsonRPC`] envelope.
pub enum Envelope {
    Request(RequestView),
    Response(ResponseView),
    Notification(NotificationView),
}

/// The value of an optional document.
pub open spec fn optional_value(json: Option<Json>) -> Option<JsonValue> {
    match json {
        Some(json) => Some(json@),
        None => None,
    }
}

impl View for Request {
    type V = RequestView;

    open spec fn view(&self) -> RequestView {
        RequestView { id: self.id@, method: self.method@, params: self.params@ }
    }
}

impl View for ResponseError {
    type V = ResponseErrorView;

    open spec fn view(&self) -> ResponseErrorView {
        ResponseErrorView {
            code: self.code,
            message: self.message@,
            data: optional_value(self.data),
        }
    }
}

impl View for Response {
    type V = ResponseView;

    open spec fn view(&self) -> ResponseView {
        ResponseView {
            id: self.id@,
            result: optional_value(self.result),
            error: match self.error {
                Some(error) => Some(error@),
                None => None,
            },
        }
    }
}

impl View for Notification {
    type V = NotificationView;

    open spec fn view(&self) -> NotificationView {
        NotificationView { method: self.method@, params: self.params@ }
    }
}

impl View for JsonRPC {
    type V = Envelope;

    open spec fn view(&self) -> Envelope {
        match self {
            JsonRPC::Request(request) => Envelope::Request(request@),
            JsonRPC::Response(response) => Envelope::Response(response@),
            JsonRPC::Notification(notification) => Envelope::Notification(notification@),
        }
    }
}

/// The entry that tags every envelope on the wire.
pub open spec fn version_entry() -> (Seq<char>, JsonValue) {
    ("jsonrpc"@, JsonValue::Text("2.0"@))
}

impl RequestView {
    /// The JSON object that carries this request. `params` is left out where
    /// it is `null`.
    pub open spec fn to_json(self) -> JsonValue {
        let fixed = seq![
            version_entry(),
            ("id"@, JsonValue::Int(self.id as int)),
            ("method"@, JsonValue::Text(self.method)),
        ];
        JsonValue::Object(
            if self.params == JsonValue::Null {
                fixed
            } else {
                fixed.push(("params"@, self.params))
            },
        )
    }
}

impl ResponseErrorView {
    /// The JSON object that carries this error. `data` is left out where
    /// there is none.
    pub open spec fn to_json(self) -> JsonValue {
        let fixed = seq![
            ("code"@, JsonValue::Int(self.code as int)),
            ("message"@, JsonValue::Text(self.message)),
        ];
        JsonValue::Object(
            match self.data {
                Some(data) => fixed.push(("data"@, data)),
                None => fixed,
            },
        )
    }
}

impl ResponseView {
    /// A response says something: it has a result or an error.
    pub open spec fn well_formed(self) -> bool {
        self.result is Some || self.error is Some
    }

    /// The JSON object that carries this response. `result` and `error` are
    /// left out where there is none.
    pub open spec fn to_json(self) -> JsonValue {
        let fixed = seq![version_entry(), ("id"@, JsonValue::Int(self.id as int))];
        let with_result = match self.result {
            Some(result) => fixed.push(("result"@, result)),
            None => fixed,
        };
        JsonValue::Object(
            match self.error {
                Some(error) => with_result.push(("error"@, error.to_json())),
                None => with_result,
            },
        )
    }
}

impl NotificationView {
    /// The JSON object that carries this notification. `params` is left out
    /// where it is `null`.
    pub open spec fn to_json(self) -> JsonValue {
        let fixed = seq![version_entry(), ("method"@, JsonValue::Text(self.method))];
        JsonValue::Object(
            if self.params == JsonValue::Null {
                fixed
            } else {
                fixed.push(("params"@, self.params))
            },
        )
    }
}

impl Envelope {
    /// An envelope that a reader takes for what it is: a response has a
    /// result or an error. Every id, method and params is well formed.
    pub open spec fn well_formed(self) -> bool {
        self matches Envelope::Response(response) ==> response.well_formed()
    }

    /// The JSON object that carries this envelope.
    pub open spec fn to_json(self) -> JsonValue {
        match self {
            Envelope::Request(request) => request.to_json(),
            Envelope::Response(response) => response.to_json(),
            Envelope::Notification(notification) => notification.to_json(),
        }
    }
}

/// The id that an object carries: the field `id`, where it is an integer that
/// fits in 64 bits without a sign.
pub open spec fn id_of(json: JsonValue) -> Option<u64> {
    match json.field("id"@) {
        Some(id) => match id.int_within(0, u64::MAX as int) {
            Some(id) => Some(id as u64),
            None => None,
        },
        None => None,
    }
}

/// The method that an object carries: the field `method`, where it is a
/// string.
pub open spec fn method_of(json: JsonValue) -> Option<Seq<char>> {
    match json.field("method"@) {
        Some(method) => method.text(),
        None => None,
    }
}

/// The params that an object carries: the field `params`, or `null`.
pub open spec fn params_of(json: JsonValue) -> JsonValue {
    match json.field("params"@) {
        Some(params) => params,
        None => JsonValue::Null,
    }
}

/// The error that the value of a field `error` stands for, or `None` where it
/// lacks a 32-bit `code` or a string `message`.
pub open spec fn error_of(json: JsonValue) -> Option<ResponseErrorView> {
    match json.field("code"@) {
        Some(code) => match code.int_within(i32::MIN as int, i32::MAX as int) {
            Some(code) => match json.field("message"@) {
                Some(JsonValue::Text(message)) => Some(
                    ResponseErrorView { code: code as i32, message, data: json.field("data"@) },
                ),
                _ => None,
            },
            None => None,
        },
        None => None,
    }
}

/// The response that an object with the id `id` and without a method stands
/// for.
pub open spec fn response_of(json: JsonValue, id: u64) -> Result<Envelope, ParseError> {
    let result = json.field("result"@);
    match json.field("error"@) {
        None | Some(JsonValue::Null) => if result is Some {
            Ok(Envelope::Response(ResponseView { id, result, error: None }))
        } else {
            Err(ParseError::MissingResult)
        },
        Some(error) => match error_of(error) {
            Some(error) => Ok(Envelope::Response(ResponseView { id, result, error: Some(error) })),
            None => Err(ParseError::InvalidError),
        },
    }
}

/// The envelope that a JSON document stands for.
///
/// An object with an id and a method is a request. One with an id, no method
/// and a result or an error is a response. One with a method and no id is a
/// notification. Nothing else is an envelope.
pub open spec fn envelope_of(json: JsonValue) -> Result<Envelope, ParseError> {
    if !(json is Object) {
        Err(ParseError::NotAnObject)
    } else {
        match (id_of(json), method_of(json)) {
            (Some(id), Some(method)) => Ok(
                Envelope::Request(RequestView { id, method, params: params_of(json) }),
            ),
            (None, Some(method)) => Ok(
                Envelope::Notification(NotificationView { method, params: params_of(json) }),
            ),
            (Some(id), None) => response_of(json, id),
            (None, None) => Err(ParseError::MissingMethod),
        }
    }
}

/// What is wrong with a text that is no envelope, in words: the parser's
/// reason where it is no JSON, else the reason why the document is no
/// envelope. `None` for an envelope.
pub open spec fn rejection(text: Seq<char>) -> Option<Seq<char>> {
    match crate::json::parsed(text) {
        Ok(json) => match envelope_of(json) {
            Ok(_) => None,
            Err(e) => Some(e.reason()),
        },
        Err(reason) => Some(reason),
    }
}

/// The envelope that a text stands for, if it stands for one.
pub open spec fn decoded(text: Seq<char>) -> Option<Envelope> {
    match crate::json::parsed(text) {
        Ok(json) => match envelope_of(json) {
            Ok(envelope) => Some(envelope),
            Err(_) => None,
        },
        Err(_) => None,
    }
}

/// The view of what reading an envelope gave.
pub open spec fn outcome(r: Result<JsonRPC, ParseError>) -> Result<Envelope, ParseError> {
    match r {
        Ok(envelope) => Ok(envelope@),
        Err(e) => Err(e),
    }
}

impl Clone for ResponseError {
    fn clone(&self) -> (copy: ResponseError)
        ensures
            copy@ == self@,
    {
        ResponseError {
            code: self.code,
            message: self.message.clone(),
            data: match &self.data {
                Some(data) => Some(data.clone()),
                None => None,
            },
        }
    }
}

impl Clone for Request {
    fn clone(&self) -> (copy: Request)
        ensures
            copy@ == self@,
    {
        Request { id: self.id, method: self.method.clone(), params: self.params.clone() }
    }
}

impl Clone for Response {
    fn clone(&self) -> (copy: Response)
        ensures
            copy@ == self@,
    {
        Response {
            id: self.id,
            result: match &self.result {
                Some(result) => Some(result.clone()),
                None => None,
            },
            error: match &self.error {
                Some(error) => Some(error.clone()),
                None => None,
            },
        }
    }
}

impl Clone for Notification {
    fn clone(&self) -> (copy: Notification)
        ensures
            copy@ == self@,
    {
        Notification { method: self.method.clone(), params: self.params.clone() }
    }
}

impl Clone for JsonRPC {
    fn clone(&self) -> (copy: JsonRPC)
        ensures
            copy@ == self@,
    {
        match self {
            JsonRPC::Request(request) => JsonRPC::Request(request.clone()),
            JsonRPC::Response(response) => JsonRPC::Response(response.clone()),
            JsonRPC::Notification(notification) => JsonRPC::Notification(notification.clone()),
        }
    }
}

impl From<Request> for JsonRPC {
    fn from(request: Request) -> (envelope: JsonRPC) {
        JsonRPC::Request(request)
    }
}

impl vstd::std_specs::convert::FromSpecImpl<Request> for JsonRPC {
    open spec fn obeys_from_spec() -> bool {
        true
    }

    open spec fn from_spec(request: Request) -> JsonRPC {
        JsonRPC::Request(request)
    }
}

impl From<Response> for JsonRPC {
    fn from(response: Response) -> (envelope: JsonRPC) {
        JsonRPC::Response(response)
    }
}

impl vstd::std_specs::convert::FromSpecImpl<Response> for JsonRPC {
    open spec fn obeys_from_spec() -> bool {
        true
    }

    open spec fn from_spec(response: Response) -> JsonRPC {
        JsonRPC::Response(response)
    }
}

impl From<Notification> for JsonRPC {
    fn from(notification: Notification) -> (envelope: JsonRPC) {
        JsonRPC::Notification(notification)
    }
}

impl vstd::std_specs::convert::FromSpecImpl<Notification> for JsonRPC {
    open spec fn obeys_from_spec() -> bool {
        true
    }

    open spec fn from_spec(notification: Notification) -> JsonRPC {
        JsonRPC::Notification(notification)
    }
}

impl Request {
    /// A request for `method` with `params`, to be answered under `id`.
    pub fn new(id: RequestId, method: String, params: Json) -> (request: Request)
        ensures
            request@ == (RequestView { id: id@, method: method@, params: params@ }),
    {
        Request { id, method, params }
    }

    /// The JSON object that carries this request.
    pub fn to_json(&self) -> (json: Json)
        ensures
            json@ == self@.to_json(),
    {
        let mut entries: Vec<(String, Json)> = Vec::new();
        push_entry(&mut entries, "jsonrpc", Json::text("2.0"));
        push_entry(&mut entries, "id", Json::unsigned(self.id.0));
        push_entry(&mut entries, "method", Json::text(self.method.as_str()));
        if !self.params.is_null() {
            push_entry(&mut entries, "params", self.params.clone());
        }
        assert(entry_values(entries@) =~= self@.to_json()->Object_0);
        Json::object(entries)
    }
}

impl ResponseError {
    /// The JSON object that carries this error.
    pub fn to_json(&self) -> (json: Json)
        ensures
            json@ == self@.to_json(),
    {
        let mut entries: Vec<(String, Json)> = Vec::new();
        push_entry(&mut entries, "code", Json::signed(self.code as i64));
        push_entry(&mut entries, "message", Json::text(self.message.as_str()));
        match &self.data {
            Some(data) => {
                push_entry(&mut entries, "data", data.clone());
            },
            None => {},
        }
        assert(entry_values(entries@) =~= self@.to_json()->Object_0);
        Json::object(entries)
    }

    /// The error that the value of a field `error` stands for.
    pub fn from_json(json: &Json) -> (error: Option<ResponseError>)
        ensures
            match error {
                Some(error) => error_of(json@) == Some(error@),
                None => error_of(json@) is None,
            },
    {
        let code = match json.get("code") {
            Some(code) => match code.as_i32() {
                Some(code) => code,
                None => {
                    return None;
                },
            },
            None => {
                return None;
            },
        };
        let message = match json.get("message") {
            Some(message) => match message.as_str() {
                Some(message) => message.to_owned(),
                None => {
                    return None;
                },
            },
            None => {
                return None;
            },
        };
        let data = match json.get("data") {
            Some(data) => Some(data.clone()),
            None => None,
        };
        Some(ResponseError { code, message, data })
    }
}

impl Response {
    /// The response that carries `result` for the request `id`.
    pub fn new_ok(id: RequestId, result: Json) -> (response: Response)
        ensures
            response@ == (ResponseView { id: id@, result: Some(result@), error: None }),
    {
        Response { id, result: Some(result), error: None }
    }

    /// The response that tells the caller of the request `id` that it failed
    /// with `code` and `message`.
    pub fn new_err(id: RequestId, code: i32, message: String) -> (response: Response)
        ensures
            response@ == (ResponseView {
                id: id@,
                result: None,
                error: Some(ResponseErrorView { code, message: message@, data: None }),
            }),
    {
        let error = ResponseError { code, message, data: None };
        Response { id, result: None, error: Some(error) }
    }

    /// The JSON object that carries this response.
    pub fn to_json(&self) -> (json: Json)
        ensures
            json@ == self@.to_json(),
    {
        let mut entries: Vec<(String, Json)> = Vec::new();
        push_entry(&mut entries, "jsonrpc", Json::text("2.0"));
        push_entry(&mut entries, "id", Json::unsigned(self.id.0));
        match &self.result {
            Some(result) => {
                push_entry(&mut entries, "result", result.clone());
            },
            None => {},
        }
        match &self.error {
            Some(error) => {
                push_entry(&mut entries, "error", error.to_json());
            },
            None => {},
        }
        assert(entry_values(entries@) =~= self@.to_json()->Object_0);
        Json::object(entries)
    }
}

impl Notification {
    /// A notification of `method` with `params`.
    pub fn new(method: String, params: Json) -> (notification: Notification)
        ensures
            notification@ == (NotificationView { method: method@, params: params@ }),
    {
        Notification { method, params }
    }

    /// The JSON object that carries this notification.
    pub fn to_json(&self) -> (json: Json)
        ensures
            json@ == self@.to_json(),
    {
        let mut entries: Vec<(String, Json)> = Vec::new();
        push_entry(&mut entries, "jsonrpc", Json::text("2.0"));
        push_entry(&mut entries, "method", Json::text(self.method.as_str()));
        if !self.params.is_null() {
            push_entry(&mut entries, "params", self.params.clone());
        }
        assert(entry_values(entries@) =~= self@.to_json()->Object_0);
        Json::object(entries)
    }
}

/// The response that an object with the id `id` and without a method stands
/// for.
fn response_from_json(json: &Json, id: u64) -> (r: Result<JsonRPC, ParseError>)
    ensures
        outcome(r) == response_of(json@, id),
{
    let result = match json.get("result") {
        Some(result) => Some(result.clone()),
        None => None,
    };
    let error = match json.get("error") {
        None => None,
        Some(error) => if error.is_null() {
            None
        } else {
            match ResponseError::from_json(error) {
                Some(error) => Some(error),
                None => {
                    return Err(ParseError::InvalidError);
                },
            }
        },
    };
    if result.is_none() && error.is_none() {
        return Err(ParseError::MissingResult);
    }
    Ok(JsonRPC::Response(Response { id: RequestId(id), result, error }))
}

impl JsonRPC {
    /// The JSON object that carries this envelope.
    pub fn to_json(&self) -> (json: Json)
        ensures
            json@ == self@.to_json(),
    {
        match self {
            JsonRPC::Request(request) => request.to_json(),
            JsonRPC::Response(response) => response.to_json(),
            JsonRPC::Notification(notification) => notification.to_json(),
        }
    }

    /// The envelope that a JSON document stands for, or why it stands for
    /// none.
    pub fn from_json(json: &Json) -> (r: Result<JsonRPC, ParseError>)
        ensures
            outcome(r) == envelope_of(json@),
    {
        match json {
            Json::Object(_) => {},
            _ => {
                return Err(ParseError::NotAnObject);
            },
        }
        let id = match json.get("id") {
            Some(id) => id.as_u64(),
            None => None,
        };
        let method = match json.get("method") {
            Some(method) => method.as_str(),
            None => None,
        };
        match (id, method) {
            (Some(id), Some(method)) => {
                let params = match json.get("params") {
                    Some(params) => params.clone(),
                    None => Json::Null,
                };
                Ok(JsonRPC::Request(Request { id: RequestId(id), method: method.to_owned(), params }))
            },
            (None, Some(method)) => {
                let params = match json.get("params") {
                    Some(params) => params.clone(),
                    None => Json::Null,
                };
                Ok(JsonRPC::Notification(Notification { method: method.to_owned(), params }))
            },
            (Some(id), None) => response_from_json(json, id),
            (None, None) => Err(ParseError::MissingMethod),
        }
    }

    /// The text that carries this envelope on the wire: the compact text of
    /// its JSON object.
    pub fn encode(&self) -> (text: String)
        ensures
            text@ == crate::json::printed(self@.to_json()),
    {
        self.to_json().print()
    }

    /// Reads an envelope from a frame of the wire.
    ///
    /// A text that is no JSON gives [`ParseError::Syntax`]; a JSON document
    /// gives the envelope it stands for, or the reason why it stands for
    /// none.
    pub fn decode(text: &str) -> (r: Result<JsonRPC, ParseError>)
        ensures
            match crate::json::parsed(text@) {
                Ok(json) => outcome(r) == envelope_of(json),
                Err(reason) => r matches Err(ParseError::Syntax(told)) && told@ == reason,
            },
            match r {
                Ok(envelope) => decoded(text@) == Some(envelope@),
                Err(e) => decoded(text@) is None && rejection(text@) == Some(e.reason()),
            },
    {
        match Json::parse(text) {
            Ok(json) => JsonRPC::from_json(&json),
            Err(reason) => Err(ParseError::Syntax(reason)),
        }
    }
}

/// The keys of the protocol are nine different strings.
pub proof fn lemma_keys_differ()
    ensures
        "jsonrpc"@ != "id"@,
        "jsonrpc"@ != "method"@,
        "jsonrpc"@ != "params"@,
        "jsonrpc"@ != "result"@,
        "jsonrpc"@ != "error"@,
        "id"@ != "method"@,
        "id"@ != "params"@,
        "id"@ != "result"@,
        "id"@ != "error"@,
        "method"@ != "params"@,
        "method"@ != "result"@,
        "method"@ != "error"@,
        "params"@ != "result"@,
        "params"@ != "error"@,
        "result"@ != "error"@,
        "code"@ != "message"@,
        "code"@ != "data"@,
        "message"@ != "data"@,
{
    reveal_strlit("jsonrpc");
    reveal_strlit("id");
    reveal_strlit("method");
    reveal_strlit("params");
    reveal_strlit("result");
    reveal_strlit("error");
    reveal_strlit("code");
    reveal_strlit("message");
    reveal_strlit("data");
    assert("jsonrpc"@.len() == 7 && "id"@.len() == 2 && "error"@.len() == 5);
    assert("method"@.len() == 6 && "params"@.len() == 6 && "result"@.len() == 6);
    assert("code"@.len() == 4 && "message"@.len() == 7 && "data"@.len() == 4);
    assert("method"@[0] != "params"@[0]);
    assert("method"@[0] != "result"@[0]);
    assert("params"@[0] != "result"@[0]);
    assert("code"@[0] != "data"@[0]);
}

/// Every envelope is written as an object that carries the tag
/// `"jsonrpc":"2.0"`.
pub proof fn lemma_encode_tags(envelope: Envelope)
    ensures
        envelope.to_json() is Object,
        envelope.to_json().field("jsonrpc"@) == Some(JsonValue::Text("2.0"@)),
{
    lemma_keys_differ();
    reveal_with_fuel(lookup, 6);
    let entries = envelope.to_json()->Object_0;
    assert(entries.len() >= 2);
    assert(entries[0] == version_entry());
    lemma_first_entry(entries, "jsonrpc"@);
}

/// The key of the first entry is found there.
proof fn lemma_first_entry(entries: Seq<(Seq<char>, JsonValue)>, key: Seq<char>)
    requires
        entries.len() > 0,
        entries[0].0 == key,
    ensures
        lookup(entries, key) == Some(entries[0].1),
{
    assert(lookup(entries.take(0), key) is None);
    crate::json::lemma_lookup_first(entries, 0, key);
}

/// Reading what was written gives the envelope back: for every well-formed
/// envelope, the object that carries it stands for that envelope.
pub proof fn lemma_read_written(envelope: Envelope)
    requires
        envelope.well_formed(),
    ensures
        envelope_of(envelope.to_json()) == Ok::<Envelope, ParseError>(envelope),
{
    lemma_keys_differ();
    reveal_with_fuel(lookup, 6);
    match envelope {
        Envelope::Request(request) => {
            let json = request.to_json();
            assert(json.field("id"@) == Some(JsonValue::Int(request.id as int)));
            assert(json.field("method"@) == Some(JsonValue::Text(request.method)));
            assert(params_of(json) == request.params);
        },
        Envelope::Response(response) => {
            let json = response.to_json();
            assert(json.field("id"@) == Some(JsonValue::Int(response.id as int)));
            assert(json.field("method"@) is None);
            assert(json.field("result"@) == response.result);
            match response.error {
                Some(error) => {
                    let inner = error.to_json();
                    assert(json.field("error"@) == Some(inner));
                    assert(inner.field("code"@) == Some(JsonValue::Int(error.code as int)));
                    assert(inner.field("message"@) == Some(JsonValue::Text(error.message)));
                    assert(inner.field("data"@) == error.data);
                    assert(error_of(inner) == Some(error));
                },
                None => {
                    assert(json.field("error"@) is None);
                },
            }
        },
        Envelope::Notification(notification) => {
            let json = notification.to_json();
            assert(json.field("id"@) is None);
            assert(json.field("method"@) == Some(JsonValue::Text(notification.method)));
            assert(params_of(json) == notification.params);
        },
    }
}

impl Envelope {
    /// Whether the JSON library can hold the payloads of this envelope as
    /// they are.
    pub open spec fn payloads_representable(self) -> bool {
        match self {
            Envelope::Request(request) => request.params.representable(),
            Envelope::Response(response) => {
                &&& response.result matches Some(result) ==> result.representable()
                &&& response.error matches Some(error) ==> (error.data matches Some(data)
                    ==> data.representable())
            },
            Envelope::Notification(notification) => notification.params.representable(),
        }
    }
}

/// The JSON library can hold the object that carries an envelope as it is,
/// where it can hold the payloads of the envelope: the text of such an
/// envelope stands for the envelope's own object.
pub proof fn lemma_envelope_representable(envelope: Envelope)
    requires
        envelope.payloads_representable(),
    ensures
        envelope.to_json().representable(),
{
    lemma_keys_differ();
    match envelope {
        Envelope::Response(response) => {
            match response.error {
                Some(error) => {
                    let inner = error.to_json();
                    let fields = inner->Object_0;
                    assert forall|k: int| 0 <= k < fields.len() implies (
                    #[trigger] fields[k]).1.representable() by {}
                    assert(inner.representable());
                },
                None => {},
            }
            let entries = response.to_json()->Object_0;
            assert forall|k: int| 0 <= k < entries.len() implies (
            #[trigger] entries[k]).1.representable() by {}
        },
        _ => {
            let entries = envelope.to_json()->Object_0;
            assert forall|k: int| 0 <= k < entries.len() implies (
            #[trigger] entries[k]).1.representable() by {}
        },
    }
}

/// Decoding what was encoded gives the envelope back, wherever the JSON
/// parser reads the text of a document as that document.
pub proof fn lemma_decode_encode(envelope: Envelope)
    requires
        envelope.well_formed(),
        crate::json::parsed(crate::json::printed(envelope.to_json())) == Ok::<
            JsonValue,
            Seq<char>,
        >(envelope.to_json()),
    ensures
        decoded(crate::json::printed(envelope.to_json())) == Some(envelope),
{
    lemma_read_written(envelope);
}

/// An object that carries an id, but no method, result or error is no
/// envelope.
pub proof fn lemma_bare_id_rejected(json: JsonValue)
    requires
        json is Object,
        id_of(json) is Some,
        json.field("method"@) is None,
        json.field("result"@) is None,
        json.field("error"@) is None,
    ensures
        envelope_of(json) == Err::<Envelope, ParseError>(ParseError::MissingResult),
{
}

} // verus!
