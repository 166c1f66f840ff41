//! The administration client: what each of its actions asks of the server.

use crate::json::{entry_values, push_entry, Json, JsonValue};
use crate::text::{chain, strip_leading_slash, without_leading_slash};
use crate::types::{uuid_text, AgentId};
use vstd::prelude::*;

verus! {

/// How the client shows what the server answered.
#[derive(Clone, Copy, Debug, PartialEq, Eq, Structural)]
pub enum Format {
    Table,
    Json,
}

/// What to do with flakes.
#[derive(Debug, PartialEq, Eq)]
pub enum FlakeAction {
    /// List all flakes.
    List,
    /// Register the flake at this URL.
    Add { flake_url: String },
}

/// What to do with agents.
#[derive(Debug, PartialEq, Eq)]
pub enum AgentAction {
    /// List all agents.
    List,
    /// Assign an agent to a configuration.
    SetConfig { agent_id: AgentId, config_id: i64 },
    /// Have an agent download a store path.
    Download { agent_id: AgentId, store_path: String },
    /// Have an agent activate a store path.
    Activate { agent_id: AgentId, store_path: String },
}

/// What to do with configurations.
#[derive(Debug, PartialEq, Eq)]
pub enum ConfigsAction {
    /// List all configurations.
    List,
}

/// What the client is asked to do.
#[derive(Debug, PartialEq, Eq)]
#[allow(inconsistent_fields)]
pub enum Action {
    /// Interact with flakes.
    Flakes { action: FlakeAction },
    /// Interact with agents.
    Agents { action: AgentAction },
    /// Interact with configurations.
    Configs { action: ConfigsAction },
    /// Print all nodes and profiles of the flake `target`.
    List { target: String },
}

/// The verb of an HTTP request.
#[derive(Clone, Copy, Debug, PartialEq, Eq, Structural)]
pub enum Method {
    Get,
    Post,
}

/// An HTTP request to the server.
#[derive(Debug, PartialEq, Eq)]
pub struct Call {
    pub method: Method,
    pub url: String,
    /// The JSON body, if the request has one.
    pub body: Option<Json>,
}

/// The mathematical value of a [`Call`].
pub struct CallView {
    pub method: Method,
    pub url: Seq<char>,
    pub body: Option<JsonValue>,
}

impl View for Call {
    type V = CallView;

    open spec fn view(&self) -> CallView {
        CallView {
            method: self.method,
            url: self.url@,
            body: match self.body {
                Some(body) => Some(body@),
                None => None,
            },
        }
    }
}

/// The address of a server that none was given for.
pub open spec fn default_server() -> Seq<char> {
    "http://localhost:8080"@
}

/// The address of the server: what `NXY_SERVER` holds, or the default where
/// the variable is not set.
pub fn server_url(configured: Option<String>) -> (url: String)
    ensures
        url@ == match configured {
            Some(url) => url@,
            None => default_server(),
        },
{
    match configured {
        Some(url) => url,
        None => "http://localhost:8080".to_owned(),
    }
}

/// The URL of `path` on the server at `host`: the two with one slash between
/// them.
pub open spec fn url_of(host: Seq<char>, path: Seq<char>) -> Seq<char> {
    host + seq!['/'] + without_leading_slash(path)
}

/// Prefixes a request path with the address of the server. The path may or
/// may not start with a slash.
pub fn format_url(host: &str, path: &str) -> (url: String)
    ensures
        url@ == url_of(host@, path@),
{
    let mut url = chain(host, "/");
    url.append(strip_leading_slash(path));
    proof {
        reveal_strlit("/");
        assert("/"@ =~= seq!['/']);
    }
    url
}

/// The JSON object with the one entry `key: value`.
pub open spec fn single(key: Seq<char>, value: JsonValue) -> JsonValue {
    JsonValue::Object(seq![(key, value)])
}

/// The JSON object with the one entry `key: value`.
fn object_of(key: &str, value: Json) -> (json: Json)
    ensures
        json@ == single(key@, value@),
{
    let mut entries: Vec<(String, Json)> = Vec::new();
    push_entry(&mut entries, key, value);
    assert(entry_values(entries@) =~= seq![(key@, value@)]);
    Json::object(entries)
}

/// The request that an action makes of the server at `host`. Listing the
/// profiles of a flake makes none.
pub open spec fn request_of(action: Action, host: Seq<char>) -> Option<CallView> {
    match action {
        Action::List { .. } => None,
        _ => Some(server_request(action, host)),
    }
}

/// The request that an action for the server makes of the server at `host`.
pub open spec fn server_request(action: Action, host: Seq<char>) -> CallView {
    match action {
        Action::Flakes { action: FlakeAction::List } => CallView {
            method: Method::Get,
            url: url_of(host, "/api/v1/flake"@),
            body: None,
        },
        Action::Flakes { action: FlakeAction::Add { flake_url } } => CallView {
            method: Method::Post,
            url: url_of(host, "/api/v1/flake"@),
            body: Some(single("flake"@, single("flake_url"@, JsonValue::Text(flake_url@)))),
        },
        Action::Agents { action: AgentAction::List } => CallView {
            method: Method::Get,
            url: url_of(host, "/api/v1/agent"@),
            body: None,
        },
        Action::Agents { action: AgentAction::SetConfig { agent_id, config_id } } => CallView {
            method: Method::Post,
            url: url_of(host, "/api/v1/agent/"@ + uuid_text(agent_id@)),
            body: Some(single("config_id"@, JsonValue::Int(config_id as int))),
        },
        Action::Agents { action: AgentAction::Download { agent_id, store_path } } => CallView {
            method: Method::Post,
            url: url_of(host, "/api/v1/agent/"@ + uuid_text(agent_id@) + "/download"@),
            body: Some(single("store_path"@, JsonValue::Text(store_path@))),
        },
        Action::Agents { action: AgentAction::Activate { agent_id, store_path } } => CallView {
            method: Method::Post,
            url: url_of(host, "/api/v1/agent/"@ + uuid_text(agent_id@) + "/activate"@),
            body: Some(single("store_path"@, JsonValue::Text(store_path@))),
        },
        _ => CallView {
            method: Method::Get,
            url: url_of(host, "/api/v1/configuration"@),
            body: None,
        },
    }
}

/// The value of an optional request.
pub open spec fn optional_call(call: Option<Call>) -> Option<CallView> {
    match call {
        Some(call) => Some(call@),
        None => None,
    }
}

/// The request that an action makes of the server at `host`, if it makes
/// one.
pub fn handle(action: &Action, host: &str) -> (call: Option<Call>)
    ensures
        optional_call(call) == request_of(*action, host@),
{
    Some(match action {
        Action::List { .. } => {
            return None;
        },
        Action::Flakes { action: FlakeAction::List } => Call {
            method: Method::Get,
            url: format_url(host, "/api/v1/flake"),
            body: None,
        },
        Action::Flakes { action: FlakeAction::Add { flake_url } } => Call {
            method: Method::Post,
            url: format_url(host, "/api/v1/flake"),
            body: Some(object_of("flake", object_of("flake_url", Json::text(flake_url.as_str())))),
        },
        Action::Agents { action: AgentAction::List } => Call {
            method: Method::Get,
            url: format_url(host, "/api/v1/agent"),
            body: None,
        },
        Action::Agents { action: AgentAction::SetConfig { agent_id, config_id } } => {
            let path = chain("/api/v1/agent/", agent_id.to_text().as_str());
            Call {
                method: Method::Post,
                url: format_url(host, path.as_str()),
                body: Some(object_of("config_id", Json::signed(*config_id))),
            }
        },
        Action::Agents { action: AgentAction::Download { agent_id, store_path } } => {
            let mut path = chain("/api/v1/agent/", agent_id.to_text().as_str());
            path.append("/download");
            Call {
                method: Method::Post,
                url: format_url(host, path.as_str()),
                body: Some(object_of("store_path", Json::text(store_path.as_str()))),
            }
        },
        Action::Agents { action: AgentAction::Activate { agent_id, store_path } } => {
            let mut path = chain("/api/v1/agent/", agent_id.to_text().as_str());
            path.append("/activate");
            Call {
                method: Method::Post,
                url: format_url(host, path.as_str()),
                body: Some(object_of("store_path", Json::text(store_path.as_str()))),
            }
        },
        Action::Configs { action: ConfigsAction::List } => Call {
            method: Method::Get,
            url: format_url(host, "/api/v1/configuration"),
            body: None,
        },
    })
}

} // verus!
