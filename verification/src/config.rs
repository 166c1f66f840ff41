//! The server's configuration.

use crate::json::{Json, JsonValue};
use vstd::prelude::*;

verus! {

/// What the server is configured with.
#[derive(Debug, PartialEq, Eq)]
pub struct Config {
    /// The URL under which agents reach the server, which they are told to
    /// download from.
    pub external_url: String,
}

impl View for Config {
    type V = Seq<char>;

    open spec fn view(&self) -> Seq<char> {
        self.external_url@
    }
}

/// Why a text is no configuration.
#[derive(Debug, PartialEq, Eq)]
pub enum ConfigError {
    /// The text is not JSON; the parser's reason is inside.
    Syntax(String),
    /// The document is not an object, or its `external_url` is not a string.
    Invalid,
}

/// The external URL of a server that is configured with none.
pub open spec fn default_url() -> Seq<char> {
    "http://localhost:8080"@
}

/// The external URL that a JSON document configures: the string
/// `external_url` of an object, or the default where the object has no such
/// field. `None` for any other document.
pub open spec fn configured_url(json: JsonValue) -> Option<Seq<char>> {
    if json is Object {
        match json.field("external_url"@) {
            Some(JsonValue::Text(url)) => Some(url),
            Some(_) => None,
            None => Some(default_url()),
        }
    } else {
        None
    }
}

/// The external URL of a server that is configured with none.
pub fn default_external_url() -> (url: String)
    ensures
        url@ == default_url(),
{
    "http://localhost:8080".to_owned()
}

/// The configuration that the contents of a configuration file hold, or the
/// defaults where there is no file.
pub fn load_config(contents: Option<&str>) -> (r: Result<Config, ConfigError>)
    ensures
        match contents {
            None => r matches Ok(config) && config@ == default_url(),
            Some(text) => match crate::json::parsed(text@) {
                Err(reason) => r matches Err(ConfigError::Syntax(told)) && told@ == reason,
                Ok(json) => match configured_url(json) {
                    Some(url) => r matches Ok(config) && config@ == url,
                    None => r == Err::<Config, ConfigError>(ConfigError::Invalid),
                },
            },
        },
{
    let text = match contents {
        Some(text) => text,
        None => {
            return Ok(Config { external_url: default_external_url() });
        },
    };
    let json = match Json::parse(text) {
        Ok(json) => json,
        Err(reason) => {
            return Err(ConfigError::Syntax(reason));
        },
    };
    match json {
        Json::Object(_) => {},
        _ => {
            return Err(ConfigError::Invalid);
        },
    }
    match json.get("external_url") {
        Some(url) => match url.as_str() {
            Some(url) => Ok(Config { external_url: url.to_owned() }),
            None => Err(ConfigError::Invalid),
        },
        None => Ok(Config { external_url: default_external_url() }),
    }
}

} // verus!
