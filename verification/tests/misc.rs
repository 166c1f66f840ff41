use nxy::cli::{
    format_url, handle, server_url, Action, AgentAction, Call, ConfigsAction, FlakeAction, Format,
    Method,
};
use nxy::config::{default_external_url, load_config, Config, ConfigError};
use nxy::http::{DatabaseError, Error, ResultExt};
use nxy::json::Json;
use nxy::state::{load, state_file, Loaded, State, StateError};
use nxy::types::{ActivateParams, AgentId, DownloadParams, Status, System};

const ID: AgentId = AgentId(0xa1a2a3a4_b1b2_c1c2_d1d2_d3d4d5d6d7d8);
const ID_TEXT: &str = "a1a2a3a4-b1b2-c1c2-d1d2-d3d4d5d6d7d8";

fn object(entries: Vec<(&str, Json)>) -> Json {
    Json::Object(entries.into_iter().map(|(k, v)| (k.to_string(), v)).collect())
}

#[test]
fn an_agent_id_is_written_as_a_hyphenated_uuid() {
    assert_eq!(ID.to_text(), ID_TEXT);
    assert_eq!(AgentId(0).to_text(), "00000000-0000-0000-0000-000000000000");
}

#[test]
fn an_agent_id_is_read_from_the_forms_of_a_uuid() {
    assert_eq!(AgentId::parse(ID_TEXT), Some(ID));
    assert_eq!(AgentId::parse("A1A2A3A4B1B2C1C2D1D2D3D4D5D6D7D8"), Some(ID));
    assert_eq!(AgentId::parse("urn:uuid:a1a2a3a4-b1b2-c1c2-d1d2-d3d4d5d6d7d8"), Some(ID));
    assert_eq!(AgentId::parse("a1a2a3a4-b1b2-c1c2-d1d2"), None);
    assert_eq!(AgentId::parse(""), None);
    assert_eq!(AgentId::parse("not a uuid"), None);
}

#[test]
fn generated_agent_ids_are_version_4_identifiers() {
    for _ in 0..64 {
        let id = AgentId::generate();
        assert_eq!((id.0 >> 76) & 0xf, 4);
        assert_eq!((id.0 >> 62) & 0x3, 2);
        assert_eq!(id.0 & 0xf000_c000_0000_0000_0000, 0x4000_8000_0000_0000_0000);
        let state = State::new();
        assert_eq!(state.id.0 & 0xf000_c000_0000_0000_0000, 0x4000_8000_0000_0000_0000);
        assert_eq!(uuid::Uuid::from_u128(id.0).get_version_num(), 4);
    }
}

#[test]
fn generated_agent_ids_differ() {
    let first = AgentId::generate();
    let second = AgentId::generate();
    assert_ne!(first, second);
    assert_eq!(AgentId::parse(&first.to_text()), Some(first));
}

#[test]
fn a_status_travels_as_json() {
    let status = Status {
        id: ID,
        system: System { current: "/nix/store/c".into(), booted: "/nix/store/b".into() },
        version: "1.2.3".to_string(),
    };
    assert_eq!(
        status.to_json().print(),
        "{\"id\":\"a1a2a3a4-b1b2-c1c2-d1d2-d3d4d5d6d7d8\",\"system\":{\"current\":\"/nix/store/c\",\"booted\":\"/nix/store/b\"},\"version\":\"1.2.3\"}"
    );
    assert_eq!(Status::from_json(&status.to_json()), Some(status.clone()));
    assert_eq!(status.clone(), status);
    assert_eq!(Status::from_json(&Json::Null), None);
    assert_eq!(
        Status::from_json(&object(vec![
            ("id", Json::text("nobody")),
            ("system", status.system.to_json()),
            ("version", Json::text("v")),
        ])),
        None
    );
    assert_eq!(
        Status::from_json(&object(vec![("id", Json::text(ID_TEXT)), ("version", Json::text("v"))])),
        None
    );
    assert_eq!(System::from_json(&object(vec![("current", Json::text("c"))])), None);
}

#[test]
fn params_travel_as_json() {
    let download = DownloadParams { store_path: "/nix/store/p".into(), from: "http://s".into() };
    assert_eq!(download.to_json().print(), "{\"store_path\":\"/nix/store/p\",\"from\":\"http://s\"}");
    assert_eq!(DownloadParams::from_json(&download.to_json()), Some(download.clone()));
    assert_eq!(download.clone(), download);
    let activate = ActivateParams { store_path: "/nix/store/p".into() };
    assert_eq!(activate.to_json().print(), "{\"store_path\":\"/nix/store/p\"}");
    assert_eq!(ActivateParams::from_json(&activate.to_json()), Some(activate.clone()));
    assert_eq!(DownloadParams::from_json(&activate.to_json()), None);
    assert_eq!(ActivateParams::from_json(&object(vec![("store_path", Json::Int(1))])), None);
}

#[test]
fn a_server_without_configuration_has_the_default_external_url() {
    assert_eq!(default_external_url(), "http://localhost:8080");
    assert_eq!(load_config(None), Ok(Config { external_url: "http://localhost:8080".into() }));
    assert_eq!(load_config(Some("{}")), Ok(Config { external_url: "http://localhost:8080".into() }));
}

#[test]
fn the_configuration_is_read_from_json() {
    assert_eq!(
        load_config(Some("{\"external_url\":\"https://nxy.example\",\"other\":1}")),
        Ok(Config { external_url: "https://nxy.example".to_string() })
    );
    assert_eq!(load_config(Some("{\"external_url\":8080}")), Err(ConfigError::Invalid));
    assert_eq!(load_config(Some("[]")), Err(ConfigError::Invalid));
    assert!(matches!(load_config(Some("external_url")), Err(ConfigError::Syntax(_))));
}

#[test]
fn the_state_is_read_from_the_state_file() {
    assert_eq!(
        load(Some("{\n  \"id\": \"a1a2a3a4-b1b2-c1c2-d1d2-d3d4d5d6d7d8\"\n}")),
        Ok(Loaded::Existing(State { id: ID }))
    );
    assert_eq!(load(Some("{\"id\":\"x\"}")), Err(StateError::Invalid));
    assert_eq!(load(Some("{}")), Err(StateError::Invalid));
    assert!(matches!(load(Some("")), Err(StateError::Syntax(_))));
    assert_eq!(state_file("/var/lib/nxy"), "/var/lib/nxy/state.json");
    assert_eq!(state_file(""), "state.json");
}

#[test]
fn a_missing_state_file_gives_a_new_identity_to_persist() {
    match load(None) {
        Ok(Loaded::Created(state, text)) => {
            assert_eq!(text, format!("{{\"id\":\"{}\"}}", state.id.to_text()));
            assert_eq!(load(Some(&text)), Ok(Loaded::Existing(state)));
            assert_eq!(State::from_json(&state.to_json()), Some(state));
        }
        other => panic!("{other:?}"),
    }
    assert_ne!(State::new(), State::new());
}

#[test]
fn the_server_url_comes_from_the_environment_or_the_default() {
    assert_eq!(server_url(None), "http://localhost:8080");
    assert_eq!(server_url(Some("http://nxy:1".to_string())), "http://nxy:1");
}

#[test]
fn format_url_puts_one_slash_between_host_and_path() {
    assert_eq!(format_url("http://localhost:8080", "/api/v1/flake"), "http://localhost:8080/api/v1/flake");
    assert_eq!(format_url("http://localhost:8080", "api/v1/flake"), "http://localhost:8080/api/v1/flake");
    assert_eq!(format_url("http://h", ""), "http://h/");
    assert_eq!(format_url("http://h", "//x"), "http://h//x");
}

#[test]
fn each_action_makes_its_request() {
    let host = "http://localhost:8080";
    let get = |url: &str| Some(Call { method: Method::Get, url: url.to_string(), body: None });
    let post = |url: &str, body: Json| {
        Some(Call { method: Method::Post, url: url.to_string(), body: Some(body) })
    };
    assert_eq!(
        handle(&Action::Flakes { action: FlakeAction::List }, host),
        get("http://localhost:8080/api/v1/flake")
    );
    assert_eq!(
        handle(&Action::Flakes { action: FlakeAction::Add { flake_url: "github:x/y".into() } }, host),
        post(
            "http://localhost:8080/api/v1/flake",
            object(vec![("flake", object(vec![("flake_url", Json::text("github:x/y"))]))])
        )
    );
    assert_eq!(
        handle(&Action::Agents { action: AgentAction::List }, host),
        get("http://localhost:8080/api/v1/agent")
    );
    assert_eq!(
        handle(&Action::Agents { action: AgentAction::SetConfig { agent_id: ID, config_id: 7 } }, host),
        post(
            "http://localhost:8080/api/v1/agent/a1a2a3a4-b1b2-c1c2-d1d2-d3d4d5d6d7d8",
            object(vec![("config_id", Json::Int(7))])
        )
    );
    assert_eq!(
        handle(
            &Action::Agents {
                action: AgentAction::Download { agent_id: ID, store_path: "/nix/store/A".into() }
            },
            host
        ),
        post(
            "http://localhost:8080/api/v1/agent/a1a2a3a4-b1b2-c1c2-d1d2-d3d4d5d6d7d8/download",
            object(vec![("store_path", Json::text("/nix/store/A"))])
        )
    );
    assert_eq!(
        handle(
            &Action::Agents {
                action: AgentAction::Activate { agent_id: ID, store_path: "/nix/store/A".into() }
            },
            host
        ),
        post(
            "http://localhost:8080/api/v1/agent/a1a2a3a4-b1b2-c1c2-d1d2-d3d4d5d6d7d8/activate",
            object(vec![("store_path", Json::text("/nix/store/A"))])
        )
    );
    assert_eq!(
        handle(&Action::Configs { action: ConfigsAction::List }, host),
        get("http://localhost:8080/api/v1/configuration")
    );
    assert_eq!(handle(&Action::List { target: ".".to_string() }, host), None);
    assert_ne!(Format::Table, Format::Json);
}

#[test]
fn errors_inside_the_server_give_nothing_away() {
    let database = || DatabaseError {
        message: "duplicate key value violates unique constraint".to_string(),
        constraint: Some("flakes_flake_url_key".to_string()),
    };
    assert_eq!(Error::Sqlx(database()).status_code(), 500);
    assert_eq!(Error::Sqlx(database()).message(), "an internal database error occurred");
    assert_eq!(Error::Eyre("nix failed".into()).status_code(), 500);
    assert_eq!(Error::Eyre("nix failed".into()).message(), "an internal server error occurred");
    assert_eq!(Error::UnprocessableEntity("bad url".into()).status_code(), 422);
    assert_eq!(Error::UnprocessableEntity("bad url".into()).message(), "bad url");
    assert_eq!(Error::Conflict("taken".into()).status_code(), 409);
    assert_eq!(
        Error::Conflict("taken".into()).into_response(),
        (409, "taken".to_string())
    );
    assert_eq!(
        Error::Sqlx(database()).into_response(),
        (500, "an internal database error occurred".to_string())
    );
}

#[test]
fn a_broken_constraint_becomes_the_error_of_ones_choice() {
    let database = |constraint: Option<&str>| DatabaseError {
        message: "refused".to_string(),
        constraint: constraint.map(|c| c.to_string()),
    };
    let taken = |_: DatabaseError| Error::Conflict("flake url already taken".to_string());
    let broken: Result<u8, Error> = Err(Error::Sqlx(database(Some("flakes_flake_url_key"))));
    assert_eq!(
        broken.on_constraint("flakes_flake_url_key", taken),
        Err(Error::Conflict("flake url already taken".to_string()))
    );
    let other: Result<u8, Error> = Err(Error::Sqlx(database(Some("other_key"))));
    assert_eq!(
        other.on_constraint("flakes_flake_url_key", taken),
        Err(Error::Sqlx(database(Some("other_key"))))
    );
    let none: Result<u8, Error> = Err(Error::Sqlx(database(None)));
    assert_eq!(none.on_constraint("k", taken), Err(Error::Sqlx(database(None))));
    let eyre: Result<u8, Error> = Err(Error::Eyre("e".to_string()));
    assert_eq!(eyre.on_constraint("k", taken), Err(Error::Eyre("e".to_string())));
    let fine: Result<u8, Error> = Ok(3);
    assert_eq!(fine.on_constraint("k", taken), Ok(3));
}
