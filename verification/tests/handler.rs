use nxy::activate::{
    get_activation_script, is_nixos_system, nixos_marker, set_profile, ActivateError, Activation,
    Next, Report, Stage,
};
use nxy::handler::{
    activate, activate_outcome, download, download_outcome, handle_request, ping, status, unknown,
    Dispatch,
};
use nxy::json::Json;
use nxy::process::{Command, Output};
use nxy::rpc::{Request, RequestId, Response};
use nxy::types::{ActivateParams, AgentId, DownloadParams};

fn request(method: &str, params: Json) -> Request {
    Request::new(RequestId(11), method.to_string(), params)
}

fn command(program: &str, args: &[&str]) -> Command {
    Command { program: program.to_string(), args: args.iter().map(|a| a.to_string()).collect() }
}

fn output(success: bool, stderr: &str) -> Output {
    Output { success, stdout: String::new(), stderr: stderr.to_string() }
}

#[test]
fn ping_is_answered_with_pong() {
    assert_eq!(
        ping(&request("$/ping", Json::Null)),
        Response::new_ok(RequestId(11), Json::text("pong"))
    );
    assert_eq!(
        handle_request(&request("$/ping", Json::Null)),
        Dispatch::Reply(Response::new_ok(RequestId(11), Json::text("pong")))
    );
}

#[test]
fn an_unknown_method_is_answered_with_method_not_found() {
    let expected = Response::new_err(RequestId(11), -32601, "pong".to_string());
    assert_eq!(unknown(&request("nope", Json::Null)), expected);
    assert_eq!(handle_request(&request("nope", Json::Null)), Dispatch::Reply(expected.clone()));
    assert_eq!(handle_request(&request("ping", Json::Null)), Dispatch::Reply(expected.clone()));
    assert_eq!(handle_request(&request("$/PING", Json::Null)), Dispatch::Reply(expected));
}

#[test]
fn status_reports_identity_systems_and_version() {
    let id = AgentId(0xa6fe0000_0000_4000_8000_000000000001);
    let response = status(
        &request("$/status", Json::Null),
        id,
        Ok("/nix/store/AAA-alpha".to_string()),
        Ok("/nix/store/BBB-beta".to_string()),
        "0.1.0",
    );
    assert_eq!(
        nxy::rpc::JsonRPC::Response(response).encode(),
        "{\"jsonrpc\":\"2.0\",\"id\":11,\"result\":{\"id\":\"a6fe0000-0000-4000-8000-000000000001\",\"system\":{\"current\":\"/nix/store/AAA-alpha\",\"booted\":\"/nix/store/BBB-beta\"},\"version\":\"0.1.0\"}}"
    );
    assert_eq!(handle_request(&request("$/status", Json::Null)), Dispatch::Status);
}

#[test]
fn status_turns_a_failed_read_into_an_internal_error() {
    let id = AgentId(1);
    assert_eq!(
        status(&request("$/status", Json::Null), id, Err("no link".into()), Ok("b".into()), "v"),
        Response::new_err(RequestId(11), -32603, "no link".to_string())
    );
    assert_eq!(
        status(&request("$/status", Json::Null), id, Ok("c".into()), Err("gone".into()), "v"),
        Response::new_err(RequestId(11), -32603, "gone".to_string())
    );
    assert_eq!(
        status(&request("$/status", Json::Null), id, Err("first".into()), Err("second".into()), "v"),
        Response::new_err(RequestId(11), -32603, "first".to_string())
    );
}

#[test]
fn download_copies_from_the_substituter() {
    let params =
        DownloadParams { store_path: "/nix/store/AAA-alpha".into(), from: "http://s:8080".into() };
    let expected = command(
        "nix",
        &[
            "copy",
            "--substitute-on-destination",
            "--verbose",
            "--no-check-sigs",
            "--from",
            "http://s:8080",
            "/nix/store/AAA-alpha",
        ],
    );
    assert_eq!(download(&request("$/download", params.to_json())), Ok(expected.clone()));
    assert_eq!(
        handle_request(&request("$/download", params.to_json())),
        Dispatch::Download(expected)
    );
}

#[test]
fn download_refuses_params_that_name_no_store_path() {
    let expected = Response::new_err(
        RequestId(11),
        -32602,
        "expected the params store_path and from".to_string(),
    );
    assert_eq!(download(&request("$/download", Json::Null)), Err(expected.clone()));
    let only_path = ActivateParams { store_path: "/nix/store/x".into() }.to_json();
    assert_eq!(
        handle_request(&request("$/download", only_path)),
        Dispatch::Reply(expected)
    );
}

#[test]
fn download_outcome_is_empty_on_success_and_an_internal_error_otherwise() {
    let request = request("$/download", Json::Null);
    assert_eq!(
        download_outcome(&request, &Ok(output(true, "warning"))),
        Response::new_ok(RequestId(11), Json::Null)
    );
    assert_eq!(
        download_outcome(&request, &Ok(output(false, "error: no such path"))),
        Response::new_err(RequestId(11), -32603, "nix copy failed: error: no such path".into())
    );
    assert_eq!(
        download_outcome(&request, &Err("nix: command not found".to_string())),
        Response::new_err(RequestId(11), -32603, "nix: command not found".into())
    );
}

#[test]
fn activate_starts_an_activation_of_the_system_profile() {
    let params = ActivateParams { store_path: "/nix/store/AAA-alpha".into() };
    let expected = Activation::activate("system".to_string(), "/nix/store/AAA-alpha".to_string());
    assert_eq!(activate(&request("$/activate", params.to_json())).as_ref(), Ok(&expected));
    assert_eq!(
        handle_request(&request("$/activate", params.to_json())),
        Dispatch::Activate(expected)
    );
    assert_eq!(
        activate(&request("$/activate", Json::Array(vec![]))),
        Err(Response::new_err(RequestId(11), -32602, "expected the param store_path".into()))
    );
}

#[test]
fn an_activation_checks_sets_the_profile_and_switches() {
    let mut activation =
        Activation::activate("system".to_string(), "/nix/store/AAA-alpha".to_string());
    assert_eq!(activation.stage(), Stage::Checking);
    assert_eq!(activation.first(), Next::Check("/nix/store/AAA-alpha".to_string()));
    assert_eq!(
        activation.advance(Report::Checked(Ok(true))),
        Next::Run(command(
            "nix-env",
            &["--profile", "/nix/var/nix/profiles/system", "--set", "/nix/store/AAA-alpha"]
        ))
    );
    assert_eq!(activation.stage(), Stage::SettingProfile);
    assert_eq!(
        activation.advance(Report::Ran(Ok(output(true, "")))),
        Next::Run(command("/nix/store/AAA-alpha/bin/switch-to-configuration", &["switch"]))
    );
    assert_eq!(activation.stage(), Stage::Switching);
    assert_eq!(activation.advance(Report::Ran(Ok(output(true, "")))), Next::Done(Ok(())));
    assert_eq!(activation.stage(), Stage::Finished);
    assert_eq!(
        activation.advance(Report::Ran(Ok(output(true, "")))),
        Next::Done(Err(ActivateError::OutOfTurn))
    );
}

#[test]
fn an_activation_refuses_what_is_no_nixos_system() {
    let mut activation = Activation::activate("system".into(), "/nix/store/hello".into());
    assert_eq!(
        activation.advance(Report::Checked(Ok(false))),
        Next::Done(Err(ActivateError::NotNixos))
    );
    assert_eq!(activation.stage(), Stage::Finished);
    assert_eq!(
        activate_outcome(&request("$/activate", Json::Null), &Err(ActivateError::NotNixos)),
        Response::new_err(
            RequestId(11),
            -32602,
            "only nixos profiles are currently supported".to_string()
        )
    );
}

#[test]
fn an_activation_ends_at_the_first_failure() {
    let mut at_check = Activation::activate("system".into(), "/nix/store/x".into());
    assert_eq!(
        at_check.advance(Report::Checked(Err("permission denied".into()))),
        Next::Done(Err(ActivateError::Host("permission denied".into())))
    );
    let mut at_profile = Activation::activate("system".into(), "/nix/store/x".into());
    at_profile.advance(Report::Checked(Ok(true)));
    assert_eq!(
        at_profile.advance(Report::Ran(Ok(output(false, "")))),
        Next::Done(Err(ActivateError::ProfileFailed))
    );
    let mut at_switch = Activation::activate("system".into(), "/nix/store/x".into());
    at_switch.advance(Report::Checked(Ok(true)));
    at_switch.advance(Report::Ran(Ok(output(true, ""))));
    assert_eq!(
        at_switch.advance(Report::Ran(Ok(output(false, "")))),
        Next::Done(Err(ActivateError::SwitchFailed))
    );
    let mut unstarted = Activation::activate("system".into(), "/nix/store/x".into());
    unstarted.advance(Report::Checked(Ok(true)));
    assert_eq!(
        unstarted.advance(Report::Ran(Err("nix-env: not found".into()))),
        Next::Done(Err(ActivateError::Host("nix-env: not found".into())))
    );
    let mut out_of_turn = Activation::activate("system".into(), "/nix/store/x".into());
    assert_eq!(
        out_of_turn.advance(Report::Ran(Ok(output(true, "")))),
        Next::Done(Err(ActivateError::OutOfTurn))
    );
}

#[test]
fn activate_outcome_tells_how_the_activation_ended() {
    let request = request("$/activate", Json::Null);
    assert_eq!(activate_outcome(&request, &Ok(())), Response::new_ok(RequestId(11), Json::Null));
    assert_eq!(
        activate_outcome(&request, &Err(ActivateError::Host("io".into()))),
        Response::new_err(RequestId(11), -32603, "io".to_string())
    );
    assert_eq!(
        activate_outcome(&request, &Err(ActivateError::ProfileFailed)),
        Response::new_err(RequestId(11), -32603, "updating profile failed".to_string())
    );
    assert_eq!(
        activate_outcome(&request, &Err(ActivateError::SwitchFailed)),
        Response::new_err(RequestId(11), -32603, "failed to switch profile".to_string())
    );
    assert_eq!(
        activate_outcome(&request, &Err(ActivateError::OutOfTurn)),
        Response::new_err(RequestId(11), -32603, "the activation was driven out of turn".into())
    );
}

#[test]
fn the_paths_of_a_system_lie_below_its_store_path() {
    assert_eq!(nixos_marker("/nix/store/AAA-alpha"), "/nix/store/AAA-alpha/nixos-version");
    assert_eq!(
        get_activation_script("/nix/store/AAA-alpha"),
        "/nix/store/AAA-alpha/bin/switch-to-configuration"
    );
    assert_eq!(get_activation_script("/nix/store/x/"), "/nix/store/x/bin/switch-to-configuration");
    assert_eq!(
        set_profile("system", "/nix/store/x"),
        command("nix-env", &["--profile", "/nix/var/nix/profiles/system", "--set", "/nix/store/x"])
    );
}

#[test]
fn a_nixos_system_is_known_by_its_marker() {
    let seen = std::cell::RefCell::new(Vec::new());
    let found = is_nixos_system("/nix/store/AAA-alpha", |path: String| {
        seen.borrow_mut().push(path.clone());
        Ok(path == "/nix/store/AAA-alpha/nixos-version")
    });
    assert_eq!(found, Ok(true));
    assert_eq!(*seen.borrow(), vec!["/nix/store/AAA-alpha/nixos-version".to_string()]);
    assert_eq!(is_nixos_system("/nix/store/x", |_| Ok(false)), Ok(false));
    assert_eq!(
        is_nixos_system("/nix/store/x", |_| Err("denied".to_string())),
        Err("denied".to_string())
    );
}
