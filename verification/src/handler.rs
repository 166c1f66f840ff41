//! The agent's side of the protocol: what it answers to each request.
//!
//! The methods of the server's own namespace start with `$/`. Answering a
//! ping takes nothing but the request. The other verbs need the host: they
//! are split into the part that says what the host has to do and the part
//! that turns what the host reports into the response.

use crate::activate::{ActivateError, ActivateErrorView, Activation, ActivationView, Stage};
use crate::json::{Json, JsonValue};
use crate::process::{push_arg, Command, CommandView, Output};
use crate::rpc::{ErrorCode, Request, Response, ResponseErrorView, ResponseView};
use crate::text::{chain, str_eq, string_views};
use crate::types::{
    ActivateParams, ActivateParamsView, AgentId, DownloadParams, DownloadParamsView, Status,
    StatusView, System, SystemView,
};
use vstd::prelude::*;

verus! {

/// The response that carries `result` for the request `id`.
pub open spec fn success(id: u64, result: JsonValue) -> ResponseView {
    ResponseView { id, result: Some(result), error: None }
}

/// The response that tells the caller of the request `id` that it failed.
pub open spec fn failure(id: u64, code: ErrorCode, message: Seq<char>) -> ResponseView {
    ResponseView {
        id,
        result: None,
        error: Some(ResponseErrorView { code: code.number() as i32, message, data: None }),
    }
}

/// The profile that `$/activate` sets.
pub open spec fn system_profile() -> Seq<char> {
    "system"@
}

/// The command that fetches a store path from a substituter.
pub open spec fn download_command(params: DownloadParamsView) -> CommandView {
    CommandView {
        program: "nix"@,
        args: seq![
            "copy"@,
            "--substitute-on-destination"@,
            "--verbose"@,
            "--no-check-sigs"@,
            "--from"@,
            params.from,
            params.store_path,
        ],
    }
}

/// What an agent does with a request.
#[derive(Debug, PartialEq, Eq)]
pub enum Dispatch {
    /// Answer at once.
    Reply(Response),
    /// Read the two system links and answer with [`status`].
    Status,
    /// Run the command and answer with [`download_outcome`].
    Download(Command),
    /// Drive the activation and answer with [`activate_outcome`].
    Activate(Activation),
}

/// The mathematical value of a [`Dispatch`].
pub enum DispatchView {
    Reply(ResponseView),
    Status,
    Download(CommandView),
    Activate(ActivationView),
}

impl View for Dispatch {
    type V = DispatchView;

    open spec fn view(&self) -> DispatchView {
        match self {
            Dispatch::Reply(response) => DispatchView::Reply(response@),
            Dispatch::Status => DispatchView::Status,
            Dispatch::Download(command) => DispatchView::Download(command@),
            Dispatch::Activate(activation) => DispatchView::Activate(activation@),
        }
    }
}

/// The answer to `$/ping`: the result `"pong"`.
pub fn ping(request: &Request) -> (response: Response)
    ensures
        response@ == success(request@.id, JsonValue::Text("pong"@)),
{
    Response::new_ok(request.id, Json::text("pong"))
}

/// The answer to a method that the agent does not know: the error
/// `MethodNotFound`, with the message `pong`.
pub fn unknown(request: &Request) -> (response: Response)
    ensures
        response@ == failure(request@.id, ErrorCode::MethodNotFound, "pong"@),
{
    Response::new_err(request.id, ErrorCode::MethodNotFound.code(), "pong".to_owned())
}

/// The answer to `$/status`, from what the host says of the system that runs
/// and of the one that was booted.
///
/// Where the host could read both, the result is the status: the agent's
/// identity, the two systems and the agent's version. Where it could not, the
/// answer is an internal error that carries the host's reason, that of the
/// running system first.
pub fn status(
    request: &Request,
    id: AgentId,
    current: Result<String, String>,
    booted: Result<String, String>,
    version: &str,
) -> (response: Response)
    ensures
        response@ == match (current, booted) {
            (Ok(current), Ok(booted)) => success(
                request@.id,
                (StatusView {
                    id: id@,
                    system: SystemView { current: current@, booted: booted@ },
                    version: version@,
                }).to_json(),
            ),
            (Err(reason), _) => failure(request@.id, ErrorCode::InternalError, reason@),
            (Ok(_), Err(reason)) => failure(request@.id, ErrorCode::InternalError, reason@),
        },
{
    match current {
        Err(reason) => Response::new_err(request.id, ErrorCode::InternalError.code(), reason),
        Ok(current) => match booted {
            Err(reason) => Response::new_err(request.id, ErrorCode::InternalError.code(), reason),
            Ok(booted) => {
                let status = Status {
                    id,
                    system: System { current, booted },
                    version: version.to_owned(),
                };
                Response::new_ok(request.id, status.to_json())
            },
        },
    }
}

/// What `$/download` asks of the host: the command that copies the store
/// path from the substituter. Params that name no store path and substituter
/// are answered with `InvalidParams`, and nothing is run.
pub fn download(request: &Request) -> (r: Result<Command, Response>)
    ensures
        match DownloadParamsView::of_json(request@.params) {
            Some(params) => r matches Ok(command) && command@ == download_command(params),
            None => r matches Err(response) && response@ == failure(
                request@.id,
                ErrorCode::InvalidParams,
                "expected the params store_path and from"@,
            ),
        },
{
    match DownloadParams::from_json(&request.params) {
        Some(params) => {
            let mut args: Vec<String> = Vec::new();
            push_arg(&mut args, "copy");
            push_arg(&mut args, "--substitute-on-destination");
            push_arg(&mut args, "--verbose");
            push_arg(&mut args, "--no-check-sigs");
            push_arg(&mut args, "--from");
            push_arg(&mut args, params.from.as_str());
            push_arg(&mut args, params.store_path.as_str());
            assert(string_views(args@) =~= download_command(params@).args);
            Ok(Command::new("nix", args))
        },
        None => Err(
            Response::new_err(
                request.id,
                ErrorCode::InvalidParams.code(),
                "expected the params store_path and from".to_owned(),
            ),
        ),
    }
}

/// The answer to `$/download`, from what the copy command left behind: an
/// empty result where it succeeded, else an internal error that carries what
/// the command wrote to its standard error. A command that could not be
/// started is an internal error with the host's reason.
pub fn download_outcome(request: &Request, output: &Result<Output, String>) -> (response: Response)
    ensures
        response@ == match output {
            Ok(output) => if output.success {
                success(request@.id, JsonValue::Null)
            } else {
                failure(
                    request@.id,
                    ErrorCode::InternalError,
                    "nix copy failed: "@ + output.stderr@,
                )
            },
            Err(reason) => failure(request@.id, ErrorCode::InternalError, reason@),
        },
{
    match output {
        Ok(output) => if output.success {
            Response::new_ok(request.id, Json::Null)
        } else {
            Response::new_err(
                request.id,
                ErrorCode::InternalError.code(),
                chain("nix copy failed: ", output.stderr.as_str()),
            )
        },
        Err(reason) => Response::new_err(
            request.id,
            ErrorCode::InternalError.code(),
            reason.clone(),
        ),
    }
}

/// What `$/activate` asks of the host: the activation of the store path as
/// the system profile. Params that name no store path are answered with
/// `InvalidParams`, and nothing is touched.
pub fn activate(request: &Request) -> (r: Result<Activation, Response>)
    ensures
        match ActivateParamsView::of_json(request@.params) {
            Some(params) => r matches Ok(activation) && activation@ == (ActivationView {
                profile: system_profile(),
                store_path: params.store_path,
                stage: Stage::Checking,
            }),
            None => r matches Err(response) && response@ == failure(
                request@.id,
                ErrorCode::InvalidParams,
                "expected the param store_path"@,
            ),
        },
{
    match ActivateParams::from_json(&request.params) {
        Some(params) => Ok(Activation::activate("system".to_owned(), params.store_path)),
        None => Err(
            Response::new_err(
                request.id,
                ErrorCode::InvalidParams.code(),
                "expected the param store_path".to_owned(),
            ),
        ),
    }
}

/// The code and the message that tell a caller why an activation failed. A
/// store path that holds no NixOS system is the caller's mistake; anything
/// else went wrong on the host.
pub open spec fn activation_failure(error: ActivateErrorView) -> (ErrorCode, Seq<char>) {
    match error {
        ActivateErrorView::NotNixos => (
            ErrorCode::InvalidParams,
            "only nixos profiles are currently supported"@,
        ),
        ActivateErrorView::Host(reason) => (ErrorCode::InternalError, reason),
        ActivateErrorView::ProfileFailed => (ErrorCode::InternalError, "updating profile failed"@),
        ActivateErrorView::SwitchFailed => (ErrorCode::InternalError, "failed to switch profile"@),
        ActivateErrorView::OutOfTurn => (
            ErrorCode::InternalError,
            "the activation was driven out of turn"@,
        ),
    }
}

/// The answer to `$/activate`, from how the activation ended: an empty
/// result where it succeeded, else the error that says why it failed.
pub fn activate_outcome(request: &Request, outcome: &Result<(), ActivateError>) -> (response:
    Response)
    ensures
        response@ == match outcome {
            Ok(_) => success(request@.id, JsonValue::Null),
            Err(error) => failure(
                request@.id,
                activation_failure(error@).0,
                activation_failure(error@).1,
            ),
        },
{
    match outcome {
        Ok(_) => Response::new_ok(request.id, Json::Null),
        Err(ActivateError::NotNixos) => Response::new_err(
            request.id,
            ErrorCode::InvalidParams.code(),
            "only nixos profiles are currently supported".to_owned(),
        ),
        Err(ActivateError::Host(reason)) => Response::new_err(
            request.id,
            ErrorCode::InternalError.code(),
            reason.clone(),
        ),
        Err(ActivateError::ProfileFailed) => Response::new_err(
            request.id,
            ErrorCode::InternalError.code(),
            "updating profile failed".to_owned(),
        ),
        Err(ActivateError::SwitchFailed) => Response::new_err(
            request.id,
            ErrorCode::InternalError.code(),
            "failed to switch profile".to_owned(),
        ),
        Err(ActivateError::OutOfTurn) => Response::new_err(
            request.id,
            ErrorCode::InternalError.code(),
            "the activation was driven out of turn".to_owned(),
        ),
    }
}

/// What the agent does with a request, by its method.
pub open spec fn dispatch(request: crate::rpc::RequestView) -> DispatchView {
    if request.method == "$/ping"@ {
        DispatchView::Reply(success(request.id, JsonValue::Text("pong"@)))
    } else if request.method == "$/status"@ {
        DispatchView::Status
    } else if request.method == "$/download"@ {
        match DownloadParamsView::of_json(request.params) {
            Some(params) => DispatchView::Download(download_command(params)),
            None => DispatchView::Reply(
                failure(
                    request.id,
                    ErrorCode::InvalidParams,
                    "expected the params store_path and from"@,
                ),
            ),
        }
    } else if request.method == "$/activate"@ {
        match ActivateParamsView::of_json(request.params) {
            Some(params) => DispatchView::Activate(
                ActivationView {
                    profile: system_profile(),
                    store_path: params.store_path,
                    stage: Stage::Checking,
                },
            ),
            None => DispatchView::Reply(
                failure(request.id, ErrorCode::InvalidParams, "expected the param store_path"@),
            ),
        }
    } else {
        DispatchView::Reply(failure(request.id, ErrorCode::MethodNotFound, "pong"@))
    }
}

/// Finds out what a request asks for: the answer itself where none of the
/// host is needed, else the work that leads to the answer.
pub fn handle_request(request: &Request) -> (work: Dispatch)
    ensures
        work@ == dispatch(request@),
{
    let method = request.method.as_str();
    if str_eq(method, "$/ping") {
        Dispatch::Reply(ping(request))
    } else if str_eq(method, "$/status") {
        Dispatch::Status
    } else if str_eq(method, "$/download") {
        match download(request) {
            Ok(command) => Dispatch::Download(command),
            Err(response) => Dispatch::Reply(response),
        }
    } else if str_eq(method, "$/activate") {
        match activate(request) {
            Ok(activation) => Dispatch::Activate(activation),
            Err(response) => Dispatch::Reply(response),
        }
    } else {
        Dispatch::Reply(unknown(request))
    }
}

} // verus!
