//! Activating a system on the agent's host, step by step.
//!
//! Activation touches the host three times: it looks for the file that marks
//! a store path as a NixOS system, sets the system profile, and runs the
//! system's own switch script. An [`Activation`] decides what comes next from
//! what the last step gave; the caller does the steps.

use crate::process::{push_arg, Command, CommandView, Output, OutputView};
use crate::text::join_path;
use crate::text::joined_path;
use vstd::prelude::*;

verus! {

/// The directory that holds the profiles of the system.
pub open spec fn profiles_dir() -> Seq<char> {
    "/nix/var/nix/profiles"@
}

/// The path of the file that marks `store_path` as a NixOS system.
pub open spec fn marker_path(store_path: Seq<char>) -> Seq<char> {
    joined_path(store_path, "nixos-version"@)
}

/// The path of the switch script of the system at `store_path`.
pub open spec fn activation_script(store_path: Seq<char>) -> Seq<char> {
    joined_path(store_path, "bin/switch-to-configuration"@)
}

/// The command that sets `profile` to `store_path`.
pub open spec fn profile_command(profile: Seq<char>, store_path: Seq<char>) -> CommandView {
    CommandView {
        program: "nix-env"@,
        args: seq![
            "--profile"@,
            joined_path(profiles_dir(), profile),
            "--set"@,
            store_path,
        ],
    }
}

/// The command that switches to the system at `store_path`.
pub open spec fn switch_command(store_path: Seq<char>) -> CommandView {
    CommandView { program: activation_script(store_path), args: seq!["switch"@] }
}

/// The path of the file that marks `store_path` as a NixOS system.
pub fn nixos_marker(store_path: &str) -> (path: String)
    ensures
        path@ == marker_path(store_path@),
{
    join_path(store_path, "nixos-version")
}

/// Whether `store_path` holds a NixOS system: whether the file that marks one
/// is there. `try_exists` looks a path up on the host; it is asked once, for
/// the marker, and its answer is the result.
pub fn is_nixos_system<F: Fn(String) -> Result<bool, String>>(store_path: &str, try_exists: F) -> (r:
    Result<bool, String>)
    requires
        forall|path: String| call_requires(try_exists, (path,)),
    ensures
        exists|path: String|
            path@ == marker_path(store_path@) && call_ensures(try_exists, (path,), r),
{
    let path = nixos_marker(store_path);
    try_exists(path)
}

/// The location of the switch script of the system at `store_path`.
pub fn get_activation_script(store_path: &str) -> (path: String)
    ensures
        path@ == activation_script(store_path@),
{
    join_path(store_path, "bin/switch-to-configuration")
}

/// The command that sets `profile` to `store_path`.
pub fn set_profile(profile: &str, store_path: &str) -> (command: Command)
    ensures
        command@ == profile_command(profile@, store_path@),
{
    let mut args: Vec<String> = Vec::new();
    push_arg(&mut args, "--profile");
    push_arg(&mut args, join_path("/nix/var/nix/profiles", profile).as_str());
    push_arg(&mut args, "--set");
    push_arg(&mut args, store_path);
    assert(crate::text::string_views(args@) =~= profile_command(profile@, store_path@).args);
    Command::new("nix-env", args)
}

/// Why an activation failed.
#[derive(Debug, PartialEq, Eq)]
pub enum ActivateError {
    /// The store path holds no NixOS system. Nothing was touched.
    NotNixos,
    /// The host could not look a file up or start a program; its reason is
    /// inside.
    Host(String),
    /// Setting the profile failed.
    ProfileFailed,
    /// The switch script failed.
    SwitchFailed,
    /// A report came that answers no step.
    OutOfTurn,
}

/// How far an activation has come.
#[derive(Clone, Copy, Debug, PartialEq, Eq, Structural)]
pub enum Stage {
    /// The marker is being looked for.
    Checking,
    /// The profile is being set.
    SettingProfile,
    /// The switch script runs.
    Switching,
    /// Nothing is left to do.
    Finished,
}

/// What the host reports of a step.
#[derive(Debug, PartialEq, Eq)]
pub enum Report {
    /// Whether the store path holds a NixOS system, or why that could not be
    /// found out.
    Checked(Result<bool, String>),
    /// What the command left behind, or why it could not be started.
    Ran(Result<Output, String>),
}

/// What the host has to do next.
#[derive(Debug, PartialEq, Eq)]
pub enum Next {
    /// Find out whether this store path holds a NixOS system.
    Check(String),
    /// Run this command.
    Run(Command),
    /// The activation is over, with this outcome.
    Done(Result<(), ActivateError>),
}

/// The mathematical value of a [`Report`].
pub enum ReportView {
    Checked(Result<bool, Seq<char>>),
    Ran(Result<OutputView, Seq<char>>),
}

/// The mathematical value of a [`Next`].
pub enum NextView {
    Check(Seq<char>),
    Run(CommandView),
    Done(Result<(), ActivateErrorView>),
}

/// The mathematical value of an [`ActivateError`].
pub enum ActivateErrorView {
    NotNixos,
    Host(Seq<char>),
    ProfileFailed,
    SwitchFailed,
    OutOfTurn,
}

impl View for ActivateError {
    type V = ActivateErrorView;

    open spec fn view(&self) -> ActivateErrorView {
        match self {
            ActivateError::NotNixos => ActivateErrorView::NotNixos,
            ActivateError::Host(reason) => ActivateErrorView::Host(reason@),
            ActivateError::ProfileFailed => ActivateErrorView::ProfileFailed,
            ActivateError::SwitchFailed => ActivateErrorView::SwitchFailed,
            ActivateError::OutOfTurn => ActivateErrorView::OutOfTurn,
        }
    }
}

impl View for Report {
    type V = ReportView;

    open spec fn view(&self) -> ReportView {
        match self {
            Report::Checked(Ok(found)) => ReportView::Checked(Ok(*found)),
            Report::Checked(Err(reason)) => ReportView::Checked(Err(reason@)),
            Report::Ran(Ok(output)) => ReportView::Ran(Ok(output@)),
            Report::Ran(Err(reason)) => ReportView::Ran(Err(reason@)),
        }
    }
}

impl View for Next {
    type V = NextView;

    open spec fn view(&self) -> NextView {
        match self {
            Next::Check(store_path) => NextView::Check(store_path@),
            Next::Run(command) => NextView::Run(command@),
            Next::Done(Ok(_)) => NextView::Done(Ok(())),
            Next::Done(Err(e)) => NextView::Done(Err(e@)),
        }
    }
}

/// The mathematical value of an [`Activation`].
pub struct ActivationView {
    pub profile: Seq<char>,
    pub store_path: Seq<char>,
    pub stage: Stage,
}

impl ActivationView {
    /// What the host has to do at the start.
    pub open spec fn first(self) -> NextView {
        NextView::Check(self.store_path)
    }

    /// The stage after `report`, and what the host has to do then.
    ///
    /// The profile is set only for a store path that holds a NixOS system,
    /// the switch script runs only after the profile was set, and any failure
    /// ends the activation.
    pub open spec fn advance(self, report: ReportView) -> (Stage, NextView) {
        match (self.stage, report) {
            (Stage::Checking, ReportView::Checked(Ok(true))) => (
                Stage::SettingProfile,
                NextView::Run(profile_command(self.profile, self.store_path)),
            ),
            (Stage::Checking, ReportView::Checked(Ok(false))) => (
                Stage::Finished,
                NextView::Done(Err(ActivateErrorView::NotNixos)),
            ),
            (Stage::Checking, ReportView::Checked(Err(reason))) => (
                Stage::Finished,
                NextView::Done(Err(ActivateErrorView::Host(reason))),
            ),
            (Stage::SettingProfile, ReportView::Ran(Ok(output))) => if output.success {
                (Stage::Switching, NextView::Run(switch_command(self.store_path)))
            } else {
                (Stage::Finished, NextView::Done(Err(ActivateErrorView::ProfileFailed)))
            },
            (Stage::Switching, ReportView::Ran(Ok(output))) => if output.success {
                (Stage::Finished, NextView::Done(Ok(())))
            } else {
                (Stage::Finished, NextView::Done(Err(ActivateErrorView::SwitchFailed)))
            },
            (Stage::SettingProfile, ReportView::Ran(Err(reason))) => (
                Stage::Finished,
                NextView::Done(Err(ActivateErrorView::Host(reason))),
            ),
            (Stage::Switching, ReportView::Ran(Err(reason))) => (
                Stage::Finished,
                NextView::Done(Err(ActivateErrorView::Host(reason))),
            ),
            _ => (Stage::Finished, NextView::Done(Err(ActivateErrorView::OutOfTurn))),
        }
    }
}

/// One activation under way.
#[derive(Debug, PartialEq, Eq)]
pub struct Activation {
    profile: String,
    store_path: String,
    stage: Stage,
}

impl View for Activation {
    type V = ActivationView;

    closed spec fn view(&self) -> ActivationView {
        ActivationView { profile: self.profile@, store_path: self.store_path@, stage: self.stage }
    }
}

impl Activation {
    /// The activation of `store_path` as `profile`, before its first step.
    pub fn activate(profile: String, store_path: String) -> (activation: Activation)
        ensures
            activation@ == (ActivationView {
                profile: profile@,
                store_path: store_path@,
                stage: Stage::Checking,
            }),
    {
        Activation { profile, store_path, stage: Stage::Checking }
    }

    /// How far the activation has come.
    pub fn stage(&self) -> (stage: Stage)
        ensures
            stage == self@.stage,
    {
        self.stage
    }

    /// What the host has to do first.
    pub fn first(&self) -> (next: Next)
        ensures
            next@ == self@.first(),
    {
        Next::Check(self.store_path.clone())
    }

    /// Takes the host's report of the last step and says what comes next.
    pub fn advance(&mut self, report: Report) -> (next: Next)
        ensures
            final(self)@.profile == old(self)@.profile,
            final(self)@.store_path == old(self)@.store_path,
            (final(self)@.stage, next@) == old(self)@.advance(report@),
    {
        match (self.stage, report) {
            (Stage::Checking, Report::Checked(Ok(true))) => {
                self.stage = Stage::SettingProfile;
                Next::Run(set_profile(self.profile.as_str(), self.store_path.as_str()))
            },
            (Stage::Checking, Report::Checked(Ok(false))) => {
                self.stage = Stage::Finished;
                Next::Done(Err(ActivateError::NotNixos))
            },
            (Stage::Checking, Report::Checked(Err(reason))) => {
                self.stage = Stage::Finished;
                Next::Done(Err(ActivateError::Host(reason)))
            },
            (Stage::SettingProfile, Report::Ran(Ok(output))) => {
                if output.success {
                    self.stage = Stage::Switching;
                    let mut args: Vec<String> = Vec::new();
                    push_arg(&mut args, "switch");
                    assert(crate::text::string_views(args@) =~= seq!["switch"@]);
                    let script = get_activation_script(self.store_path.as_str());
                    Next::Run(Command::new(script.as_str(), args))
                } else {
                    self.stage = Stage::Finished;
                    Next::Done(Err(ActivateError::ProfileFailed))
                }
            },
            (Stage::Switching, Report::Ran(Ok(output))) => {
                self.stage = Stage::Finished;
                if output.success {
                    Next::Done(Ok(()))
                } else {
                    Next::Done(Err(ActivateError::SwitchFailed))
                }
            },
            (Stage::SettingProfile, Report::Ran(Err(reason))) => {
                self.stage = Stage::Finished;
                Next::Done(Err(ActivateError::Host(reason)))
            },
            (Stage::Switching, Report::Ran(Err(reason))) => {
                self.stage = Stage::Finished;
                Next::Done(Err(ActivateError::Host(reason)))
            },
            _ => {
                self.stage = Stage::Finished;
                Next::Done(Err(ActivateError::OutOfTurn))
            },
        }
    }
}

/// The switch script is run for a NixOS system only, and only once its
/// profile is set: whenever an activation asks for it, the marker was found
/// and the profile command succeeded just before.
pub proof fn lemma_switch_comes_last(activation: ActivationView, report: ReportView)
    ensures
        activation.advance(report).0 == Stage::Switching ==> {
            &&& activation.stage == Stage::SettingProfile
            &&& report matches ReportView::Ran(Ok(output))
            &&& output.success
        },
        activation.advance(report).0 == Stage::SettingProfile ==> {
            &&& activation.stage == Stage::Checking
            &&& report == ReportView::Checked(Ok(true))
        },
        activation.stage == Stage::Finished ==> activation.advance(report).0 == Stage::Finished,
{
}

} // verus!
