//! Commands for the host to run, and what a finished command left behind.
//!
//! Nothing here starts a process: a [`Command`] says what to run, and an
//! [`Output`] is what whoever ran it reports back.

use crate::text::string_views;
use vstd::prelude::*;

verus! {

/// A program and its arguments.
#[derive(Debug, PartialEq, Eq)]
pub struct Command {
    pub program: String,
    pub args: Vec<String>,
}

/// The mathematical value of a [`Command`].
pub struct CommandView {
    pub program: Seq<char>,
    pub args: Seq<Seq<char>>,
}

impl View for Command {
    type V = CommandView;

    open spec fn view(&self) -> CommandView {
        CommandView { program: self.program@, args: string_views(self.args@) }
    }
}

/// What a finished command left behind: whether it exited with status zero,
/// and what it wrote.
#[derive(Debug, PartialEq, Eq)]
pub struct Output {
    pub success: bool,
    pub stdout: String,
    pub stderr: String,
}

/// The mathematical value of an [`Output`].
pub struct OutputView {
    pub success: bool,
    pub stdout: Seq<char>,
    pub stderr: Seq<char>,
}

impl View for Output {
    type V = OutputView;

    open spec fn view(&self) -> OutputView {
        OutputView { success: self.success, stdout: self.stdout@, stderr: self.stderr@ }
    }
}

/// Appends a copy of `arg` to the arguments under construction.
pub fn push_arg(args: &mut Vec<String>, arg: &str)
    ensures
        string_views(final(args)@) == string_views(old(args)@).push(arg@),
{
    args.push(arg.to_owned());
    assert(string_views(args@) =~= string_views(old(args)@).push(arg@));
}

impl Clone for Command {
    fn clone(&self) -> (copy: Command)
        ensures
            copy@ == self@,
    {
        Command { program: self.program.clone(), args: crate::text::clone_strings(&self.args) }
    }
}

impl Clone for Output {
    fn clone(&self) -> (copy: Output)
        ensures
            copy@ == self@,
    {
        Output {
            success: self.success,
            stdout: self.stdout.clone(),
            stderr: self.stderr.clone(),
        }
    }
}

impl Command {
    /// The command that runs `program` with `args`.
    pub fn new(program: &str, args: Vec<String>) -> (command: Command)
        ensures
            command@ == (CommandView { program: program@, args: string_views(args@) }),
    {
        Command { program: program.to_owned(), args }
    }
}

} // verus!
