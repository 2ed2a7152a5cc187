//! The description of a process to run, and the names under which running
//! one is offered to scripts.

use vstd::prelude::*;
use vstd::string::*;
use crate::output::texts;

verus! {

/// A process to run: the executable, and where given its arguments, its
/// environment overrides and its working directory.
pub struct CommandInfo {
    pub exe: String,
    pub args: Option<Vec<String>>,
    pub env: Option<Vec<(String, String)>>,
    pub working_directory: Option<String>,
}

/// What a `CommandInfo` stands for in contracts.
pub struct CommandModel {
    pub exe: Seq<char>,
    pub args: Option<Seq<Seq<char>>>,
    pub env: Option<Seq<(Seq<char>, Seq<char>)>>,
    pub working_directory: Option<Seq<char>>,
}

/// The texts of a sequence of pairs of strings, in the same order.
pub open spec fn pair_texts(pairs: Seq<(String, String)>) -> Seq<(Seq<char>, Seq<char>)> {
    pairs.map_values(|p: (String, String)| (p.0@, p.1@))
}

impl View for CommandInfo {
    type V = CommandModel;

    open spec fn view(&self) -> CommandModel {
        CommandModel {
            exe: self.exe@,
            args: match self.args {
                Some(a) => Some(texts(a@)),
                None => None,
            },
            env: match self.env {
                Some(e) => Some(pair_texts(e@)),
                None => None,
            },
            working_directory: match self.working_directory {
                Some(w) => Some(w@),
                None => None,
            },
        }
    }
}

/// The process library offered to scripts.
#[derive(Clone, Copy, Debug)]
pub struct CommandLib;

impl CommandLib {
    /// The global under which scripts find the library.
    pub fn name() -> (r: &'static str)
        ensures
            r@ == "command"@,
    {
        "command"
    }

    /// The function that runs a process and reports how it exited.
    pub fn run_name() -> (r: &'static str)
        ensures
            r@ == "run"@,
    {
        "run"
    }

    /// The function that runs a process and returns what it printed.
    pub fn output_name() -> (r: &'static str)
        ensures
            r@ == "output"@,
    {
        "output"
    }

    /// The field of an exit report that tells whether the process
    /// succeeded.
    pub fn success_field() -> (r: &'static str)
        ensures
            r@ == "success"@,
    {
        "success"
    }

    /// The field of an exit report that holds the exit code, where the
    /// process ended with one.
    pub fn exit_code_field() -> (r: &'static str)
        ensures
            r@ == "exitCode"@,
    {
        "exitCode"
    }
}

impl CommandInfo {
    /// The field of a script's process description that names the
    /// executable. It is the one field a description must have.
    pub fn exe_field() -> (r: &'static str)
        ensures
            r@ == "executable"@,
    {
        "executable"
    }

    /// The field that lists the arguments.
    pub fn args_field() -> (r: &'static str)
        ensures
            r@ == "args"@,
    {
        "args"
    }

    /// The field that maps environment variables to their values.
    pub fn env_field() -> (r: &'static str)
        ensures
            r@ == "env"@,
    {
        "env"
    }

    /// The field that names the working directory.
    pub fn working_directory_field() -> (r: &'static str)
        ensures
            r@ == "workingDirectory"@,
    {
        "workingDirectory"
    }
}

} // verus!
