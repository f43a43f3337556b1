//! Commands handed to the operating system, and what running one yields.
//!
//! Nothing here starts a process: a `CommandRequest` says what to run, and
//! a `CommandResult` says how the run went.

use vstd::prelude::*;
use vstd::string::*;

verus! {

/// The texts of a list of strings.
pub open spec fn texts(strings: Seq<String>) -> Seq<Seq<char>> {
    Seq::new(strings.len(), |i: int| strings[i]@)
}

/// A program and its arguments.
#[derive(Clone, Debug, PartialEq, Eq)]
pub struct CommandRequest {
    pub program: String,
    pub args: Vec<String>,
}

/// The text of a command: the program's name and each argument.
pub struct CommandView {
    pub program: Seq<char>,
    pub args: Seq<Seq<char>>,
}

impl CommandView {
    /// The command with one more argument at the end.
    pub open spec fn arg(self, value: Seq<char>) -> CommandView {
        CommandView { program: self.program, args: self.args.push(value) }
    }
}

/// The command that runs `program` without arguments.
pub open spec fn command(program: Seq<char>) -> CommandView {
    CommandView { program, args: Seq::empty() }
}

impl View for CommandRequest {
    type V = CommandView;

    open spec fn view(&self) -> CommandView {
        CommandView { program: self.program@, args: texts(self.args@) }
    }
}

impl CommandRequest {
    /// A request to run `program` without arguments.
    pub fn new(program: &str) -> (request: CommandRequest)
        ensures
            request@ == command(program@),
    {
        let request = CommandRequest { program: String::from_str(program), args: Vec::new() };
        assert(texts(request.args@) =~= Seq::empty());
        request
    }

    /// The request with `value` added as its last argument.
    pub fn arg(self, value: &str) -> (request: CommandRequest)
        ensures
            request@ == self@.arg(value@),
    {
        let mut request = self;
        request.args.push(String::from_str(value));
        assert(texts(request.args@) =~= texts(self.args@).push(value@));
        request
    }
}

/// What the operating system reported of a process that ran to its end.
#[derive(Clone, Debug, PartialEq, Eq)]
pub struct ProcessExit {
    /// Whether the exit status was zero.
    pub success: bool,
    /// What the process wrote to its standard output, as raw bytes.
    pub stdout: Vec<u8>,
    /// What the process wrote to its standard error, as raw bytes.
    pub stderr: Vec<u8>,
}

/// How one run of a command went.
#[derive(Clone, Debug, PartialEq, Eq)]
pub enum CommandResult {
    /// The process ran and exited with status zero.
    Success { stdout: Vec<u8> },
    /// The process ran and exited with another status.
    Failure { stderr: Vec<u8> },
    /// The process could not be started.
    SpawnError { message: String },
}

/// The content of a `CommandResult`.
pub enum CommandResultView {
    Success { stdout: Seq<u8> },
    Failure { stderr: Seq<u8> },
    SpawnError { message: Seq<char> },
}

impl View for CommandResult {
    type V = CommandResultView;

    open spec fn view(&self) -> CommandResultView {
        match self {
            CommandResult::Success { stdout } => CommandResultView::Success { stdout: stdout@ },
            CommandResult::Failure { stderr } => CommandResultView::Failure { stderr: stderr@ },
            CommandResult::SpawnError { message } => CommandResultView::SpawnError {
                message: message@,
            },
        }
    }
}

/// The result that stands for an attempt to run a command: a process that
/// did not start is a spawn error with the reason; one that exited with
/// status zero is a success with its output; any other is a failure with
/// what it wrote to standard error.
pub open spec fn classified(attempt: Result<ProcessExit, String>) -> CommandResultView {
    match attempt {
        Err(reason) => CommandResultView::SpawnError { message: reason@ },
        Ok(exit) => if exit.success {
            CommandResultView::Success { stdout: exit.stdout@ }
        } else {
            CommandResultView::Failure { stderr: exit.stderr@ }
        },
    }
}

impl CommandResult {
    /// Turns the outcome of an attempt to run a command into a result. Every
    /// outcome has one: no attempt is left as an error.
    pub fn from_attempt(attempt: Result<ProcessExit, String>) -> (result: CommandResult)
        ensures
            result@ == classified(attempt),
    {
        match attempt {
            Err(reason) => CommandResult::SpawnError { message: reason },
            Ok(exit) => {
                if exit.success {
                    CommandResult::Success { stdout: exit.stdout }
                } else {
                    CommandResult::Failure { stderr: exit.stderr }
                }
            },
        }
    }

    /// Tells whether the command ran and exited with status zero.
    pub fn succeeded(&self) -> (yes: bool)
        ensures
            yes == (self@ is Success),
    {
        match self {
            CommandResult::Success { .. } => true,
            _ => false,
        }
    }
}

} // verus!
