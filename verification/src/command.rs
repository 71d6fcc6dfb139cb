//! The commands the core asks its caller to run, and what it reads back.
//!
//! Three command shapes go to the package manager: a version probe, a query
//! by name and an install by name. A fourth installs the package manager
//! itself. Of a finished command the core reads the exit status and the
//! captured standard error, nothing else.

use vstd::prelude::*;

verus! {

/// A program to run together with its arguments.
#[derive(Debug, PartialEq, Eq)]
pub struct Command {
    pub program: String,
    pub args: Vec<String>,
}

/// Mathematical model of a [`Command`].
pub struct CommandView {
    pub program: Seq<char>,
    pub args: Seq<Seq<char>>,
}

impl View for Command {
    type V = CommandView;

    open spec fn view(&self) -> CommandView {
        CommandView { program: self.program@, args: self.args.deep_view() }
    }
}

/// `brew --version`: does the package manager answer at all?
pub open spec fn version_probe_command() -> CommandView {
    CommandView { program: "brew"@, args: seq!["--version"@] }
}

/// `brew list <tool>`: is the tool installed?
pub open spec fn query_command(tool: Seq<char>) -> CommandView {
    CommandView { program: "brew"@, args: seq!["list"@, tool] }
}

/// `brew install <tool>`.
pub open spec fn install_command(tool: Seq<char>) -> CommandView {
    CommandView { program: "brew"@, args: seq!["install"@, tool] }
}

/// The line that installs the package manager itself. It is handed over
/// whole, as the program to run, with no arguments.
pub open spec fn bootstrap_command() -> CommandView {
    CommandView {
        program: "/bin/bash -c \"$(curl -fsSL https://raw.githubusercontent.com/Homebrew/install/HEAD/install.sh)\""@,
        args: Seq::empty(),
    }
}

impl Command {
    /// The version probe of the package manager.
    pub fn version_probe() -> (command: Command)
        ensures
            command@ == version_probe_command(),
    {
        let args = vec!["--version".to_owned()];
        assert(args.deep_view() =~= seq!["--version"@]);
        Command { program: "brew".to_owned(), args }
    }

    /// The query that tells whether `tool` is installed.
    pub fn query(tool: &str) -> (command: Command)
        ensures
            command@ == query_command(tool@),
    {
        let args = vec!["list".to_owned(), tool.to_owned()];
        assert(args.deep_view() =~= seq!["list"@, tool@]);
        Command { program: "brew".to_owned(), args }
    }

    /// The command that installs `tool`.
    pub fn install(tool: &str) -> (command: Command)
        ensures
            command@ == install_command(tool@),
    {
        let args = vec!["install".to_owned(), tool.to_owned()];
        assert(args.deep_view() =~= seq!["install"@, tool@]);
        Command { program: "brew".to_owned(), args }
    }

    /// The command that installs the package manager itself.
    pub fn bootstrap() -> (command: Command)
        ensures
            command@ == bootstrap_command(),
    {
        let args: Vec<String> = Vec::new();
        assert(args.deep_view() =~= Seq::<Seq<char>>::empty());
        Command {
            program: "/bin/bash -c \"$(curl -fsSL https://raw.githubusercontent.com/Homebrew/install/HEAD/install.sh)\"".to_owned(),
            args,
        }
    }
}

/// What the core reads of a command that ran to its end.
#[derive(Debug, PartialEq, Eq)]
pub struct ExitReport {
    /// Whether the exit status signalled success.
    pub success: bool,
    /// The bytes the command wrote to standard error.
    pub stderr: Vec<u8>,
}

/// Mathematical model of an [`ExitReport`].
pub struct ExitReportView {
    pub success: bool,
    pub stderr: Seq<u8>,
}

impl View for ExitReport {
    type V = ExitReportView;

    open spec fn view(&self) -> ExitReportView {
        ExitReportView { success: self.success, stderr: self.stderr@ }
    }
}

/// Why the system did not do what it was asked for.
#[derive(Copy, Clone, Debug, PartialEq, Eq, Structural)]
pub enum SystemErrorKind {
    /// What was to be run or used was not found.
    NotFound,
    /// The user may not do this.
    PermissionDenied,
    /// Any other failure of the environment.
    Other,
}

/// A refusal of the system, such as a command that could not be run at
/// all, with the system's own words for it.
#[derive(Debug, PartialEq, Eq)]
pub struct SystemError {
    pub kind: SystemErrorKind,
    pub message: String,
}

/// Mathematical model of a [`SystemError`].
pub struct SystemErrorView {
    pub kind: SystemErrorKind,
    pub message: Seq<char>,
}

impl View for SystemError {
    type V = SystemErrorView;

    open spec fn view(&self) -> SystemErrorView {
        SystemErrorView { kind: self.kind, message: self.message@ }
    }
}

/// Mathematical model of what running a command gave.
pub type CommandResultView = Result<ExitReportView, SystemErrorView>;

/// The model of a command's result.
pub open spec fn command_result_view(result: Result<ExitReport, SystemError>) -> CommandResultView {
    match result {
        Ok(report) => Ok(report@),
        Err(error) => Err(error@),
    }
}

} // verus!
