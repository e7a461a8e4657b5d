//! The command line, and what one invocation comes to.

use crate::classify::{is_required_target_dir, needs_target_dir};
use vstd::prelude::*;
use vstd::string::StringExecFns;

verus! {

/// The target root where the environment names no other.
pub const DEFAULT_TARGET_DIR: &'static str = "/tmp/rcargo_targets";

/// The commands of the wrapper itself.
#[derive(Clone, Copy, PartialEq, Eq, Structural, Debug)]
pub enum Commands {
    /// Show the sizes of cache directories; with `all`, of every project.
    Size { all: bool },
    /// Remove cache directories; with `all`, of every project; with `yes`,
    /// without asking.
    Purge { all: bool, yes: bool },
}

/// The parsed command line.
#[derive(Debug, PartialEq, Eq)]
pub struct Cli {
    /// The wrapper's own command, if one was given.
    pub command: Option<Commands>,
    /// Whether the version was asked for.
    pub show_version: bool,
    /// The arguments for the wrapped tool, where no command was given.
    pub cargo_args: Vec<String>,
}

/// What an invocation comes to.
#[derive(Clone, Copy, PartialEq, Eq, Structural, Debug)]
pub enum Invocation {
    /// Print the versions of the wrapper and of the wrapped tool.
    ShowVersion,
    /// Run the `size` command.
    Size { all: bool },
    /// Run the `purge` command.
    Purge { all: bool, yes: bool },
    /// Run the wrapped tool as it is.
    PassThrough,
    /// Run the wrapped tool with the project's own target directory.
    Redirect,
}

/// What follows the end of the wrapped tool.
#[derive(Clone, Copy, PartialEq, Eq, Structural, Debug)]
pub enum ChildOutcome {
    /// Leave with this exit code.
    Exit(i32),
    /// Nothing more to do.
    Finished,
    /// See to the convenience symlink.
    LinkTarget,
}

/// How the wrapped tool answered when asked for its version.
#[derive(Debug, PartialEq, Eq)]
pub enum CargoVersion {
    /// It ran and succeeded; `output` is what it printed.
    Reported { output: String },
    /// It ran and failed.
    Failed,
    /// It could not be run.
    NotRun { error: String },
}

/// One piece of output.
#[derive(Debug, PartialEq, Eq)]
pub enum Output {
    /// A line for standard output.
    Line(String),
    /// Text for standard output, printed as it is.
    Verbatim(String),
    /// A line for standard error.
    Warning(String),
}

/// An [`Output`] as plain values.
pub enum OutputView {
    Line(Seq<char>),
    Verbatim(Seq<char>),
    Warning(Seq<char>),
}

impl View for Output {
    type V = OutputView;

    open spec fn view(&self) -> OutputView {
        match *self {
            Output::Line(text) => OutputView::Line(text@),
            Output::Verbatim(text) => OutputView::Verbatim(text@),
            Output::Warning(text) => OutputView::Warning(text@),
        }
    }
}

/// The target root: the configured one unless that is unset or empty.
pub open spec fn target_root(configured: Option<Seq<char>>) -> Seq<char> {
    match configured {
        Some(dir) if dir.len() > 0 => dir,
        _ => DEFAULT_TARGET_DIR@,
    }
}

/// What an invocation comes to. The version flag goes before a command, a
/// command before the arguments for the wrapped tool.
pub open spec fn invocation_of(
    show_version: bool,
    command: Option<Commands>,
    cargo_args: Seq<Seq<char>>,
) -> Invocation {
    if show_version {
        Invocation::ShowVersion
    } else {
        match command {
            Some(Commands::Size { all }) => Invocation::Size { all },
            Some(Commands::Purge { all, yes }) => Invocation::Purge { all, yes },
            None => if needs_target_dir(cargo_args) {
                Invocation::Redirect
            } else {
                Invocation::PassThrough
            },
        }
    }
}

/// What follows the end of the wrapped tool: its own exit code where it
/// failed, 1 where it failed without one, and the symlink after a redirected
/// run that succeeded.
pub open spec fn outcome_of(redirected: bool, success: bool, code: Option<i32>) -> ChildOutcome {
    if !success {
        match code {
            Some(code) => ChildOutcome::Exit(code),
            None => ChildOutcome::Exit(1),
        }
    } else if redirected {
        ChildOutcome::LinkTarget
    } else {
        ChildOutcome::Finished
    }
}

/// The line that names the redirected target directory.
pub open spec fn redirect_text(target_dir: Seq<char>) -> Seq<char> {
    "RCargo: Target directory redirected to: "@ + target_dir
}

/// The wrapper's own version line.
pub open spec fn banner_text(version: Seq<char>) -> Seq<char> {
    "rcargo "@ + version
}

/// What is printed of the wrapped tool's version.
pub open spec fn cargo_version_output(cargo: CargoVersion) -> OutputView {
    match cargo {
        CargoVersion::Reported { output } => OutputView::Verbatim(output@),
        CargoVersion::Failed => OutputView::Warning("Failed to get cargo version"@),
        CargoVersion::NotRun { error } => OutputView::Warning(
            "Failed to execute cargo --version: "@ + error@,
        ),
    }
}

/// The target root for this run, given the value of `RCARGO_TARGET_DIR`
/// where the variable is set.
pub fn get_target_dir(configured: Option<&str>) -> (dir: String)
    ensures
        dir@ == target_root(
            match configured {
                Some(d) => Some(d@),
                None => None,
            },
        ),
{
    match configured {
        Some(d) => {
            if d.is_empty() {
                String::from_str(DEFAULT_TARGET_DIR)
            } else {
                String::from_str(d)
            }
        },
        None => String::from_str(DEFAULT_TARGET_DIR),
    }
}

/// Decides what the invocation comes to.
pub fn run_rcargo(cli: &Cli) -> (invocation: Invocation)
    ensures
        invocation == invocation_of(cli.show_version, cli.command, cli.cargo_args.deep_view()),
{
    if cli.show_version {
        return Invocation::ShowVersion;
    }
    match cli.command {
        Some(Commands::Size { all }) => Invocation::Size { all },
        Some(Commands::Purge { all, yes }) => Invocation::Purge { all, yes },
        None => {
            let args = cli.cargo_args.as_slice();
            assert(args.deep_view() =~= cli.cargo_args.deep_view());
            if is_required_target_dir(args) {
                Invocation::Redirect
            } else {
                Invocation::PassThrough
            }
        },
    }
}

/// Decides what follows the end of the wrapped tool, which ran redirected or
/// not, succeeded or not, and left the exit code `code` unless a signal ended it.
pub fn child_exited(redirected: bool, success: bool, code: Option<i32>) -> (outcome: ChildOutcome)
    ensures
        outcome == outcome_of(redirected, success, code),
{
    if !success {
        match code {
            Some(code) => ChildOutcome::Exit(code),
            None => ChildOutcome::Exit(1),
        }
    } else if redirected {
        ChildOutcome::LinkTarget
    } else {
        ChildOutcome::Finished
    }
}

/// The line that tells the user where the build goes.
pub fn redirect_notice(target_dir: &str) -> (line: String)
    ensures
        line@ == redirect_text(target_dir@),
{
    let mut line = String::from_str("RCargo: Target directory redirected to: ");
    line.append(target_dir);
    line
}

/// What is printed for the version flag: the wrapper's own version, then the
/// wrapped tool's, or a warning where that could not be had.
pub fn print_version(version: &str, cargo: CargoVersion) -> (output: (Output, Output))
    ensures
        output.0@ == OutputView::Line(banner_text(version@)),
        output.1@ == cargo_version_output(cargo),
{
    let mut banner = String::from_str("rcargo ");
    banner.append(version);
    let second = match cargo {
        CargoVersion::Reported { output } => Output::Verbatim(output),
        CargoVersion::Failed => Output::Warning(String::from_str("Failed to get cargo version")),
        CargoVersion::NotRun { error } => {
            let mut line = String::from_str("Failed to execute cargo --version: ");
            line.append(error.as_str());
            Output::Warning(line)
        },
    };
    (Output::Line(banner), second)
}

} // verus!
