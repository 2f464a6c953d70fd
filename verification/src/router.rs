//! The course of one run: the command's own check of its configuration
//! comes before anything is asked of the network, then the context is made,
//! then the command runs. Every failure ends the run with one logged line
//! and status 1.

use crate::cli::{Cli, Command, Verbosity};
use crate::error::{failure_prefix, failure_report, rendered, translated, RemoteFailure};
use crate::session::{error_text, SessionError};
use vstd::prelude::*;
use vstd::string::*;

verus! {

/// How much is logged.
#[derive(Clone, Copy, Debug, PartialEq, Eq, Structural)]
pub enum LogLevel {
    Debug,
    Info,
    Error,
}

/// What the run does next.
#[derive(Clone, Debug, PartialEq, Eq)]
pub enum Step {
    /// The configuration contradicts itself: the message goes to the
    /// standard error stream and the run ends with status 1.
    Reject { message: String },
    /// Logging starts at `level`; the stored session is deleted and the run
    /// ends with status 0.
    RemoveStoredSession { level: LogLevel },
    /// Logging starts at `level`; the command checks its configuration.
    PreCheck { level: LogLevel },
    /// The clients and the session are made.
    CreateContext,
    /// The handler of interrupts is installed, then the command runs. A
    /// handler that cannot be installed ends the run on the spot.
    Execute,
    /// The line is logged as an error and the run ends with status 1.
    Fail { line: String },
    /// The run ends with status 0.
    Finish,
}

/// A `Step` as plain text values.
pub enum StepModel {
    Reject { message: Seq<char> },
    RemoveStoredSession { level: LogLevel },
    PreCheck { level: LogLevel },
    CreateContext,
    Execute,
    Fail { line: Seq<char> },
    Finish,
}

impl View for Step {
    type V = StepModel;

    open spec fn view(&self) -> StepModel {
        match *self {
            Step::Reject { message } => StepModel::Reject { message: message@ },
            Step::RemoveStoredSession { level } => StepModel::RemoveStoredSession { level },
            Step::PreCheck { level } => StepModel::PreCheck { level },
            Step::CreateContext => StepModel::CreateContext,
            Step::Execute => StepModel::Execute,
            Step::Fail { line } => StepModel::Fail { line: line@ },
            Step::Finish => StepModel::Finish,
        }
    }
}

/// What the user is told where both `verbose` and `quiet` are set.
pub open spec fn verbosity_conflict() -> Seq<char> {
    "Output cannot be verbose ('-v') and quiet ('-q') at the same time"@
}

/// What the logged line of a failed check of the configuration begins with.
pub open spec fn misconfiguration_prefix() -> Seq<char> {
    "Misconfigurations detected: "@
}

/// How much is logged: everything when verbose, errors alone when quiet,
/// and `None` where both are asked for.
pub open spec fn level_of(verbosity: Verbosity) -> Option<LogLevel> {
    if verbosity.verbose && verbosity.quiet {
        None
    } else if verbosity.verbose {
        Some(LogLevel::Debug)
    } else if verbosity.quiet {
        Some(LogLevel::Error)
    } else {
        Some(LogLevel::Info)
    }
}

/// The command as it runs under `quiet`: a command that would ask the user
/// takes every answer as yes.
pub open spec fn quieted(command: Command, quiet: bool) -> Command {
    match command {
        Command::Archive { yes } => Command::Archive { yes: yes || quiet },
        Command::Download { yes, audio } => Command::Download { yes: yes || quiet, audio },
        _ => command,
    }
}

/// The first step of a run whose verbosity gives `level`.
pub open spec fn first_step(command: Command, level: LogLevel) -> StepModel {
    match command {
        Command::Login { remove: true } => StepModel::RemoveStoredSession { level },
        _ => StepModel::PreCheck { level },
    }
}

/// The status that the run ends with at a step, `None` where it goes on.
pub open spec fn exit_status(step: StepModel) -> Option<int> {
    match step {
        StepModel::Reject { .. } | StepModel::Fail { .. } => Some(1),
        StepModel::RemoveStoredSession { .. } | StepModel::Finish => Some(0),
        _ => None,
    }
}

/// How much is logged, `None` where `verbose` and `quiet` are both set.
pub fn log_level(verbosity: Verbosity) -> (r: Option<LogLevel>)
    ensures
        r == level_of(verbosity),
{
    if verbosity.verbose && verbosity.quiet {
        None
    } else if verbosity.verbose {
        Some(LogLevel::Debug)
    } else if verbosity.quiet {
        Some(LogLevel::Error)
    } else {
        Some(LogLevel::Info)
    }
}

/// Makes a command that would ask the user take every answer as yes where
/// the output is to be quiet.
pub fn enforce_quiet(command: &mut Command, quiet: bool)
    ensures
        *final(command) == quieted(*old(command), quiet),
{
    if quiet {
        match command {
            Command::Archive { yes } => {
                *yes = true;
            },
            Command::Download { yes, audio: _ } => {
                *yes = true;
            },
            _ => {},
        }
    }
}

/// Begins a run. A verbosity that contradicts itself is rejected and the
/// configuration left as it is. Otherwise a quiet run answers every question
/// of its command with yes, and the command is checked, unless it only
/// removes the stored session.
pub fn begin(cli: &mut Cli) -> (r: Step)
    ensures
        match level_of(old(cli).verbosity) {
            None => *final(cli) == *old(cli) && r@ == (StepModel::Reject {
                message: verbosity_conflict(),
            }),
            Some(level) => {
                &&& final(cli).command == quieted(old(cli).command, old(cli).verbosity.quiet)
                &&& r@ == first_step(old(cli).command, level)
            },
        },
        final(cli).verbosity == old(cli).verbosity,
        final(cli).lang == old(cli).lang,
        final(cli).experimental_fixes == old(cli).experimental_fixes,
        final(cli).login_method == old(cli).login_method,
        final(cli).proxy == old(cli).proxy,
        final(cli).user_agent == old(cli).user_agent,
        final(cli).speed_limit == old(cli).speed_limit,
{
    match log_level(cli.verbosity) {
        None => Step::Reject {
            message: "Output cannot be verbose ('-v') and quiet ('-q') at the same time".to_owned(),
        },
        Some(level) => {
            enforce_quiet(&mut cli.command, cli.verbosity.quiet);
            match cli.command {
                Command::Login { remove: true } => Step::RemoveStoredSession { level },
                _ => Step::PreCheck { level },
            }
        },
    }
}

/// The check of its configuration that a command makes where it has none of
/// its own: it passes, and leaves the command as it is.
pub fn pre_check(command: &mut Command) -> (r: Result<(), String>)
    ensures
        r is Ok,
        *final(command) == *old(command),
{
    Ok(())
}

/// What follows the command's check of its configuration: the context is
/// made where the check passed; where it failed, the run fails with what the
/// check found.
pub fn after_pre_check(outcome: Result<(), String>) -> (r: Step)
    ensures
        r@ == match outcome {
            Ok(_) => StepModel::CreateContext,
            Err(found) => StepModel::Fail { line: misconfiguration_prefix() + found@ },
        },
{
    match outcome {
        Ok(_) => Step::CreateContext,
        Err(found) => {
            let mut line = "Misconfigurations detected: ".to_owned();
            line.append(found.as_str());
            Step::Fail { line }
        },
    }
}

/// What follows the making of the context: the command runs where there is
/// a session; where there is none, the run fails with the reason.
pub fn after_context(outcome: Result<(), SessionError>) -> (r: Step)
    ensures
        r@ == match outcome {
            Ok(_) => StepModel::Execute,
            Err(error) => StepModel::Fail { line: error_text(error@) },
        },
{
    match outcome {
        Ok(_) => Step::Execute,
        Err(error) => Step::Fail { line: error.message() },
    }
}

/// What follows the command: the run ends; where the command failed, with
/// one line that tells the failure, a blocked request as advice to the
/// user.
pub fn after_command(outcome: Result<(), RemoteFailure>) -> (r: Step)
    ensures
        r@ == match outcome {
            Ok(_) => StepModel::Finish,
            Err(failure) => StepModel::Fail {
                line: failure_prefix() + rendered(translated(failure@)),
            },
        },
{
    match outcome {
        Ok(_) => Step::Finish,
        Err(failure) => Step::Fail { line: failure_report(failure) },
    }
}

impl Step {
    /// The status that the run ends with at this step, `None` where it goes
    /// on.
    pub fn exit_code(&self) -> (r: Option<i32>)
        ensures
            r is Some <==> exit_status(self@) is Some,
            r matches Some(code) ==> exit_status(self@) == Some(code as int),
    {
        match self {
            Step::Reject { .. } => Some(1),
            Step::Fail { .. } => Some(1),
            Step::RemoveStoredSession { .. } => Some(0),
            Step::Finish => Some(0),
            _ => None,
        }
    }
}

/// A run ends with status 0 or 1, and with 1 exactly where a message or a
/// line tells why.
pub proof fn law_exit_status(step: StepModel)
    ensures
        exit_status(step) is Some ==> exit_status(step) == Some(0int) || exit_status(step) == Some(
            1int,
        ),
        exit_status(step) == Some(1int) <==> step is Reject || step is Fail,
{
}

/// A quiet run leaves no command that would ask the user, and a run that is
/// not quiet leaves every command as it is.
pub proof fn law_quiet(command: Command)
    ensures
        quieted(command, false) == command,
        quieted(command, true) matches Command::Archive { yes } ==> yes,
        quieted(command, true) matches Command::Download { yes, .. } ==> yes,
        quieted(quieted(command, true), true) == quieted(command, true),
{
}

} // verus!
