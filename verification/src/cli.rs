//! What the user asked for on the command line.

use crate::proxy::ProxySpec;
use crate::session::LoginMethod;
use vstd::prelude::*;

verus! {

/// How much the program says. The two flags exclude each other.
#[derive(Clone, Copy, Debug, PartialEq, Eq, Structural)]
pub struct Verbosity {
    pub verbose: bool,
    pub quiet: bool,
}

/// The command to run, with what the steps around it read of it.
#[derive(Clone, Debug, PartialEq, Eq)]
pub enum Command {
    /// Archive a series. `yes` answers every question with yes.
    Archive { yes: bool },
    /// Download an episode. `yes` answers every question with yes; `audio`
    /// is the code of the language the audio is wanted in.
    Download { yes: bool, audio: String },
    /// Store a session. With `remove` the stored session is deleted instead.
    Login { remove: bool },
    /// Search the catalogue.
    Search,
}

/// The configuration of one run.
#[derive(Clone, Debug, PartialEq, Eq)]
pub struct Cli {
    pub verbosity: Verbosity,
    /// The code of the language in which results are wanted; by default
    /// that of the system.
    pub lang: Option<String>,
    /// Switches on fixes that are still experimental.
    pub experimental_fixes: bool,
    pub login_method: LoginMethod,
    /// The proxies of the two traffic classes.
    pub proxy: Option<ProxySpec>,
    pub user_agent: Option<String>,
    /// The most bytes per second that each traffic class may move.
    pub speed_limit: Option<u32>,
    pub command: Command,
}

} // verus!
