//! What the command line of the program can say.

use vstd::prelude::*;

verus! {

/// What the program is asked to do.
#[derive(Debug, Clone, Copy, PartialEq, Eq, Structural)]
pub enum Action {
    /// Fetch the list of problems.
    Update,
    /// Run the terminal interface.
    Run,
}

/// The arguments of `Action::Run`: there are none.
#[derive(Debug, Clone, Copy, PartialEq, Eq, Structural)]
pub struct Run {}

/// The arguments of the program.
#[derive(Debug, PartialEq, Eq)]
pub struct AppArgs {
    pub sub: Action,
    /// Path to a file with settings.
    pub settings: Option<String>,
    /// Unicode is used unless this is set.
    pub disable_unicode: bool,
    /// Path to the file with all problems; it can be a web link.
    pub db_path: Option<String>,
    pub solution_path: Option<String>,
    pub compilation_step: Option<String>,
    pub run_step: Option<String>,
}

} // verus!
