use vstd::prelude::*;

pub mod cli;
pub mod pattern;
pub mod rules;
pub mod shell;
pub mod text;
pub mod utils;

verus! {

/// The argument that separates the command to fix from the program's own
/// arguments.
pub const ARGUMENT_PLACEHOLDER: &'static str = "OHCRAB_ARGUMENT_PLACEHOLDER";

/// The environment variable that holds the last command.
pub const ENV_VAR_NAME_HISTORY: &'static str = "OHCRAB_COMMAND_HISTORY";

/// The environment variable that holds the alias name.
pub const ENV_VAR_NAME_ALIAS: &'static str = "OHCRAB_ALIAS";

/// The environment variable that holds the shell name.
pub const ENV_VAR_NAME_SHELL: &'static str = "OHCRAB_SHELL";

} // verus!
