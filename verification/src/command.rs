//! The command the host runs once a resolution is over.

use vstd::prelude::*;
use crate::error::ResolveError;

verus! {

/// How the language server is launched.
#[derive(Clone, Debug, PartialEq, Eq)]
pub struct LaunchCommand {
    /// The binary to run.
    pub command: String,
    /// Its arguments.
    pub args: Vec<String>,
    /// Variables added to the environment it inherits.
    pub env: Vec<(String, String)>,
}

/// Turns the end of a resolution into what the host is told: the binary
/// with no arguments and nothing added to its environment, or the text of
/// the failure.
pub fn language_server_command(resolved: Result<String, ResolveError>) -> (r: Result<
    LaunchCommand,
    String,
>)
    ensures
        match r {
            Ok(launch) => {
                &&& resolved is Ok
                &&& launch.command@ == resolved->Ok_0@
                &&& launch.args@.len() == 0
                &&& launch.env@.len() == 0
            },
            Err(text) => resolved is Err && text@ == resolved->Err_0@.message(),
        },
{
    match resolved {
        Ok(path) => Ok(LaunchCommand { command: path, args: Vec::new(), env: Vec::new() }),
        Err(error) => Err(error.message()),
    }
}

} // verus!
