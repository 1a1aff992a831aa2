//! What a finished shell command amounts to. The command itself runs outside
//! the library, through the host's command interpreter; its exit code and
//! captured output come back here to be judged.
use crate::text::{format_i64, signed_decimal};
use vstd::prelude::*;

verus! {

/// Exit code reported when the process gave none (it was ended by a signal).
pub const NO_EXIT_CODE: i32 = -1;

/// The message that reports a failed command, before its exit code.
pub const FAILURE_PREFIX: &'static str = "Command failed with exit code: ";

/// A command that ran and exited with status zero.
#[derive(Clone, Debug)]
pub struct ExecutionOutcome {
    pub captured_stdout: String,
    pub exit_status: i32,
    pub succeeded: bool,
}

/// Why a command produced no outcome.
#[derive(Clone, Debug)]
pub enum ExecutionError {
    /// The interpreter could not be started; its message.
    Spawn(String),
    /// The command exited with a non-zero code.
    Failed(i32),
    /// The command succeeded but its output is not UTF-8.
    InvalidOutput,
}

/// The exit code to report for a process that gave `code`.
pub open spec fn reported_code(code: Option<i32>) -> i32 {
    match code {
        Some(c) => c,
        None => NO_EXIT_CODE,
    }
}

/// Judges a finished command from its exit code (`None` when a signal ended
/// it) and its standard output (`None` when that is not UTF-8).
pub fn outcome_of(stdout: Option<String>, code: Option<i32>) -> (r: Result<
    ExecutionOutcome,
    ExecutionError,
>)
    ensures
        code == Some(0i32) && stdout is Some ==> (r matches Ok(o) && o.succeeded && o.exit_status
            == 0 && o.captured_stdout == stdout.unwrap()),
        code == Some(0i32) && stdout is None ==> r matches Err(ExecutionError::InvalidOutput),
        code != Some(0i32) ==> (r matches Err(ExecutionError::Failed(c)) && c == reported_code(
            code,
        )),
{
    match code {
        Some(0i32) => match stdout {
            Some(out) => Ok(ExecutionOutcome { captured_stdout: out, exit_status: 0, succeeded: true }),
            None => Err(ExecutionError::InvalidOutput),
        },
        Some(c) => Err(ExecutionError::Failed(c)),
        None => Err(ExecutionError::Failed(NO_EXIT_CODE)),
    }
}

/// The message for a command that exited with `code`.
pub fn failure_message(code: i32) -> (r: String)
    ensures
        r@ == FAILURE_PREFIX@ + signed_decimal(code as int),
{
    String::from_str(FAILURE_PREFIX).concat(format_i64(code as i64).as_str())
}

impl ExecutionError {
    /// Whether this failure calls for an explanation from the model: only a
    /// command that ran and exited non-zero does.
    pub fn wants_explanation(&self) -> (r: bool)
        ensures
            r == (self is Failed),
    {
        match self {
            ExecutionError::Failed(_) => true,
            _ => false,
        }
    }
}

} // verus!
