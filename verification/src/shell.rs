//! Interpreting the outcome of a shell command: which stream to report and
//! whether the run counts as a failure. Spawning the command and collecting
//! its output stay with the caller.

use vstd::prelude::*;

use crate::strings::{trim, trim_of};

verus! {

/// Describes when a shell command has failed with a non-zero exit code.
#[derive(Debug)]
pub struct ShellError {
    /// Exit code.
    pub code: i32,
    /// Output from the command.
    pub output: String,
}

/// The exit code reported for a command: the code the process gave, or zero
/// when it ended without one.
pub open spec fn code_or_zero(code: Option<i32>) -> i32 {
    match code {
        Some(c) => c,
        None => 0,
    }
}

/// The text reported for a command: standard output on success, standard
/// error on failure, trimmed of surrounding whitespace either way
/// (the `char::is_whitespace` set, see [`crate::strings::is_space`]).
pub open spec fn report_of(success: bool, stdout: Seq<char>, stderr: Seq<char>) -> Seq<char> {
    if success {
        trim_of(stdout)
    } else {
        trim_of(stderr)
    }
}

/// Turns the raw outcome of a shell command into the command's result:
/// the trimmed standard output on success, a [`ShellError`] carrying the
/// exit code and the trimmed standard error on failure.
pub fn sh_outcome(success: bool, code: Option<i32>, stdout: &str, stderr: &str) -> (r: Result<
    String,
    ShellError,
>)
    ensures
        r is Ok <==> success,
        r matches Ok(out) ==> out@ == report_of(true, stdout@, stderr@),
        r matches Err(e) ==> e.output@ == report_of(false, stdout@, stderr@) && e.code
            == code_or_zero(code),
{
    let text = if success {
        trim(stdout)
    } else {
        trim(stderr)
    };
    if success {
        Ok(text)
    } else {
        let c = match code {
            Some(c) => c,
            None => 0,
        };
        Err(ShellError { code: c, output: text })
    }
}

} // verus!
