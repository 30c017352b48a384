//! What a run of the editor printed, and the single text it is reported as.
use vstd::prelude::*;
use vstd::string::*;

use crate::text::{trim, trimmed};

verus! {

pub const SUCCESS_MESSAGE: &'static str = "Operation completed successfully.";

pub const ERROR_PREFIX: &'static str = "Error: ";

pub const UNKNOWN_ERROR: &'static str = "Unknown error occurred";

/// Output from an editor command line or script run.
#[derive(Debug)]
pub struct ScriptOutput {
    pub stdout: String,
    pub stderr: String,
    /// Whether the process exited with status 0.
    pub success: bool,
}

/// The report for a run: trimmed standard output on success, or a fixed
/// message where there was none; on failure an `Error: ` line that carries
/// trimmed standard error, else trimmed standard output, else a fixed message.
pub open spec fn result_text_of(stdout: Seq<char>, stderr: Seq<char>, success: bool) -> Seq<
    char,
> {
    if success {
        if trimmed(stdout).len() == 0 {
            SUCCESS_MESSAGE@
        } else {
            trimmed(stdout)
        }
    } else {
        ERROR_PREFIX@ + if trimmed(stderr).len() > 0 {
            trimmed(stderr)
        } else if trimmed(stdout).len() > 0 {
            trimmed(stdout)
        } else {
            UNKNOWN_ERROR@
        }
    }
}

impl ScriptOutput {
    pub open spec fn text(&self) -> Seq<char> {
        result_text_of(self.stdout@, self.stderr@, self.success)
    }

    /// Returns a user-friendly result string.
    pub fn result_text(&self) -> (r: String)
        ensures
            r@ == self.text(),
    {
        let out = trim(self.stdout.as_str());
        if self.success {
            if out.is_empty() {
                String::from_str(SUCCESS_MESSAGE)
            } else {
                out.to_owned()
            }
        } else {
            let err = trim(self.stderr.as_str());
            let msg = if !err.is_empty() {
                err
            } else if !out.is_empty() {
                out
            } else {
                UNKNOWN_ERROR
            };
            let mut r = String::from_str(ERROR_PREFIX);
            r.append(msg);
            r
        }
    }
}

} // verus!
