//! How the outcome of a run is answered to the requester.
use vstd::prelude::*;
use vstd::string::*;

use crate::output::ScriptOutput;
use crate::runner::{run_error_text, RunError};

verus! {

pub const SCRIPT_FAILURE_PREFIX: &'static str = "Failed to execute script: ";

pub const CLI_FAILURE_PREFIX: &'static str = "CLI execution failed: ";

/// A run that exited with status 0 answers `Ok` with its report, one that
/// exited otherwise answers `Err` with its report, and one that could not
/// run answers `Err` with `prefix` and the error's message.
pub open spec fn reply_of(outcome: Result<ScriptOutput, RunError>, prefix: Seq<char>) -> Result<
    Seq<char>,
    Seq<char>,
> {
    match outcome {
        Ok(o) => if o.success {
            Ok(o.text())
        } else {
            Err(o.text())
        },
        Err(e) => Err(prefix + run_error_text(e)),
    }
}

pub open spec fn reply_view(r: Result<String, String>) -> Result<Seq<char>, Seq<char>> {
    match r {
        Ok(s) => Ok(s@),
        Err(s) => Err(s@),
    }
}

fn reply_with_prefix(outcome: &Result<ScriptOutput, RunError>, prefix: &str) -> (r: Result<
    String,
    String,
>)
    ensures
        reply_view(r) == reply_of(*outcome, prefix@),
{
    match outcome {
        Ok(o) => {
            let text = o.result_text();
            if o.success {
                Ok(text)
            } else {
                Err(text)
            }
        },
        Err(e) => {
            let mut m = prefix.to_owned();
            let detail = e.message();
            m.append(detail.as_str());
            Err(m)
        },
    }
}

/// The answer to a script run.
pub fn script_reply(outcome: &Result<ScriptOutput, RunError>) -> (r: Result<String, String>)
    ensures
        reply_view(r) == reply_of(*outcome, SCRIPT_FAILURE_PREFIX@),
{
    reply_with_prefix(outcome, SCRIPT_FAILURE_PREFIX)
}

/// The answer to a run with raw command-line arguments.
pub fn cli_reply(outcome: &Result<ScriptOutput, RunError>) -> (r: Result<String, String>)
    ensures
        reply_view(r) == reply_of(*outcome, CLI_FAILURE_PREFIX@),
{
    reply_with_prefix(outcome, CLI_FAILURE_PREFIX)
}

} // verus!
