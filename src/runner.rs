//! The editor runner: its configuration, temporary script names, command
//! lines, and the life of one invocation as a state machine. Whoever drives
//! an invocation performs the action it asks for and hands back what happened.
use vstd::prelude::*;
use vstd::string::*;

use crate::decimal::{
    decimal, decimal_text, is_decimal_digit, lemma_decimal_text_digits,
    lemma_decimal_text_injective,
};
use crate::text::push_char;

verus! {

/// How long a child process may run before it is killed, in seconds.
pub const PROCESS_TIMEOUT_SECS: u64 = 60;

pub const BATCH_FLAG: &'static str = "--batch";

pub const SCRIPT_FLAG: &'static str = "--script";

pub const SCRIPT_NAME_PREFIX: &'static str = "mcp_";

pub const SCRIPT_NAME_SUFFIX: &'static str = ".lua";

/// The name of the temporary script made at time `ts` (nanoseconds) as the
/// `count`-th of this process.
pub open spec fn script_name_of(ts: nat, count: nat) -> Seq<char> {
    SCRIPT_NAME_PREFIX@ + decimal_text(ts) + seq!['_'] + decimal_text(count) + SCRIPT_NAME_SUFFIX@
}

pub open spec fn script_path_of(dir: Seq<char>, ts: nat, count: nat) -> Seq<char> {
    dir + seq!['/'] + script_name_of(ts, count)
}

/// Arguments that run the script at `path` in batch mode, after opening
/// `file` where one is given.
pub open spec fn script_args_of(file: Option<Seq<char>>, path: Seq<char>) -> Seq<Seq<char>> {
    match file {
        Some(f) => seq![BATCH_FLAG@, f, SCRIPT_FLAG@, path],
        None => seq![BATCH_FLAG@, SCRIPT_FLAG@, path],
    }
}

/// Arguments that pass `args` through in batch mode.
pub open spec fn cli_args_of(args: Seq<Seq<char>>) -> Seq<Seq<char>> {
    seq![BATCH_FLAG@] + args
}

pub ghost struct RunnerView {
    pub exe_path: Seq<char>,
    pub temp_dir: Seq<char>,
}

/// Configuration for running the editor: where its executable is, and the
/// directory that holds temporary scripts.
#[derive(Debug)]
pub struct AsepriteRunner {
    exe_path: String,
    temp_dir: String,
}

impl View for AsepriteRunner {
    type V = RunnerView;

    closed spec fn view(&self) -> RunnerView {
        RunnerView { exe_path: self.exe_path@, temp_dir: self.temp_dir@ }
    }
}

/// A script to be written to a temporary file before the run.
#[derive(Debug)]
pub struct ScriptFile {
    pub path: String,
    pub contents: String,
}

/// Why a run gave no output.
#[derive(Debug)]
pub enum RunError {
    /// The temporary script could not be written.
    WriteFailed(String),
    /// The process could not be started.
    SpawnFailed(String),
    /// Waiting for the process failed.
    WaitFailed(String),
    /// The process outlived the timeout and was killed.
    TimedOut,
}

pub const WRITE_FAILED_MESSAGE: &'static str = "Failed to write temporary Lua script";

pub const SPAWN_FAILED_MESSAGE: &'static str = "Failed to spawn Aseprite process";

pub const WAIT_FAILED_MESSAGE: &'static str = "Failed to wait for Aseprite process";

pub const TIMEOUT_MESSAGE_OPEN: &'static str = "Aseprite process timed out after ";

pub const TIMEOUT_MESSAGE_CLOSE: &'static str =
    " seconds. The operation may be too complex or Aseprite may be unresponsive.";

pub open spec fn run_error_text(e: RunError) -> Seq<char> {
    match e {
        RunError::WriteFailed(_) => WRITE_FAILED_MESSAGE@,
        RunError::SpawnFailed(_) => SPAWN_FAILED_MESSAGE@,
        RunError::WaitFailed(_) => WAIT_FAILED_MESSAGE@,
        RunError::TimedOut => TIMEOUT_MESSAGE_OPEN@ + decimal_text(PROCESS_TIMEOUT_SECS as nat)
            + TIMEOUT_MESSAGE_CLOSE@,
    }
}

impl RunError {
    /// The message reported for this error; the underlying cause, where
    /// there is one, is kept in the variant and not repeated here.
    pub fn message(&self) -> (r: String)
        ensures
            r@ == run_error_text(*self),
    {
        match self {
            RunError::WriteFailed(_) => String::from_str(WRITE_FAILED_MESSAGE),
            RunError::SpawnFailed(_) => String::from_str(SPAWN_FAILED_MESSAGE),
            RunError::WaitFailed(_) => String::from_str(WAIT_FAILED_MESSAGE),
            RunError::TimedOut => {
                let mut m = String::from_str(TIMEOUT_MESSAGE_OPEN);
                let secs = decimal(PROCESS_TIMEOUT_SECS as u128);
                m.append(secs.as_str());
                m.append(TIMEOUT_MESSAGE_CLOSE);
                m
            },
        }
    }
}

impl AsepriteRunner {
    /// The configuration for an executable and a temporary directory.
    pub fn new(exe_path: String, temp_dir: String) -> (r: Self)
        ensures
            r@ == (RunnerView { exe_path: exe_path@, temp_dir: temp_dir@ }),
    {
        AsepriteRunner { exe_path, temp_dir }
    }

    /// Where the executable is.
    pub fn exe_path(&self) -> (r: &str)
        ensures
            r@ == self@.exe_path,
    {
        self.exe_path.as_str()
    }

    /// The directory that holds temporary scripts.
    pub fn temp_dir(&self) -> (r: &str)
        ensures
            r@ == self@.temp_dir,
    {
        self.temp_dir.as_str()
    }

    /// The path of a temporary script: in the temporary directory, named by
    /// the time `ts` in nanoseconds and the process-wide call number `count`.
    pub fn temp_script_path(&self, ts: u128, count: u64) -> (r: String)
        ensures
            r@ == script_path_of(self@.temp_dir, ts as nat, count as nat),
    {
        let mut r = self.temp_dir.clone();
        push_char(&mut r, '/');
        r.append(SCRIPT_NAME_PREFIX);
        let t = decimal(ts);
        r.append(t.as_str());
        push_char(&mut r, '_');
        let c = decimal(count as u128);
        r.append(c.as_str());
        r.append(SCRIPT_NAME_SUFFIX);
        assert(r@ =~= script_path_of(self@.temp_dir, ts as nat, count as nat));
        r
    }
}

/// Temporary script paths in one directory that differ in their call number
/// differ, whatever their time stamps: names stay unique when the clock is
/// too coarse to tell calls apart.
pub proof fn lemma_script_paths_distinct(dir: Seq<char>, ts1: nat, count1: nat, ts2: nat, count2: nat)
    requires
        count1 != count2,
    ensures
        script_path_of(dir, ts1, count1) != script_path_of(dir, ts2, count2),
{
    if script_path_of(dir, ts1, count1) == script_path_of(dir, ts2, count2) {
        lemma_script_tail_determines_count(dir, ts1, count1, ts2, count2);
    }
}

/// `N` temporary script paths in one directory, the `i`-th made at time
/// `ts[i]` with call number `counts[i]`, are pairwise distinct whenever the
/// call numbers are: a single counter that gives every call its own number
/// (as an atomic increment does, whether calls are sequential or concurrent)
/// yields `N` distinct paths, even when all calls read the same time.
pub proof fn lemma_script_paths_all_distinct(dir: Seq<char>, ts: Seq<nat>, counts: Seq<nat>)
    requires
        ts.len() == counts.len(),
        forall|i: int, j: int|
            0 <= i < counts.len() && 0 <= j < counts.len() && i != j ==> counts[i] != counts[j],
    ensures
        forall|i: int, j: int|
            0 <= i < counts.len() && 0 <= j < counts.len() && i != j ==> #[trigger] script_path_of(
                dir,
                ts[i],
                counts[i],
            ) != #[trigger] script_path_of(dir, ts[j], counts[j]),
{
    assert forall|i: int, j: int|
        0 <= i < counts.len() && 0 <= j < counts.len() && i != j implies #[trigger] script_path_of(
        dir,
        ts[i],
        counts[i],
    ) != #[trigger] script_path_of(dir, ts[j], counts[j]) by {
        lemma_script_paths_distinct(dir, ts[i], counts[i], ts[j], counts[j]);
    }
}

proof fn lemma_script_tail_determines_count(
    dir: Seq<char>,
    ts1: nat,
    count1: nat,
    ts2: nat,
    count2: nat,
)
    requires
        script_path_of(dir, ts1, count1) == script_path_of(dir, ts2, count2),
    ensures
        count1 == count2,
{
    reveal_strlit("mcp_");
    reveal_strlit(".lua");
    let p1 = script_path_of(dir, ts1, count1);
    let c1 = decimal_text(count1);
    let c2 = decimal_text(count2);
    lemma_decimal_text_digits(count1);
    lemma_decimal_text_digits(count2);
    let sfx = SCRIPT_NAME_SUFFIX@;
    let n = p1.len();
    let head1 = dir + seq!['/'] + SCRIPT_NAME_PREFIX@ + decimal_text(ts1) + seq!['_'];
    let head2 = dir + seq!['/'] + SCRIPT_NAME_PREFIX@ + decimal_text(ts2) + seq!['_'];
    assert(p1 =~= head1 + c1 + sfx);
    assert(script_path_of(dir, ts2, count2) =~= head2 + c2 + sfx);
    // The character before the count's digits is the separator `_`; no digit is.
    assert(p1[n - sfx.len() - c1.len() - 1] == '_');
    assert(p1[n - sfx.len() - c2.len() - 1] == '_');
    if c1.len() < c2.len() {
        let k = c2.len() - c1.len() - 1;
        assert(p1[n - sfx.len() - c1.len() - 1] == c2[k]);
        assert(is_decimal_digit(c2[k]));
    } else if c2.len() < c1.len() {
        let k = c1.len() - c2.len() - 1;
        assert(p1[n - sfx.len() - c2.len() - 1] == c1[k]);
        assert(is_decimal_digit(c1[k]));
    } else {
        assert(c1 =~= p1.subrange(n - sfx.len() - c1.len(), n - sfx.len()));
        assert(c2 =~= p1.subrange(n - sfx.len() - c2.len(), n - sfx.len()));
        lemma_decimal_text_injective(count1, count2);
    }
}

} // verus!
