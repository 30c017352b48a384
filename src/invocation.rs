//! One run of the editor, from writing its script to removing it.
//!
//! The stages go `Writing -> Spawning -> Running`, then either
//! `Collecting` (the process exited in time) or `Killing` (the timeout came
//! first), then `CleaningUp` where a temporary script was written, then
//! `Done`. The only suspension points belong to the driver: it performs
//! `next_action` and hands the outcome back to `step`.
use vstd::prelude::*;

use crate::output::ScriptOutput;
use crate::script_values::opt_text;
use crate::runner::{
    cli_args_of, script_args_of, script_path_of, AsepriteRunner, RunError, ScriptFile,
    PROCESS_TIMEOUT_SECS, BATCH_FLAG, SCRIPT_FLAG,
};

verus! {

#[derive(Debug)]
pub enum Stage {
    Writing,
    Spawning,
    Running,
    Killing,
    Collecting { success: bool },
    CleaningUp { result: Result<ScriptOutput, RunError> },
    Done { result: Result<ScriptOutput, RunError> },
}

/// What the driver observed after performing an action.
#[derive(Debug)]
pub enum Event {
    Written,
    WriteFailed(String),
    Spawned,
    SpawnFailed(String),
    /// The process exited before the timeout; `success` is whether its
    /// status code was 0.
    Exited { success: bool },
    WaitFailed(String),
    /// The timeout elapsed before the process exited.
    Elapsed,
    /// The kill was attempted; its own outcome does not matter.
    Killed,
    OutputRead { stdout: String, stderr: String },
    /// Removing the temporary script was attempted; a failure there is only
    /// worth a warning.
    Removed,
}

/// What the driver is to do next.
#[derive(Debug)]
pub enum Action {
    WriteScript { path: String, contents: String },
    /// Start the program, with standard output and error piped.
    Spawn { program: String, args: Vec<String> },
    /// Wait for the process to exit, for at most `timeout_secs` seconds.
    AwaitExit { timeout_secs: u64 },
    Kill,
    /// Read standard output and error to their end.
    ReadOutput,
    RemoveScript { path: String },
    Finish,
}

pub ghost struct InvocationView {
    pub program: Seq<char>,
    pub args: Seq<Seq<char>>,
    /// Path and contents of the temporary script, if the run has one.
    pub script: Option<(Seq<char>, Seq<char>)>,
    pub stage: Stage,
}

pub open spec fn finish_stage(has_script: bool, result: Result<ScriptOutput, RunError>) -> Stage {
    if has_script {
        Stage::CleaningUp { result }
    } else {
        Stage::Done { result }
    }
}

/// The transition table. An event that does not belong to the stage leaves
/// it as it is.
pub open spec fn next_stage(stage: Stage, ev: Event, has_script: bool) -> Stage {
    match stage {
        Stage::Writing => match ev {
            Event::Written => Stage::Spawning,
            Event::WriteFailed(m) => finish_stage(has_script, Err(RunError::WriteFailed(m))),
            _ => stage,
        },
        Stage::Spawning => match ev {
            Event::Spawned => Stage::Running,
            Event::SpawnFailed(m) => finish_stage(has_script, Err(RunError::SpawnFailed(m))),
            _ => stage,
        },
        Stage::Running => match ev {
            Event::Exited { success } => Stage::Collecting { success },
            Event::WaitFailed(m) => finish_stage(has_script, Err(RunError::WaitFailed(m))),
            Event::Elapsed => Stage::Killing,
            _ => stage,
        },
        Stage::Killing => match ev {
            Event::Killed => finish_stage(has_script, Err(RunError::TimedOut)),
            _ => stage,
        },
        Stage::Collecting { success } => match ev {
            Event::OutputRead { stdout, stderr } => finish_stage(
                has_script,
                Ok(ScriptOutput { stdout, stderr, success }),
            ),
            _ => stage,
        },
        Stage::CleaningUp { result } => match ev {
            Event::Removed => Stage::Done { result },
            _ => stage,
        },
        Stage::Done { .. } => stage,
    }
}

impl InvocationView {
    pub open spec fn next(self, ev: Event) -> InvocationView {
        InvocationView { stage: next_stage(self.stage, ev, self.script is Some), ..self }
    }

    /// The state after the events `evs`, in order.
    pub open spec fn run(self, evs: Seq<Event>) -> InvocationView
        decreases evs.len(),
    {
        if evs.len() == 0 {
            self
        } else {
            self.next(evs[0]).run(evs.drop_first())
        }
    }

    /// `a` is the action that this state asks for.
    pub open spec fn asks(self, a: Action) -> bool {
        match self.stage {
            Stage::Writing => a matches Action::WriteScript { path, contents } && self.script
                == Some((path@, contents@)),
            Stage::Spawning => a matches Action::Spawn { program, args } && program@
                == self.program && args.deep_view() == self.args,
            Stage::Running => a == (Action::AwaitExit { timeout_secs: PROCESS_TIMEOUT_SECS }),
            Stage::Killing => a is Kill,
            Stage::Collecting { .. } => a is ReadOutput,
            Stage::CleaningUp { .. } => a matches Action::RemoveScript { path } && self.script
                matches Some((p, _)) && path@ == p,
            Stage::Done { .. } => a is Finish,
        }
    }
}

/// One run of the editor.
#[derive(Debug)]
pub struct Invocation {
    program: String,
    args: Vec<String>,
    script: Option<ScriptFile>,
    stage: Stage,
}

impl View for Invocation {
    type V = InvocationView;

    closed spec fn view(&self) -> InvocationView {
        InvocationView {
            program: self.program@,
            args: self.args.deep_view(),
            script: match self.script {
                Some(f) => Some((f.path@, f.contents@)),
                None => None,
            },
            stage: self.stage,
        }
    }
}

fn clone_strings(v: &Vec<String>) -> (r: Vec<String>)
    ensures
        r.deep_view() == v.deep_view(),
{
    let mut r: Vec<String> = Vec::new();
    let mut i: usize = 0;
    while i < v.len()
        invariant
            i <= v.len(),
            r@.len() == i,
            forall|j: int| 0 <= j < i ==> #[trigger] r@[j]@ == v@[j]@,
        decreases v.len() - i,
    {
        r.push(v[i].clone());
        i = i + 1;
    }
    assert(r.deep_view() =~= v.deep_view());
    r
}

impl Invocation {
    #[verifier::type_invariant]
    spec fn well_formed(&self) -> bool {
        &&& self.stage is Writing ==> self.script is Some
        &&& self.stage is CleaningUp ==> self.script is Some
    }

    /// A run of `lua_code`, written to a fresh temporary script named by
    /// `ts` and `count`, after opening `file_path` where one is given.
    pub fn script(
        runner: &AsepriteRunner,
        file_path: Option<&str>,
        lua_code: &str,
        ts: u128,
        count: u64,
    ) -> (r: Invocation)
        ensures
            r@.stage is Writing,
            r@.program == runner@.exe_path,
            r@.script == Some((script_path_of(runner@.temp_dir, ts as nat, count as nat), lua_code@)),
            r@.args == script_args_of(
                opt_text(file_path),
                script_path_of(runner@.temp_dir, ts as nat, count as nat),
            ),
    {
        let path = runner.temp_script_path(ts, count);
        let mut args: Vec<String> = Vec::new();
        args.push(String::from_str(BATCH_FLAG));
        match file_path {
            Some(f) => args.push(f.to_owned()),
            None => {},
        }
        args.push(String::from_str(SCRIPT_FLAG));
        args.push(path.clone());
        let r = Invocation {
            program: runner.exe_path().to_owned(),
            args,
            script: Some(ScriptFile { path, contents: lua_code.to_owned() }),
            stage: Stage::Writing,
        };
        assert(r@.args =~= script_args_of(
            opt_text(file_path),
            script_path_of(runner@.temp_dir, ts as nat, count as nat),
        ));
        r
    }

    /// A run with raw command-line arguments: no script, batch mode.
    pub fn cli(runner: &AsepriteRunner, args: &Vec<String>) -> (r: Invocation)
        ensures
            r@.stage is Spawning,
            r@.program == runner@.exe_path,
            r@.script is None,
            r@.args == cli_args_of(args.deep_view()),
    {
        let mut all: Vec<String> = Vec::new();
        all.push(String::from_str(BATCH_FLAG));
        let mut i: usize = 0;
        while i < args.len()
            invariant
                i <= args.len(),
                all@.len() == i + 1,
                all@[0]@ == BATCH_FLAG@,
                forall|j: int| 0 <= j < i ==> #[trigger] all@[j + 1]@ == args@[j]@,
            decreases args.len() - i,
        {
            all.push(args[i].clone());
            i = i + 1;
        }
        assert forall|j: int| 0 <= j < all@.len() implies #[trigger] all.deep_view()[j]
            == cli_args_of(args.deep_view())[j] by {
            if j > 0 {
                assert(all@[(j - 1) + 1]@ == args@[j - 1]@);
            }
        }
        assert(all.deep_view() =~= cli_args_of(args.deep_view()));
        Invocation {
            program: runner.exe_path().to_owned(),
            args: all,
            script: None,
            stage: Stage::Spawning,
        }
    }

    /// The current stage.
    pub fn stage(&self) -> (r: &Stage)
        ensures
            *r == self@.stage,
    {
        &self.stage
    }

    /// Whether the invocation has its outcome.
    pub fn is_done(&self) -> (r: bool)
        ensures
            r == self@.stage is Done,
    {
        match self.stage {
            Stage::Done { .. } => true,
            _ => false,
        }
    }

    /// The action this invocation waits on.
    pub fn next_action(&self) -> (r: Action)
        ensures
            self@.asks(r),
    {
        proof {
            use_type_invariant(self);
        }
        match &self.stage {
            Stage::Writing => match &self.script {
                Some(f) => Action::WriteScript { path: f.path.clone(), contents: f.contents.clone() },
                None => Action::Finish,
            },
            Stage::Spawning => Action::Spawn {
                program: self.program.clone(),
                args: clone_strings(&self.args),
            },
            Stage::Running => Action::AwaitExit { timeout_secs: PROCESS_TIMEOUT_SECS },
            Stage::Killing => Action::Kill,
            Stage::Collecting { .. } => Action::ReadOutput,
            Stage::CleaningUp { .. } => match &self.script {
                Some(f) => Action::RemoveScript { path: f.path.clone() },
                None => Action::Finish,
            },
            Stage::Done { .. } => Action::Finish,
        }
    }

    /// The invocation after the driver observed `ev`.
    pub fn step(self, ev: Event) -> (r: Invocation)
        ensures
            r@ == self@.next(ev),
    {
        proof {
            use_type_invariant(&self);
        }
        let has_script = self.script.is_some();
        let stage = match self.stage {
            Stage::Writing => match ev {
                Event::Written => Stage::Spawning,
                Event::WriteFailed(m) => finish(has_script, Err(RunError::WriteFailed(m))),
                _ => Stage::Writing,
            },
            Stage::Spawning => match ev {
                Event::Spawned => Stage::Running,
                Event::SpawnFailed(m) => finish(has_script, Err(RunError::SpawnFailed(m))),
                _ => Stage::Spawning,
            },
            Stage::Running => match ev {
                Event::Exited { success } => Stage::Collecting { success },
                Event::WaitFailed(m) => finish(has_script, Err(RunError::WaitFailed(m))),
                Event::Elapsed => Stage::Killing,
                _ => Stage::Running,
            },
            Stage::Killing => match ev {
                Event::Killed => finish(has_script, Err(RunError::TimedOut)),
                _ => Stage::Killing,
            },
            Stage::Collecting { success } => match ev {
                Event::OutputRead { stdout, stderr } => finish(
                    has_script,
                    Ok(ScriptOutput { stdout, stderr, success }),
                ),
                _ => Stage::Collecting { success },
            },
            Stage::CleaningUp { result } => match ev {
                Event::Removed => Stage::Done { result },
                _ => Stage::CleaningUp { result },
            },
            Stage::Done { result } => Stage::Done { result },
        };
        Invocation { program: self.program, args: self.args, script: self.script, stage }
    }

    /// The outcome, once the invocation is done.
    pub fn into_result(self) -> (r: Option<Result<ScriptOutput, RunError>>)
        ensures
            r is Some <==> self@.stage is Done,
            r matches Some(res) ==> self@.stage == (Stage::Done { result: res }),
    {
        match self.stage {
            Stage::Done { result } => Some(result),
            _ => None,
        }
    }
}

fn finish(has_script: bool, result: Result<ScriptOutput, RunError>) -> (r: Stage)
    ensures
        r == finish_stage(has_script, result),
{
    if has_script {
        Stage::CleaningUp { result }
    } else {
        Stage::Done { result }
    }
}

/// When the timeout elapses while the process runs, the invocation asks for
/// the process to be killed, and for nothing else until the kill was
/// attempted; it then reports a timeout, and its output is never read.
pub proof fn lemma_timeout_kills_and_reports(v: InvocationView)
    requires
        v.stage is Running,
    ensures
        v.next(Event::Elapsed).stage is Killing,
        forall|a: Action| #[trigger] v.next(Event::Elapsed).asks(a) <==> a is Kill,
        forall|ev: Event| !(ev is Killed) ==> #[trigger] v.next(Event::Elapsed).next(ev) == v.next(
            Event::Elapsed,
        ),
        v.next(Event::Elapsed).next(Event::Killed).stage == finish_stage(
            v.script is Some,
            Err(RunError::TimedOut),
        ),
{
}

/// The outcome of a process that exited in time carries its standard output
/// and error as read, and is marked successful exactly when the exit status
/// was 0.
pub proof fn lemma_outcome_follows_exit_status(
    v: InvocationView,
    success: bool,
    stdout: String,
    stderr: String,
)
    requires
        v.stage == (Stage::Collecting { success }),
    ensures
        v.next(Event::OutputRead { stdout, stderr }).stage == finish_stage(
            v.script is Some,
            Ok(ScriptOutput { stdout, stderr, success }),
        ),
{
}

/// An invocation with a temporary script becomes done only from the
/// clean-up stage, whose action removes that script.
pub proof fn lemma_done_only_after_cleanup(v: InvocationView, ev: Event)
    requires
        v.script is Some,
        v.stage !is Done,
        v.next(ev).stage is Done,
    ensures
        v.stage is CleaningUp,
        ev is Removed,
{
}

/// Whatever path an invocation with a temporary script takes (success,
/// failure, or timeout), by the time it is done it has passed the clean-up
/// stage and the removal of its script has been attempted.
pub proof fn lemma_script_removed_on_every_path(v: InvocationView, evs: Seq<Event>)
    requires
        v.script is Some,
        v.stage !is Done,
        v.run(evs).stage is Done,
    ensures
        exists|i: int|
            0 <= i < evs.len() && (#[trigger] v.run(evs.take(i))).stage is CleaningUp
                && evs[i] is Removed,
    decreases evs.len(),
{
    if evs.len() == 0 {
        assert(v.run(evs) == v);
    } else {
        let w = v.next(evs[0]);
        assert(evs.take(0) =~= Seq::<Event>::empty());
        assert(v.run(evs.take(0)) == v);
        if w.stage is Done {
            lemma_done_only_after_cleanup(v, evs[0]);
        } else {
            lemma_script_removed_on_every_path(w, evs.drop_first());
            let i = choose|i: int|
                0 <= i < evs.drop_first().len() && (#[trigger] w.run(
                    evs.drop_first().take(i),
                )).stage is CleaningUp && evs.drop_first()[i] is Removed;
            let pre = evs.take(i + 1);
            assert(pre[0] == evs[0]);
            assert(pre.drop_first() =~= evs.drop_first().take(i));
            assert(v.run(pre) == w.run(evs.drop_first().take(i)));
            assert(evs[i + 1] == evs.drop_first()[i]);
        }
    }
}

/// Within one invocation the script is written before the process is
/// spawned, and the process is spawned before its exit is awaited: the
/// spawning stage is entered only once the script was written (or from the
/// start, for a run without a script), and the running stage only once the
/// process was spawned.
pub proof fn lemma_write_spawn_wait_order(v: InvocationView, ev: Event)
    ensures
        v.next(ev).stage is Spawning && v.stage !is Spawning ==> v.stage is Writing
            && ev is Written,
        v.next(ev).stage is Running && v.stage !is Running ==> v.stage is Spawning
            && ev is Spawned,
{
}

} // verus!
