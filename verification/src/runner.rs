//! The per-component command runner.
//!
//! One component's commands run strictly in order: the next command is
//! launched only once the previous process has exited. A command that
//! cannot even be launched is fatal to the rest of that component's
//! sequence; a command that launches and exits unsuccessfully is recorded
//! but does not halt the sequence. The runner here makes those decisions;
//! the caller launches the processes it asks for and reports back what
//! happened.

use vstd::prelude::*;

use crate::command::{args_of, parse_command, program_of, CommandLine};

verus! {

/// What one command attempt produced: whether the process could be
/// launched at all, whether its exit status reported success, and its
/// captured output and error bytes.
pub struct ExecutionResult {
    pub launched: bool,
    pub success: bool,
    pub stdout: Vec<u8>,
    pub stderr: Vec<u8>,
}

/// What the caller observed for one launched command: either the launch
/// itself failed (missing executable, bad working directory), or the
/// process ran to completion with an exit status and captured streams.
pub enum CommandEvent {
    LaunchFailed,
    Completed { success: bool, stdout: Vec<u8>, stderr: Vec<u8> },
}

/// The result recorded for an event: a failed launch leaves an
/// unlaunched, unsuccessful result with empty streams; a completed
/// process keeps its status and streams.
pub open spec fn result_matches_event(r: ExecutionResult, e: CommandEvent) -> bool {
    match e {
        CommandEvent::LaunchFailed => {
            &&& !r.launched
            &&& !r.success
            &&& r.stdout@ == Seq::<u8>::empty()
            &&& r.stderr@ == Seq::<u8>::empty()
        },
        CommandEvent::Completed { success, stdout, stderr } => {
            &&& r.launched
            &&& r.success == success
            &&& r.stdout == stdout
            &&& r.stderr == stderr
        },
    }
}

/// Sequencer for one component's command list. `results[i]` is the
/// recorded outcome of `commands[i]`; the next command to launch is
/// always `commands[results.len()]`. `halted` is set by a launch failure
/// and ends the sequence early.
pub struct CommandRunner {
    pub commands: Vec<String>,
    pub workdir: String,
    pub halted: bool,
    pub results: Vec<ExecutionResult>,
}

impl CommandRunner {
    /// The runner's invariant: no more results than commands, every
    /// recorded command was launched except the last one when the runner
    /// has halted — a launch failure halts at once, so an unlaunched
    /// result can only be the final one.
    pub open spec fn wf(self) -> bool {
        &&& self.results@.len() <= self.commands@.len()
        &&& (self.halted ==> self.results@.len() >= 1)
        &&& (forall|i: int|
            0 <= i < self.results@.len() ==> (self.results@[i].launched <==> !(self.halted && i
                == self.results@.len() - 1)))
    }

    /// The sequence is over: it halted early, or every command has a
    /// recorded result.
    pub open spec fn is_done(self) -> bool {
        self.halted || self.results@.len() == self.commands@.len()
    }

    /// A fresh runner for one component's command list, rooted at the
    /// component's own working directory.
    pub fn new(commands: Vec<String>, workdir: String) -> (r: CommandRunner)
        ensures
            r.wf(),
            r.commands == commands,
            r.workdir == workdir,
            !r.halted,
            r.results@.len() == 0,
    {
        CommandRunner { commands, workdir, halted: false, results: Vec::new() }
    }

    /// Whether the sequence is over.
    pub fn done(&self) -> (b: bool)
        ensures
            b == self.is_done(),
    {
        self.halted || self.results.len() == self.commands.len()
    }

    /// The next command to launch, parsed, or `None` when the sequence is
    /// over. The command handed out is always the one right after the
    /// last recorded result: no command is skipped and none is started
    /// before its predecessor's outcome is recorded.
    pub fn next_action(&self) -> (a: Option<CommandLine>)
        requires
            self.wf(),
        ensures
            match a {
                None => self.is_done(),
                Some(c) => {
                    &&& !self.is_done()
                    &&& c.program@ == program_of(self.commands@[self.results@.len() as int]@)
                    &&& c.args@.map_values(|s: String| s@) == args_of(
                        self.commands@[self.results@.len() as int]@,
                    )
                },
            },
    {
        if self.halted || self.results.len() >= self.commands.len() {
            None
        } else {
            let line = parse_command(self.commands[self.results.len()].as_str());
            Some(line)
        }
    }

    /// Records what the caller observed for the command last handed out.
    /// A completed process never halts the sequence, whatever its exit
    /// status; a failed launch halts it, so the remaining commands of
    /// this component are skipped while other components are unaffected.
    pub fn record(&mut self, e: CommandEvent)
        requires
            old(self).wf(),
            !old(self).is_done(),
        ensures
            final(self).wf(),
            final(self).commands == old(self).commands,
            final(self).workdir == old(self).workdir,
            final(self).results@.len() == old(self).results@.len() + 1,
            final(self).results@.subrange(0, old(self).results@.len() as int) =~= old(
                self,
            ).results@,
            result_matches_event(final(self).results@.last(), e),
            final(self).halted <==> e is LaunchFailed,
    {
        match e {
            CommandEvent::LaunchFailed => {
                self.results.push(
                    ExecutionResult {
                        launched: false,
                        success: false,
                        stdout: Vec::new(),
                        stderr: Vec::new(),
                    },
                );
                self.halted = true;
            },
            CommandEvent::Completed { success, stdout, stderr } => {
                self.results.push(
                    ExecutionResult { launched: true, success, stdout, stderr },
                );
            },
        }
    }

    /// Permissive sequencing: when a runner finishes without a launch
    /// failure, every command of the component has a recorded result —
    /// unsuccessful exit statuses never cut the sequence short.
    pub proof fn lemma_no_launch_failure_runs_all(self)
        requires
            self.wf(),
            self.is_done(),
            !self.halted,
        ensures
            self.results@.len() == self.commands@.len(),
            forall|i: int| 0 <= i < self.results@.len() ==> self.results@[i].launched,
    {
    }

    /// Fatal launch failures: a halted runner stopped at its first
    /// unlaunched command — everything before it was launched, and the
    /// commands after it were never attempted.
    pub proof fn lemma_launch_failure_halts(self)
        requires
            self.wf(),
            self.halted,
        ensures
            self.results@.len() >= 1,
            !self.results@.last().launched,
            forall|i: int| 0 <= i < self.results@.len() - 1 ==> self.results@[i].launched,
    {
    }
}

} // verus!
