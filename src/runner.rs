use vstd::prelude::*;
use vstd::string::StringExecFns;
use crate::multiplex::{
    emitted, finished, start_state, step, MuxState, Multiplexer, OutputLine, OutputSource,
    StreamEvent,
};

verus! {

/// The text of each string, in order.
pub open spec fn views(v: Seq<String>) -> Seq<Seq<char>> {
    v.map_values(|s: String| s@)
}

/// The program to launch and its arguments, with elevation applied.
#[derive(Debug)]
pub struct Invocation {
    pub program: String,
    pub args: Vec<String>,
}

impl Invocation {
    /// `command` with `args`; when `elevate` is set, the same wrapped in
    /// `sudo`, which then receives the command and its arguments.
    pub fn new(command: &str, args: &Vec<String>, elevate: bool) -> (r: Self)
        ensures
            elevate ==> r.program@ == "sudo"@ && views(r.args@) == seq![command@] + views(args@),
            !elevate ==> r.program@ == command@ && views(r.args@) == views(args@),
    {
        let mut out: Vec<String> = Vec::new();
        let program = if elevate {
            out.push(String::from_str(command));
            String::from_str("sudo")
        } else {
            String::from_str(command)
        };
        let ghost prefix = views(out@);
        let mut i: usize = 0;
        while i < args.len()
            invariant
                i <= args@.len(),
                prefix == (if elevate { seq![command@] } else { Seq::<Seq<char>>::empty() }),
                views(out@) == prefix + views(args@).take(i as int),
            decreases args@.len() - i,
        {
            out.push(args[i].clone());
            proof {
                assert(views(args@).take(i + 1) =~= views(args@).take(i as int).push(args@[i as int]@));
                assert(views(out@) =~= prefix + views(args@).take(i + 1));
            }
            i = i + 1;
        }
        proof {
            assert(views(args@).take(args@.len() as int) =~= views(args@));
            if !elevate {
                assert(views(out@) =~= views(args@));
            }
        }
        Invocation { program, args: out }
    }
}

/// How a finished command ended, with its captured standard output.
#[derive(Debug)]
pub struct CommandResult {
    /// Whether the process exited with status zero.
    pub success: bool,
    /// The exit code, when the process exited rather than being killed.
    pub exit_code: Option<i32>,
    /// The captured standard output, one newline-terminated line per line read.
    pub output: String,
}

impl CommandResult {
    pub fn new(exit_code: Option<i32>, output: String) -> (r: Self)
        ensures
            r.success == (exit_code == Some(0i32)),
            r.exit_code == exit_code,
            r.output == output,
    {
        let success = match exit_code {
            Some(code) => code == 0,
            None => false,
        };
        CommandResult { success, exit_code, output }
    }
}

/// Why a command could not be run at all.
#[derive(Debug, PartialEq, Eq)]
pub enum RunError {
    /// The named executable could not be launched.
    Spawn(String),
    /// A launched process's output stream could not be taken.
    Stream(OutputSource),
}

/// One invocation in progress: the multiplexer draining its two streams and,
/// once known, its exit code.
pub struct RunSession {
    mux: Multiplexer,
    exit: Option<Option<i32>>,
}

impl View for RunSession {
    type V = (MuxState, Option<Option<i32>>);

    closed spec fn view(&self) -> (MuxState, Option<Option<i32>>) {
        (self.mux@, self.exit)
    }
}

/// The session has all it needs for a result: both streams have ended and
/// the process has exited.
pub open spec fn complete(s: (MuxState, Option<Option<i32>>)) -> bool {
    finished(s.0) && s.1 is Some
}

/// What a launch attempt came to: an error when the process did not start or
/// one of its output pipes is missing, else a fresh session.
pub open spec fn attach_ok(
    r: Result<RunSession, RunError>,
    command: Seq<char>,
    spawned: bool,
    has_stdout: bool,
    has_stderr: bool,
) -> bool {
    if !spawned {
        r matches Err(RunError::Spawn(c)) && c@ == command
    } else if !has_stdout {
        r == Err::<RunSession, RunError>(RunError::Stream(OutputSource::Stdout))
    } else if !has_stderr {
        r == Err::<RunSession, RunError>(RunError::Stream(OutputSource::Stderr))
    } else {
        r matches Ok(s) && s@ == (start_state(), None::<Option<i32>>)
    }
}

impl RunSession {
    /// Starts the bookkeeping of an invocation of `command` from the outcome
    /// of its launch. A failed launch is a `Spawn` error and no session, so no
    /// result, ever exists for it.
    pub fn attach(command: &str, spawned: bool, has_stdout: bool, has_stderr: bool) -> (r: Result<
        RunSession,
        RunError,
    >)
        ensures
            attach_ok(r, command@, spawned, has_stdout, has_stderr),
    {
        if !spawned {
            Err(RunError::Spawn(String::from_str(command)))
        } else if !has_stdout {
            Err(RunError::Stream(OutputSource::Stdout))
        } else if !has_stderr {
            Err(RunError::Stream(OutputSource::Stderr))
        } else {
            Ok(RunSession { mux: Multiplexer::new(), exit: None })
        }
    }

    /// Takes the next stream event; returns the line to print, if any.
    pub fn accept(&mut self, ev: StreamEvent) -> (r: Option<OutputLine>)
        ensures
            final(self)@.0 == step(old(self)@.0, ev),
            final(self)@.1 == old(self)@.1,
            r == emitted(old(self)@.0, ev),
    {
        self.mux.accept(ev)
    }

    /// Notes that the process has exited, with its exit code if it has one.
    pub fn record_exit(&mut self, code: Option<i32>)
        ensures
            final(self)@ == (old(self)@.0, Some(code)),
    {
        self.exit = Some(code);
    }

    pub fn is_complete(&self) -> (r: bool)
        ensures
            r == complete(self@),
    {
        self.mux.is_finished() && self.exit.is_some()
    }

    /// The result of the invocation: its exit status and the captured text
    /// of its primary stream.
    pub fn finish(self) -> (r: CommandResult)
        requires
            complete(self@),
        ensures
            r.exit_code == self@.1->Some_0,
            r.success == (self@.1->Some_0 == Some(0i32)),
            r.output@ == self@.0.captured,
    {
        let code = match self.exit {
            Some(c) => c,
            None => None,
        };
        CommandResult::new(code, self.mux.into_captured())
    }
}

} // verus!
