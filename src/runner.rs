//! Run results, their classification, and the decisions of the loop that
//! supervises a running emulator.
use vstd::prelude::*;

use crate::error::Error;
use crate::io::{IoAction, IoHandler};
use crate::text::{int_text, join2, signed_decimal};

verus! {

/// Captured standard output and standard error of a run, as text.
#[derive(Debug, Clone)]
pub struct CapturedOutput {
    pub stdout: String,
    pub stderr: String,
}

/// The outcome of one run.
#[derive(Debug)]
pub struct RunResult {
    /// The emulator's exit code; -1 when it had none (killed by a signal).
    pub exit_code: i32,
    /// Whether the run counts as successful.
    pub success: bool,
    /// Captured output, when a handler kept it.
    pub captured_output: Option<CapturedOutput>,
    /// Whether the run was killed for exceeding its time limit.
    pub timed_out: bool,
}

impl RunResult {
    /// A result with the given exit code and verdict.
    pub fn new(exit_code: i32, success: bool) -> (r: RunResult)
        ensures
            r.exit_code == exit_code,
            r.success == success,
            r.captured_output is None,
            !r.timed_out,
    {
        RunResult { exit_code, success, captured_output: None, timed_out: false }
    }

    /// A successful result with exit code 0.
    pub fn success() -> (r: RunResult)
        ensures
            r.exit_code == 0,
            r.success,
            r.captured_output is None,
            !r.timed_out,
    {
        RunResult { exit_code: 0, success: true, captured_output: None, timed_out: false }
    }

    /// A failed result with the given exit code.
    pub fn failed(exit_code: i32) -> (r: RunResult)
        ensures
            r.exit_code == exit_code,
            !r.success,
            r.captured_output is None,
            !r.timed_out,
    {
        RunResult { exit_code, success: false, captured_output: None, timed_out: false }
    }

    /// The same result with captured output attached.
    pub fn with_output(self, stdout: String, stderr: String) -> (r: RunResult)
        ensures
            r.exit_code == self.exit_code,
            r.success == self.success,
            r.timed_out == self.timed_out,
            r.captured_output == Some(CapturedOutput { stdout, stderr }),
    {
        RunResult { captured_output: Some(CapturedOutput { stdout, stderr }), ..self }
    }

    /// The same result, marked as timed out.
    pub fn with_timeout(self) -> (r: RunResult)
        ensures
            r.exit_code == self.exit_code,
            r.success == self.success,
            r.captured_output == self.captured_output,
            r.timed_out,
    {
        RunResult { timed_out: true, ..self }
    }
}

/// The exit code recorded for a run: the process's own, or -1 when it had
/// none.
pub open spec fn recorded_code(code: Option<i32>) -> i32 {
    match code {
        Some(c) => c,
        None => -1i32,
    }
}

/// Whether a run succeeded. In a test run: exactly when a success code is
/// configured and the recorded code equals it, however the process ended.
/// In an ordinary run: exactly when the process ended normally with status
/// zero.
pub open spec fn run_succeeded(is_test: bool, expected: Option<i32>, code: i32, exited_ok: bool) -> bool {
    if is_test {
        expected == Some(code)
    } else {
        exited_ok
    }
}

/// In a test run with an expected success code, a run succeeds exactly when
/// its exit code is that code, whether or not the process ended normally.
pub proof fn test_mode_success_is_code_match(expected: i32, code: i32, exited_ok: bool)
    ensures
        run_succeeded(true, Some(expected), code, exited_ok) == (code == expected),
{
}

/// In an ordinary run, success is exactly the process's normal termination
/// with status zero; no exit code is compared.
pub proof fn run_mode_success_is_normal_exit(expected: Option<i32>, code: i32, exited_ok: bool)
    ensures
        run_succeeded(false, expected, code, exited_ok) == exited_ok,
{
}

/// Classifies a finished run.
///
/// `code` is the process's exit code, if it had one; `exited_ok` whether it
/// ended normally with status zero; `timed_out` whether the time limit
/// killed it.
pub fn classify_exit(
    is_test: bool,
    expected: Option<i32>,
    code: Option<i32>,
    exited_ok: bool,
    timed_out: bool,
) -> (r: RunResult)
    ensures
        r.exit_code == recorded_code(code),
        r.success == run_succeeded(is_test, expected, recorded_code(code), exited_ok),
        r.timed_out == timed_out,
        r.captured_output is None,
{
    let exit_code = match code {
        Some(c) => c,
        None => -1,
    };
    let success = if is_test {
        match expected {
            Some(x) => x == exit_code,
            None => false,
        }
    } else {
        exited_ok
    };
    let result = RunResult::new(exit_code, success);
    if timed_out {
        result.with_timeout()
    } else {
        result
    }
}

/// The caller's verdict on a run: a time-out comes first, then a failed
/// test run (with the expected and actual codes), then a failed ordinary run
/// (with its exit code).
pub fn check_outcome(result: &RunResult, is_test: bool, expected: Option<i32>) -> (r: Result<(), Error>)
    ensures
        r is Ok <==> (!result.timed_out && result.success),
        result.timed_out ==> r == Err::<(), Error>(Error::TimedOut),
        !result.timed_out && !result.success && is_test ==> r == Err::<(), Error>(
            Error::TestFailed { expected, actual: result.exit_code },
        ),
        !result.timed_out && !result.success && !is_test ==> (r is Err && (r->Err_0 matches Error::Runner(
            m,
        ) && m@ == "Execution failed with exit code: "@ + signed_decimal(result.exit_code as int))),
{
    if result.timed_out {
        return Err(Error::TimedOut);
    }
    if result.success {
        return Ok(());
    }
    if is_test {
        Err(Error::TestFailed { expected, actual: result.exit_code })
    } else {
        let code = int_text(result.exit_code);
        Err(Error::Runner(join2("Execution failed with exit code: ", code.as_str())))
    }
}

/// An event from the emulator's output streams, as the readers report it.
#[derive(Debug)]
pub enum IoEvent {
    /// A chunk of console output.
    Stdout(Vec<u8>),
    /// A chunk of diagnostic output.
    Stderr(Vec<u8>),
    /// The console stream ended (or failed).
    StdoutClosed,
    /// The diagnostic stream ended (or failed).
    StderrClosed,
}

/// What the supervising loop does next.
#[derive(Debug)]
pub enum LoopStep {
    /// Wait for the next event.
    Wait,
    /// Write these bytes to the emulator's input, flush, then wait.
    WriteInput(Vec<u8>),
    /// Kill the emulator and leave the loop.
    Kill,
}

/// The supervising loop's state: which streams have ended, and whether a
/// handler asked for a shutdown.
#[derive(Debug, Clone, Copy, PartialEq, Eq, Structural)]
pub struct IoLoop {
    pub stdout_closed: bool,
    pub stderr_closed: bool,
    pub shut_down: bool,
}

/// Whether the loop is over: shut down, or both streams ended.
pub open spec fn loop_done(s: IoLoop) -> bool {
    s.shut_down || (s.stdout_closed && s.stderr_closed)
}

impl IoLoop {
    /// The state before any event.
    pub fn new() -> (r: IoLoop)
        ensures
            !r.stdout_closed && !r.stderr_closed && !r.shut_down,
    {
        IoLoop { stdout_closed: false, stderr_closed: false, shut_down: false }
    }

    /// Whether the loop is over.
    pub fn is_done(&self) -> (r: bool)
        ensures
            r == loop_done(*self),
    {
        self.shut_down || (self.stdout_closed && self.stderr_closed)
    }

    /// The step for a handler's answer to console output: nothing, a write
    /// to the emulator's input, or a kill that ends the loop.
    pub fn step_for_action(&mut self, action: IoAction) -> (r: LoopStep)
        ensures
            answer_steps(*old(self), action, *final(self), r),
            action is Shutdown ==> loop_done(*final(self)),
    {
        match action {
            IoAction::Continue => LoopStep::Wait,
            IoAction::SendInput(bytes) => LoopStep::WriteInput(bytes),
            IoAction::Shutdown => {
                self.shut_down = true;
                LoopStep::Kill
            },
        }
    }

    /// Hands one event to the handler and says what to do next. A console
    /// chunk is handed, exactly, to `on_output`, and its answer decides the
    /// step (see [`answer_steps`]); a diagnostic chunk is handed, exactly, to
    /// `on_stderr`; an end of stream is recorded and the handler is left
    /// alone.
    pub fn handle<H: IoHandler>(&mut self, handler: &mut H, event: IoEvent) -> (r: LoopStep)
        ensures
            match event {
                IoEvent::Stdout(d) => exists|a: IoAction|
                    old(handler).output_answered(d@, *final(handler), a) && answer_steps(
                        *old(self),
                        a,
                        *final(self),
                        r,
                    ),
                IoEvent::Stderr(d) => old(handler).stderr_taken(d@, *final(handler)) && *final(self)
                    == *old(self) && r is Wait,
                IoEvent::StdoutClosed => *final(handler) == *old(handler) && r is Wait
                    && *final(self) == (IoLoop { stdout_closed: true, ..*old(self) }),
                IoEvent::StderrClosed => *final(handler) == *old(handler) && r is Wait
                    && *final(self) == (IoLoop { stderr_closed: true, ..*old(self) }),
            },
    {
        match event {
            IoEvent::Stdout(data) => {
                let action = handler.on_output(data.as_slice());
                let ghost answer = action;
                let r = self.step_for_action(action);
                assert(answer_steps(*old(self), answer, *self, r));
                r
            },
            IoEvent::Stderr(data) => {
                handler.on_stderr(data.as_slice());
                LoopStep::Wait
            },
            IoEvent::StdoutClosed => {
                self.stdout_closed = true;
                LoopStep::Wait
            },
            IoEvent::StderrClosed => {
                self.stderr_closed = true;
                LoopStep::Wait
            },
        }
    }
}

/// The loop's step and next state for a handler's answer: carry on waits,
/// input is written, a shutdown kills the emulator and ends the loop; the
/// stream flags are kept.
pub open spec fn answer_steps(before: IoLoop, answer: IoAction, after: IoLoop, r: LoopStep) -> bool {
    &&& after.stdout_closed == before.stdout_closed
    &&& after.stderr_closed == before.stderr_closed
    &&& match answer {
        IoAction::Continue => r is Wait && after.shut_down == before.shut_down,
        IoAction::SendInput(b) => r == LoopStep::WriteInput(b) && after.shut_down == before.shut_down,
        IoAction::Shutdown => r is Kill && after.shut_down,
    }
}

} // verus!
