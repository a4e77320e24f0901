//! Trial verdicts and classification of a finished process execution.

use vstd::prelude::*;

verus! {

/// Final classification of one trial (or of the whole run, for
/// `CompileError`, which aborts the run before any trial executes).
#[derive(Clone, Copy, Debug, PartialEq, Eq, Structural)]
pub enum Verdict {
    Accepted,
    WrongAnswer,
    TimeLimitExceeded,
    RuntimeError,
    MemoryLimitExceeded,
    CompileError,
}

/// How a spawned process came to an end, as the process runner observed it.
#[derive(Clone, Copy, Debug, PartialEq, Eq, Structural)]
pub enum ExitKind {
    /// The process exited on its own with this status code.
    Exited(i32),
    /// The process was ended by a signal before it could exit.
    Signaled,
    /// The runner killed the process at the wall-clock deadline.
    TimedOut,
    /// The OS resource limiter killed the process for exceeding memory.
    MemoryKilled,
}

/// What one process invocation produced: termination cause, resource usage,
/// and where its captured output landed. Built once per invocation by the
/// unverified process runner and consumed immediately; never mutated.
#[derive(Clone, Debug)]
pub struct ExecutionResult {
    pub kind: ExitKind,
    /// Wall-clock time of the invocation, in milliseconds.
    pub elapsed_ms: u64,
    /// Peak resident memory of the invocation, in kilobytes.
    pub peak_memory_kb: u64,
    /// File that captured the process's standard output, if redirected.
    pub stdout_path: Option<String>,
    /// File that captured the process's standard error, if redirected.
    pub stderr_path: Option<String>,
}

impl ExecutionResult {
    /// The invocation ran past the wall-clock limit: either the runner had to
    /// kill it, or the elapsed time observed at teardown exceeds the limit.
    pub open spec fn exceeds_time(&self, timeout_ms: u64) -> bool {
        self.kind is TimedOut || self.elapsed_ms > timeout_ms
    }

    /// The invocation broke the memory ceiling: either the OS limiter killed
    /// it, or the peak usage observed at teardown exceeds the ceiling.
    pub open spec fn exceeds_memory(&self, memory_limit_kb: u64) -> bool {
        self.kind is MemoryKilled || self.peak_memory_kb > memory_limit_kb
    }

    /// The process exited on its own with status zero.
    pub open spec fn exited_cleanly(&self) -> bool {
        self.kind == ExitKind::Exited(0i32)
    }
}

/// Classification of a single finished invocation, before any output
/// comparison: the time check comes first, then memory, then the exit
/// status. A clean exit within both limits classifies as `Accepted` here;
/// whether it stays accepted is up to the comparator.
pub open spec fn classification(
    res: ExecutionResult,
    timeout_ms: u64,
    memory_limit_kb: u64,
) -> Verdict {
    if res.exceeds_time(timeout_ms) {
        Verdict::TimeLimitExceeded
    } else if res.exceeds_memory(memory_limit_kb) {
        Verdict::MemoryLimitExceeded
    } else if res.exited_cleanly() {
        Verdict::Accepted
    } else {
        Verdict::RuntimeError
    }
}

/// Classify one finished invocation against the run's resource limits.
///
/// A timed-out process is always `TimeLimitExceeded`, whatever else was
/// observed: when both the time limit and the memory ceiling were broken,
/// the time check takes precedence. A process within the time limit whose
/// peak memory broke the ceiling is `MemoryLimitExceeded` even if it exited
/// with status zero. Otherwise a non-zero exit (or death by signal) is
/// `RuntimeError`, and a clean exit is `Accepted`.
pub fn classify_execution(res: &ExecutionResult, timeout_ms: u64, memory_limit_kb: u64) -> (v:
    Verdict)
    ensures
        v == classification(*res, timeout_ms, memory_limit_kb),
        res.exceeds_time(timeout_ms) ==> v == Verdict::TimeLimitExceeded,
        !res.exceeds_time(timeout_ms) && res.exceeds_memory(memory_limit_kb) ==> v
            == Verdict::MemoryLimitExceeded,
{
    if res.kind == ExitKind::TimedOut || res.elapsed_ms > timeout_ms {
        Verdict::TimeLimitExceeded
    } else if res.kind == ExitKind::MemoryKilled || res.peak_memory_kb > memory_limit_kb {
        Verdict::MemoryLimitExceeded
    } else if res.kind == ExitKind::Exited(0i32) {
        Verdict::Accepted
    } else {
        Verdict::RuntimeError
    }
}

} // verus!
