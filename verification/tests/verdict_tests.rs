use quicktest::verdict::{classify_execution, ExecutionResult, ExitKind, Verdict};

fn result(kind: ExitKind, elapsed_ms: u64, peak_memory_kb: u64) -> ExecutionResult {
    ExecutionResult { kind, elapsed_ms, peak_memory_kb, stdout_path: None, stderr_path: None }
}

#[test]
fn clean_exit_within_limits_is_accepted() {
    let r = result(ExitKind::Exited(0), 100, 1000);
    assert_eq!(classify_execution(&r, 2000, 262144), Verdict::Accepted);
}

#[test]
fn nonzero_exit_is_runtime_error() {
    let r = result(ExitKind::Exited(1), 100, 1000);
    assert_eq!(classify_execution(&r, 2000, 262144), Verdict::RuntimeError);
}

#[test]
fn signal_death_is_runtime_error() {
    let r = result(ExitKind::Signaled, 100, 1000);
    assert_eq!(classify_execution(&r, 2000, 262144), Verdict::RuntimeError);
}

#[test]
fn killed_at_deadline_is_time_limit_exceeded() {
    let r = result(ExitKind::TimedOut, 2500, 1000);
    assert_eq!(classify_execution(&r, 2000, 262144), Verdict::TimeLimitExceeded);
}

#[test]
fn elapsed_overrun_is_time_limit_even_with_clean_exit() {
    let r = result(ExitKind::Exited(0), 2001, 1000);
    assert_eq!(classify_execution(&r, 2000, 262144), Verdict::TimeLimitExceeded);
}

#[test]
fn peak_memory_overrun_is_memory_limit_even_with_clean_exit() {
    let r = result(ExitKind::Exited(0), 100, 262145);
    assert_eq!(classify_execution(&r, 2000, 262144), Verdict::MemoryLimitExceeded);
}

#[test]
fn limiter_kill_is_memory_limit_exceeded() {
    let r = result(ExitKind::MemoryKilled, 100, 500000);
    assert_eq!(classify_execution(&r, 2000, 262144), Verdict::MemoryLimitExceeded);
}

#[test]
fn time_limit_takes_precedence_over_memory() {
    let r = result(ExitKind::TimedOut, 2500, 500000);
    assert_eq!(classify_execution(&r, 2000, 262144), Verdict::TimeLimitExceeded);
    let r2 = result(ExitKind::MemoryKilled, 2500, 500000);
    assert_eq!(classify_execution(&r2, 2000, 262144), Verdict::TimeLimitExceeded);
}

#[test]
fn exactly_at_the_limits_is_within_them() {
    let r = result(ExitKind::Exited(0), 2000, 262144);
    assert_eq!(classify_execution(&r, 2000, 262144), Verdict::Accepted);
}
