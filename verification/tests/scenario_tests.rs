//! Whole-run scenarios composed from the verified pieces: classification
//! of simulated process results, the per-trial state machine, the
//! comparator, and the run orchestration.

use quicktest::compare::{compare_outputs, Comparison};
use quicktest::orchestrator::{
    advance_trial, RunPolicy, TrialEvent, TrialOrchestrator, TrialStage,
};
use quicktest::verdict::{classify_execution, ExecutionResult, ExitKind, Verdict};

fn policy(test_cases: u32, break_bad: bool) -> RunPolicy {
    RunPolicy {
        timeout_ms: 2000,
        memory_limit_kb: 262144,
        test_cases,
        break_bad,
        save_bad: false,
        save_all: false,
        run_all: true,
        run_ac: false,
        run_wa: false,
        run_tle: false,
        run_rte: false,
        run_mle: false,
        diff: false,
    }
}

fn finished(kind: ExitKind, elapsed_ms: u64) -> ExecutionResult {
    ExecutionResult { kind, elapsed_ms, peak_memory_kb: 1024, stdout_path: None, stderr_path: None }
}

/// The target echoes its input, the generator always emits `5\n`, and the
/// reference echoes the input too: every trial of the run is accepted.
#[test]
fn echoing_target_against_echoing_reference_accepts_every_trial() {
    let p = policy(10, false);
    let mut o = TrialOrchestrator::new(p, true);
    while let Some(_i) = o.next_trial() {
        let mut stage = TrialStage::Generate;

        // the generator runs and emits "5\n" into the shared input file
        let gen_class = classify_execution(&finished(ExitKind::Exited(0), 3), 2000, 262144);
        stage = advance_trial(&stage, &TrialEvent::Ran(gen_class), true);
        assert_eq!(stage, TrialStage::Execute);

        // the target echoes the input
        let target_output: Vec<u8> = b"5\n".to_vec();
        let target_class = classify_execution(&finished(ExitKind::Exited(0), 12), 2000, 262144);
        stage = advance_trial(&stage, &TrialEvent::Ran(target_class), true);
        assert_eq!(stage, TrialStage::Judge);

        // the reference echoes the input as well; outputs agree
        let reference_output: Vec<u8> = b"5\n".to_vec();
        let matched =
            compare_outputs(&reference_output, &target_output, false) == Comparison::Match;
        stage = advance_trial(&stage, &TrialEvent::Judged(matched), true);

        match stage {
            TrialStage::Complete(v) => o.record_trial(v, 12, 1024, None),
            _ => panic!("trial did not complete"),
        }
    }
    let records = o.records();
    assert_eq!(records.len(), 10);
    for (i, r) in records.iter().enumerate() {
        assert_eq!(r.index as usize, i);
        assert_eq!(r.verdict, Verdict::Accepted);
    }
    let s = o.summary();
    assert_eq!(s.accepted, 10);
    assert_eq!(s.wrong_answer, 0);
    assert_eq!(s.time_limit_exceeded, 0);
    assert_eq!(s.runtime_error, 0);
    assert_eq!(s.memory_limit_exceeded, 0);
}

/// The target always exits with status 1; five trials are requested with
/// break-on-first-bad: the run holds exactly one record, a runtime error
/// at trial index zero.
#[test]
fn failing_target_with_break_stops_after_one_runtime_error() {
    let p = policy(5, true);
    let mut o = TrialOrchestrator::new(p, true);
    while let Some(_i) = o.next_trial() {
        let mut stage = TrialStage::Generate;
        let gen_class = classify_execution(&finished(ExitKind::Exited(0), 3), 2000, 262144);
        stage = advance_trial(&stage, &TrialEvent::Ran(gen_class), true);

        // the target exits with status 1: the judge step is skipped
        let target_class = classify_execution(&finished(ExitKind::Exited(1), 9), 2000, 262144);
        stage = advance_trial(&stage, &TrialEvent::Ran(target_class), true);

        match stage {
            TrialStage::Complete(v) => o.record_trial(v, 9, 1024, None),
            _ => panic!("trial did not complete"),
        }
    }
    let records = o.records();
    assert_eq!(records.len(), 1);
    assert_eq!(records[0].index, 0);
    assert_eq!(records[0].verdict, Verdict::RuntimeError);
    assert!(o.is_stopped_early());
}

/// The target's source does not compile: the generator is never invoked,
/// no trial runs, and the whole run reports a compile error.
#[test]
fn compile_failure_short_circuits_the_whole_run() {
    let p = policy(5, false);
    let mut generator_invocations = 0;
    let mut o = TrialOrchestrator::new(p, false);
    while let Some(_i) = o.next_trial() {
        generator_invocations += 1;
        o.record_trial(Verdict::Accepted, 1, 1, None);
    }
    assert_eq!(generator_invocations, 0);
    assert_eq!(o.records().len(), 0);
    assert_eq!(o.run_verdict(), Verdict::CompileError);
}
