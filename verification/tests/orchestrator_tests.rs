use quicktest::orchestrator::{
    advance_trial, run_scripted, should_report, RunPolicy, TrialEvent, TrialOrchestrator,
    TrialStage,
};
use quicktest::verdict::Verdict;

fn policy(test_cases: u32, break_bad: bool) -> RunPolicy {
    RunPolicy {
        timeout_ms: 2000,
        memory_limit_kb: 262144,
        test_cases,
        break_bad,
        save_bad: false,
        save_all: false,
        run_all: true,
        run_ac: false,
        run_wa: false,
        run_tle: false,
        run_rte: false,
        run_mle: false,
        diff: false,
    }
}

#[test]
fn all_accepted_run_records_every_trial_in_order() {
    let outcomes = vec![Verdict::Accepted; 10];
    let o = run_scripted(policy(10, false), true, &outcomes);
    let records = o.records();
    assert_eq!(records.len(), 10);
    for (i, r) in records.iter().enumerate() {
        assert_eq!(r.index as usize, i);
        assert_eq!(r.verdict, Verdict::Accepted);
    }
    let s = o.summary();
    assert_eq!(s.accepted, 10);
    assert_eq!(s.wrong_answer, 0);
    assert_eq!(s.time_limit_exceeded, 0);
    assert_eq!(s.runtime_error, 0);
    assert_eq!(s.memory_limit_exceeded, 0);
    assert!(!o.is_stopped_early());
    assert_eq!(o.run_verdict(), Verdict::Accepted);
}

#[test]
fn zero_requested_trials_record_nothing() {
    let outcomes: Vec<Verdict> = Vec::new();
    let o = run_scripted(policy(0, true), true, &outcomes);
    assert_eq!(o.records().len(), 0);
    assert_eq!(o.run_verdict(), Verdict::Accepted);
}

#[test]
fn break_on_first_bad_stops_at_first_trial() {
    let outcomes = vec![Verdict::RuntimeError; 5];
    let o = run_scripted(policy(5, true), true, &outcomes);
    let records = o.records();
    assert_eq!(records.len(), 1);
    assert_eq!(records[0].index, 0);
    assert_eq!(records[0].verdict, Verdict::RuntimeError);
    assert!(o.is_stopped_early());
    let s = o.summary();
    assert_eq!(s.runtime_error, 1);
    assert_eq!(s.accepted, 0);
    assert_eq!(o.run_verdict(), Verdict::RuntimeError);
}

#[test]
fn break_on_first_bad_keeps_earlier_accepted_trials() {
    let outcomes = vec![
        Verdict::Accepted,
        Verdict::Accepted,
        Verdict::WrongAnswer,
        Verdict::Accepted,
        Verdict::Accepted,
    ];
    let o = run_scripted(policy(5, true), true, &outcomes);
    let records = o.records();
    assert_eq!(records.len(), 3);
    assert_eq!(records[0].verdict, Verdict::Accepted);
    assert_eq!(records[1].verdict, Verdict::Accepted);
    assert_eq!(records[2].verdict, Verdict::WrongAnswer);
    assert!(o.is_stopped_early());
}

#[test]
fn without_break_the_run_continues_past_failures() {
    let outcomes = vec![
        Verdict::Accepted,
        Verdict::WrongAnswer,
        Verdict::TimeLimitExceeded,
        Verdict::MemoryLimitExceeded,
        Verdict::Accepted,
    ];
    let o = run_scripted(policy(5, false), true, &outcomes);
    assert_eq!(o.records().len(), 5);
    assert!(!o.is_stopped_early());
    let s = o.summary();
    assert_eq!(s.accepted, 2);
    assert_eq!(s.wrong_answer, 1);
    assert_eq!(s.time_limit_exceeded, 1);
    assert_eq!(s.memory_limit_exceeded, 1);
    assert_eq!(o.run_verdict(), Verdict::MemoryLimitExceeded);
}

#[test]
fn compile_error_aborts_before_any_trial() {
    let outcomes = vec![Verdict::Accepted; 5];
    let o = run_scripted(policy(5, false), false, &outcomes);
    assert_eq!(o.records().len(), 0);
    assert!(o.is_compile_failed());
    assert_eq!(o.run_verdict(), Verdict::CompileError);
    let s = o.summary();
    assert_eq!(s.accepted, 0);
    assert_eq!(s.wrong_answer, 0);
}

#[test]
fn compile_error_hands_out_no_trial_index() {
    let o = TrialOrchestrator::new(policy(5, false), false);
    assert_eq!(o.next_trial(), None);
}

#[test]
fn orchestrator_hands_out_consecutive_indices() {
    let mut o = TrialOrchestrator::new(policy(3, false), true);
    assert_eq!(o.next_trial(), Some(0));
    o.record_trial(Verdict::Accepted, 10, 100, None);
    assert_eq!(o.next_trial(), Some(1));
    o.record_trial(Verdict::WrongAnswer, 20, 200, Some("case_1.txt".to_string()));
    assert_eq!(o.next_trial(), Some(2));
    o.record_trial(Verdict::Accepted, 30, 300, None);
    assert_eq!(o.next_trial(), None);
    let records = o.records();
    assert_eq!(records[1].saved_input, Some("case_1.txt".to_string()));
    assert_eq!(records[1].elapsed_ms, 20);
    assert_eq!(records[1].peak_memory_kb, 200);
}

#[test]
fn generator_failure_ends_the_trial_with_its_classification() {
    let next = advance_trial(&TrialStage::Generate, &TrialEvent::Ran(Verdict::RuntimeError), true);
    assert_eq!(next, TrialStage::Complete(Verdict::RuntimeError));
}

#[test]
fn generator_success_moves_on_to_the_target() {
    let next = advance_trial(&TrialStage::Generate, &TrialEvent::Ran(Verdict::Accepted), true);
    assert_eq!(next, TrialStage::Execute);
}

#[test]
fn target_resource_verdict_skips_the_judge() {
    let next = advance_trial(
        &TrialStage::Execute,
        &TrialEvent::Ran(Verdict::TimeLimitExceeded),
        true,
    );
    assert_eq!(next, TrialStage::Complete(Verdict::TimeLimitExceeded));
}

#[test]
fn target_success_without_judge_is_accepted() {
    let next = advance_trial(&TrialStage::Execute, &TrialEvent::Ran(Verdict::Accepted), false);
    assert_eq!(next, TrialStage::Complete(Verdict::Accepted));
}

#[test]
fn target_success_with_judge_goes_to_judging() {
    let next = advance_trial(&TrialStage::Execute, &TrialEvent::Ran(Verdict::Accepted), true);
    assert_eq!(next, TrialStage::Judge);
}

#[test]
fn judge_mismatch_is_wrong_answer() {
    let next = advance_trial(&TrialStage::Judge, &TrialEvent::Judged(false), true);
    assert_eq!(next, TrialStage::Complete(Verdict::WrongAnswer));
    let ok = advance_trial(&TrialStage::Judge, &TrialEvent::Judged(true), true);
    assert_eq!(ok, TrialStage::Complete(Verdict::Accepted));
}

#[test]
fn report_flags_select_verdicts() {
    let mut p = policy(1, false);
    p.run_all = false;
    p.run_wa = true;
    assert!(should_report(&p, Verdict::WrongAnswer));
    assert!(!should_report(&p, Verdict::Accepted));
    assert!(should_report(&p, Verdict::CompileError));
    p.run_all = true;
    assert!(should_report(&p, Verdict::Accepted));
}
