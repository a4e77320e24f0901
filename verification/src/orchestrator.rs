//! Trial orchestration: the per-trial state machine (generate, execute,
//! judge), the run-level bookkeeping of trial records, and the policy
//! decisions that drive a whole run of trials.

use vstd::prelude::*;

use crate::verdict::Verdict;

verus! {

/// The scalar parameters of one run, supplied once at orchestration start
/// and read-only for the run's duration.
#[derive(Clone, Copy, Debug)]
pub struct RunPolicy {
    /// Wall-clock limit for each program invocation, in milliseconds.
    pub timeout_ms: u32,
    /// Memory ceiling for each program invocation, in kilobytes.
    pub memory_limit_kb: u64,
    /// How many trials the run should attempt.
    pub test_cases: u32,
    /// Stop issuing trials as soon as one trial is not accepted.
    pub break_bad: bool,
    /// Persist artifacts of failing trials only.
    pub save_bad: bool,
    /// Persist artifacts of every trial.
    pub save_all: bool,
    /// Report every trial, whatever its verdict.
    pub run_all: bool,
    /// Report accepted trials.
    pub run_ac: bool,
    /// Report wrong-answer trials.
    pub run_wa: bool,
    /// Report time-limit-exceeded trials.
    pub run_tle: bool,
    /// Report runtime-error trials.
    pub run_rte: bool,
    /// Report memory-limit-exceeded trials.
    pub run_mle: bool,
    /// Show a diff of the two outputs on a mismatch.
    pub diff: bool,
}

/// What one finished trial left behind: its index within the run, its
/// verdict, the resources the target used, and the saved input artifact,
/// if the save policy kept one. Appended to the run's record sequence and
/// never mutated afterwards.
#[derive(Clone, Debug)]
pub struct TrialRecord {
    pub index: u32,
    pub verdict: Verdict,
    pub elapsed_ms: u64,
    pub peak_memory_kb: u64,
    pub saved_input: Option<String>,
}

/// Where one trial stands: each trial runs the generator, then the
/// target, then (when a reference or checker is configured) the judge
/// step, and ends in `Complete` with its verdict.
#[derive(Clone, Copy, Debug, PartialEq, Eq, Structural)]
pub enum TrialStage {
    /// The generator is about to run, to produce the trial's input.
    Generate,
    /// The target is about to run against the generated input.
    Execute,
    /// The reference or checker is about to judge the target's output.
    Judge,
    /// The trial is over, with this verdict.
    Complete(Verdict),
}

/// What the unverified shell observed in one step of a trial: either the
/// classification of a finished program invocation, or the outcome of the
/// judge step (output comparison, or a checker's accept/reject).
#[derive(Clone, Copy, Debug, PartialEq, Eq, Structural)]
pub enum TrialEvent {
    Ran(Verdict),
    Judged(bool),
}

/// The per-trial transition relation. A generator failure ends the trial
/// with the generator's own classification; a target failure ends it with
/// the target's classification, and the judge step is skipped, so a trial
/// that broke a resource limit keeps that verdict whatever its output
/// would have compared to. A target that succeeds with no judge
/// configured is accepted outright.
pub open spec fn trial_transition(stage: TrialStage, event: TrialEvent, has_judge: bool) -> TrialStage {
    match (stage, event) {
        (TrialStage::Generate, TrialEvent::Ran(v)) => {
            if v == Verdict::Accepted {
                TrialStage::Execute
            } else {
                TrialStage::Complete(v)
            }
        },
        (TrialStage::Execute, TrialEvent::Ran(v)) => {
            if v != Verdict::Accepted {
                TrialStage::Complete(v)
            } else if has_judge {
                TrialStage::Judge
            } else {
                TrialStage::Complete(Verdict::Accepted)
            }
        },
        (TrialStage::Judge, TrialEvent::Judged(matched)) => {
            if matched {
                TrialStage::Complete(Verdict::Accepted)
            } else {
                TrialStage::Complete(Verdict::WrongAnswer)
            }
        },
        _ => stage,
    }
}

/// Advance one trial by one observed step.
pub fn advance_trial(stage: &TrialStage, event: &TrialEvent, has_judge: bool) -> (next: TrialStage)
    requires
        !(stage is Complete),
        (stage is Generate || stage is Execute) ==> event is Ran,
        stage is Judge ==> event is Judged,
    ensures
        next == trial_transition(*stage, *event, has_judge),
{
    match (stage, event) {
        (TrialStage::Generate, TrialEvent::Ran(v)) => {
            if *v == Verdict::Accepted {
                TrialStage::Execute
            } else {
                TrialStage::Complete(*v)
            }
        },
        (TrialStage::Execute, TrialEvent::Ran(v)) => {
            if *v != Verdict::Accepted {
                TrialStage::Complete(*v)
            } else if has_judge {
                TrialStage::Judge
            } else {
                TrialStage::Complete(Verdict::Accepted)
            }
        },
        (TrialStage::Judge, TrialEvent::Judged(matched)) => {
            if *matched {
                TrialStage::Complete(Verdict::Accepted)
            } else {
                TrialStage::Complete(Verdict::WrongAnswer)
            }
        },
        _ => *stage,
    }
}

/// The verdicts the policy's report flags select: every verdict when
/// `run_all` is set, else the per-verdict flags; a compile failure is
/// always reported, since it aborts the whole run.
pub open spec fn reported(policy: RunPolicy, v: Verdict) -> bool {
    policy.run_all || match v {
        Verdict::Accepted => policy.run_ac,
        Verdict::WrongAnswer => policy.run_wa,
        Verdict::TimeLimitExceeded => policy.run_tle,
        Verdict::RuntimeError => policy.run_rte,
        Verdict::MemoryLimitExceeded => policy.run_mle,
        Verdict::CompileError => true,
    }
}

/// Should a trial with this verdict be reported to the user?
pub fn should_report(policy: &RunPolicy, v: Verdict) -> (r: bool)
    ensures
        r == reported(*policy, v),
{
    if policy.run_all {
        return true;
    }
    match v {
        Verdict::Accepted => policy.run_ac,
        Verdict::WrongAnswer => policy.run_wa,
        Verdict::TimeLimitExceeded => policy.run_tle,
        Verdict::RuntimeError => policy.run_rte,
        Verdict::MemoryLimitExceeded => policy.run_mle,
        Verdict::CompileError => true,
    }
}

/// The verdicts of a sequence of trial records, in order.
pub open spec fn verdicts_of(records: Seq<TrialRecord>) -> Seq<Verdict> {
    records.map_values(|r: TrialRecord| r.verdict)
}

/// How many records carry the given verdict.
pub open spec fn count_verdict(records: Seq<TrialRecord>, v: Verdict) -> nat
    decreases records.len(),
{
    if records.len() == 0 {
        0
    } else {
        count_verdict(records.drop_last(), v) + if records.last().verdict == v {
            1nat
        } else {
            0nat
        }
    }
}

/// What a finished run of trials amounts to: accepted when every record
/// is, else the verdict of the most recent non-accepted record.
pub open spec fn aggregate_verdict(records: Seq<TrialRecord>) -> Verdict
    decreases records.len(),
{
    if records.len() == 0 {
        Verdict::Accepted
    } else if records.last().verdict != Verdict::Accepted {
        records.last().verdict
    } else {
        aggregate_verdict(records.drop_last())
    }
}

/// The verdicts a run records when trial `i` would come out as
/// `outcomes[i]`: every trial's verdict in order, cut short after the
/// first non-accepted one when `break_bad` is set.
pub open spec fn run_model(break_bad: bool, outcomes: Seq<Verdict>) -> Seq<Verdict>
    decreases outcomes.len(),
{
    if outcomes.len() == 0 {
        Seq::empty()
    } else if break_bad && outcomes.first() != Verdict::Accepted {
        seq![outcomes.first()]
    } else {
        seq![outcomes.first()] + run_model(break_bad, outcomes.drop_first())
    }
}

/// A run none of whose trials would fail before its last records every
/// outcome unchanged: nothing triggers an early stop.
pub proof fn lemma_run_model_no_early_stop(break_bad: bool, outcomes: Seq<Verdict>)
    requires
        break_bad ==> forall|i: int|
            0 <= i < outcomes.len() - 1 ==> outcomes[i] == Verdict::Accepted,
    ensures
        run_model(break_bad, outcomes) =~= outcomes,
    decreases outcomes.len(),
{
    if outcomes.len() > 0 && !(break_bad && outcomes.first() != Verdict::Accepted) {
        lemma_run_model_no_early_stop(break_bad, outcomes.drop_first());
    }
}

/// A run whose every trial would be accepted records exactly one accepted
/// entry per requested trial, in index order, whatever the stop policy.
pub proof fn lemma_run_all_accepted(break_bad: bool, outcomes: Seq<Verdict>)
    requires
        forall|i: int| 0 <= i < outcomes.len() ==> outcomes[i] == Verdict::Accepted,
    ensures
        run_model(break_bad, outcomes) =~= outcomes,
{
    lemma_run_model_no_early_stop(break_bad, outcomes);
}

/// With break-on-first-bad set, a run whose first non-accepted trial is
/// trial `k` records exactly the trials up to and including `k`, and no
/// trial beyond `k` is ever part of the run.
pub proof fn lemma_run_stops_at_first_bad(outcomes: Seq<Verdict>, k: int)
    requires
        0 <= k < outcomes.len(),
        outcomes[k] != Verdict::Accepted,
        forall|i: int| 0 <= i < k ==> outcomes[i] == Verdict::Accepted,
    ensures
        run_model(true, outcomes) =~= outcomes.take(k + 1),
    decreases k,
{
    if k == 0 {
        assert(run_model(true, outcomes) =~= outcomes.take(1));
    } else {
        lemma_run_stops_at_first_bad(outcomes.drop_first(), k - 1);
        assert(outcomes.drop_first().take(k) =~= outcomes.take(k + 1).drop_first());
        assert(run_model(true, outcomes) =~= outcomes.take(k + 1));
    }
}

/// With break-on-first-bad set, a non-accepted verdict among a run's
/// records can only be its last one: the records stop right there, every
/// index stays at or below the failing trial's, and the run issues no
/// further trial.
pub proof fn lemma_break_bad_records_end_at_first_bad(o: &TrialOrchestrator, k: int)
    requires
        o.wf(),
        o.policy().break_bad,
        0 <= k < o.records_view().len(),
        o.records_view()[k].verdict != Verdict::Accepted,
    ensures
        o.records_view().len() == k + 1,
        !o.wants_more(),
        forall|i: int| 0 <= i < o.records_view().len() ==> (#[trigger] o.records_view()[i]).index
            <= k,
{
}

/// Run-level bookkeeping: hands out trial indices while the run should go
/// on, collects one record per finished trial, and stops early on the
/// first non-accepted verdict when the policy asks for it. A failed
/// compile step closes the run before any trial is issued.
pub struct TrialOrchestrator {
    policy: RunPolicy,
    records: Vec<TrialRecord>,
    compile_failed: bool,
    stopped_early: bool,
}

impl TrialOrchestrator {
    /// The policy this run was started with.
    pub closed spec fn policy(&self) -> RunPolicy {
        self.policy
    }

    /// The records collected so far, in trial order.
    pub closed spec fn records_view(&self) -> Seq<TrialRecord> {
        self.records@
    }

    /// The compile step failed before the run could start.
    pub closed spec fn compile_failed(&self) -> bool {
        self.compile_failed
    }

    /// The run stopped before reaching the requested trial count.
    pub closed spec fn stopped_early(&self) -> bool {
        self.stopped_early
    }

    /// The run is still owed another trial.
    pub open spec fn wants_more(&self) -> bool {
        !self.compile_failed() && !self.stopped_early() && self.records_view().len()
            < self.policy().test_cases
    }

    /// Internal consistency of a run: records are indexed consecutively
    /// from zero, never more of them than requested trials, none at all
    /// after a failed compile, everything before the last record accepted
    /// when stopping early is on, and the early-stop mark set exactly when
    /// the policy and the last verdict call for it.
    pub closed spec fn wf(&self) -> bool {
        &&& self.records@.len() <= self.policy.test_cases
        &&& forall|i: int|
            0 <= i < self.records@.len() ==> (#[trigger] self.records@[i]).index == i
        &&& (self.compile_failed ==> self.records@.len() == 0)
        &&& (self.policy.break_bad ==> forall|i: int|
            0 <= i < self.records@.len() - 1 ==> (#[trigger] self.records@[i]).verdict
                == Verdict::Accepted)
        &&& self.stopped_early == (self.policy.break_bad && self.records@.len() > 0
            && self.records@.last().verdict != Verdict::Accepted)
    }

    /// Open a run. When the compile step failed, the run is already over:
    /// it will issue no trial and report the failure through
    /// `run_verdict`.
    pub fn new(policy: RunPolicy, compile_ok: bool) -> (o: Self)
        ensures
            o.wf(),
            o.policy() == policy,
            o.records_view() =~= Seq::<TrialRecord>::empty(),
            o.compile_failed() == !compile_ok,
            o.stopped_early() == false,
    {
        TrialOrchestrator {
            policy,
            records: Vec::new(),
            compile_failed: !compile_ok,
            stopped_early: false,
        }
    }

    /// The index of the next trial to run, or nothing when the run is
    /// over: after a failed compile, after an early stop, or once the
    /// requested count is reached.
    pub fn next_trial(&self) -> (r: Option<u32>)
        requires
            self.wf(),
        ensures
            r is Some <==> self.wants_more(),
            r is Some ==> r->0 == self.records_view().len(),
    {
        if self.compile_failed || self.stopped_early {
            None
        } else if self.records.len() < self.policy.test_cases as usize {
            Some(self.records.len() as u32)
        } else {
            None
        }
    }

    /// Append the record of the trial that just finished. The record gets
    /// the next free index; when the policy stops on the first bad
    /// verdict, a non-accepted verdict closes the run.
    pub fn record_trial(
        &mut self,
        verdict: Verdict,
        elapsed_ms: u64,
        peak_memory_kb: u64,
        saved_input: Option<String>,
    )
        requires
            old(self).wf(),
            old(self).wants_more(),
        ensures
            final(self).wf(),
            final(self).policy() == old(self).policy(),
            final(self).compile_failed() == old(self).compile_failed(),
            final(self).records_view() =~= old(self).records_view().push(
                TrialRecord {
                    index: old(self).records_view().len() as u32,
                    verdict,
                    elapsed_ms,
                    peak_memory_kb,
                    saved_input,
                },
            ),
            final(self).stopped_early() == (old(self).policy().break_bad && verdict
                != Verdict::Accepted),
    {
        let index = self.records.len() as u32;
        self.records.push(
            TrialRecord { index, verdict, elapsed_ms, peak_memory_kb, saved_input },
        );
        if self.policy.break_bad && verdict != Verdict::Accepted {
            self.stopped_early = true;
        }
    }

    /// The records collected so far, in trial order.
    pub fn records(&self) -> (r: &Vec<TrialRecord>)
        ensures
            r@ == self.records_view(),
    {
        &self.records
    }

    /// The run ended early, before the requested trial count.
    pub fn is_stopped_early(&self) -> (r: bool)
        ensures
            r == self.stopped_early(),
    {
        self.stopped_early
    }

    /// The compile step failed, so the run never issued a trial.
    pub fn is_compile_failed(&self) -> (r: bool)
        ensures
            r == self.compile_failed(),
    {
        self.compile_failed
    }

    /// The verdict of the run as a whole: a failed compile is reported
    /// once for the whole run; otherwise the run is accepted exactly when
    /// every recorded trial was, and a failed run carries the verdict of
    /// its most recent non-accepted trial.
    pub fn run_verdict(&self) -> (v: Verdict)
        requires
            self.wf(),
        ensures
            v == if self.compile_failed() {
                Verdict::CompileError
            } else {
                aggregate_verdict(self.records_view())
            },
    {
        if self.compile_failed {
            return Verdict::CompileError;
        }
        proof {
            assert(self.records@.take(0) =~= Seq::<TrialRecord>::empty());
        }
        let mut i: usize = 0;
        let mut v = Verdict::Accepted;
        while i < self.records.len()
            invariant
                0 <= i <= self.records@.len(),
                v == aggregate_verdict(self.records@.take(i as int)),
            decreases self.records@.len() - i,
        {
            proof {
                assert(self.records@.take(i + 1).drop_last() =~= self.records@.take(i as int));
                assert(self.records@.take(i + 1).last() == self.records@[i as int]);
            }
            let rv = self.records[i].verdict;
            if rv != Verdict::Accepted {
                v = rv;
            }
            i = i + 1;
        }
        proof {
            assert(self.records@.take(self.records@.len() as int) =~= self.records@);
        }
        v
    }

    /// Count the records that carry each verdict.
    pub fn summary(&self) -> (s: RunSummary)
        requires
            self.wf(),
        ensures
            s.accepted == count_verdict(self.records_view(), Verdict::Accepted),
            s.wrong_answer == count_verdict(self.records_view(), Verdict::WrongAnswer),
            s.time_limit_exceeded == count_verdict(self.records_view(), Verdict::TimeLimitExceeded),
            s.runtime_error == count_verdict(self.records_view(), Verdict::RuntimeError),
            s.memory_limit_exceeded == count_verdict(
                self.records_view(),
                Verdict::MemoryLimitExceeded,
            ),
    {
        let mut s = RunSummary {
            accepted: 0,
            wrong_answer: 0,
            time_limit_exceeded: 0,
            runtime_error: 0,
            memory_limit_exceeded: 0,
        };
        let mut i: usize = 0;
        proof {
            assert(self.records@.take(0) =~= Seq::<TrialRecord>::empty());
        }
        while i < self.records.len()
            invariant
                0 <= i <= self.records@.len(),
                self.records@.len() <= u32::MAX,
                s.accepted == count_verdict(self.records@.take(i as int), Verdict::Accepted),
                s.wrong_answer == count_verdict(self.records@.take(i as int), Verdict::WrongAnswer),
                s.time_limit_exceeded == count_verdict(
                    self.records@.take(i as int),
                    Verdict::TimeLimitExceeded,
                ),
                s.runtime_error == count_verdict(self.records@.take(i as int), Verdict::RuntimeError),
                s.memory_limit_exceeded == count_verdict(
                    self.records@.take(i as int),
                    Verdict::MemoryLimitExceeded,
                ),
            decreases self.records@.len() - i,
        {
            proof {
                assert(self.records@.take(i + 1).drop_last() =~= self.records@.take(i as int));
                assert(self.records@.take(i + 1).last() == self.records@[i as int]);
                lemma_count_verdict_le_len(self.records@.take(i + 1), Verdict::Accepted);
                lemma_count_verdict_le_len(self.records@.take(i + 1), Verdict::WrongAnswer);
                lemma_count_verdict_le_len(self.records@.take(i + 1), Verdict::TimeLimitExceeded);
                lemma_count_verdict_le_len(self.records@.take(i + 1), Verdict::RuntimeError);
                lemma_count_verdict_le_len(self.records@.take(i + 1), Verdict::MemoryLimitExceeded);
            }
            match self.records[i].verdict {
                Verdict::Accepted => {
                    s.accepted = s.accepted + 1;
                },
                Verdict::WrongAnswer => {
                    s.wrong_answer = s.wrong_answer + 1;
                },
                Verdict::TimeLimitExceeded => {
                    s.time_limit_exceeded = s.time_limit_exceeded + 1;
                },
                Verdict::RuntimeError => {
                    s.runtime_error = s.runtime_error + 1;
                },
                Verdict::MemoryLimitExceeded => {
                    s.memory_limit_exceeded = s.memory_limit_exceeded + 1;
                },
                Verdict::CompileError => {},
            }
            i = i + 1;
        }
        proof {
            assert(self.records@.take(self.records@.len() as int) =~= self.records@);
        }
        s
    }
}

/// Aggregate verdict counts of one run. A compile failure aborts the run
/// before any trial, so it never appears in a per-trial count.
#[derive(Clone, Copy, Debug, PartialEq, Eq, Structural)]
pub struct RunSummary {
    pub accepted: u32,
    pub wrong_answer: u32,
    pub time_limit_exceeded: u32,
    pub runtime_error: u32,
    pub memory_limit_exceeded: u32,
}

/// No verdict can be counted more often than there are records.
proof fn lemma_count_verdict_le_len(records: Seq<TrialRecord>, v: Verdict)
    ensures
        count_verdict(records, v) <= records.len(),
    decreases records.len(),
{
    if records.len() > 0 {
        lemma_count_verdict_le_len(records.drop_last(), v);
    }
}

/// Drive a whole run against a fixed script of per-trial outcomes: the
/// deterministic stand-in for the real process runner. The records that
/// come out are exactly what `run_model` says the policy makes of the
/// scripted outcomes; after a failed compile the run holds no records at
/// all and no trial outcome is ever consumed.
pub fn run_scripted(policy: RunPolicy, compile_ok: bool, outcomes: &Vec<Verdict>) -> (o:
    TrialOrchestrator)
    requires
        outcomes@.len() >= policy.test_cases,
    ensures
        o.wf(),
        o.policy() == policy,
        o.compile_failed() == !compile_ok,
        compile_ok ==> verdicts_of(o.records_view()) =~= run_model(
            policy.break_bad,
            outcomes@.take(policy.test_cases as int),
        ),
        !compile_ok ==> o.records_view().len() == 0,
{
    let mut o = TrialOrchestrator::new(policy, compile_ok);
    proof {
        assert(verdicts_of(o.records_view()) =~= outcomes@.take(0));
    }
    loop
        invariant
            o.wf(),
            o.policy() == policy,
            o.compile_failed() == !compile_ok,
            outcomes@.len() >= policy.test_cases,
            verdicts_of(o.records_view()) =~= outcomes@.take(o.records_view().len() as int),
        ensures
            o.wf(),
            o.policy() == policy,
            o.compile_failed() == !compile_ok,
            !o.wants_more(),
            verdicts_of(o.records_view()) =~= outcomes@.take(o.records_view().len() as int),
        decreases policy.test_cases - o.records_view().len(),
    {
        let next = o.next_trial();
        match next {
            Option::None => {
                break ;
            },
            Option::Some(i) => {
                let ghost len0 = o.records_view().len() as int;
                let v = outcomes[i as usize];
                o.record_trial(v, 0, 0, Option::None);
                proof {
                    assert(verdicts_of(o.records_view()) =~= outcomes@.take(len0 + 1));
                }
            },
        }
    }
    proof {
        let n = policy.test_cases as int;
        let len = o.records_view().len() as int;
        let recs = verdicts_of(o.records_view());
        if !o.compile_failed() {
            if len == n {
                assert forall|i: int|
                    policy.break_bad && 0 <= i < recs.len() - 1 implies recs[i]
                    == Verdict::Accepted by {
                    assert(o.records_view()[i].verdict == Verdict::Accepted);
                }
                lemma_run_model_no_early_stop(policy.break_bad, recs);
            } else {
                // the run stopped early: its last record is the first bad one
                assert(o.stopped_early());
                assert(policy.break_bad);
                assert(o.records_view().last().verdict != Verdict::Accepted);
                assert(outcomes@.take(n)[len - 1] != Verdict::Accepted);
                assert forall|i: int| 0 <= i < len - 1 implies outcomes@.take(n)[i]
                    == Verdict::Accepted by {
                    assert(o.records_view()[i].verdict == Verdict::Accepted);
                    assert(recs[i] == outcomes@[i]);
                }
                lemma_run_stops_at_first_bad(outcomes@.take(n), len - 1);
                assert(outcomes@.take(n).take(len) =~= outcomes@.take(len));
            }
        }
    }
    o
}

} // verus!
