//! The resolved parameters of a compare run: the three program files and
//! every scalar run parameter, as the excluded command-line layer hands
//! them over.

use vstd::prelude::*;

use crate::orchestrator::RunPolicy;

verus! {

/// One compare run's inputs: a target program whose correctness is in
/// question, a known-correct but slower program, and a test-case
/// generator, together with the run's limits and policy flags.
pub struct CmpCommand {
    pub target_file: String,
    pub correct_file: String,
    pub gen_file: String,
    pub timeout: u32,
    pub memory_limit: u64,
    pub test_cases: u32,
    pub break_bad: bool,
    pub save_bad: bool,
    pub save_all: bool,
    pub run_all: bool,
    pub run_ac: bool,
    pub run_wa: bool,
    pub run_tle: bool,
    pub run_rte: bool,
    pub run_mle: bool,
    pub diff: bool,
}

impl CmpCommand {
    pub fn new(
        target_file: String,
        correct_file: String,
        gen_file: String,
        timeout: u32,
        memory_limit: u64,
        test_cases: u32,
        break_bad: bool,
        save_bad: bool,
        save_all: bool,
        run_all: bool,
        run_ac: bool,
        run_wa: bool,
        run_tle: bool,
        run_rte: bool,
        run_mle: bool,
        diff: bool,
    ) -> (r: CmpCommand)
        ensures
            r.target_file@ == target_file@,
            r.correct_file@ == correct_file@,
            r.gen_file@ == gen_file@,
            r.timeout == timeout,
            r.memory_limit == memory_limit,
            r.test_cases == test_cases,
            r.break_bad == break_bad,
            r.save_bad == save_bad,
            r.save_all == save_all,
            r.run_all == run_all,
            r.run_ac == run_ac,
            r.run_wa == run_wa,
            r.run_tle == run_tle,
            r.run_rte == run_rte,
            r.run_mle == run_mle,
            r.diff == diff,
    {
        CmpCommand {
            target_file,
            correct_file,
            gen_file,
            timeout,
            memory_limit,
            test_cases,
            break_bad,
            save_bad,
            save_all,
            run_all,
            run_ac,
            run_wa,
            run_tle,
            run_rte,
            run_mle,
            diff,
        }
    }

    pub fn get_target_file(&self) -> (r: String)
        ensures
            r@ == self.target_file@,
    {
        self.target_file.clone()
    }

    pub fn get_correct_file(&self) -> (r: String)
        ensures
            r@ == self.correct_file@,
    {
        self.correct_file.clone()
    }

    pub fn get_generator_file(&self) -> (r: String)
        ensures
            r@ == self.gen_file@,
    {
        self.gen_file.clone()
    }

    pub fn get_timeout(&self) -> (r: u32)
        ensures
            r == self.timeout,
    {
        self.timeout
    }

    pub fn get_memory_limit(&self) -> (r: u64)
        ensures
            r == self.memory_limit,
    {
        self.memory_limit
    }

    pub fn get_test_cases(&self) -> (r: u32)
        ensures
            r == self.test_cases,
    {
        self.test_cases
    }

    pub fn get_break_bad(&self) -> (r: bool)
        ensures
            r == self.break_bad,
    {
        self.break_bad
    }

    pub fn get_save_bad(&self) -> (r: bool)
        ensures
            r == self.save_bad,
    {
        self.save_bad
    }

    pub fn get_save_all(&self) -> (r: bool)
        ensures
            r == self.save_all,
    {
        self.save_all
    }

    pub fn get_run_all(&self) -> (r: bool)
        ensures
            r == self.run_all,
    {
        self.run_all
    }

    pub fn get_run_ac(&self) -> (r: bool)
        ensures
            r == self.run_ac,
    {
        self.run_ac
    }

    pub fn get_run_wa(&self) -> (r: bool)
        ensures
            r == self.run_wa,
    {
        self.run_wa
    }

    pub fn get_run_tle(&self) -> (r: bool)
        ensures
            r == self.run_tle,
    {
        self.run_tle
    }

    pub fn get_run_rte(&self) -> (r: bool)
        ensures
            r == self.run_rte,
    {
        self.run_rte
    }

    pub fn get_run_mle(&self) -> (r: bool)
        ensures
            r == self.run_mle,
    {
        self.run_mle
    }

    pub fn get_diff(&self) -> (r: bool)
        ensures
            r == self.diff,
    {
        self.diff
    }

    /// The run policy this command asks for: everything of the command
    /// but the three program files.
    pub fn policy(&self) -> (r: RunPolicy)
        ensures
            r.timeout_ms == self.timeout,
            r.memory_limit_kb == self.memory_limit,
            r.test_cases == self.test_cases,
            r.break_bad == self.break_bad,
            r.save_bad == self.save_bad,
            r.save_all == self.save_all,
            r.run_all == self.run_all,
            r.run_ac == self.run_ac,
            r.run_wa == self.run_wa,
            r.run_tle == self.run_tle,
            r.run_rte == self.run_rte,
            r.run_mle == self.run_mle,
            r.diff == self.diff,
    {
        RunPolicy {
            timeout_ms: self.timeout,
            memory_limit_kb: self.memory_limit,
            test_cases: self.test_cases,
            break_bad: self.break_bad,
            save_bad: self.save_bad,
            save_all: self.save_all,
            run_all: self.run_all,
            run_ac: self.run_ac,
            run_wa: self.run_wa,
            run_tle: self.run_tle,
            run_rte: self.run_rte,
            run_mle: self.run_mle,
            diff: self.diff,
        }
    }
}

} // verus!
