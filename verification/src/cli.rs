//! The command-line surface, as plain data: which subcommand was asked
//! for and with which files and limits. Parsing the actual argument list
//! belongs to the unverified shell, which fills this in.

use vstd::prelude::*;

verus! {

/// One invocation of the harness.
#[derive(Debug, Clone)]
pub enum Opt {
    /// Check that the target never runs into the time limit on inputs
    /// from the generator.
    TLE { target_file: String, gen_file: String, timeout: i32, test_cases: i32 },
    /// Check the target's correctness against a slower reference program
    /// on inputs from the generator.
    Compare {
        target_file: String,
        slow_file: String,
        gen_file: String,
        timeout: i32,
        test_cases: i32,
    },
}

} // verus!
