//! The case store's decisions: whether a trial's artifacts are kept, and
//! the deterministic, trial-indexed file names they are kept under, so
//! that no earlier failure of the same run is ever silently overwritten.

use vstd::prelude::*;
use vstd::string::StringExecFns;

use crate::orchestrator::RunPolicy;
use crate::verdict::Verdict;

verus! {

/// The decimal digit characters of `n`, most significant first.
pub open spec fn decimal_digits(n: nat) -> Seq<char>
    decreases n,
{
    if n < 10 {
        seq![digit_char(n)]
    } else {
        decimal_digits(n / 10).push(digit_char(n % 10))
    }
}

/// The character of one decimal digit.
pub open spec fn digit_char(d: nat) -> char {
    if d == 0 {
        '0'
    } else if d == 1 {
        '1'
    } else if d == 2 {
        '2'
    } else if d == 3 {
        '3'
    } else if d == 4 {
        '4'
    } else if d == 5 {
        '5'
    } else if d == 6 {
        '6'
    } else if d == 7 {
        '7'
    } else if d == 8 {
        '8'
    } else {
        '9'
    }
}

/// One decimal digit as a string.
fn digit_str(d: u32) -> (r: &'static str)
    requires
        d < 10,
    ensures
        r@ =~= seq![digit_char(d as nat)],
{
    proof {
        reveal_strlit("0");
        reveal_strlit("1");
        reveal_strlit("2");
        reveal_strlit("3");
        reveal_strlit("4");
        reveal_strlit("5");
        reveal_strlit("6");
        reveal_strlit("7");
        reveal_strlit("8");
        reveal_strlit("9");
    }
    match d {
        0 => "0",
        1 => "1",
        2 => "2",
        3 => "3",
        4 => "4",
        5 => "5",
        6 => "6",
        7 => "7",
        8 => "8",
        _ => "9",
    }
}

/// Write a trial index in decimal.
pub fn u32_to_decimal(n: u32) -> (r: String)
    ensures
        r@ == decimal_digits(n as nat),
    decreases n,
{
    if n < 10 {
        digit_str(n).to_owned()
    } else {
        let rest = u32_to_decimal(n / 10);
        let r = rest.concat(digit_str(n % 10));
        proof {
            assert(decimal_digits((n / 10) as nat).push(digit_char((n % 10) as nat))
                =~= decimal_digits((n / 10) as nat) + seq![digit_char((n % 10) as nat)]);
        }
        r
    }
}

/// The deterministic name a trial's artifact is stored under: the
/// role-specific prefix, the trial index in decimal, and `.txt`.
pub open spec fn case_name(prefix: Seq<char>, index: nat) -> Seq<char> {
    prefix + decimal_digits(index) + ".txt"@
}

/// Build the trial-indexed file name for one artifact.
pub fn case_file_name(prefix: &str, index: u32) -> (r: String)
    ensures
        r@ == case_name(prefix@, index as nat),
{
    let num = u32_to_decimal(index);
    prefix.to_owned().concat(num.as_str()).concat(".txt")
}

/// Keep this trial's artifacts? Everything is kept under save-all;
/// otherwise only failing trials are kept, and only under save-bad.
/// Nothing already stored is ever deleted: a decision here only adds.
pub fn should_save(policy: &RunPolicy, verdict: Verdict) -> (r: bool)
    ensures
        r == (policy.save_all || (policy.save_bad && verdict != Verdict::Accepted)),
{
    policy.save_all || (policy.save_bad && verdict != Verdict::Accepted)
}

} // verus!
