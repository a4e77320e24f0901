//! Stress-testing harness for competitive-programming solutions.
//!
//! Given a target program, an input generator, and optionally a reference
//! program or a checker, the harness repeatedly produces random test inputs,
//! runs the programs under wall-clock and memory limits, classifies each
//! trial's outcome, and keeps failing cases for inspection.
//!
//! This crate holds the verified core: verdict classification, the output
//! comparator, the per-trial state machine and run orchestration, command
//! construction for the language toolchains, and the policy decisions of the
//! case store. Process spawning and file I/O live in the unverified shell
//! around it, which hands plain values in and out.

pub mod case_store;
pub mod cli;
pub mod cmp_command;
pub mod compare;
pub mod cpp;
pub mod env_replace;
pub mod language;
pub mod orchestrator;
pub mod verdict;
