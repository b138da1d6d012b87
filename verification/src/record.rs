//! What each tool reports of one compilation, and the record that sets
//! the reports for one input file side by side.

use vstd::prelude::*;
use crate::strategy::CompilationMode;

verus! {

/// What the libsdd compiler reports. Durations are whole nanoseconds.
#[derive(Clone, Debug, PartialEq, Eq)]
pub struct SddBenchmarkLog {
    pub compilation_time_nanos: u64,
    pub sdd_size: usize,
    pub sdd_count: usize,
}

/// What the baseline compiler reports.
#[derive(Clone, Debug, PartialEq, Eq)]
pub struct RsddBenchmarkLog {
    pub name: String,
    pub num_recursive: usize,
    pub time_nanos: u64,
    pub circuit_size: usize,
    pub mode: String,
}

/// What the OBDD compiler reports.
#[derive(Clone, Debug, PartialEq, Eq)]
pub struct Cnf2ObddBenchmarkLog {
    pub time_nanos: u64,
}

/// The reports for one input file under one strategy. The baseline report
/// is always there; each comparison report is there or not on its own.
#[derive(Clone, Debug, PartialEq, Eq)]
pub struct BenchmarkLog {
    pub file: String,
    pub mode: CompilationMode,
    pub rsdd: RsddBenchmarkLog,
    pub cnf2obdd: Option<Cnf2ObddBenchmarkLog>,
    pub sdd: Option<SddBenchmarkLog>,
}

} // verus!
