//! The text block that a record is shown as.

use vstd::prelude::*;
use vstd::string::*;
use crate::ratio::Ratio;
use crate::record::{BenchmarkLog, RsddBenchmarkLog};
use crate::strategy::{CompilationMode, ToolFamily};
use crate::text::{decimal, push_decimal, push_seconds, seconds_text};

verus! {

/// The first line of a block: the file and the strategy's display form.
pub open spec fn header_text(file: Seq<char>, mode: CompilationMode) -> Seq<char> {
    "Benchmark: "@ + file + " (strategy: "@ + mode.spec_label() + ")..."@
}

/// How much longer the comparison tool took than the baseline, with both
/// durations.
pub open spec fn speedup_text(tool: ToolFamily, baseline_nanos: u64, tool_nanos: u64) -> Seq<
    char,
> {
    (Ratio { numerator: tool_nanos, denominator: baseline_nanos }).text() + "x speedup (rsdd: "@
        + seconds_text(baseline_nanos as nat) + "s, "@ + tool.spec_name() + ": "@ + seconds_text(
        tool_nanos as nat,
    ) + "s)"@
}

/// The baseline's artifact size over that of libsdd, with both sizes.
pub open spec fn size_text(baseline_size: usize, sdd_size: usize) -> Seq<char> {
    (Ratio { numerator: baseline_size as u64, denominator: sdd_size as u64 }).text()
        + "x circuit size (rsdd: "@ + decimal(baseline_size as nat) + ", sdd: "@ + decimal(
        sdd_size as nat,
    ) + ")"@
}

/// What stands in place of a comparison when a tool reported nothing: a
/// line that says so, then the baseline's own figures.
pub open spec fn absent_text(tool: ToolFamily, baseline_nanos: u64, baseline_size: usize) -> Seq<
    char,
> {
    "no "@ + tool.spec_name() + " run reported\nrsdd: "@ + seconds_text(baseline_nanos as nat)
        + "s, "@ + decimal(baseline_size as nat) + " size"@
}

/// The baseline against libsdd.
pub open spec fn sdd_block(log: BenchmarkLog) -> Seq<char> {
    match log.sdd {
        Some(sdd) => speedup_text(
            ToolFamily::Sdd,
            log.rsdd.time_nanos,
            sdd.compilation_time_nanos,
        ) + "\n"@ + size_text(log.rsdd.circuit_size, sdd.sdd_size) + "\n"@,
        None => absent_text(ToolFamily::Sdd, log.rsdd.time_nanos, log.rsdd.circuit_size),
    }
}

/// The baseline against the OBDD compiler.
pub open spec fn cnf2obdd_block(log: BenchmarkLog) -> Seq<char> {
    match log.cnf2obdd {
        Some(other) => speedup_text(ToolFamily::Cnf2Obdd, log.rsdd.time_nanos, other.time_nanos),
        None => absent_text(ToolFamily::Cnf2Obdd, log.rsdd.time_nanos, log.rsdd.circuit_size),
    }
}

/// The whole block for one record.
pub open spec fn record_text(log: BenchmarkLog) -> Seq<char> {
    "===\n"@ + header_text(log.file@, log.mode) + "\n---\nrsdd v sdd\n"@ + sdd_block(log)
        + "\n---\nrsdd v cnf2obdd\n"@ + cnf2obdd_block(log)
}

/// Renders the header line.
pub fn render_header(file: &str, mode: CompilationMode) -> (s: String)
    ensures
        s@ == header_text(file@, mode),
{
    let mut s = String::from_str("Benchmark: ");
    s.append(file);
    s.append(" (strategy: ");
    s.append(mode.label());
    s.append(")...");
    s
}

/// Renders the comparison of two durations.
pub fn render_speedup(tool: ToolFamily, baseline_nanos: u64, tool_nanos: u64) -> (s: String)
    ensures
        s@ == speedup_text(tool, baseline_nanos, tool_nanos),
{
    let mut s = Ratio::new(tool_nanos, baseline_nanos).render();
    s.append("x speedup (rsdd: ");
    push_seconds(&mut s, baseline_nanos);
    s.append("s, ");
    s.append(tool.name());
    s.append(": ");
    push_seconds(&mut s, tool_nanos);
    s.append("s)");
    s
}

/// Renders the comparison of two artifact sizes.
pub fn render_size(baseline_size: usize, sdd_size: usize) -> (s: String)
    ensures
        s@ == size_text(baseline_size, sdd_size),
{
    let mut s = Ratio::new(baseline_size as u64, sdd_size as u64).render();
    s.append("x circuit size (rsdd: ");
    push_decimal(&mut s, baseline_size as u128);
    s.append(", sdd: ");
    push_decimal(&mut s, sdd_size as u128);
    s.append(")");
    s
}

/// Renders the lines for a tool that reported nothing.
pub fn render_absent(tool: ToolFamily, baseline: &RsddBenchmarkLog) -> (s: String)
    ensures
        s@ == absent_text(tool, baseline.time_nanos, baseline.circuit_size),
{
    let mut s = String::from_str("no ");
    s.append(tool.name());
    s.append(" run reported\nrsdd: ");
    push_seconds(&mut s, baseline.time_nanos);
    s.append("s, ");
    push_decimal(&mut s, baseline.circuit_size as u128);
    s.append(" size");
    s
}

impl BenchmarkLog {
    /// Renders one record: the header, then one part for each comparison
    /// tool, which holds either the ratios or the statement that the tool
    /// reported nothing.
    pub fn render(&self) -> (s: String)
        ensures
            s@ == record_text(*self),
    {
        let header = render_header(self.file.as_str(), self.mode);
        let rsdd_v_sdd = match &self.sdd {
            Some(sdd) => {
                let mut part = render_speedup(
                    ToolFamily::Sdd,
                    self.rsdd.time_nanos,
                    sdd.compilation_time_nanos,
                );
                let size = render_size(self.rsdd.circuit_size, sdd.sdd_size);
                part.append("\n");
                part.append(size.as_str());
                part.append("\n");
                part
            },
            None => render_absent(ToolFamily::Sdd, &self.rsdd),
        };
        let rsdd_v_cnf2obdd = match &self.cnf2obdd {
            Some(other) => render_speedup(ToolFamily::Cnf2Obdd, self.rsdd.time_nanos, other.time_nanos),
            None => render_absent(ToolFamily::Cnf2Obdd, &self.rsdd),
        };
        let mut s = String::from_str("===\n");
        s.append(header.as_str());
        s.append("\n---\nrsdd v sdd\n");
        s.append(rsdd_v_sdd.as_str());
        s.append("\n---\nrsdd v cnf2obdd\n");
        s.append(rsdd_v_cnf2obdd.as_str());
        s
    }
}

/// Renders every record of a batch, in the batch's order.
pub fn render_batch(records: &Vec<BenchmarkLog>) -> (blocks: Vec<String>)
    ensures
        blocks@.len() == records@.len(),
        forall|i: int| 0 <= i < records@.len() ==> (#[trigger] blocks@[i])@ == record_text(records@[i]),
{
    let mut blocks: Vec<String> = Vec::new();
    let mut i: usize = 0;
    while i < records.len()
        invariant
            i <= records@.len(),
            blocks@.len() == i,
            forall|j: int| 0 <= j < i ==> (#[trigger] blocks@[j])@ == record_text(records@[j]),
        decreases records@.len() - i,
    {
        blocks.push(records[i].render());
        i = i + 1;
    }
    blocks
}

} // verus!
