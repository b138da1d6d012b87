//! The batch: which tools to call for each input file, and how their
//! outcomes become one record per file, in the order of the files.

use vstd::prelude::*;
use vstd::string::*;
use crate::adapter::{resolve, FailureKind, Resolution, RunOutcome};
use crate::invocation::{invocation, Invocation};
use crate::record::{BenchmarkLog, Cnf2ObddBenchmarkLog, RsddBenchmarkLog, SddBenchmarkLog};
use crate::strategy::{CompilationMode, ToolFamily};

verus! {

/// Where the executable of each tool family is.
#[derive(Clone, Debug, PartialEq, Eq)]
pub struct ToolPaths {
    pub rsdd: String,
    pub sdd: String,
    pub cnf2obdd: String,
}

/// The calls to make for one input file: the baseline always, each
/// comparison tool only where it supports the strategy.
#[derive(Clone, Debug, PartialEq, Eq)]
pub struct FilePlan {
    pub rsdd: Invocation,
    pub cnf2obdd: Option<Invocation>,
    pub sdd: Option<Invocation>,
}

/// The failures of comparison tools that are to be shown for one file.
#[derive(Clone, Copy, Debug, PartialEq, Eq, Structural)]
pub struct Notes {
    pub cnf2obdd: Option<FailureKind>,
    pub sdd: Option<FailureKind>,
}

/// The failure that ended a batch.
#[derive(Clone, Debug, PartialEq, Eq)]
pub struct Fatal {
    pub tool: ToolFamily,
    pub file: String,
    pub kind: FailureKind,
}

/// The diagnostic for a fatal failure: the tool, the file and what went
/// wrong.
pub open spec fn fatal_text(fatal: Fatal) -> Seq<char> {
    fatal.tool.spec_name() + " failure on "@ + fatal.file@ + ": "@ + fatal.kind.spec_describe()
}

impl Fatal {
    /// The diagnostic to show before the process ends.
    pub fn message(&self) -> (s: String)
        ensures
            s@ == fatal_text(*self),
    {
        let mut s = String::from_str(self.tool.name());
        s.append(" failure on ");
        s.append(self.file.as_str());
        s.append(": ");
        s.append(self.kind.describe());
        s
    }
}

/// The status with which the process ends: zero after a batch that ran to
/// its end, whatever the comparison tools did, and one after a fatal
/// failure.
pub fn exit_status(outcome: &Result<Vec<BenchmarkLog>, Fatal>) -> (code: u8)
    ensures
        code == (if outcome is Ok {
            0u8
        } else {
            1u8
        }),
{
    match outcome {
        Ok(_) => 0,
        Err(_) => 1,
    }
}

/// Whether the report is to be written out: only where a place for it was
/// given.
pub fn wants_persisting(output: &str) -> (b: bool)
    ensures
        b == (output@.len() != 0),
{
    !output.is_empty()
}

/// The conventional place of a family's executable.
pub open spec fn spec_default_path(tool: ToolFamily) -> Seq<char> {
    match tool {
        ToolFamily::Rsdd => "./rsdd"@,
        ToolFamily::Sdd => "./sdd"@,
        ToolFamily::Cnf2Obdd => "./cnf2obdd"@,
    }
}

pub fn default_path(tool: ToolFamily) -> (p: &'static str)
    ensures
        p@ == spec_default_path(tool),
{
    match tool {
        ToolFamily::Rsdd => "./rsdd",
        ToolFamily::Sdd => "./sdd",
        ToolFamily::Cnf2Obdd => "./cnf2obdd",
    }
}

/// Whether a plan is the one for `file`: the baseline's call, and for each
/// comparison tool its call exactly where it supports the strategy.
pub open spec fn plans(
    plan: FilePlan,
    paths: ToolPaths,
    file: Seq<char>,
    mode: CompilationMode,
    debug: bool,
) -> bool {
    &&& plan.rsdd.is_for(ToolFamily::Rsdd, paths.rsdd@, file, mode, debug)
    &&& plan.cnf2obdd.is_some() == mode.supports(ToolFamily::Cnf2Obdd)
    &&& plan.cnf2obdd matches Some(inv) ==> inv.is_for(
        ToolFamily::Cnf2Obdd,
        paths.cnf2obdd@,
        file,
        mode,
        debug,
    )
    &&& plan.sdd.is_some() == mode.supports(ToolFamily::Sdd)
    &&& plan.sdd matches Some(inv) ==> inv.is_for(ToolFamily::Sdd, paths.sdd@, file, mode, debug)
}

/// Plans the calls for one input file.
pub fn plan_file(paths: &ToolPaths, file: &str, mode: CompilationMode, debug: bool) -> (plan:
    FilePlan)
    ensures
        plans(plan, *paths, file@, mode, debug),
{
    let rsdd = invocation(ToolFamily::Rsdd, paths.rsdd.as_str(), file, mode, debug).unwrap();
    let cnf2obdd = invocation(ToolFamily::Cnf2Obdd, paths.cnf2obdd.as_str(), file, mode, debug);
    let sdd = invocation(ToolFamily::Sdd, paths.sdd.as_str(), file, mode, debug);
    FilePlan { rsdd, cnf2obdd, sdd }
}

/// The log that a record keeps of a comparison tool: the decoded one, and
/// none where the tool does not support the strategy, was not run, or
/// failed.
pub open spec fn kept<L>(supported: bool, outcome: Option<RunOutcome<L>>) -> Option<L> {
    if supported {
        match outcome {
            Some(RunOutcome::Decoded(log)) => Some(log),
            _ => None,
        }
    } else {
        None
    }
}

/// The failure of a comparison tool that is to be shown: only in debug
/// mode, and only of a tool that supports the strategy.
pub open spec fn noted<L>(supported: bool, debug: bool, outcome: Option<RunOutcome<L>>) -> Option<
    FailureKind,
> {
    if supported && debug {
        match outcome {
            Some(RunOutcome::Failed(kind)) => Some(kind),
            _ => None,
        }
    } else {
        None
    }
}

/// Settles the outcome of a comparison tool.
fn settle<L>(tool: ToolFamily, mode: CompilationMode, debug: bool, outcome: Option<RunOutcome<L>>)
    -> (r: (Option<L>, Option<FailureKind>))
    requires
        tool.spec_criticality() == crate::strategy::Criticality::Optional,
    ensures
        r.0 == kept(mode.supports(tool), outcome),
        r.1 == noted(mode.supports(tool), debug, outcome),
{
    if !mode.is_supported_by(tool) {
        return (None, None);
    }
    match outcome {
        None => (None, None),
        Some(o) => match resolve(tool.criticality(), o, debug) {
            Resolution::Log(log) => (Some(log), None),
            Resolution::NoLog { diagnostic } => (None, diagnostic),
            Resolution::Fatal(_) => (None, None),
        },
    }
}

/// A tool that cannot run the strategy is never called, and whatever is
/// handed in as its outcome, the record has no log of it and nothing is
/// shown for it.
pub proof fn lemma_inapplicable_tool_is_left_out<L>(
    plan: FilePlan,
    paths: ToolPaths,
    file: Seq<char>,
    mode: CompilationMode,
    debug: bool,
    tool: ToolFamily,
    outcome: Option<RunOutcome<L>>,
)
    requires
        plans(plan, paths, file, mode, debug),
        !mode.supports(tool),
    ensures
        tool != ToolFamily::Rsdd,
        tool == ToolFamily::Sdd ==> plan.sdd is None,
        tool == ToolFamily::Cnf2Obdd ==> plan.cnf2obdd is None,
        kept(mode.supports(tool), outcome) is None,
        noted(mode.supports(tool), debug, outcome) is None,
{
}

/// The debug flag never changes which log a record keeps.
pub proof fn lemma_debug_keeps_record<L>(supported: bool, outcome: Option<RunOutcome<L>>)
    ensures
        noted(supported, false, outcome) is None,
        noted(supported, true, outcome) is Some ==> kept(supported, outcome) is None,
{
}

/// Whether `record` is the record for `file` from these outcomes.
pub open spec fn records_outcomes(
    record: BenchmarkLog,
    file: Seq<char>,
    mode: CompilationMode,
    rsdd: RsddBenchmarkLog,
    cnf2obdd: Option<RunOutcome<Cnf2ObddBenchmarkLog>>,
    sdd: Option<RunOutcome<SddBenchmarkLog>>,
) -> bool {
    &&& record.file@ == file
    &&& record.mode == mode
    &&& record.rsdd == rsdd
    &&& record.cnf2obdd == kept(mode.supports(ToolFamily::Cnf2Obdd), cnf2obdd)
    &&& record.sdd == kept(mode.supports(ToolFamily::Sdd), sdd)
}

/// Assembles the record for one file. There is a record exactly when the
/// baseline was decoded, and then it holds that log; a failure of the
/// baseline is returned as fatal and nothing is made up in its place.
pub fn assemble(
    file: &str,
    mode: CompilationMode,
    debug: bool,
    rsdd: RunOutcome<RsddBenchmarkLog>,
    cnf2obdd: Option<RunOutcome<Cnf2ObddBenchmarkLog>>,
    sdd: Option<RunOutcome<SddBenchmarkLog>>,
) -> (r: Result<(BenchmarkLog, Notes), Fatal>)
    ensures
        r is Ok == rsdd is Decoded,
        r matches Ok((record, notes)) ==> {
            &&& records_outcomes(record, file@, mode, rsdd->Decoded_0, cnf2obdd, sdd)
            &&& notes.cnf2obdd == noted(mode.supports(ToolFamily::Cnf2Obdd), debug, cnf2obdd)
            &&& notes.sdd == noted(mode.supports(ToolFamily::Sdd), debug, sdd)
        },
        r matches Err(fatal) ==> {
            &&& rsdd == RunOutcome::<RsddBenchmarkLog>::Failed(fatal.kind)
            &&& fatal.tool == ToolFamily::Rsdd
            &&& fatal.file@ == file@
        },
{
    match resolve(ToolFamily::Rsdd.criticality(), rsdd, debug) {
        Resolution::Log(log) => {
            let (cnf2obdd_log, cnf2obdd_note) = settle(ToolFamily::Cnf2Obdd, mode, debug, cnf2obdd);
            let (sdd_log, sdd_note) = settle(ToolFamily::Sdd, mode, debug, sdd);
            Ok(
                (
                    BenchmarkLog {
                        file: file.to_owned(),
                        mode,
                        rsdd: log,
                        cnf2obdd: cnf2obdd_log,
                        sdd: sdd_log,
                    },
                    Notes { cnf2obdd: cnf2obdd_note, sdd: sdd_note },
                ),
            )
        },
        Resolution::Fatal(kind) => Err(Fatal { tool: ToolFamily::Rsdd, file: file.to_owned(), kind }),
        Resolution::NoLog { diagnostic: _ } => unreached(),
    }
}

/// A batch in progress: the input files, and the records of those done so
/// far.
pub struct BatchRunner {
    pub files: Vec<String>,
    pub paths: ToolPaths,
    pub mode: CompilationMode,
    pub debug: bool,
    pub records: Vec<BenchmarkLog>,
    pub failure: Option<Fatal>,
}

impl BatchRunner {
    /// The records are those of the first files, in the files' order, each
    /// under the batch's strategy.
    pub open spec fn wf(&self) -> bool {
        &&& self.records@.len() <= self.files@.len()
        &&& forall|i: int|
            0 <= i < self.records@.len() ==> (#[trigger] self.records@[i]).file@ == self.files@[i]@
                && self.records@[i].mode == self.mode
    }

    /// Whether a file is still to be run.
    pub open spec fn pending(&self) -> bool {
        self.failure is None && self.records@.len() < self.files@.len()
    }

    /// A batch of which nothing has run yet.
    pub fn new(files: Vec<String>, paths: ToolPaths, mode: CompilationMode, debug: bool) -> (r:
        BatchRunner)
        ensures
            r.wf(),
            r.files == files,
            r.paths == paths,
            r.mode == mode,
            r.debug == debug,
            r.records@.len() == 0,
            r.failure is None,
    {
        BatchRunner { files, paths, mode, debug, records: Vec::new(), failure: None }
    }

    /// The calls to make next: those for the first file without a record,
    /// or `None` once every file has one or the batch has failed.
    pub fn next_plan(&self) -> (r: Option<FilePlan>)
        ensures
            r.is_some() == self.pending(),
            r matches Some(plan) ==> plans(
                plan,
                self.paths,
                self.files@[self.records@.len() as int]@,
                self.mode,
                self.debug,
            ),
    {
        if self.failure.is_some() || self.records.len() >= self.files.len() {
            None
        } else {
            let file: &String = &self.files[self.records.len()];
            Some(plan_file(&self.paths, file.as_str(), self.mode, self.debug))
        }
    }

    /// Takes the outcomes for the file that was planned last. With a
    /// decoded baseline the file's record is added behind the others and
    /// the failures to show are returned; otherwise the batch has failed
    /// and its records stay as they were.
    pub fn complete_file(
        &mut self,
        rsdd: RunOutcome<RsddBenchmarkLog>,
        cnf2obdd: Option<RunOutcome<Cnf2ObddBenchmarkLog>>,
        sdd: Option<RunOutcome<SddBenchmarkLog>>,
    ) -> (r: Result<Notes, FailureKind>)
        requires
            old(self).wf(),
            old(self).pending(),
        ensures
            final(self).wf(),
            final(self).files == old(self).files,
            final(self).paths == old(self).paths,
            final(self).mode == old(self).mode,
            final(self).debug == old(self).debug,
            r is Ok == rsdd is Decoded,
            r matches Ok(notes) ==> {
                &&& final(self).failure is None
                &&& final(self).records@.len() == old(self).records@.len() + 1
                &&& final(self).records@.drop_last() == old(self).records@
                &&& records_outcomes(
                    final(self).records@.last(),
                    old(self).files@[old(self).records@.len() as int]@,
                    old(self).mode,
                    rsdd->Decoded_0,
                    cnf2obdd,
                    sdd,
                )
                &&& notes.cnf2obdd == noted(
                    old(self).mode.supports(ToolFamily::Cnf2Obdd),
                    old(self).debug,
                    cnf2obdd,
                )
                &&& notes.sdd == noted(old(self).mode.supports(ToolFamily::Sdd), old(self).debug, sdd)
            },
            r matches Err(kind) ==> {
                &&& rsdd == RunOutcome::<RsddBenchmarkLog>::Failed(kind)
                &&& final(self).records == old(self).records
                &&& final(self).failure matches Some(fatal) && fatal.kind == kind && fatal.tool
                    == ToolFamily::Rsdd && fatal.file@ == old(self).files@[old(
                    self,
                ).records@.len() as int]@
            },
    {
        let index: usize = self.records.len();
        let assembled = assemble(
            self.files[index].as_str(),
            self.mode,
            self.debug,
            rsdd,
            cnf2obdd,
            sdd,
        );
        match assembled {
            Ok((record, notes)) => {
                self.records.push(record);
                assert(final(self).records@.drop_last() =~= old(self).records@);
                Ok(notes)
            },
            Err(fatal) => {
                let kind = fatal.kind;
                self.failure = Some(fatal);
                Err(kind)
            },
        }
    }

    /// Ends the batch: the records in the files' order, or the failure
    /// that stopped it.
    pub fn finish(self) -> (r: Result<Vec<BenchmarkLog>, Fatal>)
        ensures
            r is Ok == self.failure is None,
            r matches Ok(records) ==> records == self.records,
            r matches Err(fatal) ==> self.failure == Some(fatal),
    {
        match self.failure {
            None => Ok(self.records),
            Some(fatal) => Err(fatal),
        }
    }
}

/// Every record of a batch that ran to its end stands at its file's place:
/// as many records as files, the i-th of the i-th file.
pub proof fn lemma_finished_batch_keeps_file_order(runner: BatchRunner)
    requires
        runner.wf(),
        runner.failure is None,
        !runner.pending(),
    ensures
        runner.records@.len() == runner.files@.len(),
        forall|i: int|
            0 <= i < runner.files@.len() ==> (#[trigger] runner.records@[i]).file@
                == runner.files@[i]@,
{
}

} // verus!
