//! What becomes of a tool's run: a log, an omission, or the end of the
//! batch, by the criticality of the tool.

use vstd::prelude::*;
use crate::strategy::Criticality;

verus! {

/// The ways in which a run can fail.
#[derive(Clone, Copy, Debug, PartialEq, Eq, Structural)]
pub enum FailureKind {
    /// The executable could not be started.
    Spawn,
    /// The process could not be waited for, or ended badly.
    Crash,
    /// The captured output is not one object of the tool's schema.
    Decode,
}

impl FailureKind {
    /// What went wrong, in words.
    pub open spec fn spec_describe(self) -> Seq<char> {
        match self {
            FailureKind::Spawn => "could not start the executable"@,
            FailureKind::Crash => "the process did not end cleanly"@,
            FailureKind::Decode => "the output is not one log object"@,
        }
    }

    pub fn describe(&self) -> (s: &'static str)
        ensures
            s@ == self.spec_describe(),
    {
        match self {
            FailureKind::Spawn => "could not start the executable",
            FailureKind::Crash => "the process did not end cleanly",
            FailureKind::Decode => "the output is not one log object",
        }
    }
}

/// How one run of a tool ended.
#[derive(Clone, Debug, PartialEq, Eq)]
pub enum RunOutcome<L> {
    Decoded(L),
    Failed(FailureKind),
}

/// What the record takes from a run.
#[derive(Clone, Debug, PartialEq, Eq)]
pub enum Resolution<L> {
    /// The tool's log goes into the record.
    Log(L),
    /// The record goes without this tool's log. The failure is to be
    /// shown only where `diagnostic` holds it.
    NoLog { diagnostic: Option<FailureKind> },
    /// The batch cannot go on.
    Fatal(FailureKind),
}

/// How a run ended, from what was seen of it: a tool that did not start
/// failed to spawn; one that started and did not end cleanly crashed; one
/// that ended cleanly without a decodable log failed to decode.
pub open spec fn classified<L>(spawned: bool, exited_cleanly: bool, decoded: Option<L>)
    -> RunOutcome<L> {
    if !spawned {
        RunOutcome::Failed(FailureKind::Spawn)
    } else if !exited_cleanly {
        RunOutcome::Failed(FailureKind::Crash)
    } else {
        match decoded {
            Some(log) => RunOutcome::Decoded(log),
            None => RunOutcome::Failed(FailureKind::Decode),
        }
    }
}

/// Names the outcome of a run.
pub fn classify<L>(spawned: bool, exited_cleanly: bool, decoded: Option<L>) -> (r: RunOutcome<L>)
    ensures
        r == classified(spawned, exited_cleanly, decoded),
{
    if !spawned {
        RunOutcome::Failed(FailureKind::Spawn)
    } else if !exited_cleanly {
        RunOutcome::Failed(FailureKind::Crash)
    } else {
        match decoded {
            Some(log) => RunOutcome::Decoded(log),
            None => RunOutcome::Failed(FailureKind::Decode),
        }
    }
}

/// Whether the bytes are one JSON object and nothing else.
pub uninterp spec fn holds_one_json_object(bytes: Seq<u8>) -> bool;

/// Parses the bytes with `serde_json::from_slice` as a `serde_json::Value`.
/// Trusted, not proved: the answer depends on the bytes alone, and it is
/// `true` exactly when the parser accepts them as a single JSON value,
/// with nothing but whitespace around it, and that value is an object.
#[verifier::external_body]
fn is_one_json_object(bytes: &[u8]) -> (b: bool)
    ensures
        b == holds_one_json_object(bytes@),
{
    matches!(serde_json::from_slice::<serde_json::Value>(bytes), Ok(serde_json::Value::Object(_)))
}

/// What counts as the log of an output: what was decoded from it, and
/// nothing where the output is not one JSON object.
pub open spec fn framed<L>(one_object: bool, decoded: Option<L>) -> Option<L> {
    if one_object {
        decoded
    } else {
        None
    }
}

/// Drops what was decoded from an output that is not one JSON object.
pub fn frame<L>(one_object: bool, decoded: Option<L>) -> (r: Option<L>)
    ensures
        r == framed(one_object, decoded),
{
    if one_object {
        decoded
    } else {
        None
    }
}

/// Names the outcome of a run from its captured output and what was
/// decoded from it: an output that is not one JSON object is a decode
/// failure, whatever was decoded.
pub fn classify_output<L>(
    spawned: bool,
    exited_cleanly: bool,
    stdout: &[u8],
    decoded: Option<L>,
) -> (r: RunOutcome<L>)
    ensures
        r == classified(
            spawned,
            exited_cleanly,
            framed(holds_one_json_object(stdout@), decoded),
        ),
{
    let one_object = is_one_json_object(stdout);
    classify(spawned, exited_cleanly, frame(one_object, decoded))
}

/// A decoded log is always kept. A failure of a mandatory tool is fatal;
/// one of an optional tool is an omission, shown only in debug mode.
pub open spec fn resolved<L>(criticality: Criticality, outcome: RunOutcome<L>, debug: bool)
    -> Resolution<L> {
    match outcome {
        RunOutcome::Decoded(log) => Resolution::Log(log),
        RunOutcome::Failed(kind) => match criticality {
            Criticality::Mandatory => Resolution::Fatal(kind),
            Criticality::Optional => Resolution::NoLog {
                diagnostic: if debug {
                    Some(kind)
                } else {
                    None
                },
            },
        },
    }
}

/// Decides what the record takes from a run.
pub fn resolve<L>(criticality: Criticality, outcome: RunOutcome<L>, debug: bool) -> (r: Resolution<
    L,
>)
    ensures
        r == resolved(criticality, outcome, debug),
{
    match outcome {
        RunOutcome::Decoded(log) => Resolution::Log(log),
        RunOutcome::Failed(kind) => match criticality {
            Criticality::Mandatory => Resolution::Fatal(kind),
            Criticality::Optional => Resolution::NoLog {
                diagnostic: if debug {
                    Some(kind)
                } else {
                    None
                },
            },
        },
    }
}

/// The debug flag changes what is shown, never what is kept: with and
/// without it a run resolves to the same log, to an omission or to a fatal
/// failure alike.
pub proof fn lemma_debug_keeps_resolution<L>(criticality: Criticality, outcome: RunOutcome<L>)
    ensures
        resolved(criticality, outcome, true) is Log <==> resolved(criticality, outcome, false) is Log,
        resolved(criticality, outcome, true) is Fatal <==> resolved(
            criticality,
            outcome,
            false,
        ) is Fatal,
        resolved(criticality, outcome, true) is NoLog <==> resolved(
            criticality,
            outcome,
            false,
        ) is NoLog,
        !(resolved(criticality, outcome, true) is NoLog) ==> resolved(criticality, outcome, true)
            == resolved(criticality, outcome, false),
{
}

/// A failure of an optional tool never ends the batch.
pub proof fn lemma_optional_never_fatal<L>(outcome: RunOutcome<L>, debug: bool)
    ensures
        !(resolved(Criticality::Optional, outcome, debug) is Fatal),
{
}

} // verus!
