//! The compilation strategies and what each tool family calls them.

use vstd::prelude::*;
use vstd::string::*;

verus! {

/// A variable-ordering policy under which a formula is compiled.
#[derive(Clone, Copy, Debug, PartialEq, Eq, Structural)]
pub enum CompilationMode {
    SDDLeftLinear,
    SDDRightLinear,
    BestFit,
    BDDBestFit,
}

/// The families of compilers that can be driven.
#[derive(Clone, Copy, Debug, PartialEq, Eq, Structural)]
pub enum ToolFamily {
    /// The baseline compiler: its log is part of every record.
    Rsdd,
    /// The libsdd command-line compiler.
    Sdd,
    /// The OBDD compiler.
    Cnf2Obdd,
}

/// How a failure of a tool weighs on the run.
#[derive(Clone, Copy, Debug, PartialEq, Eq, Structural)]
pub enum Criticality {
    Mandatory,
    Optional,
}

impl ToolFamily {
    /// Only the baseline is mandatory.
    pub open spec fn spec_criticality(self) -> Criticality {
        match self {
            ToolFamily::Rsdd => Criticality::Mandatory,
            ToolFamily::Sdd => Criticality::Optional,
            ToolFamily::Cnf2Obdd => Criticality::Optional,
        }
    }

    pub fn criticality(&self) -> (c: Criticality)
        ensures
            c == self.spec_criticality(),
    {
        match self {
            ToolFamily::Rsdd => Criticality::Mandatory,
            ToolFamily::Sdd => Criticality::Optional,
            ToolFamily::Cnf2Obdd => Criticality::Optional,
        }
    }

    /// The identifier under which the family appears in reports.
    pub open spec fn spec_name(self) -> Seq<char> {
        match self {
            ToolFamily::Rsdd => "rsdd"@,
            ToolFamily::Sdd => "sdd"@,
            ToolFamily::Cnf2Obdd => "cnf2obdd"@,
        }
    }

    pub fn name(&self) -> (s: &'static str)
        ensures
            s@ == self.spec_name(),
    {
        match self {
            ToolFamily::Rsdd => "rsdd",
            ToolFamily::Sdd => "sdd",
            ToolFamily::Cnf2Obdd => "cnf2obdd",
        }
    }
}

impl CompilationMode {
    /// The strategy's name on the libsdd command line, where it has one.
    /// libsdd has no cost-driven order to ask for by name: best fit is run
    /// as `right` there, which may not be its true counterpart.
    pub open spec fn libsdd_token(self) -> Option<Seq<char>> {
        match self {
            CompilationMode::SDDLeftLinear => Some("left"@),
            CompilationMode::SDDRightLinear => Some("right"@),
            CompilationMode::BestFit => Some("right"@),
            CompilationMode::BDDBestFit => None,
        }
    }

    /// The strategy's name on the rsdd command line.
    pub open spec fn rsdd_token(self) -> Seq<char> {
        match self {
            CompilationMode::SDDLeftLinear => "sdd_left_linear"@,
            CompilationMode::SDDRightLinear => "sdd_right_linear"@,
            CompilationMode::BestFit => "sdd_dtree_minfill"@,
            CompilationMode::BDDBestFit => "bdd_dtree_minfill"@,
        }
    }

    /// The strategy's display form.
    pub open spec fn spec_label(self) -> Seq<char> {
        match self {
            CompilationMode::SDDLeftLinear => "left linear"@,
            CompilationMode::SDDRightLinear => "right linear"@,
            CompilationMode::BestFit => "best fit"@,
            CompilationMode::BDDBestFit => "best fit (bdd)"@,
        }
    }

    /// Whether a tool family can compile under this strategy.
    pub open spec fn supports(self, tool: ToolFamily) -> bool {
        match tool {
            ToolFamily::Rsdd => true,
            ToolFamily::Sdd => self != CompilationMode::BDDBestFit,
            ToolFamily::Cnf2Obdd => self == CompilationMode::BestFit || self
                == CompilationMode::BDDBestFit,
        }
    }

    /// The libsdd token, or `None` where libsdd cannot run the strategy.
    pub fn as_libsdd(&self) -> (r: Option<&'static str>)
        ensures
            r.is_some() == self.libsdd_token().is_some(),
            r.is_some() == self.supports(ToolFamily::Sdd),
            r matches Some(s) ==> s@ == self.libsdd_token().unwrap(),
    {
        match self {
            CompilationMode::SDDLeftLinear => Some("left"),
            CompilationMode::SDDRightLinear => Some("right"),
            CompilationMode::BestFit => Some("right"),
            CompilationMode::BDDBestFit => None,
        }
    }

    /// The rsdd token; rsdd runs every strategy.
    pub fn as_rsdd(&self) -> (s: &'static str)
        ensures
            s@ == self.rsdd_token(),
    {
        match self {
            CompilationMode::SDDLeftLinear => "sdd_left_linear",
            CompilationMode::SDDRightLinear => "sdd_right_linear",
            CompilationMode::BestFit => "sdd_dtree_minfill",
            CompilationMode::BDDBestFit => "bdd_dtree_minfill",
        }
    }

    /// The display form used in report headers.
    pub fn label(&self) -> (s: &'static str)
        ensures
            s@ == self.spec_label(),
    {
        match self {
            CompilationMode::SDDLeftLinear => "left linear",
            CompilationMode::SDDRightLinear => "right linear",
            CompilationMode::BestFit => "best fit",
            CompilationMode::BDDBestFit => "best fit (bdd)",
        }
    }

    /// Decides applicability before anything is spawned.
    pub fn is_supported_by(&self, tool: ToolFamily) -> (b: bool)
        ensures
            b == self.supports(tool),
    {
        match tool {
            ToolFamily::Rsdd => true,
            ToolFamily::Sdd => !matches!(self, CompilationMode::BDDBestFit),
            ToolFamily::Cnf2Obdd => matches!(
                self,
                CompilationMode::BestFit | CompilationMode::BDDBestFit
            ),
        }
    }
}

/// libsdd has a name for a strategy exactly where it can run it, and the
/// baseline can run every strategy.
pub proof fn lemma_token_where_supported(mode: CompilationMode)
    ensures
        mode.libsdd_token() is Some == mode.supports(ToolFamily::Sdd),
        mode.supports(ToolFamily::Rsdd),
{
}

/// The strategy that a selector names; anything unrecognised selects the
/// right-linear strategy.
pub open spec fn mode_of(selector: Seq<char>) -> CompilationMode {
    if selector == "left"@ {
        CompilationMode::SDDLeftLinear
    } else if selector == "best"@ {
        CompilationMode::BestFit
    } else if selector == "best-bdd"@ || selector == "bdd-best"@ {
        CompilationMode::BDDBestFit
    } else {
        CompilationMode::SDDRightLinear
    }
}

/// Whether two strings hold the same characters.
pub fn same_text(a: &str, b: &str) -> (r: bool)
    ensures
        r == (a@ == b@),
{
    let x: String = a.to_owned();
    let y: String = b.to_owned();
    x == y
}

/// Maps a selector to its strategy, never failing.
pub fn str_to_mode(str: &str) -> (m: CompilationMode)
    ensures
        m == mode_of(str@),
{
    if same_text(str, "left") {
        CompilationMode::SDDLeftLinear
    } else if same_text(str, "best") {
        CompilationMode::BestFit
    } else if same_text(str, "best-bdd") || same_text(str, "bdd-best") {
        CompilationMode::BDDBestFit
    } else {
        CompilationMode::SDDRightLinear
    }
}

} // verus!
