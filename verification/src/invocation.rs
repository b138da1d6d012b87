//! How each tool family is called: the argument list for a strategy and an
//! input file, or nothing where the family cannot run the strategy.

use vstd::prelude::*;
use vstd::string::*;
use crate::strategy::{CompilationMode, ToolFamily};

verus! {

/// One call of a tool. Its standard output is always captured; its
/// diagnostic stream is passed through only where `surface_diagnostics` is
/// set, and discarded otherwise.
#[derive(Clone, Debug, PartialEq, Eq)]
pub struct Invocation {
    pub tool: ToolFamily,
    pub program: String,
    pub args: Vec<String>,
    pub surface_diagnostics: bool,
}

/// The arguments that a family takes for a file under a strategy that it
/// supports. libsdd gets `-r 0` except under the best-fit strategy; the
/// OBDD compiler takes the file alone.
pub open spec fn arguments(tool: ToolFamily, file: Seq<char>, mode: CompilationMode) -> Seq<
    Seq<char>,
>
    recommends
        mode.supports(tool),
{
    match tool {
        ToolFamily::Rsdd => seq!["-f"@, file, "-m"@, mode.rsdd_token()],
        ToolFamily::Sdd => if mode == CompilationMode::BestFit {
            seq!["-c"@, file, "-t"@, mode.libsdd_token().unwrap()]
        } else {
            seq!["-c"@, file, "-t"@, mode.libsdd_token().unwrap(), "-r"@, "0"@]
        },
        ToolFamily::Cnf2Obdd => seq![file],
    }
}

impl Invocation {
    /// The arguments as texts, in order.
    pub open spec fn arg_texts(self) -> Seq<Seq<char>> {
        Seq::new(self.args@.len(), |i: int| self.args@[i]@)
    }

    /// Whether this is the call of `tool` at `program` for `file` under
    /// `mode`.
    pub open spec fn is_for(
        self,
        tool: ToolFamily,
        program: Seq<char>,
        file: Seq<char>,
        mode: CompilationMode,
        debug: bool,
    ) -> bool {
        &&& self.tool == tool
        &&& self.program@ == program
        &&& self.arg_texts() == arguments(tool, file, mode)
        &&& self.surface_diagnostics == debug
    }
}

/// Builds the call of a tool, or returns `None`, without building
/// anything, where the family cannot run the strategy.
pub fn invocation(
    tool: ToolFamily,
    program: &str,
    file: &str,
    mode: CompilationMode,
    debug: bool,
) -> (r: Option<Invocation>)
    ensures
        r.is_some() == mode.supports(tool),
        r matches Some(inv) ==> inv.is_for(tool, program@, file@, mode, debug),
{
    let mut args: Vec<String> = Vec::new();
    match tool {
        ToolFamily::Rsdd => {
            args.push("-f".to_owned());
            args.push(file.to_owned());
            args.push("-m".to_owned());
            args.push(mode.as_rsdd().to_owned());
        },
        ToolFamily::Sdd => {
            match mode.as_libsdd() {
                None => {
                    return None;
                },
                Some(token) => {
                    args.push("-c".to_owned());
                    args.push(file.to_owned());
                    args.push("-t".to_owned());
                    args.push(token.to_owned());
                    if !matches!(mode, CompilationMode::BestFit) {
                        args.push("-r".to_owned());
                        args.push("0".to_owned());
                    }
                },
            }
        },
        ToolFamily::Cnf2Obdd => {
            if !mode.is_supported_by(ToolFamily::Cnf2Obdd) {
                return None;
            }
            args.push(file.to_owned());
        },
    }
    let inv = Invocation { tool, program: program.to_owned(), args, surface_diagnostics: debug };
    assert(inv.arg_texts() =~= arguments(tool, file@, mode));
    Some(inv)
}

} // verus!
