//! One run of the analyzer on one module: from the contents of the output
//! file to what is written over them.

use vstd::prelude::*;
use crate::analysis::{AnalysisError, Analyzer};
use crate::result_set::record_all;
use crate::shared_output::{joined, lines_of};
use crate::tree::{Module, Site};
use crate::walk::{aborts, recorded, warned, Warning};

verus! {

/// What the compiler is told to do once the analysis has returned.
#[derive(Clone, Copy, Debug, PartialEq, Eq, Structural)]
pub enum Compilation {
    /// End the compilation.
    Stop,
    /// Go on with the compilation.
    Continue,
}

/// What one run of the analyzer asks of its caller.
#[derive(Debug)]
pub struct Outcome {
    /// The output file path.
    pub output: String,
    /// The text to write over the output file; or, where the analysis was
    /// given up, the reason, and nothing is to be written.
    pub contents: Result<String, AnalysisError>,
    /// The warnings that the analysis gave, first to last.
    pub warnings: Vec<Warning>,
    /// What to tell the compiler.
    pub compilation: Compilation,
}

/// The names that a run holds at its end, where it started from an output
/// file that held `contents` and its walk reached `sites`: the lines of
/// `contents`, then what the walk recorded, each name once.
pub open spec fn merged(contents: Seq<char>, sites: Seq<Site>) -> Seq<Seq<char>> {
    record_all(record_all(Seq::empty(), lines_of(contents)), recorded(sites))
}

/// The text that such a run writes at its end.
pub open spec fn rewritten(contents: Seq<char>, sites: Seq<Site>) -> Seq<char> {
    joined(merged(contents, sites), seq!['\n'])
}

/// What the output file holds after such a run: what the run wrote, or, where
/// the analysis was given up, what the file held before.
pub open spec fn after_run(contents: Seq<char>, sites: Seq<Site>) -> Seq<char> {
    if aborts(sites) {
        contents
    } else {
        rewritten(contents, sites)
    }
}

/// Runs the analyzer on `module`, given the path of the output file and the
/// text read from it. Whatever the analysis finds, the compilation goes on.
pub fn after_analysis(output: String, contents: &str, module: &Module) -> (outcome: Outcome)
    ensures
        outcome.output@ == output@,
        outcome.compilation == Compilation::Continue,
        outcome.contents is Err <==> aborts(module.sites()),
        outcome.contents matches Ok(text) ==> text@ == rewritten(contents@, module.sites()),
        outcome.warnings@ == warned(module.sites()),
{
    let mut analyzer = Analyzer::new(output, contents);
    let contents = match analyzer.visit_all_item_likes(module) {
        Ok(()) => Ok(analyzer.finalize()),
        Err(error) => Err(error),
    };
    Outcome {
        output: analyzer.output().clone(),
        contents,
        warnings: analyzer.warnings().clone(),
        compilation: Compilation::Continue,
    }
}

} // verus!
