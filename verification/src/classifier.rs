//! The decision whether a resolved callee is a foreign function to record.

use vstd::prelude::*;
use crate::target::{ResolvedCallTarget, TargetView, TypeKind};
use crate::text::str_eq;

verus! {

/// What the classifier says of a resolved callee.
#[derive(Clone, Copy, Debug, PartialEq, Eq, Structural)]
pub enum Verdict {
    /// It is defined in a module that only wraps foreign calls.
    Excluded,
    /// The callee could not be typed.
    Untyped,
    /// The type of the callee is not that of a function definition.
    NotFunction,
    /// It is a function with a body in source.
    Source,
    /// It is a function declared without a body: its name is recorded.
    Foreign,
}

/// Whether `module` is one of the two modules that only wrap foreign calls.
pub open spec fn is_shim(module: Seq<char>) -> bool {
    module == "libc"@ || module == "libloading"@
}

/// The verdict on `target`: shim modules are excluded whatever else holds;
/// of the rest, the functions that could be typed as function definitions
/// are foreign or not as the compiler reports them.
pub open spec fn verdict_of(target: TargetView) -> Verdict {
    if is_shim(target.module) {
        Verdict::Excluded
    } else {
        match target.signature {
            None => Verdict::Untyped,
            Some(TypeKind::Other) => Verdict::NotFunction,
            Some(TypeKind::FnDef) => if target.foreign {
                Verdict::Foreign
            } else {
                Verdict::Source
            },
        }
    }
}

/// Whether `module` is one of the two modules that only wrap foreign calls.
pub fn is_excluded(module: &str) -> (excluded: bool)
    ensures
        excluded == is_shim(module@),
{
    str_eq(module, "libc") || str_eq(module, "libloading")
}

/// Classifies a resolved callee.
pub fn classify(target: &ResolvedCallTarget) -> (verdict: Verdict)
    ensures
        verdict == verdict_of(target@),
{
    if is_excluded(target.module.as_str()) {
        Verdict::Excluded
    } else {
        match target.signature {
            None => Verdict::Untyped,
            Some(TypeKind::Other) => Verdict::NotFunction,
            Some(TypeKind::FnDef) => if target.foreign {
                Verdict::Foreign
            } else {
                Verdict::Source
            },
        }
    }
}

} // verus!
