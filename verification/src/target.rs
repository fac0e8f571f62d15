//! What the compiler knows of the definition that a call resolves to.

use vstd::prelude::*;
use vstd::string::StringExecFns;

verus! {

/// The kind of definition that a path or a method call resolves to.
#[derive(Clone, Copy, Debug, PartialEq, Eq, Structural)]
pub enum DefKind {
    /// A free function, or a function declared in a foreign block.
    Fn,
    /// A function associated with a type or a trait.
    AssocFn,
    /// A closure expression.
    Closure,
    /// Any other kind of definition: a constructor, a constant, a type.
    Other,
}

impl DefKind {
    /// Whether definitions of this kind have a body that runs when called.
    pub open spec fn spec_is_fn_like(self) -> bool {
        self is Fn || self is AssocFn || self is Closure
    }

    /// Whether definitions of this kind have a body that runs when called.
    #[verifier::when_used_as_spec(spec_is_fn_like)]
    pub fn is_fn_like(self) -> (fn_like: bool)
        ensures
            fn_like == self.spec_is_fn_like(),
    {
        match self {
            DefKind::Fn | DefKind::AssocFn | DefKind::Closure => true,
            DefKind::Other => false,
        }
    }
}

/// The kind of type that a callee has.
#[derive(Clone, Copy, Debug, PartialEq, Eq, Structural)]
pub enum TypeKind {
    /// The type of one function definition.
    FnDef,
    /// Any other type: a function pointer, a closure, a type parameter.
    Other,
}

/// The definition that a call resolves to.
#[derive(Debug)]
pub struct ResolvedCallTarget {
    /// The fully qualified path of the definition.
    pub path: String,
    /// The name of the module that defines it.
    pub module: String,
    /// The last segment of its path.
    pub name: String,
    /// The kind of its type, where the callee could be typed.
    pub signature: Option<TypeKind>,
    /// Whether it is declared without a body, to be linked from outside.
    pub foreign: bool,
}

/// The content of a [`ResolvedCallTarget`].
pub struct TargetView {
    pub path: Seq<char>,
    pub module: Seq<char>,
    pub name: Seq<char>,
    pub signature: Option<TypeKind>,
    pub foreign: bool,
}

impl View for ResolvedCallTarget {
    type V = TargetView;

    open spec fn view(&self) -> TargetView {
        TargetView {
            path: self.path@,
            module: self.module@,
            name: self.name@,
            signature: self.signature,
            foreign: self.foreign,
        }
    }
}

/// The full path of a definition whose path inside its crate is `relative`.
/// Of a definition of another crate `relative` starts with the crate's name
/// already; of a local one it does not, and is empty for the crate's root.
pub open spec fn full_path(local: bool, crate_name: Seq<char>, relative: Seq<char>) -> Seq<char> {
    if !local {
        relative
    } else if relative.len() == 0 {
        crate_name
    } else {
        crate_name + "::"@ + relative
    }
}

impl ResolvedCallTarget {
    /// The full path of a definition, the name of its crate included.
    pub fn canonical_path(local: bool, crate_name: &str, relative_path: &str) -> (path: String)
        ensures
            path@ == full_path(local, crate_name@, relative_path@),
    {
        if local {
            if relative_path.is_empty() {
                crate_name.to_owned()
            } else {
                crate_name.to_owned().concat("::").concat(relative_path)
            }
        } else {
            relative_path.to_owned()
        }
    }
}

} // verus!
