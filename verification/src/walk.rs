//! What a walk over the call sites of a module finds.

use vstd::prelude::*;
use crate::classifier::{verdict_of, Verdict};
use crate::target::DefKind;
use crate::tree::Site;

verus! {

/// What the analysis warns of when it skips a callee that the classifier
/// was asked about.
#[derive(Clone, Copy, Debug, PartialEq, Eq, Structural)]
pub enum Warning {
    /// The callee could not be typed.
    CannotBeTyped,
    /// The type of a called path is not that of a function definition.
    FunctionNotFnDef,
    /// The type of a called method is not that of a function definition.
    MethodNotFnDef,
}

impl Warning {
    /// The words of the warning.
    pub open spec fn words(self) -> Seq<char> {
        match self {
            Warning::CannotBeTyped => "Function cannot be typed"@,
            Warning::FunctionNotFnDef => "Function wasn't an 'FnDef'"@,
            Warning::MethodNotFnDef => "Method wasn't an 'FnDef'"@,
        }
    }

    /// The words of the warning.
    pub fn message(self) -> (message: &'static str)
        ensures
            message@ == self.words(),
    {
        match self {
            Warning::CannotBeTyped => "Function cannot be typed",
            Warning::FunctionNotFnDef => "Function wasn't an 'FnDef'",
            Warning::MethodNotFnDef => "Method wasn't an 'FnDef'",
        }
    }
}

/// What the analysis does at a call site.
pub enum Effect {
    /// It records the name.
    Record(Seq<char>),
    /// It goes on without recording anything.
    Skip,
    /// It goes on without recording anything, and warns.
    Warn(Warning),
    /// It gives up the analysis of the module.
    Abort,
}

/// What the analysis does with a callee on which the verdict is `verdict`:
/// it records `name` for a foreign function, warns of `mismatch` where the
/// type is not that of a function definition and of a missing type, and
/// skips what is left.
pub open spec fn effect_of(verdict: Verdict, name: Seq<char>, mismatch: Warning) -> Effect {
    match verdict {
        Verdict::Foreign => Effect::Record(name),
        Verdict::Untyped => Effect::Warn(Warning::CannotBeTyped),
        Verdict::NotFunction => Effect::Warn(mismatch),
        Verdict::Excluded | Verdict::Source => Effect::Skip,
    }
}

/// What the analysis does at `site`.
///
/// The classifier is asked about the callee of a call if the call stands in
/// the body of a function and its callee is a path that resolves to a free
/// function; any other call is skipped. A method call that could not be
/// typed is skipped with a warning; one that resolves to anything but an
/// associated function ends the analysis; of one that resolves to an
/// associated function the classifier is asked.
pub open spec fn effect(site: Site) -> Effect {
    match site {
        Site::Call { owner, callee } => match callee {
            Some(resolution) => if owner.is_fn_like() && resolution.kind == DefKind::Fn {
                effect_of(
                    verdict_of(resolution.target),
                    resolution.target.name,
                    Warning::FunctionNotFnDef,
                )
            } else {
                Effect::Skip
            },
            None => Effect::Skip,
        },
        Site::MethodCall { resolution } => match resolution {
            Some(resolution) => if resolution.kind != DefKind::AssocFn {
                Effect::Abort
            } else {
                effect_of(
                    verdict_of(resolution.target),
                    resolution.target.name,
                    Warning::MethodNotFnDef,
                )
            },
            None => Effect::Warn(Warning::CannotBeTyped),
        },
    }
}

/// Whether the analysis gives up at the site `at` of `sites`.
pub open spec fn aborts_at(sites: Seq<Site>, at: int) -> bool {
    0 <= at < sites.len() && effect(sites[at]) is Abort
}

/// Whether the analysis gives up at one of `sites`.
pub open spec fn aborts(sites: Seq<Site>) -> bool {
    exists|at: int| aborts_at(sites, at)
}

/// The names that the analysis records at `sites`, in their order, up to
/// the first site at which it gives up.
pub open spec fn recorded(sites: Seq<Site>) -> Seq<Seq<char>>
    decreases sites.len(),
{
    if sites.len() == 0 {
        Seq::empty()
    } else {
        match effect(sites[0]) {
            Effect::Record(name) => seq![name] + recorded(sites.drop_first()),
            Effect::Abort => Seq::empty(),
            _ => recorded(sites.drop_first()),
        }
    }
}

/// The warnings that the analysis gives at `sites`, in their order, up to
/// the first site at which it gives up.
pub open spec fn warned(sites: Seq<Site>) -> Seq<Warning>
    decreases sites.len(),
{
    if sites.len() == 0 {
        Seq::empty()
    } else {
        match effect(sites[0]) {
            Effect::Warn(warning) => seq![warning] + warned(sites.drop_first()),
            Effect::Abort => Seq::empty(),
            _ => warned(sites.drop_first()),
        }
    }
}

/// The analysis gives up at one of the sites of a sequence if it does so in
/// a first part of it or in the rest.
pub proof fn lemma_aborts_concat(first: Seq<Site>, rest: Seq<Site>)
    ensures
        aborts(first + rest) <==> aborts(first) || aborts(rest),
{
    let all = first + rest;
    if aborts(all) {
        let at = choose|at: int| aborts_at(all, at);
        if at < first.len() {
            assert(aborts_at(first, at));
        } else {
            assert(aborts_at(rest, at - first.len()));
        }
    }
    if aborts(first) {
        let at = choose|at: int| aborts_at(first, at);
        assert(aborts_at(all, at));
    }
    if aborts(rest) {
        let at = choose|at: int| aborts_at(rest, at);
        assert(aborts_at(all, first.len() + at));
    }
}

/// The analysis gives up at one of the sites of a sequence if it does so at
/// the first or at one of those after it.
pub proof fn lemma_aborts_first(sites: Seq<Site>)
    requires
        sites.len() > 0,
    ensures
        aborts(sites) <==> effect(sites[0]) is Abort || aborts(sites.drop_first()),
{
    let tail = sites.drop_first();
    if aborts(sites) {
        let at = choose|at: int| aborts_at(sites, at);
        if at > 0 {
            assert(aborts_at(tail, at - 1));
        }
    }
    if aborts(tail) {
        let at = choose|at: int| aborts_at(tail, at);
        assert(aborts_at(sites, at + 1));
    }
    if effect(sites[0]) is Abort {
        assert(aborts_at(sites, 0));
    }
}

/// What is recorded and warned of at a sequence of sites is what is at a
/// first part of it, and, unless the analysis gives up there, what is at the
/// rest.
pub proof fn lemma_walk_concat(first: Seq<Site>, rest: Seq<Site>)
    ensures
        recorded(first + rest) == if aborts(first) {
            recorded(first)
        } else {
            recorded(first) + recorded(rest)
        },
        warned(first + rest) == if aborts(first) {
            warned(first)
        } else {
            warned(first) + warned(rest)
        },
    decreases first.len(),
{
    if first.len() > 0 {
        let tail = first.drop_first();
        assert((first + rest).drop_first() =~= tail + rest);
        lemma_walk_concat(tail, rest);
        lemma_aborts_first(first);
        match effect(first[0]) {
            Effect::Record(name) => {
                assert((seq![name] + recorded(tail)) + recorded(rest) =~= seq![name] + (recorded(
                    tail,
                ) + recorded(rest)));
            },
            Effect::Warn(warning) => {
                assert((seq![warning] + warned(tail)) + warned(rest) =~= seq![warning] + (warned(
                    tail,
                ) + warned(rest)));
            },
            _ => {},
        }
    }
}

/// What is recorded and warned of at a single site.
pub proof fn lemma_walk_one(site: Site)
    ensures
        recorded(seq![site]) == match effect(site) {
            Effect::Record(name) => seq![name],
            _ => Seq::empty(),
        },
        warned(seq![site]) == match effect(site) {
            Effect::Warn(warning) => seq![warning],
            _ => Seq::empty(),
        },
        aborts(seq![site]) <==> effect(site) is Abort,
{
    let one = seq![site];
    assert(recorded(one.drop_first()) =~= Seq::<Seq<char>>::empty());
    assert(warned(one.drop_first()) =~= Seq::<Warning>::empty());
    lemma_aborts_first(one);
}

} // verus!
