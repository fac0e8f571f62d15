//! The analyzer: the set of names found so far, and the walk that adds to it.

use vstd::prelude::*;
use crate::classifier::{classify, Verdict};
use crate::result_set::{
    lemma_record_all_concat, lemma_record_all_one, record, record_all, ResultSet,
};
use crate::shared_output::{joined, lines_of};
use crate::target::{DefKind, ResolvedCallTarget};
use crate::tree::{
    lemma_sites_of_all_concat, lemma_sites_of_items_concat, sites_of_all, sites_of_items, Call,
    Callee, Expr, ImplItem, ImplItemKind, Item, ItemKind, ItemLike, MethodCall, Module, Site,
};
use crate::walk::{
    aborts, effect, effect_of, lemma_aborts_concat, lemma_walk_concat, lemma_walk_one, recorded,
    warned, Effect, Warning,
};

verus! {

/// Why the analysis of a module was given up.
#[derive(Clone, Copy, Debug, PartialEq, Eq, Structural)]
pub enum AnalysisError {
    /// A method call resolved to something that is no associated function.
    UnexpectedResolution,
}

/// The analyzer of one module: where its findings go, the names found, and
/// the warnings given on the way.
#[derive(Debug)]
pub struct Analyzer {
    /// The output file path.
    output: String,
    /// Set of foreign functions.
    functions: ResultSet,
    /// The warnings given so far, first to last.
    warnings: Vec<Warning>,
}

/// The content of an [`Analyzer`].
pub struct AnalyzerView {
    pub output: Seq<char>,
    pub functions: Seq<Seq<char>>,
    pub warnings: Seq<Warning>,
}

/// `analyzer` after the analysis has done `effect`.
pub open spec fn after(analyzer: AnalyzerView, effect: Effect) -> AnalyzerView {
    match effect {
        Effect::Record(name) => AnalyzerView {
            functions: record(analyzer.functions, name),
            ..analyzer
        },
        Effect::Warn(warning) => AnalyzerView {
            warnings: analyzer.warnings.push(warning),
            ..analyzer
        },
        _ => analyzer,
    }
}

/// `analyzer` after a walk that reaches `sites`: it holds in addition the
/// names that the walk recorded and the warnings that it gave.
pub open spec fn after_walk(analyzer: AnalyzerView, sites: Seq<Site>) -> AnalyzerView {
    AnalyzerView {
        output: analyzer.output,
        functions: record_all(analyzer.functions, recorded(sites)),
        warnings: analyzer.warnings + warned(sites),
    }
}

impl View for Analyzer {
    type V = AnalyzerView;

    closed spec fn view(&self) -> AnalyzerView {
        AnalyzerView {
            output: self.output@,
            functions: self.functions@,
            warnings: self.warnings@,
        }
    }
}

impl Analyzer {
    /// An analyzer that writes to `output` and starts from the names that
    /// `contents`, the text found there, holds.
    pub fn new(output: String, contents: &str) -> (analyzer: Analyzer)
        ensures
            analyzer@.output == output@,
            analyzer@.functions == record_all(Seq::empty(), lines_of(contents@)),
            analyzer@.warnings == Seq::<Warning>::empty(),
    {
        Analyzer { output, functions: ResultSet::from_text(contents), warnings: Vec::new() }
    }

    /// The text to write over the output file: every name of the set.
    pub fn finalize(&mut self) -> (contents: String)
        ensures
            contents@ == joined(old(self)@.functions, seq!['\n']),
            final(self)@ == old(self)@,
    {
        self.functions.to_text()
    }

    /// The output file path.
    pub fn output(&self) -> (output: &String)
        ensures
            output@ == self@.output,
    {
        &self.output
    }

    /// The names found so far.
    pub fn functions(&self) -> (functions: &ResultSet)
        ensures
            functions@ == self@.functions,
    {
        &self.functions
    }

    /// The warnings given so far.
    pub fn warnings(&self) -> (warnings: &Vec<Warning>)
        ensures
            warnings@ == self@.warnings,
    {
        &self.warnings
    }

    /// Asks the classifier about `target` and does what its verdict calls
    /// for; `mismatch` is the warning for a type that is not that of a
    /// function definition.
    fn consider(&mut self, target: &ResolvedCallTarget, mismatch: Warning)
        ensures
            final(self)@ == after(
                old(self)@,
                effect_of(crate::classifier::verdict_of(target@), target.name@, mismatch),
            ),
    {
        match classify(target) {
            Verdict::Foreign => {
                self.functions.insert(target.name.clone());
            },
            Verdict::Untyped => {
                self.warnings.push(Warning::CannotBeTyped);
            },
            Verdict::NotFunction => {
                self.warnings.push(mismatch);
            },
            Verdict::Excluded | Verdict::Source => {},
        }
    }

    /// Handles a method call itself: records the method if it is foreign.
    /// The receiver and the arguments are for [`Analyzer::visit_expr`] to
    /// walk.
    pub fn visit_expr_method_call(&mut self, call: &MethodCall) -> (done: Result<
        (),
        AnalysisError,
    >)
        ensures
            final(self)@ == after(old(self)@, effect(call.site())),
            done is Err <==> effect(call.site()) is Abort,
    {
        match &call.resolution {
            Some(resolution) => match resolution.kind {
                DefKind::AssocFn => {
                    self.consider(&resolution.target, Warning::MethodNotFnDef);
                    Ok(())
                },
                _ => Err(AnalysisError::UnexpectedResolution),
            },
            None => {
                self.warnings.push(Warning::CannotBeTyped);
                Ok(())
            },
        }
    }

    /// Handles a call itself: records the callee if it is a foreign function.
    /// The callee is not walked; the arguments are for
    /// [`Analyzer::visit_expr`] to walk.
    pub fn visit_expr_call(&mut self, call: &Call)
        ensures
            final(self)@ == after(old(self)@, effect(call.site())),
    {
        if !call.owner.is_fn_like() {
            return ;
        }
        if let Callee::Path(Some(resolution)) = &call.callee {
            if resolution.kind == DefKind::Fn {
                self.consider(&resolution.target, Warning::FunctionNotFnDef);
            }
        }
    }

    /// Walks an expression. At a call or a method call it handles the call
    /// itself and then walks what the call is applied to: the receiver of a
    /// method call, and the arguments. Any other expression it walks part by
    /// part. Stops at the first site at which the analysis gives up.
    pub fn visit_expr(&mut self, expr: &Expr) -> (done: Result<(), AnalysisError>)
        ensures
            final(self)@ == after_walk(old(self)@, expr.sites()),
            done is Err <==> aborts(expr.sites()),
        decreases expr,
    {
        match expr {
            Expr::MethodCall(call) => {
                let ghost own = seq![call.site()];
                let ghost inner = call.receiver.sites();
                let ghost outer = sites_of_all(call.args@);
                proof {
                    lemma_after_one(self@, call.site());
                    lemma_walk_step(old(self)@, Seq::empty(), own, inner + outer);
                    assert(Seq::<Site>::empty() + own + (inner + outer) =~= own + inner + outer);
                    assert(Seq::<Site>::empty() + own =~= own);
                }
                let done = self.visit_expr_method_call(call);
                if done.is_err() {
                    return done;
                }
                proof {
                    lemma_walk_step(old(self)@, own, inner, outer);
                }
                let done = self.visit_expr(&call.receiver);
                if done.is_err() {
                    return done;
                }
                proof {
                    lemma_walk_step(old(self)@, own + inner, outer, Seq::empty());
                    assert(own + inner + outer + Seq::<Site>::empty() =~= own + inner + outer);
                }
                self.visit_exprs(&call.args)
            },
            Expr::Call(call) => {
                let ghost own = seq![call.site()];
                let ghost outer = sites_of_all(call.args@);
                proof {
                    lemma_after_one(self@, call.site());
                    lemma_walk_step(old(self)@, own, outer, Seq::empty());
                    assert(own + outer + Seq::<Site>::empty() =~= own + outer);
                }
                self.visit_expr_call(call);
                self.visit_exprs(&call.args)
            },
            Expr::Other(children) => self.visit_exprs(children),
        }
    }

    /// Walks each expression of `exprs`, first to last. Stops at the first
    /// site at which the analysis gives up.
    pub fn visit_exprs(&mut self, exprs: &Vec<Expr>) -> (done: Result<(), AnalysisError>)
        ensures
            final(self)@ == after_walk(old(self)@, sites_of_all(exprs@)),
            done is Err <==> aborts(sites_of_all(exprs@)),
        decreases exprs,
    {
        let mut i: usize = 0;
        while i < exprs.len()
            invariant
                i <= exprs.len(),
                self@ == after_walk(old(self)@, sites_of_all(exprs@.take(i as int))),
                !aborts(sites_of_all(exprs@.take(i as int))),
            decreases exprs.len() - i,
        {
            proof {
                assert(exprs@.take(i + 1).drop_last() =~= exprs@.take(i as int));
                assert(exprs@ =~= exprs@.take(i + 1) + exprs@.skip(i + 1));
                lemma_sites_of_all_concat(exprs@.take(i + 1), exprs@.skip(i + 1));
                lemma_walk_step(
                    old(self)@,
                    sites_of_all(exprs@.take(i as int)),
                    exprs[i as int].sites(),
                    sites_of_all(exprs@.skip(i + 1)),
                );
                vstd::std_specs::vec::axiom_vec_index_decreases(*exprs, i as int);
            }
            let done = self.visit_expr(&exprs[i]);
            if done.is_err() {
                return done;
            }
            i += 1;
        }
        assert(exprs@.take(i as int) =~= exprs@);
        Ok(())
    }

    /// Visits a free-standing item: walks its body if it is a function.
    pub fn visit_item(&mut self, item: &Item) -> (done: Result<(), AnalysisError>)
        ensures
            final(self)@ == after_walk(old(self)@, item.sites()),
            done is Err <==> aborts(item.sites()),
    {
        match item.kind {
            ItemKind::Fn => self.visit_expr(&item.body),
            _ => Ok(()),
        }
    }

    /// Visits an associated item: walks its body if it is a function.
    pub fn visit_impl_item(&mut self, impl_item: &ImplItem) -> (done: Result<(), AnalysisError>)
        ensures
            final(self)@ == after_walk(old(self)@, impl_item.sites()),
            done is Err <==> aborts(impl_item.sites()),
    {
        match impl_item.kind {
            ImplItemKind::Fn => self.visit_expr(&impl_item.body),
            _ => Ok(()),
        }
    }

    /// Visits every item of a module, first to last. Stops at the first
    /// site at which the analysis gives up.
    pub fn visit_all_item_likes(&mut self, module: &Module) -> (done: Result<(), AnalysisError>)
        ensures
            final(self)@ == after_walk(old(self)@, module.sites()),
            done is Err <==> aborts(module.sites()),
    {
        let items = &module.items;
        let mut i: usize = 0;
        while i < items.len()
            invariant
                i <= items.len(),
                self@ == after_walk(old(self)@, sites_of_items(items@.take(i as int))),
                !aborts(sites_of_items(items@.take(i as int))),
                items == &module.items,
            decreases items.len() - i,
        {
            proof {
                assert(items@.take(i + 1).drop_last() =~= items@.take(i as int));
                assert(items@ =~= items@.take(i + 1) + items@.skip(i + 1));
                lemma_sites_of_items_concat(items@.take(i + 1), items@.skip(i + 1));
                lemma_walk_step(
                    old(self)@,
                    sites_of_items(items@.take(i as int)),
                    items[i as int].sites(),
                    sites_of_items(items@.skip(i + 1)),
                );
            }
            let done = match &items[i] {
                ItemLike::Item(item) => self.visit_item(item),
                ItemLike::ImplItem(item) => self.visit_impl_item(item),
            };
            if done.is_err() {
                return done;
            }
            i += 1;
        }
        assert(items@.take(i as int) =~= items@);
        Ok(())
    }
}

/// At a single site the walk does what the analysis does there.
pub proof fn lemma_after_one(analyzer: AnalyzerView, site: Site)
    ensures
        after_walk(analyzer, seq![site]) == after(analyzer, effect(site)),
        aborts(seq![site]) <==> effect(site) is Abort,
{
    lemma_walk_one(site);
    match effect(site) {
        Effect::Record(name) => {
            lemma_record_all_one(analyzer.functions, name);
        },
        Effect::Warn(warning) => {
            assert(analyzer.warnings + seq![warning] =~= analyzer.warnings.push(warning));
        },
        _ => {},
    }
}

/// A walk over `before`, `here` and `rest`, in three steps: where the
/// analysis does not give up in `before`, the walk of `here` carries on from
/// what the walk of `before` left; and where it gives up in `here`, what
/// comes after changes nothing.
pub proof fn lemma_walk_step(
    analyzer: AnalyzerView,
    before: Seq<Site>,
    here: Seq<Site>,
    rest: Seq<Site>,
)
    requires
        !aborts(before),
    ensures
        after_walk(after_walk(analyzer, before), here) == after_walk(analyzer, before + here),
        aborts(before + here) <==> aborts(here),
        aborts(here) ==> aborts(before + here + rest) && after_walk(analyzer, before + here + rest)
            == after_walk(analyzer, before + here),
{
    lemma_walk_concat(before, here);
    lemma_aborts_concat(before, here);
    lemma_walk_concat(before + here, rest);
    lemma_aborts_concat(before + here, rest);
    lemma_record_all_concat(analyzer.functions, recorded(before), recorded(here));
    assert((analyzer.warnings + warned(before)) + warned(here) =~= analyzer.warnings + (warned(
        before,
    ) + warned(here)));
}

} // verus!
