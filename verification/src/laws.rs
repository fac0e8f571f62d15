//! Laws of the analysis: what holds of every run, and of runs that follow
//! or cross one another on one output file.
//!
//! The laws that speak of what the output file holds are stated for runs
//! whose names the file gives back as they were written (`storable`): a name
//! with a line feed in it, for one, is read back as two.

use vstd::prelude::*;
use crate::classifier::is_shim;
use crate::lifecycle::{after_run, merged, rewritten};
use crate::result_set::{
    lemma_record_all_concat, lemma_record_all_contains, lemma_record_all_known,
    lemma_record_all_of_unique, lemma_record_all_one, lemma_record_all_unique, record, record_all,
};
use crate::shared_output::{all_lines, is_line, lemma_lines_are_storable, lines_of, storable};
use crate::target::{DefKind, TypeKind};
use crate::tree::Site;
use crate::walk::{
    aborts, effect, lemma_aborts_first, lemma_walk_concat, lemma_walk_one, recorded, Effect,
};

verus! {

/// The name of the foreign function that `site` calls: of a function that
/// the compiler reports as declared without a body, that is typed as a
/// function definition and is defined outside the shim modules, reached by
/// a path from the body of a function, or by a method call.
pub open spec fn foreign_callee(site: Site) -> Option<Seq<char>> {
    match site {
        Site::Call { owner, callee: Some(resolution) } => if owner.is_fn_like() && resolution.kind
            == DefKind::Fn && !is_shim(resolution.target.module) && resolution.target.signature
            == Some(TypeKind::FnDef) && resolution.target.foreign {
            Some(resolution.target.name)
        } else {
            None
        },
        Site::MethodCall { resolution: Some(resolution) } => if resolution.kind == DefKind::AssocFn
            && !is_shim(resolution.target.module) && resolution.target.signature == Some(
            TypeKind::FnDef,
        ) && resolution.target.foreign {
            Some(resolution.target.name)
        } else {
            None
        },
        _ => None,
    }
}

/// The module that defines what `site` resolves to, where it resolves.
pub open spec fn callee_module(site: Site) -> Option<Seq<char>> {
    match site {
        Site::Call { callee: Some(resolution), .. } => Some(resolution.target.module),
        Site::MethodCall { resolution: Some(resolution) } => Some(resolution.target.module),
        _ => None,
    }
}

/// The names that a run holds at its end are unique, and the output file
/// gives them back where every line that the run read and every name that it
/// recorded is a name that a line can hold.
pub proof fn lemma_merged_is_storable(contents: Seq<char>, sites: Seq<Site>)
    ensures
        merged(contents, sites).no_duplicates(),
        all_lines(lines_of(contents)) && all_lines(recorded(sites)) ==> storable(
            merged(contents, sites),
        ),
{
    let seed = record_all(Seq::empty(), lines_of(contents));
    let names = merged(contents, sites);
    lemma_record_all_unique(Seq::empty(), lines_of(contents));
    lemma_record_all_unique(seed, recorded(sites));
    if all_lines(lines_of(contents)) && all_lines(recorded(sites)) {
        assert forall|i: int| 0 <= i < names.len() implies is_line(#[trigger] names[i]) by {
            let name = names[i];
            lemma_record_all_contains(seed, recorded(sites), name);
            lemma_record_all_contains(Seq::empty(), lines_of(contents), name);
        }
        lemma_lines_are_storable(names);
    }
}

/// A run that reads what an earlier run wrote starts from the names that the
/// earlier run held.
pub proof fn lemma_next_run_starts_where_the_last_ended(
    contents: Seq<char>,
    sites: Seq<Site>,
    next: Seq<Site>,
)
    requires
        storable(merged(contents, sites)),
    ensures
        merged(rewritten(contents, sites), next) == record_all(
            merged(contents, sites),
            recorded(next),
        ),
{
    lemma_merged_is_storable(contents, sites);
    lemma_record_all_of_unique(merged(contents, sites));
}

/// No duplicates. The output file that a run leaves holds no name twice.
pub proof fn lemma_no_name_is_written_twice(contents: Seq<char>, sites: Seq<Site>)
    requires
        storable(merged(contents, sites)),
        !aborts(sites),
    ensures
        lines_of(after_run(contents, sites)).no_duplicates(),
{
    lemma_merged_is_storable(contents, sites);
}

/// Monotonic growth. A run takes no name out of the output file: every line
/// that the file held before the run it holds after it, given up or not.
pub proof fn lemma_names_are_kept(contents: Seq<char>, sites: Seq<Site>, name: Seq<char>)
    requires
        storable(merged(contents, sites)),
        lines_of(contents).contains(name),
    ensures
        lines_of(after_run(contents, sites)).contains(name),
{
    lemma_record_all_contains(record_all(Seq::empty(), lines_of(contents)), recorded(sites), name);
    lemma_record_all_contains(Seq::empty(), lines_of(contents), name);
}

/// Idempotence. A second run on the same call sites, with no other run in
/// between, leaves the output file as the first run left it.
pub proof fn lemma_rerun_is_stable(contents: Seq<char>, sites: Seq<Site>)
    requires
        storable(merged(contents, sites)),
    ensures
        after_run(after_run(contents, sites), sites) == after_run(contents, sites),
{
    if !aborts(sites) {
        let names = merged(contents, sites);
        lemma_next_run_starts_where_the_last_ended(contents, sites, sites);
        assert forall|i: int| 0 <= i < recorded(sites).len() implies names.contains(
            #[trigger] recorded(sites)[i],
        ) by {
            let name = recorded(sites)[i];
            lemma_record_all_contains(
                record_all(Seq::empty(), lines_of(contents)),
                recorded(sites),
                name,
            );
        }
        lemma_record_all_known(names, recorded(sites));
    }
}

/// A site before which the analysis does not give up adds its name to what
/// is recorded.
pub proof fn lemma_recorded_holds_effect(sites: Seq<Site>, at: int)
    requires
        0 <= at < sites.len(),
        !aborts(sites),
        effect(sites[at]) is Record,
    ensures
        recorded(sites).contains(effect(sites[at])->Record_0),
    decreases sites.len(),
{
    let tail = sites.drop_first();
    lemma_aborts_first(sites);
    if at == 0 {
        assert(recorded(sites)[0] == effect(sites[0])->Record_0);
    } else {
        lemma_recorded_holds_effect(tail, at - 1);
        let name = effect(sites[at])->Record_0;
        let i = choose|i: int| 0 <= i < recorded(tail).len() && recorded(tail)[i] == name;
        match effect(sites[0]) {
            Effect::Record(first) => {
                assert(recorded(sites)[i + 1] == name);
            },
            _ => {},
        }
    }
}

/// What is recorded was the name of a foreign callee at some site.
pub proof fn lemma_recorded_has_site(sites: Seq<Site>, name: Seq<char>) -> (at: int)
    requires
        recorded(sites).contains(name),
    ensures
        0 <= at < sites.len(),
        foreign_callee(sites[at]) == Some(name),
    decreases sites.len(),
{
    let tail = sites.drop_first();
    let i = choose|i: int| 0 <= i < recorded(sites).len() && recorded(sites)[i] == name;
    match effect(sites[0]) {
        Effect::Record(first) => {
            if i == 0 {
                0
            } else {
                lemma_recorded_has_site(tail, name) + 1
            }
        },
        Effect::Abort => { 0 },
        _ => { lemma_recorded_has_site(tail, name) + 1 },
    }
}

/// Soundness within scope. After a run that was not given up, the output
/// file holds the name of every foreign function that a call or a method
/// call of the module calls, at whatever depth the call stands: in the body
/// of a function, in the arguments of another call, in the receiver of a
/// method call.
pub proof fn lemma_foreign_calls_are_reported(contents: Seq<char>, sites: Seq<Site>, at: int)
    requires
        storable(merged(contents, sites)),
        !aborts(sites),
        0 <= at < sites.len(),
        foreign_callee(sites[at]) is Some,
    ensures
        lines_of(after_run(contents, sites)).contains(foreign_callee(sites[at])->Some_0),
{
    let name = foreign_callee(sites[at])->Some_0;
    lemma_recorded_holds_effect(sites, at);
    lemma_record_all_contains(record_all(Seq::empty(), lines_of(contents)), recorded(sites), name);
}

/// Exclusion. A name that a run adds to the output file is the name of a
/// foreign callee at one of its sites, and that callee is defined outside
/// the shim modules: a call into a shim module adds nothing.
pub proof fn lemma_shim_calls_are_not_reported(
    contents: Seq<char>,
    sites: Seq<Site>,
    name: Seq<char>,
) -> (at: int)
    requires
        storable(merged(contents, sites)),
        lines_of(after_run(contents, sites)).contains(name),
        !lines_of(contents).contains(name),
    ensures
        0 <= at < sites.len(),
        foreign_callee(sites[at]) == Some(name),
        callee_module(sites[at]) matches Some(module) && !is_shim(module),
{
    lemma_record_all_contains(record_all(Seq::empty(), lines_of(contents)), recorded(sites), name);
    lemma_record_all_contains(Seq::empty(), lines_of(contents), name);
    lemma_recorded_has_site(sites, name)
}

/// Exclusion. Where every callee that resolves is defined in a shim module,
/// a run records nothing.
pub proof fn lemma_only_shim_calls_record_nothing(sites: Seq<Site>)
    requires
        forall|at: int|
            0 <= at < sites.len() ==> (#[trigger] callee_module(sites[at]) matches Some(module)
                ==> is_shim(module)),
    ensures
        recorded(sites) == Seq::<Seq<char>>::empty(),
{
    if recorded(sites).len() > 0 {
        let name = recorded(sites)[0];
        let at = lemma_recorded_has_site(sites, name);
        assert(callee_module(sites[at]) is Some);
    }
}

/// Name collapse. Two foreign callees with one bare name, whatever their
/// paths and modules, leave one entry: recording both is recording one.
pub proof fn lemma_same_name_collapses(names: Seq<Seq<char>>, first: Site, second: Site)
    requires
        names.no_duplicates(),
        foreign_callee(first) is Some,
        foreign_callee(first) == foreign_callee(second),
    ensures
        record_all(names, recorded(seq![first, second])) == record_all(
            names,
            recorded(seq![first]),
        ),
        record_all(names, recorded(seq![first, second])) == record(
            names,
            foreign_callee(first)->Some_0,
        ),
        record_all(names, recorded(seq![first, second])).no_duplicates(),
{
    let name = foreign_callee(first)->Some_0;
    let both = seq![first, second];
    lemma_walk_one(first);
    lemma_walk_one(second);
    lemma_walk_concat(seq![first], seq![second]);
    assert(both =~= seq![first] + seq![second]);
    lemma_record_all_concat(names, seq![name], seq![name]);
    lemma_record_all_one(names, name);
    lemma_record_all_one(record(names, name), name);
    assert(record(names, name).contains(name)) by {
        if !names.contains(name) {
            assert(names.push(name)[names.len() as int] == name);
        }
    }
}

/// Union merge. After two runs, one after the other on one output file,
/// the file holds the names that it held before, those that the first run
/// recorded and those that the second recorded, and no others, each once.
pub proof fn lemma_sequential_runs_merge(
    contents: Seq<char>,
    first: Seq<Site>,
    second: Seq<Site>,
)
    requires
        storable(merged(contents, first)),
        storable(merged(rewritten(contents, first), second)),
        !aborts(first),
        !aborts(second),
    ensures
        lines_of(after_run(after_run(contents, first), second)) == record_all(
            merged(contents, first),
            recorded(second),
        ),
        lines_of(after_run(after_run(contents, first), second)).to_set() == lines_of(
            contents,
        ).to_set() + recorded(first).to_set() + recorded(second).to_set(),
        lines_of(after_run(after_run(contents, first), second)).no_duplicates(),
{
    let seed = record_all(Seq::empty(), lines_of(contents));
    let one = merged(contents, first);
    let between = rewritten(contents, first);
    lemma_next_run_starts_where_the_last_ended(contents, first, second);
    lemma_merged_is_storable(between, second);
    let held = lines_of(after_run(between, second));
    let union = lines_of(contents).to_set() + recorded(first).to_set() + recorded(second).to_set();
    assert forall|name: Seq<char>| held.to_set().contains(name) <==> union.contains(name) by {
        lemma_record_all_contains(one, recorded(second), name);
        lemma_record_all_contains(seed, recorded(first), name);
        lemma_record_all_contains(Seq::empty(), lines_of(contents), name);
    }
}

/// Lost update. Where two runs read the same contents and each writes what
/// it merged, the file that the later writer leaves lacks every name that
/// only the earlier one recorded: nothing keeps the two runs apart.
pub proof fn lemma_crossing_runs_lose_updates(
    contents: Seq<char>,
    first: Seq<Site>,
    second: Seq<Site>,
    name: Seq<char>,
)
    requires
        storable(merged(contents, first)),
        storable(merged(contents, second)),
        !aborts(first),
        !aborts(second),
        recorded(first).contains(name),
        !recorded(second).contains(name),
        !lines_of(contents).contains(name),
    ensures
        lines_of(after_run(contents, first)).contains(name),
        !lines_of(after_run(contents, second)).contains(name),
{
    let seed = record_all(Seq::empty(), lines_of(contents));
    lemma_record_all_contains(seed, recorded(first), name);
    lemma_record_all_contains(seed, recorded(second), name);
    lemma_record_all_contains(Seq::empty(), lines_of(contents), name);
}

} // verus!
