//! The set of foreign function names found so far.

use vstd::prelude::*;
use crate::text::str_eq;

verus! {

/// `names` with `name` added at its end, unless `names` holds it already.
pub open spec fn record(names: Seq<Seq<char>>, name: Seq<char>) -> Seq<Seq<char>> {
    if names.contains(name) {
        names
    } else {
        names.push(name)
    }
}

/// `names` after each name of `more` has been recorded, first to last.
pub open spec fn record_all(names: Seq<Seq<char>>, more: Seq<Seq<char>>) -> Seq<Seq<char>>
    decreases more.len(),
{
    if more.len() == 0 {
        names
    } else {
        record(record_all(names, more.drop_last()), more.last())
    }
}

/// The characters of each string of `names`.
pub open spec fn names_of(names: Seq<String>) -> Seq<Seq<char>> {
    names.map_values(|name: String| name@)
}

/// Recording a sequence of names is recording a first part of it, then the
/// rest.
pub proof fn lemma_record_all_concat(
    names: Seq<Seq<char>>,
    first: Seq<Seq<char>>,
    rest: Seq<Seq<char>>,
)
    ensures
        record_all(names, first + rest) == record_all(record_all(names, first), rest),
    decreases rest.len(),
{
    if rest.len() > 0 {
        assert((first + rest).drop_last() =~= first + rest.drop_last());
        lemma_record_all_concat(names, first, rest.drop_last());
    }
}

/// Recording a sequence of one name is recording that name.
pub proof fn lemma_record_all_one(names: Seq<Seq<char>>, name: Seq<char>)
    ensures
        record_all(names, seq![name]) == record(names, name),
{
    assert(record_all(names, seq![name].drop_last()) == names);
}

/// After recording, the names held are those held before and those
/// recorded: recording only ever adds, and adds nothing else.
pub proof fn lemma_record_all_contains(
    names: Seq<Seq<char>>,
    more: Seq<Seq<char>>,
    name: Seq<char>,
)
    ensures
        record_all(names, more).contains(name) <==> names.contains(name) || more.contains(name),
    decreases more.len(),
{
    if more.len() > 0 {
        let before = record_all(names, more.drop_last());
        lemma_record_all_contains(names, more.drop_last(), name);
        assert(more =~= more.drop_last().push(more.last()));
        if !before.contains(more.last()) {
            let after = before.push(more.last());
            if before.contains(name) {
                let i = choose|i: int| 0 <= i < before.len() && before[i] == name;
                assert(after[i] == name);
            }
            assert(after[before.len() as int] == more.last());
        }
    }
}

/// Recording keeps the names that are held, in their places: a set only
/// grows, at its end.
pub proof fn lemma_record_all_grows(names: Seq<Seq<char>>, more: Seq<Seq<char>>)
    ensures
        names.is_prefix_of(record_all(names, more)),
    decreases more.len(),
{
    if more.len() > 0 {
        lemma_record_all_grows(names, more.drop_last());
    }
}

/// Recording never makes a name occur twice.
pub proof fn lemma_record_all_unique(names: Seq<Seq<char>>, more: Seq<Seq<char>>)
    requires
        names.no_duplicates(),
    ensures
        record_all(names, more).no_duplicates(),
    decreases more.len(),
{
    if more.len() > 0 {
        lemma_record_all_unique(names, more.drop_last());
    }
}

/// Recording names that are all held already changes nothing.
pub proof fn lemma_record_all_known(names: Seq<Seq<char>>, more: Seq<Seq<char>>)
    requires
        forall|i: int| 0 <= i < more.len() ==> names.contains(#[trigger] more[i]),
    ensures
        record_all(names, more) == names,
    decreases more.len(),
{
    if more.len() > 0 {
        assert forall|i: int| 0 <= i < more.drop_last().len() implies names.contains(
            #[trigger] more.drop_last()[i],
        ) by {}
        lemma_record_all_known(names, more.drop_last());
    }
}

/// Recording, into the empty set, names of which none occurs twice gives
/// those names in their order.
pub proof fn lemma_record_all_of_unique(more: Seq<Seq<char>>)
    requires
        more.no_duplicates(),
    ensures
        record_all(Seq::empty(), more) == more,
    decreases more.len(),
{
    if more.len() > 0 {
        lemma_record_all_of_unique(more.drop_last());
    }
}

/// A set of names, unique by name, kept in the order in which they were
/// first recorded.
#[derive(Debug)]
pub struct ResultSet {
    names: Vec<String>,
}

impl View for ResultSet {
    type V = Seq<Seq<char>>;

    closed spec fn view(&self) -> Seq<Seq<char>> {
        names_of(self.names@)
    }
}

impl ResultSet {
    #[verifier::type_invariant]
    spec fn unique(&self) -> bool {
        names_of(self.names@).no_duplicates()
    }

    /// The empty set.
    pub fn new() -> (set: ResultSet)
        ensures
            set@ == Seq::<Seq<char>>::empty(),
    {
        ResultSet { names: Vec::new() }
    }

    /// The number of names in the set.
    pub fn len(&self) -> (n: usize)
        ensures
            n == self@.len(),
    {
        self.names.len()
    }

    /// The names of the set, in the order in which they were first recorded.
    /// No name occurs twice among them.
    pub fn names(&self) -> (names: &Vec<String>)
        ensures
            names_of(names@) == self@,
            self@.no_duplicates(),
    {
        proof {
            use_type_invariant(self);
        }
        &self.names
    }

    /// Whether the set holds `name`.
    pub fn contains(&self, name: &str) -> (found: bool)
        ensures
            found == self@.contains(name@),
    {
        let mut i: usize = 0;
        while i < self.names.len()
            invariant
                i <= self.names.len(),
                forall|j: int| 0 <= j < i ==> names_of(self.names@)[j] != name@,
            decreases self.names.len() - i,
        {
            if str_eq(self.names[i].as_str(), name) {
                assert(names_of(self.names@)[i as int] == name@);
                return true;
            }
            i += 1;
        }
        false
    }

    /// Records `name`: adds it unless the set holds it already. Returns
    /// whether the name was new.
    pub fn insert(&mut self, name: String) -> (fresh: bool)
        ensures
            final(self)@ == record(old(self)@, name@),
            fresh == !old(self)@.contains(name@),
    {
        proof {
            use_type_invariant(&*self);
        }
        if self.contains(name.as_str()) {
            false
        } else {
            // The names are taken out and put back, so that the set is never
            // seen with a name half added.
            let mut names: Vec<String> = Vec::new();
            core::mem::swap(&mut names, &mut self.names);
            names.push(name);
            assert(names_of(names@) =~= names_of(old(self).names@).push(name@));
            self.names = names;
            true
        }
    }
}

} // verus!
