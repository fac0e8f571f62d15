//! What the arguments of one compiler invocation say about the crate that
//! is being compiled.

use vstd::prelude::*;
use crate::result_set::names_of;
use crate::text::str_eq;

verus! {

/// The kind of artifact that a crate is compiled to.
#[derive(Clone, Copy, Debug, PartialEq, Eq, Structural)]
pub enum CrateKind {
    /// An executable.
    Bin,
    /// Any kind of library.
    Lib,
}

/// What a compiler invocation says about the crate that it compiles.
#[derive(Debug)]
pub struct Args {
    /// Name of the crate being compiled.
    name: Option<String>,
    /// The kind of this crate.
    kind: Option<CrateKind>,
    /// Whether this crate is being compiled for release.
    is_release: bool,
    /// Whether this crate is being compiled for a test.
    is_test: bool,
}

/// The content of an [`Args`].
pub struct ArgsView {
    pub name: Option<Seq<char>>,
    pub kind: Option<CrateKind>,
    pub is_release: bool,
    pub is_test: bool,
}

/// The argument that follows the last `flag` of `args` that has an argument
/// after it.
pub open spec fn last_value_of(args: Seq<Seq<char>>, flag: Seq<char>) -> Option<Seq<char>>
    decreases args.len(),
{
    if args.len() < 2 {
        None
    } else if args[args.len() - 2] == flag {
        Some(args.last())
    } else {
        last_value_of(args.drop_last(), flag)
    }
}

/// The crate kind that the value `name` of `--crate-type` stands for.
pub open spec fn kind_named(name: Seq<char>) -> CrateKind {
    if name == "bin"@ {
        CrateKind::Bin
    } else {
        CrateKind::Lib
    }
}

/// Whether the argument at `i` and its successor mark a test build: the
/// first is `--test`, or the second is `test`.
pub open spec fn marks_test(args: Seq<Seq<char>>, i: int) -> bool {
    0 <= i < args.len() - 1 && (args[i] == "--test"@ || args[i + 1] == "test"@)
}

/// What `args` say. The arguments are read two by two, each with its
/// successor: a single argument says nothing.
pub open spec fn parsed(args: Seq<Seq<char>>) -> ArgsView {
    ArgsView {
        name: last_value_of(args, "--crate-name"@),
        kind: match last_value_of(args, "--crate-type"@) {
            Some(name) => Some(kind_named(name)),
            None => None,
        },
        is_release: args.len() >= 2 && args.contains("--release"@),
        is_test: exists|i: int| marks_test(args, i),
    }
}

/// The characters of `name`, where there is one.
pub open spec fn chars_of(name: Option<String>) -> Option<Seq<char>> {
    match name {
        Some(name) => Some(name@),
        None => None,
    }
}

impl View for Args {
    type V = ArgsView;

    closed spec fn view(&self) -> ArgsView {
        ArgsView {
            name: chars_of(self.name),
            kind: self.kind,
            is_release: self.is_release,
            is_test: self.is_test,
        }
    }
}

impl Args {
    /// Reads the arguments of a compiler invocation.
    pub fn from_raw(args: &[String]) -> (parsed_args: Args)
        ensures
            parsed_args@ == parsed(names_of(args@)),
    {
        let ghost all = names_of(args@);
        let mut name: Option<String> = None;
        let mut kind: Option<CrateKind> = None;
        let mut is_release = false;
        let mut is_test = false;
        if args.len() < 2 {
            return Args { name, kind, is_release, is_test };
        }
        let mut seen: usize = 1;
        while seen < args.len()
            invariant
                1 <= seen <= args.len(),
                all == names_of(args@),
                chars_of(name) == parsed(all.take(seen as int)).name,
                kind == parsed(all.take(seen as int)).kind,
                is_release == parsed(all.take(seen as int)).is_release,
                is_test == parsed(all.take(seen as int)).is_test,
            decreases args.len() - seen,
        {
            let a1 = args[seen - 1].as_str();
            let a2 = args[seen].as_str();
            let ghost before = all.take(seen as int);
            let ghost after = all.take(seen + 1);
            proof {
                assert(after.drop_last() =~= before);
            }
            if str_eq(a1, "--crate-name") {
                name = Some(a2.to_owned());
            } else if str_eq(a1, "--crate-type") {
                if str_eq(a2, "bin") {
                    kind = Some(CrateKind::Bin);
                } else {
                    kind = Some(CrateKind::Lib);
                }
            }
            proof {
                reveal_strlit("--crate-name");
                reveal_strlit("--crate-type");
                assert("--crate-name"@[8] != "--crate-type"@[8]);
            }
            if str_eq(a1, "--release") || str_eq(a2, "--release") {
                is_release = true;
            }
            if str_eq(a1, "--test") || str_eq(a2, "test") {
                is_test = true;
            }
            proof {
                if parsed(before).is_test {
                    let i = choose|i: int| marks_test(before, i);
                    assert(marks_test(after, i));
                }
                if parsed(after).is_test {
                    let i = choose|i: int| marks_test(after, i);
                    if i < seen - 1 {
                        assert(marks_test(before, i));
                    }
                }
                if is_test {
                    assert(marks_test(after, seen - 1) || parsed(before).is_test);
                }
            }
            seen += 1;
        }
        assert(all.take(seen as int) =~= all);
        Args { name, kind, is_release, is_test }
    }

    /// The name of the crate, where the arguments gave one.
    pub fn name(&self) -> (name: &Option<String>)
        ensures
            chars_of(*name) == self@.name,
    {
        &self.name
    }

    /// The kind of the crate, where the arguments gave one.
    pub fn kind(&self) -> (kind: Option<CrateKind>)
        ensures
            kind == self@.kind,
    {
        self.kind
    }

    /// Whether the crate is compiled for release.
    pub fn is_release(&self) -> (release: bool)
        ensures
            release == self@.is_release,
    {
        self.is_release
    }

    /// Whether the crate is compiled for a test.
    pub fn is_test(&self) -> (test: bool)
        ensures
            test == self@.is_test,
    {
        self.is_test
    }

    /// The name of the crate, or `default` where the arguments gave none.
    pub fn name_or(&self, default: &str) -> (name: String)
        ensures
            name@ == match self@.name {
                Some(given) => given,
                None => default@,
            },
    {
        match &self.name {
            Some(given) => given.clone(),
            None => default.to_owned(),
        }
    }
}

} // verus!
