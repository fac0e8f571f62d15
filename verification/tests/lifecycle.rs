use foreign_function_finder::analysis::AnalysisError;
use foreign_function_finder::lifecycle::{after_analysis, Compilation};
use foreign_function_finder::result_set::ResultSet;
use foreign_function_finder::target::{DefKind, ResolvedCallTarget, TypeKind};
use foreign_function_finder::tree::{
    Call, Callee, Expr, Item, ItemKind, ItemLike, MethodCall, Module, Resolution,
};
use foreign_function_finder::walk::Warning;

fn foreign(module: &str, name: &str) -> ResolvedCallTarget {
    ResolvedCallTarget {
        path: format!("{module}::{name}"),
        module: module.to_string(),
        name: name.to_string(),
        signature: Some(TypeKind::FnDef),
        foreign: true,
    }
}

fn calling(targets: Vec<ResolvedCallTarget>) -> Module {
    let calls = targets
        .into_iter()
        .map(|target| {
            Expr::Call(Call {
                owner: DefKind::Fn,
                callee: Callee::Path(Some(Resolution { kind: DefKind::Fn, target })),
                args: vec![],
            })
        })
        .collect();
    Module { items: vec![ItemLike::Item(Item { kind: ItemKind::Fn, body: Expr::Other(calls) })] }
}

fn run(contents: &str, module: &Module) -> String {
    after_analysis("out.txt".to_string(), contents, module).contents.unwrap()
}

fn names_in(contents: &str) -> Vec<String> {
    let mut names = ResultSet::from_text(contents).names().clone();
    names.sort();
    names
}

#[test]
fn one_foreign_call_into_an_empty_file_leaves_its_name() {
    let module = calling(vec![foreign("demo", "foreign_fn")]);
    let outcome = after_analysis("/build/out.txt".to_string(), "", &module);
    assert_eq!(outcome.output, "/build/out.txt");
    assert_eq!(outcome.contents, Ok("foreign_fn".to_string()));
    assert_eq!(outcome.compilation, Compilation::Continue);
}

#[test]
fn a_call_into_a_shim_module_leaves_the_file_empty() {
    let module = calling(vec![foreign("libc", "socket")]);
    let outcome = after_analysis("out.txt".to_string(), "", &module);
    assert_eq!(outcome.contents, Ok(String::new()));
    assert_eq!(outcome.compilation, Compilation::Continue);
    let module = calling(vec![foreign("libloading", "socket")]);
    assert_eq!(run("", &module), "");
}

#[test]
fn the_compilation_goes_on_when_the_analysis_was_given_up() {
    let odd = Expr::MethodCall(MethodCall {
        resolution: Some(Resolution { kind: DefKind::Other, target: foreign("demo", "odd") }),
        receiver: Box::new(Expr::Other(vec![])),
        args: vec![],
    });
    let module = Module { items: vec![ItemLike::Item(Item { kind: ItemKind::Fn, body: odd })] };
    let outcome = after_analysis("out.txt".to_string(), "open\n", &module);
    assert_eq!(outcome.contents, Err(AnalysisError::UnexpectedResolution));
    assert_eq!(outcome.compilation, Compilation::Continue);
    assert_eq!(outcome.output, "out.txt");
}

#[test]
fn the_file_is_written_whole_with_the_new_names_at_its_end() {
    let module = calling(vec![foreign("demo", "read"), foreign("demo", "open"), foreign("demo", "write")]);
    assert_eq!(run("open\nclose", &module), "open\nclose\nread\nwrite");
    assert_eq!(run("open\nclose\n", &module), "open\nclose\nread\nwrite");
}

#[test]
fn a_second_run_changes_nothing() {
    let module = calling(vec![foreign("demo", "read"), foreign("demo", "write"), foreign("demo", "read")]);
    for contents in ["", "open", "open\nread\n", "write\nopen\r\nclose"] {
        let once = run(contents, &module);
        let twice = run(&once, &module);
        assert_eq!(once, twice, "{contents:?}");
    }
}

#[test]
fn two_names_that_collide_leave_one_line() {
    let module = calling(vec![foreign("zlib", "open"), foreign("sqlite", "open")]);
    assert_eq!(run("", &module), "open");
}

#[test]
fn runs_one_after_the_other_merge_their_findings() {
    let first = calling(vec![foreign("demo", "a"), foreign("demo", "b")]);
    let second = calling(vec![foreign("demo", "b"), foreign("demo", "c")]);
    let one_way = run(&run("", &first), &second);
    assert_eq!(one_way, "a\nb\nc");
    let other_way = run(&run("", &second), &first);
    assert_eq!(other_way, "b\nc\na");
    assert_eq!(names_in(&one_way), names_in(&other_way));
    assert_eq!(names_in(&one_way), vec!["a", "b", "c"]);
    let seeded = run(&run("z\na", &first), &second);
    assert_eq!(names_in(&seeded), vec!["a", "b", "c", "z"]);
}

#[test]
fn runs_that_cross_lose_the_findings_of_the_first_writer() {
    let first = calling(vec![foreign("demo", "a"), foreign("demo", "shared")]);
    let second = calling(vec![foreign("demo", "shared"), foreign("demo", "c")]);
    let initial = "known";
    // Both runs read the same contents; each writes what it merged.
    let written_first = run(initial, &first);
    let written_last = run(initial, &second);
    assert_eq!(written_first, "known\na\nshared");
    assert_eq!(written_last, "known\nshared\nc");
    // The file holds what the later writer wrote: "a" is lost.
    assert!(!names_in(&written_last).contains(&"a".to_string()));
    // Had the second run read what the first wrote, nothing would be lost.
    let in_sequence = run(&written_first, &second);
    assert_eq!(names_in(&in_sequence), vec!["a", "c", "known", "shared"]);
}

#[test]
fn a_module_without_calls_rewrites_the_names_it_read() {
    let module = Module { items: vec![] };
    assert_eq!(run("", &module), "");
    assert_eq!(run("open\nclose\nopen\n", &module), "open\nclose");
}

#[test]
fn the_outcome_holds_the_warnings_of_the_run() {
    let mut untyped = foreign("demo", "generic");
    untyped.signature = None;
    let mut pointer = foreign("demo", "pointer");
    pointer.signature = Some(TypeKind::Other);
    let module = calling(vec![untyped, foreign("demo", "open"), pointer]);
    let outcome = after_analysis("out.txt".to_string(), "", &module);
    assert_eq!(outcome.contents, Ok("open".to_string()));
    assert_eq!(outcome.warnings, vec![Warning::CannotBeTyped, Warning::FunctionNotFnDef]);
}

#[test]
fn a_foreign_call_inside_the_argument_of_a_source_call_is_written() {
    let argument = Expr::Call(Call {
        owner: DefKind::Fn,
        callee: Callee::Path(Some(Resolution { kind: DefKind::Fn, target: foreign("demo", "ffi") })),
        args: vec![],
    });
    let mut source = foreign("demo", "f");
    source.foreign = false;
    let call = Expr::Call(Call {
        owner: DefKind::Fn,
        callee: Callee::Path(Some(Resolution { kind: DefKind::Fn, target: source })),
        args: vec![argument],
    });
    let module = Module { items: vec![ItemLike::Item(Item { kind: ItemKind::Fn, body: call })] };
    assert_eq!(run("", &module), "ffi");
}

#[test]
fn a_foreign_call_in_the_receiver_of_a_method_call_is_written() {
    let receiver = Expr::Call(Call {
        owner: DefKind::Fn,
        callee: Callee::Path(Some(Resolution { kind: DefKind::Fn, target: foreign("demo", "ffi") })),
        args: vec![],
    });
    let mut unwrap = foreign("core", "unwrap");
    unwrap.foreign = false;
    let call = Expr::MethodCall(MethodCall {
        resolution: Some(Resolution { kind: DefKind::AssocFn, target: unwrap }),
        receiver: Box::new(receiver),
        args: vec![],
    });
    let module = Module { items: vec![ItemLike::Item(Item { kind: ItemKind::Fn, body: call })] };
    assert_eq!(run("open", &module), "open\nffi");
}
