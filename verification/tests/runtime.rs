//! Tests of the protocol model: the scoped-token contract and the
//! short-circuit behavior of a synthesized function's run, checked against
//! a counting, scripted runtime.

use bind_python::decl::{Argument, BindDecl, CanonBind, PathHead, ReturnShape, WrapDecl};
use bind_python::normalize::normalize;
use bind_python::protocol::{run_bind, run_wrap, RunResult, ScriptedRuntime, Trace};

fn script(import_ok: bool, attr_ok: &[bool], invoke_ok: bool, extract_ok: bool, set_ok: bool)
    -> ScriptedRuntime {
    ScriptedRuntime {
        import_ok,
        attr_ok: attr_ok.to_vec(),
        invoke_ok,
        extract_ok,
        set_ok,
        value: 42,
        seq_values: vec![7, 9],
    }
}

fn canon(
    head: &str,
    chain: &[&str],
    is_call: bool,
    is_assign: bool,
    token: Option<&str>,
    arguments: &[(&str, &str)],
    ret: ReturnShape,
) -> CanonBind {
    normalize(&BindDecl {
        head: PathHead::Ident(head.to_string()),
        chain: chain.iter().map(|s| s.to_string()).collect(),
        is_call,
        is_assign,
        token: token.map(|t| t.to_string()),
        args: arguments
            .iter()
            .map(|(n, t)| Argument { name: n.to_string(), ty: t.to_string() })
            .collect(),
        ret,
        vis: String::new(),
        name: "under_test".to_string(),
    })
}

#[test]
fn failing_invocation_still_releases_scoped_token_once() {
    let c = canon("carb", &["init"], true, false, None, &[], ReturnShape::Unit);
    let rt = script(true, &[true], false, true, true);
    let (result, trace) = run_bind(&c, &rt);
    assert!(matches!(result, RunResult::Failed));
    assert_eq!(trace, Trace { acquires: 1, releases: 1, kwarg_builds: 0 });
}

#[test]
fn successful_run_balances_scoped_token() {
    let c = canon("carb", &["init"], true, false, None, &[], ReturnShape::Unit);
    let rt = script(true, &[true], true, true, true);
    let (result, trace) = run_bind(&c, &rt);
    assert!(matches!(result, RunResult::Done));
    assert_eq!(trace.acquires, 1);
    assert_eq!(trace.releases, 1);
}

#[test]
fn caller_supplied_token_is_never_acquired() {
    let c = canon("carb", &["init"], true, false, Some("py"), &[], ReturnShape::Unit);
    let rt = script(true, &[true], false, true, true);
    let (result, trace) = run_bind(&c, &rt);
    assert!(matches!(result, RunResult::Failed));
    assert_eq!(trace, Trace { acquires: 0, releases: 0, kwarg_builds: 0 });
}

#[test]
fn failing_import_aborts_before_lookup() {
    let c = canon(
        "mod",
        &["sub", "attr"],
        false,
        false,
        None,
        &[],
        ReturnShape::Single("i64".to_string()),
    );
    let rt = script(false, &[true, true], true, true, true);
    let (result, trace) = run_bind(&c, &rt);
    assert!(matches!(result, RunResult::Failed));
    assert_eq!(trace, Trace { acquires: 1, releases: 1, kwarg_builds: 0 });
}

#[test]
fn failing_lookup_aborts_the_traversal() {
    let c = canon(
        "mod",
        &["sub", "attr"],
        false,
        false,
        None,
        &[],
        ReturnShape::Single("i64".to_string()),
    );
    let rt = script(true, &[true, false], true, true, true);
    let (result, _) = run_bind(&c, &rt);
    assert!(matches!(result, RunResult::Failed));
}

#[test]
fn resolved_getter_extracts_the_scripted_value() {
    let c = canon(
        "mod",
        &["sub", "attr"],
        false,
        false,
        None,
        &[],
        ReturnShape::Single("i64".to_string()),
    );
    let rt = script(true, &[true, true], true, true, true);
    let (result, trace) = run_bind(&c, &rt);
    assert!(matches!(result, RunResult::Value(42)));
    assert_eq!(trace, Trace { acquires: 1, releases: 1, kwarg_builds: 0 });
}

#[test]
fn zero_argument_callable_never_builds_kwargs() {
    let c = canon("carb", &["init"], true, false, None, &[], ReturnShape::Unit);
    let rt = script(true, &[true], true, true, true);
    let (_, trace) = run_bind(&c, &rt);
    assert_eq!(trace.kwarg_builds, 0);
}

#[test]
fn callable_with_arguments_builds_kwargs_once() {
    let c = canon(
        "carb",
        &["set"],
        true,
        false,
        None,
        &[("value", "f64")],
        ReturnShape::Unit,
    );
    let rt = script(true, &[true], true, true, true);
    let (result, trace) = run_bind(&c, &rt);
    assert!(matches!(result, RunResult::Done));
    assert_eq!(trace.kwarg_builds, 1);
}

#[test]
fn setter_needs_only_the_prefix_lookups() {
    let c = canon(
        "carb",
        &["settings", "rate"],
        false,
        true,
        None,
        &[("value", "i64")],
        ReturnShape::Unit,
    );
    let rt = script(true, &[true], true, true, true);
    let (result, _) = run_bind(&c, &rt);
    assert!(matches!(result, RunResult::Done));
}

#[test]
fn failing_assignment_fails_the_setter() {
    let c = canon(
        "carb",
        &["rate"],
        false,
        true,
        None,
        &[("value", "i64")],
        ReturnShape::Unit,
    );
    let rt = script(true, &[], true, true, false);
    let (result, trace) = run_bind(&c, &rt);
    assert!(matches!(result, RunResult::Failed));
    assert_eq!(trace, Trace { acquires: 1, releases: 1, kwarg_builds: 0 });
}

#[test]
fn sequence_extraction_returns_the_scripted_elements_in_order() {
    let c = canon(
        "mod",
        &["all"],
        false,
        false,
        None,
        &[],
        ReturnShape::Sequence("i64".to_string()),
    );
    let rt = script(true, &[true], true, true, true);
    let (result, _) = run_bind(&c, &rt);
    match result {
        RunResult::ValueSeq(vs) => assert_eq!(vs, vec![7, 9]),
        _ => panic!("expected a sequence result"),
    }
}

#[test]
fn wrapper_balances_its_token_on_failure_too() {
    let w = WrapDecl {
        source: "inner::ping".to_string(),
        args: Vec::new(),
        ret: ReturnShape::Unit,
        vis: String::new(),
        name: "ping".to_string(),
    };
    let ok_rt = script(true, &[], true, true, true);
    let (done, trace_ok) = run_wrap(&w, &ok_rt);
    assert!(matches!(done, RunResult::Done));
    assert_eq!(trace_ok, Trace { acquires: 1, releases: 1, kwarg_builds: 0 });
    let bad_rt = script(true, &[], false, true, true);
    let (failed, trace_bad) = run_wrap(&w, &bad_rt);
    assert!(matches!(failed, RunResult::Failed));
    assert_eq!(trace_bad, Trace { acquires: 1, releases: 1, kwarg_builds: 0 });
}
