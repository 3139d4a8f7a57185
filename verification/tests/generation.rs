//! End-to-end tests of the generation pipeline: declarations in, generated
//! source text out.

use bind_python::decl::{Argument, BindDecl, Decl, PathHead, ReturnShape, WrapDecl};
use bind_python::engine::{generate, generate_all};
use bind_python::path_split::split_chain;

fn strings(parts: &[&str]) -> Vec<String> {
    parts.iter().map(|p| p.to_string()).collect()
}

fn args(pairs: &[(&str, &str)]) -> Vec<Argument> {
    pairs
        .iter()
        .map(|(n, t)| Argument { name: n.to_string(), ty: t.to_string() })
        .collect()
}

fn bind(
    head: PathHead,
    chain: &[&str],
    is_call: bool,
    is_assign: bool,
    token: Option<&str>,
    arguments: &[(&str, &str)],
    ret: ReturnShape,
    vis: &str,
    name: &str,
) -> Decl {
    Decl::Bind(BindDecl {
        head,
        chain: strings(chain),
        is_call,
        is_assign,
        token: token.map(|t| t.to_string()),
        args: args(arguments),
        ret,
        vis: vis.to_string(),
        name: name.to_string(),
    })
}

#[test]
fn callable_no_args_scoped_unit() {
    let d = bind(
        PathHead::Ident("carb".to_string()),
        &["init"],
        true,
        false,
        None,
        &[],
        ReturnShape::Unit,
        "pub",
        "init_carb",
    );
    let out = generate(&d).unwrap();
    let expected = "pub fn init_carb() -> ::pyo3::PyResult<()> {\n\
        \x20   ::pyo3::Python::with_gil(|py| {\n\
        \x20       let target = ::pyo3::types::PyModule::import(py, ::pyo3::intern!(py, \"carb\"))?;\n\
        \x20       let target = target.getattr(::pyo3::intern!(py, \"init\"))?;\n\
        \x20       let ret = target.call0()?;\n\
        \x20       Ok(())\n\
        \x20   })\n\
        }\n";
    assert_eq!(out, expected);
}

#[test]
fn callable_kwargs_with_token_unit() {
    let d = bind(
        PathHead::Ident("carb".to_string()),
        &["settings", "set"],
        true,
        false,
        Some("py"),
        &[("value", "f64")],
        ReturnShape::Unit,
        "pub",
        "set_value",
    );
    let out = generate(&d).unwrap();
    let expected = "pub fn set_value(py: ::pyo3::Python, value: f64) -> ::pyo3::PyResult<()> {\n\
        \x20   let target = ::pyo3::types::PyModule::import(py, ::pyo3::intern!(py, \"carb\"))?;\n\
        \x20   let target = target.getattr(::pyo3::intern!(py, \"settings\"))?;\n\
        \x20   let target = target.getattr(::pyo3::intern!(py, \"set\"))?;\n\
        \x20   let kwargs = ::pyo3::types::PyDict::new(py);\n\
        \x20   kwargs.set_item(::pyo3::intern!(py, \"value\"), value)?;\n\
        \x20   let ret = target.call((), Some(kwargs))?;\n\
        \x20   Ok(())\n\
        }\n";
    assert_eq!(out, expected);
}

#[test]
fn self_callable_takes_self_and_never_imports() {
    let d = bind(
        PathHead::Ident("self".to_string()),
        &["reset"],
        true,
        false,
        Some("py"),
        &[],
        ReturnShape::Single("bool".to_string()),
        "pub",
        "reset",
    );
    let out = generate(&d).unwrap();
    let expected = "pub fn reset(&self, py: ::pyo3::Python) -> ::pyo3::PyResult<bool> {\n\
        \x20   let target = self.as_ref(py);\n\
        \x20   let target = target.getattr(::pyo3::intern!(py, \"reset\"))?;\n\
        \x20   let ret = target.call0()?;\n\
        \x20   ret.extract()\n\
        }\n";
    assert_eq!(out, expected);
    assert!(!out.contains("import"));
    assert!(out.contains("&self"));
}

#[test]
fn getter_three_segment_chain() {
    let d = bind(
        PathHead::Ident("mod".to_string()),
        &["sub", "attr"],
        false,
        false,
        None,
        &[],
        ReturnShape::Single("i64".to_string()),
        "",
        "get_value",
    );
    let out = generate(&d).unwrap();
    let expected = "fn get_value() -> ::pyo3::PyResult<i64> {\n\
        \x20   ::pyo3::Python::with_gil(|py| {\n\
        \x20       let target = ::pyo3::types::PyModule::import(py, ::pyo3::intern!(py, \"mod\"))?;\n\
        \x20       let target = target.getattr(::pyo3::intern!(py, \"sub\"))?;\n\
        \x20       let target = target.getattr(::pyo3::intern!(py, \"attr\"))?;\n\
        \x20       target.extract()\n\
        \x20   })\n\
        }\n";
    assert_eq!(out, expected);
}

#[test]
fn deep_import_getter_uses_literal_path() {
    let d = bind(
        PathHead::Expr("omni.isaac.kit".to_string()),
        &["app"],
        false,
        false,
        Some("py"),
        &[],
        ReturnShape::Single("String".to_string()),
        "pub",
        "get_app",
    );
    let out = generate(&d).unwrap();
    let expected = "pub fn get_app(py: ::pyo3::Python) -> ::pyo3::PyResult<String> {\n\
        \x20   let target = ::pyo3::types::PyModule::import(py, ::pyo3::intern!(py, \"omni.isaac.kit\"))?;\n\
        \x20   let target = target.getattr(::pyo3::intern!(py, \"app\"))?;\n\
        \x20   target.extract()\n\
        }\n";
    assert_eq!(out, expected);
}

#[test]
fn setter_traverses_prefix_and_assigns_last() {
    let d = bind(
        PathHead::Ident("carb".to_string()),
        &["settings", "app", "rate"],
        false,
        true,
        None,
        &[("value", "i64")],
        ReturnShape::Unit,
        "pub",
        "set_rate",
    );
    let out = generate(&d).unwrap();
    let expected = "pub fn set_rate(value: i64) -> ::pyo3::PyResult<()> {\n\
        \x20   ::pyo3::Python::with_gil(|py| {\n\
        \x20       let target = ::pyo3::types::PyModule::import(py, ::pyo3::intern!(py, \"carb\"))?;\n\
        \x20       let target = target.getattr(::pyo3::intern!(py, \"settings\"))?;\n\
        \x20       let target = target.getattr(::pyo3::intern!(py, \"app\"))?;\n\
        \x20       target.setattr(::pyo3::intern!(py, \"rate\"), value)?;\n\
        \x20       Ok(())\n\
        \x20   })\n\
        }\n";
    assert_eq!(out, expected);
}

#[test]
fn setter_single_segment_assigns_directly() {
    let d = bind(
        PathHead::Ident("self".to_string()),
        &["speed"],
        false,
        true,
        Some("py"),
        &[("value", "f64")],
        ReturnShape::Unit,
        "",
        "set_speed",
    );
    let out = generate(&d).unwrap();
    let expected = "fn set_speed(&mut self, py: ::pyo3::Python, value: f64) -> ::pyo3::PyResult<()> {\n\
        \x20   let target = self.as_ref(py);\n\
        \x20   target.setattr(::pyo3::intern!(py, \"speed\"), value)?;\n\
        \x20   Ok(())\n\
        }\n";
    assert_eq!(out, expected);
}

#[test]
fn wrap_sequence_converts_elementwise() {
    let d = Decl::Wrap(WrapDecl {
        source: "inner::fetch".to_string(),
        args: args(&[("count", "u32")]),
        ret: ReturnShape::Sequence("String".to_string()),
        vis: "pub".to_string(),
        name: "fetch".to_string(),
    });
    let out = generate(&d).unwrap();
    let expected = "pub fn fetch(count: u32) -> ::pyo3::PyResult<Vec<String>> {\n\
        \x20   ::pyo3::Python::with_gil(|py| {\n\
        \x20       let ret = inner::fetch(py, count)?;\n\
        \x20       Ok(ret.into_iter().map(|x| x.into()).collect())\n\
        \x20   })\n\
        }\n";
    assert_eq!(out, expected);
}

#[test]
fn wrap_unit_discards_result() {
    let d = Decl::Wrap(WrapDecl {
        source: "inner::ping".to_string(),
        args: Vec::new(),
        ret: ReturnShape::Unit,
        vis: String::new(),
        name: "ping".to_string(),
    });
    let out = generate(&d).unwrap();
    let expected = "fn ping() -> ::pyo3::PyResult<()> {\n\
        \x20   ::pyo3::Python::with_gil(|py| {\n\
        \x20       let ret = inner::ping(py)?;\n\
        \x20       Ok(())\n\
        \x20   })\n\
        }\n";
    assert_eq!(out, expected);
}

#[test]
fn raw_identifier_prefix_stripped_from_keyword_name() {
    let mut escaped = String::from("r");
    escaped.push('#');
    escaped.push_str("type");
    let d = bind(
        PathHead::Ident("carb".to_string()),
        &["configure"],
        true,
        false,
        Some("py"),
        &[(escaped.as_str(), "String")],
        ReturnShape::Unit,
        "",
        "configure",
    );
    let out = generate(&d).unwrap();
    let key_line = format!(
        "    kwargs.set_item(::pyo3::intern!(py, \"type\"), {})?;\n",
        escaped
    );
    assert!(out.contains(key_line.as_str()));
    let wrong_key = format!("::pyo3::intern!(py, \"{}\")", escaped);
    assert!(!out.contains(wrong_key.as_str()));
}

#[test]
fn generation_is_idempotent() {
    let d = bind(
        PathHead::Ident("carb".to_string()),
        &["settings", "set"],
        true,
        false,
        None,
        &[("value", "f64"), ("path", "String")],
        ReturnShape::Single("bool".to_string()),
        "pub",
        "set_value",
    );
    let first = generate(&d).unwrap();
    let second = generate(&d).unwrap();
    assert_eq!(first, second);
}

#[test]
fn batch_keeps_order_and_isolates_failures() {
    let good = bind(
        PathHead::Ident("carb".to_string()),
        &["init"],
        true,
        false,
        None,
        &[],
        ReturnShape::Unit,
        "pub",
        "init_carb",
    );
    let bad = bind(
        PathHead::Ident("carb".to_string()),
        &["init"],
        true,
        true,
        None,
        &[],
        ReturnShape::Unit,
        "",
        "broken",
    );
    let also_good = bind(
        PathHead::Ident("mod".to_string()),
        &["sub", "attr"],
        false,
        false,
        None,
        &[],
        ReturnShape::Single("i64".to_string()),
        "",
        "get_value",
    );
    let batch = vec![good, bad, also_good];
    let singles: Vec<_> = batch.iter().map(generate).collect();
    let outs = generate_all(&batch);
    assert_eq!(outs.len(), 3);
    assert!(outs[0].is_ok());
    assert!(outs[1].is_err());
    assert!(outs[2].is_ok());
    assert_eq!(outs[0].as_ref().unwrap(), singles[0].as_ref().unwrap());
    assert_eq!(outs[2].as_ref().unwrap(), singles[2].as_ref().unwrap());
    assert_eq!(
        outs[1].as_ref().unwrap_err().message(),
        "declaration 'broken' matches no binding rule"
    );
}

#[test]
fn getter_with_arguments_matches_no_rule() {
    let d = bind(
        PathHead::Ident("carb".to_string()),
        &["attr"],
        false,
        false,
        None,
        &[("value", "i64")],
        ReturnShape::Single("i64".to_string()),
        "",
        "odd_getter",
    );
    let e = generate(&d).unwrap_err();
    assert_eq!(e.message(), "declaration 'odd_getter' matches no binding rule");
}

#[test]
fn setter_with_two_arguments_matches_no_rule() {
    let d = bind(
        PathHead::Ident("carb".to_string()),
        &["attr"],
        false,
        true,
        None,
        &[("a", "i64"), ("b", "i64")],
        ReturnShape::Unit,
        "",
        "odd_setter",
    );
    assert!(generate(&d).is_err());
}

#[test]
fn setter_returning_value_matches_no_rule() {
    let d = bind(
        PathHead::Ident("carb".to_string()),
        &["attr"],
        false,
        true,
        None,
        &[("a", "i64")],
        ReturnShape::Single("i64".to_string()),
        "",
        "odd_setter",
    );
    assert!(generate(&d).is_err());
}

#[test]
fn empty_chain_matches_no_rule() {
    let d = bind(
        PathHead::Ident("carb".to_string()),
        &[],
        true,
        false,
        None,
        &[],
        ReturnShape::Unit,
        "",
        "no_chain",
    );
    assert!(generate(&d).is_err());
}

#[test]
fn sequence_return_shape_declares_an_owned_sequence() {
    let d = bind(
        PathHead::Ident("mod".to_string()),
        &["all_names"],
        false,
        false,
        Some("py"),
        &[],
        ReturnShape::Sequence("String".to_string()),
        "pub",
        "all_names",
    );
    let out = generate(&d).unwrap();
    let expected = "pub fn all_names(py: ::pyo3::Python) -> ::pyo3::PyResult<Vec<String>> {\n\
        \x20   let target = ::pyo3::types::PyModule::import(py, ::pyo3::intern!(py, \"mod\"))?;\n\
        \x20   let target = target.getattr(::pyo3::intern!(py, \"all_names\"))?;\n\
        \x20   target.extract()\n\
        }\n";
    assert_eq!(out, expected);
}

#[test]
fn self_getter_scoped_binds_its_own_token() {
    let d = bind(
        PathHead::Ident("self".to_string()),
        &["status"],
        false,
        false,
        None,
        &[],
        ReturnShape::Single("i64".to_string()),
        "pub",
        "status",
    );
    let out = generate(&d).unwrap();
    let expected = "pub fn status(&self) -> ::pyo3::PyResult<i64> {\n\
        \x20   ::pyo3::Python::with_gil(|py| {\n\
        \x20       let target = self.as_ref(py);\n\
        \x20       let target = target.getattr(::pyo3::intern!(py, \"status\"))?;\n\
        \x20       target.extract()\n\
        \x20   })\n\
        }\n";
    assert_eq!(out, expected);
}

#[test]
fn empty_batch_generates_nothing() {
    let outs = generate_all(&Vec::new());
    assert!(outs.is_empty());
}

#[test]
fn split_keeps_prefix_and_returns_last() {
    let (prefix, last) = split_chain(&strings(&["a", "b", "c"]));
    assert_eq!(prefix, strings(&["a", "b"]));
    assert_eq!(last, "c");
}

#[test]
fn split_of_single_segment_has_empty_prefix() {
    let (prefix, last) = split_chain(&strings(&["a"]));
    assert!(prefix.is_empty());
    assert_eq!(last, "a");
}
