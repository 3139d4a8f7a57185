//! Tests of the dictionary-conversion generator.

use bind_python::dict::{impl_into_pydict, RecordInput};

#[test]
fn named_record_generates_one_entry_per_field() {
    let input = RecordInput::Named {
        name: "Config".to_string(),
        fields: vec!["alpha".to_string(), "beta".to_string()],
    };
    let out = impl_into_pydict(&input).unwrap();
    let expected = "#[automatically_derived]\n\
        impl ::pyo3::types::IntoPyDict for Config {\n\
        \x20   fn into_py_dict(self, py: ::pyo3::Python) -> &::pyo3::types::PyDict {\n\
        \x20       let kwargs = ::pyo3::types::PyDict::new(py);\n\
        \x20       kwargs.set_item(::pyo3::intern!(py, \"alpha\"), self.alpha).expect(\"Failed to convert field 'alpha' of struct 'Config' into a pyo3::types::PyDict item.\");\n\
        \x20       kwargs.set_item(::pyo3::intern!(py, \"beta\"), self.beta).expect(\"Failed to convert field 'beta' of struct 'Config' into a pyo3::types::PyDict item.\");\n\
        \x20       kwargs\n\
        \x20   }\n\
        }\n\
        \n\
        #[automatically_derived]\n\
        impl ::std::convert::From<Config> for ::pyo3::Py<::pyo3::types::PyDict> {\n\
        \x20   fn from(value: Config) -> Self {\n\
        \x20       ::pyo3::Python::with_gil(|py| {\n\
        \x20           ::pyo3::types::IntoPyDict::into_py_dict(value, py).into()\n\
        \x20       })\n\
        \x20   }\n\
        }\n";
    assert_eq!(out, expected);
}

#[test]
fn record_without_fields_generates_no_entries() {
    let input = RecordInput::Named { name: "Empty".to_string(), fields: Vec::new() };
    let out = impl_into_pydict(&input).unwrap();
    assert!(!out.contains("set_item"));
    assert!(out.contains("impl ::pyo3::types::IntoPyDict for Empty {"));
    assert!(out.contains("impl ::std::convert::From<Empty> for"));
}

#[test]
fn non_record_shape_is_reported_by_name() {
    let input = RecordInput::Other { name: "Thing".to_string() };
    let err = impl_into_pydict(&input).unwrap_err();
    assert_eq!(err.message(), "'Thing' is not a struct with named fields");
}

#[test]
fn dict_generation_is_idempotent() {
    let input = RecordInput::Named {
        name: "Config".to_string(),
        fields: vec!["alpha".to_string()],
    };
    let first = impl_into_pydict(&input).unwrap();
    let second = impl_into_pydict(&input).unwrap();
    assert_eq!(first, second);
}
