//! The dictionary-conversion generator: given the reflected shape of a
//! record — its name and the names of its fields — it synthesizes the
//! implementations that turn a value of the record into a runtime
//! key-value structure, one entry per field, keyed by the field's name.

use vstd::prelude::*;

use crate::decl::{GenError, GenErrorV};

verus! {

/// The reflected shape of the type a dictionary conversion is requested
/// for: a struct with named fields — the only shape the generator accepts
/// — or anything else, kept only by name for the failure report.
pub enum RecordInput {
    Named { name: String, fields: Vec<String> },
    Other { name: String },
}

/// Mathematical model of a [`RecordInput`].
pub enum RecordInputV {
    Named { name: Seq<char>, fields: Seq<Seq<char>> },
    Other { name: Seq<char> },
}

impl View for RecordInput {
    type V = RecordInputV;

    open spec fn view(&self) -> RecordInputV {
        match self {
            RecordInput::Named { name, fields } => RecordInputV::Named {
                name: name@,
                fields: fields.deep_view(),
            },
            RecordInput::Other { name } => RecordInputV::Other { name: name@ },
        }
    }
}

/// The opening of the generated conversion implementation, down to the
/// creation of the empty key-value structure.
pub open spec fn dict_header(name: Seq<char>) -> Seq<char> {
    "#[automatically_derived]\nimpl ::pyo3::types::IntoPyDict for "@ + name + " {\n"@
        + "    fn into_py_dict(self, py: ::pyo3::Python) -> &::pyo3::types::PyDict {\n"@
        + "        let kwargs = ::pyo3::types::PyDict::new(py);\n"@
}

/// The generated line inserting one field into the key-value structure,
/// keyed by the field's name and carrying the field's value.
pub open spec fn dict_field_line(name: Seq<char>, field: Seq<char>) -> Seq<char> {
    "        kwargs.set_item(::pyo3::intern!(py, \""@ + field + "\"), self."@ + field
        + ").expect(\"Failed to convert field '"@ + field + "' of struct '"@ + name
        + "' into a pyo3::types::PyDict item.\");\n"@
}

/// The generated insertion lines of every field, in declaration order.
pub open spec fn dict_field_lines(name: Seq<char>, fields: Seq<Seq<char>>) -> Seq<char>
    decreases fields.len(),
{
    if fields.len() == 0 {
        Seq::<char>::empty()
    } else {
        dict_field_lines(name, fields.drop_last()) + dict_field_line(name, fields.last())
    }
}

/// The close of the conversion implementation and the accompanying
/// conversion from the record into an owned handle of the structure.
pub open spec fn dict_footer(name: Seq<char>) -> Seq<char> {
    "        kwargs\n    }\n}\n\n"@
        + "#[automatically_derived]\nimpl ::std::convert::From<"@ + name
        + "> for ::pyo3::Py<::pyo3::types::PyDict> {\n"@ + "    fn from(value: "@ + name
        + ") -> Self {\n"@ + "        ::pyo3::Python::with_gil(|py| {\n"@
        + "            ::pyo3::types::IntoPyDict::into_py_dict(value, py).into()\n"@
        + "        })\n    }\n}\n"@
}

/// The full generated text of the dictionary conversion for a record.
pub open spec fn dict_impl_text(name: Seq<char>, fields: Seq<Seq<char>>) -> Seq<char> {
    dict_header(name) + dict_field_lines(name, fields) + dict_footer(name)
}

/// Appends the insertion line of one field.
fn push_field_line(out: &mut String, name: &String, field: &String)
    ensures
        final(out)@ == old(out)@ + dict_field_line(name@, field@),
{
    out.append("        kwargs.set_item(::pyo3::intern!(py, \"");
    out.append(field.as_str());
    out.append("\"), self.");
    out.append(field.as_str());
    out.append(").expect(\"Failed to convert field '");
    out.append(field.as_str());
    out.append("' of struct '");
    out.append(name.as_str());
    out.append("' into a pyo3::types::PyDict item.\");\n");
    proof {
        assert(out@ =~= old(out)@ + dict_field_line(name@, field@));
    }
}

/// Generates the dictionary-conversion implementations for a record with
/// named fields, or reports the build-time failure naming the type for
/// any other shape. The generated text inserts every field in declaration
/// order, keyed by the field's name.
pub fn impl_into_pydict(input: &RecordInput) -> (r: Result<String, GenError>)
    ensures
        (match (r, input@) {
            (Ok(s), RecordInputV::Named { name, fields }) => s@ == dict_impl_text(
                name,
                fields,
            ),
            (Err(e), RecordInputV::Other { name }) => e@ == (GenErrorV::NotNamedRecord {
                name,
            }),
            _ => false,
        }),
{
    match input {
        RecordInput::Other { name } => Err(GenError::NotNamedRecord { name: name.clone() }),
        RecordInput::Named { name, fields } => {
            let mut out = String::new();
            out.append("#[automatically_derived]\nimpl ::pyo3::types::IntoPyDict for ");
            out.append(name.as_str());
            out.append(" {\n");
            out.append(
                "    fn into_py_dict(self, py: ::pyo3::Python) -> &::pyo3::types::PyDict {\n",
            );
            out.append("        let kwargs = ::pyo3::types::PyDict::new(py);\n");
            proof {
                assert(out@ =~= dict_header(name@));
            }
            let ghost header: Seq<char> = out@;
            let mut i: usize = 0;
            while i < fields.len()
                invariant
                    i <= fields.len(),
                    out@ == header + dict_field_lines(name@, fields.deep_view().take(i as int)),
                decreases fields.len() - i,
            {
                push_field_line(&mut out, name, &fields[i]);
                i += 1;
                proof {
                    assert(fields.deep_view().take(i as int).drop_last()
                        =~= fields.deep_view().take(i - 1));
                    assert(out@ =~= header + dict_field_lines(
                        name@,
                        fields.deep_view().take(i as int),
                    ));
                }
            }
            proof {
                assert(fields.deep_view().take(fields@.len() as int) =~= fields.deep_view());
            }
            out.append("        kwargs\n    }\n}\n\n");
            out.append("#[automatically_derived]\nimpl ::std::convert::From<");
            out.append(name.as_str());
            out.append("> for ::pyo3::Py<::pyo3::types::PyDict> {\n");
            out.append("    fn from(value: ");
            out.append(name.as_str());
            out.append(") -> Self {\n");
            out.append("        ::pyo3::Python::with_gil(|py| {\n");
            out.append("            ::pyo3::types::IntoPyDict::into_py_dict(value, py).into()\n");
            out.append("        })\n    }\n}\n");
            proof {
                assert(out@ =~= dict_impl_text(name@, fields.deep_view()));
            }
            Ok(out)
        },
    }
}

} // verus!
