//! Rendering a synthesized plan into the source text of the generated
//! function. Rendering is a pure function of the plan, so re-rendering an
//! unchanged plan yields byte-identical text.

use vstd::prelude::*;

use crate::decl::{ArgumentV, ReturnShape, ReturnShapeV};
use crate::synth::{SelfKind, Step, StepV, SynthFn, SynthFnV};

verus! {

/// The indentation of body lines outside any acquisition scope.
pub open spec fn indent_outer() -> Seq<char> {
    "    "@
}

/// The indentation of body lines inside the acquisition scope.
pub open spec fn indent_inner() -> Seq<char> {
    "        "@
}

/// The pieces joined with a comma-space separator.
pub open spec fn join_comma(parts: Seq<Seq<char>>) -> Seq<char>
    decreases parts.len(),
{
    if parts.len() == 0 {
        Seq::<char>::empty()
    } else if parts.len() == 1 {
        parts[0]
    } else {
        join_comma(parts.drop_last()) + ", "@ + parts.last()
    }
}

/// The argument names of a wrapped call, each preceded by a comma-space
/// separator — they follow the token in the call's argument list.
pub open spec fn prefixed_args(names: Seq<Seq<char>>) -> Seq<char>
    decreases names.len(),
{
    if names.len() == 0 {
        Seq::<char>::empty()
    } else {
        prefixed_args(names.drop_last()) + ", "@ + names.last()
    }
}

/// The return type text of the generated signature.
pub open spec fn ret_text(r: ReturnShapeV) -> Seq<char> {
    match r {
        ReturnShapeV::Unit => "()"@,
        ReturnShapeV::Single(t) => t,
        ReturnShapeV::Sequence(t) => "Vec<"@ + t + ">"@,
    }
}

/// The visibility prefix of the generated signature: the declared
/// visibility followed by a space, or nothing.
pub open spec fn vis_text(v: Seq<char>) -> Seq<char> {
    if v.len() == 0 {
        Seq::<char>::empty()
    } else {
        v + " "@
    }
}

/// The self parameter pieces of the generated signature.
pub open spec fn self_texts(k: SelfKind) -> Seq<Seq<char>> {
    match k {
        SelfKind::NoSelf => Seq::<Seq<char>>::empty(),
        SelfKind::RefSelf => seq!["&self"@],
        SelfKind::RefMutSelf => seq!["&mut self"@],
    }
}

/// The caller-supplied token parameter piece of the generated signature.
pub open spec fn token_texts(t: Option<Seq<char>>) -> Seq<Seq<char>> {
    match t {
        None => Seq::<Seq<char>>::empty(),
        Some(n) => seq![n + ": ::pyo3::Python"@],
    }
}

/// Every parameter piece of the generated signature, in order: the self
/// parameter, the token parameter, then the declared arguments.
pub open spec fn param_texts(f: SynthFnV) -> Seq<Seq<char>> {
    self_texts(f.self_kind) + token_texts(f.token)
        + f.args.map_values(|a: ArgumentV| a.name + ": "@ + a.ty)
}

/// The signature text of the generated function.
pub open spec fn sig_text(f: SynthFnV) -> Seq<char> {
    vis_text(f.vis) + "fn "@ + f.name + "("@ + join_comma(param_texts(f))
        + ") -> ::pyo3::PyResult<"@ + ret_text(f.ret) + ">"@
}

/// The line acquiring the scoped token: the remainder of the body runs in
/// the closure, and the token is released on every exit path of that
/// closure.
pub open spec fn acquire_text(tok: Seq<char>) -> Seq<char> {
    "    ::pyo3::Python::with_gil(|"@ + tok + "| {\n"@
}

/// The source line of one protocol step, at the given indentation, with
/// the given token name.
pub open spec fn step_text(st: StepV, tok: Seq<char>, ind: Seq<char>) -> Seq<char> {
    match st {
        StepV::Import(m) => ind + "let target = ::pyo3::types::PyModule::import("@ + tok
            + ", ::pyo3::intern!("@ + tok + ", \""@ + m + "\"))?;\n"@,
        StepV::BindSelf => ind + "let target = self.as_ref("@ + tok + ");\n"@,
        StepV::GetAttr(a) => ind + "let target = target.getattr(::pyo3::intern!("@ + tok
            + ", \""@ + a + "\"))?;\n"@,
        StepV::NewKwargs => ind + "let kwargs = ::pyo3::types::PyDict::new("@ + tok + ");\n"@,
        StepV::InsertKwarg(k, p) => ind + "kwargs.set_item(::pyo3::intern!("@ + tok + ", \""@
            + k + "\"), "@ + p + ")?;\n"@,
        StepV::CallNoArgs => ind + "let ret = target.call0()?;\n"@,
        StepV::CallKwargs => ind + "let ret = target.call((), Some(kwargs))?;\n"@,
        StepV::SetAttr(k, p) => ind + "target.setattr(::pyo3::intern!("@ + tok + ", \""@ + k
            + "\"), "@ + p + ")?;\n"@,
        StepV::CallSource(f, names) => ind + "let ret = "@ + f + "("@ + tok
            + prefixed_args(names) + ")?;\n"@,
        StepV::FinishUnit => ind + "Ok(())\n"@,
        StepV::ExtractRet => ind + "ret.extract()\n"@,
        StepV::ExtractTarget => ind + "target.extract()\n"@,
        StepV::ConvertInto => ind + "Ok(ret.into())\n"@,
        StepV::ConvertSeq => ind + "Ok(ret.into_iter().map(|x| x.into()).collect())\n"@,
    }
}

/// The concatenated source lines of a step sequence.
pub open spec fn body_text(steps: Seq<StepV>, tok: Seq<char>, ind: Seq<char>) -> Seq<char>
    decreases steps.len(),
{
    if steps.len() == 0 {
        Seq::<char>::empty()
    } else {
        body_text(steps.drop_last(), tok, ind) + step_text(steps.last(), tok, ind)
    }
}

/// The full source text of the generated function. With a caller-supplied
/// token the steps stand directly in the function body; otherwise they
/// stand inside the scope that acquires — and on every exit path releases —
/// the internal token.
pub open spec fn render_spec(f: SynthFnV) -> Seq<char> {
    if f.token is Some {
        sig_text(f) + " {\n"@ + body_text(f.steps, f.tok, indent_outer()) + "}\n"@
    } else {
        sig_text(f) + " {\n"@ + acquire_text(f.tok)
            + body_text(f.steps, f.tok, indent_inner()) + "    })\n"@ + "}\n"@
    }
}

/// Appends the return type text.
fn push_ret_text(out: &mut String, r: &ReturnShape)
    ensures
        final(out)@ == old(out)@ + ret_text(r@),
{
    match r {
        ReturnShape::Unit => {
            out.append("()");
        },
        ReturnShape::Single(t) => {
            out.append(t.as_str());
        },
        ReturnShape::Sequence(t) => {
            out.append("Vec<");
            out.append(t.as_str());
            out.append(">");
            proof {
                assert(out@ =~= old(out)@ + ret_text(r@));
            }
        },
    }
}

/// Appends the comma-prefixed argument names of a wrapped call.
fn push_prefixed_args(out: &mut String, names: &Vec<String>)
    ensures
        final(out)@ == old(out)@ + prefixed_args(names.deep_view()),
{
    let mut i: usize = 0;
    while i < names.len()
        invariant
            i <= names.len(),
            out@ == old(out)@ + prefixed_args(names.deep_view().take(i as int)),
        decreases names.len() - i,
    {
        out.append(", ");
        out.append(names[i].as_str());
        i += 1;
        proof {
            assert(names.deep_view().take(i as int).drop_last()
                =~= names.deep_view().take(i - 1));
            assert(out@ =~= old(out)@ + prefixed_args(names.deep_view().take(i as int)));
        }
    }
    proof {
        assert(names.deep_view().take(names@.len() as int) =~= names.deep_view());
    }
}

/// Appends the source line of one protocol step.
fn push_step_text(out: &mut String, st: &Step, tok: &String, ind: &str)
    ensures
        final(out)@ == old(out)@ + step_text(st@, tok@, ind@),
{
    match st {
        Step::Import(m) => {
            out.append(ind);
            out.append("let target = ::pyo3::types::PyModule::import(");
            out.append(tok.as_str());
            out.append(", ::pyo3::intern!(");
            out.append(tok.as_str());
            out.append(", \"");
            out.append(m.as_str());
            out.append("\"))?;\n");
            proof {
                assert(out@ =~= old(out)@ + step_text(st@, tok@, ind@));
            }
        },
        Step::BindSelf => {
            out.append(ind);
            out.append("let target = self.as_ref(");
            out.append(tok.as_str());
            out.append(");\n");
            proof {
                assert(out@ =~= old(out)@ + step_text(st@, tok@, ind@));
            }
        },
        Step::GetAttr(a) => {
            out.append(ind);
            out.append("let target = target.getattr(::pyo3::intern!(");
            out.append(tok.as_str());
            out.append(", \"");
            out.append(a.as_str());
            out.append("\"))?;\n");
            proof {
                assert(out@ =~= old(out)@ + step_text(st@, tok@, ind@));
            }
        },
        Step::NewKwargs => {
            out.append(ind);
            out.append("let kwargs = ::pyo3::types::PyDict::new(");
            out.append(tok.as_str());
            out.append(");\n");
            proof {
                assert(out@ =~= old(out)@ + step_text(st@, tok@, ind@));
            }
        },
        Step::InsertKwarg(k, p) => {
            out.append(ind);
            out.append("kwargs.set_item(::pyo3::intern!(");
            out.append(tok.as_str());
            out.append(", \"");
            out.append(k.as_str());
            out.append("\"), ");
            out.append(p.as_str());
            out.append(")?;\n");
            proof {
                assert(out@ =~= old(out)@ + step_text(st@, tok@, ind@));
            }
        },
        Step::CallNoArgs => {
            out.append(ind);
            out.append("let ret = target.call0()?;\n");
            proof {
                assert(out@ =~= old(out)@ + step_text(st@, tok@, ind@));
            }
        },
        Step::CallKwargs => {
            out.append(ind);
            out.append("let ret = target.call((), Some(kwargs))?;\n");
            proof {
                assert(out@ =~= old(out)@ + step_text(st@, tok@, ind@));
            }
        },
        Step::SetAttr(k, p) => {
            out.append(ind);
            out.append("target.setattr(::pyo3::intern!(");
            out.append(tok.as_str());
            out.append(", \"");
            out.append(k.as_str());
            out.append("\"), ");
            out.append(p.as_str());
            out.append(")?;\n");
            proof {
                assert(out@ =~= old(out)@ + step_text(st@, tok@, ind@));
            }
        },
        Step::CallSource(f, names) => {
            out.append(ind);
            out.append("let ret = ");
            out.append(f.as_str());
            out.append("(");
            out.append(tok.as_str());
            push_prefixed_args(out, names);
            out.append(")?;\n");
            proof {
                assert(out@ =~= old(out)@ + step_text(st@, tok@, ind@));
            }
        },
        Step::FinishUnit => {
            out.append(ind);
            out.append("Ok(())\n");
            proof {
                assert(out@ =~= old(out)@ + step_text(st@, tok@, ind@));
            }
        },
        Step::ExtractRet => {
            out.append(ind);
            out.append("ret.extract()\n");
            proof {
                assert(out@ =~= old(out)@ + step_text(st@, tok@, ind@));
            }
        },
        Step::ExtractTarget => {
            out.append(ind);
            out.append("target.extract()\n");
            proof {
                assert(out@ =~= old(out)@ + step_text(st@, tok@, ind@));
            }
        },
        Step::ConvertInto => {
            out.append(ind);
            out.append("Ok(ret.into())\n");
            proof {
                assert(out@ =~= old(out)@ + step_text(st@, tok@, ind@));
            }
        },
        Step::ConvertSeq => {
            out.append(ind);
            out.append("Ok(ret.into_iter().map(|x| x.into()).collect())\n");
            proof {
                assert(out@ =~= old(out)@ + step_text(st@, tok@, ind@));
            }
        },
    }
}

/// Builds the parameter pieces of the generated signature.
fn param_pieces(f: &SynthFn) -> (r: Vec<String>)
    ensures
        r.deep_view() == param_texts(f@),
{
    let mut pieces: Vec<String> = Vec::new();
    match f.self_kind {
        SelfKind::NoSelf => {},
        SelfKind::RefSelf => pieces.push("&self".to_owned()),
        SelfKind::RefMutSelf => pieces.push("&mut self".to_owned()),
    }
    match &f.token {
        Some(n) => {
            let mut p = n.clone();
            p.append(": ::pyo3::Python");
            pieces.push(p);
        },
        None => {},
    }
    let ghost base: Seq<Seq<char>> = self_texts(f@.self_kind) + token_texts(f@.token);
    proof {
        assert(pieces.deep_view() =~= base);
    }
    let ghost blen: int = pieces@.len() as int;
    let mut i: usize = 0;
    while i < f.args.len()
        invariant
            i <= f.args.len(),
            pieces@.len() == blen + i,
            blen == base.len(),
            forall|j: int| 0 <= j < blen ==> pieces.deep_view()[j] == base[j],
            forall|j: int| 0 <= j < i ==> pieces@[blen + j]@
                == f.args.deep_view()[j].name + ": "@ + f.args.deep_view()[j].ty,
        decreases f.args.len() - i,
    {
        let mut p = f.args[i].name.clone();
        p.append(": ");
        p.append(f.args[i].ty.as_str());
        pieces.push(p);
        i += 1;
    }
    proof {
        assert(pieces.deep_view() =~= param_texts(f@));
    }
    pieces
}

/// Joins the parameter pieces with the comma-space separator.
fn join_pieces(pieces: &Vec<String>) -> (r: String)
    ensures
        r@ == join_comma(pieces.deep_view()),
{
    let mut out = String::new();
    let mut i: usize = 0;
    while i < pieces.len()
        invariant
            i <= pieces.len(),
            out@ == join_comma(pieces.deep_view().take(i as int)),
        decreases pieces.len() - i,
    {
        if i > 0 {
            out.append(", ");
        }
        out.append(pieces[i].as_str());
        i += 1;
        proof {
            assert(pieces.deep_view().take(i as int).drop_last()
                =~= pieces.deep_view().take(i - 1));
            assert(out@ =~= join_comma(pieces.deep_view().take(i as int)));
        }
    }
    proof {
        assert(pieces.deep_view().take(pieces@.len() as int) =~= pieces.deep_view());
    }
    out
}

/// Renders a synthesized plan into the source text of the generated
/// function. The text is a pure function of the plan: rendering equal
/// plans yields byte-identical text.
pub fn render(f: &SynthFn) -> (r: String)
    ensures
        r@ == render_spec(f@),
{
    let mut out = String::new();
    if !f.vis.as_str().is_empty() {
        out.append(f.vis.as_str());
        out.append(" ");
    }
    out.append("fn ");
    out.append(f.name.as_str());
    out.append("(");
    let pieces = param_pieces(f);
    let joined = join_pieces(&pieces);
    out.append(joined.as_str());
    out.append(") -> ::pyo3::PyResult<");
    push_ret_text(&mut out, &f.ret);
    out.append(">");
    proof {
        assert(f.vis@.len() > 0 ==> out@ =~= sig_text(f@));
        assert(f.vis@.len() == 0 ==> out@ =~= sig_text(f@));
    }
    out.append(" {\n");
    let scoped_here = f.token.is_none();
    if scoped_here {
        out.append("    ::pyo3::Python::with_gil(|");
        out.append(f.tok.as_str());
        out.append("| {\n");
        proof {
            assert(out@ =~= sig_text(f@) + " {\n"@ + acquire_text(f@.tok));
        }
    }
    let ghost pre: Seq<char> = out@;
    let ind: &str = if scoped_here {
        "        "
    } else {
        "    "
    };
    let ghost ind_spec: Seq<char> = if scoped_here {
        indent_inner()
    } else {
        indent_outer()
    };
    proof {
        assert(ind@ == ind_spec);
    }
    let mut i: usize = 0;
    while i < f.steps.len()
        invariant
            i <= f.steps.len(),
            out@ == pre + body_text(f.steps.deep_view().take(i as int), f.tok@, ind_spec),
            ind@ == ind_spec,
        decreases f.steps.len() - i,
    {
        push_step_text(&mut out, &f.steps[i], &f.tok, ind);
        i += 1;
        proof {
            assert(f.steps.deep_view().take(i as int).drop_last()
                =~= f.steps.deep_view().take(i - 1));
            assert(out@ =~= pre + body_text(f.steps.deep_view().take(i as int), f.tok@,
                ind_spec));
        }
    }
    proof {
        assert(f.steps.deep_view().take(f.steps@.len() as int) =~= f.steps.deep_view());
    }
    if scoped_here {
        out.append("    })\n");
    }
    out.append("}\n");
    proof {
        assert(out@ =~= render_spec(f@));
    }
    out
}

} // verus!
