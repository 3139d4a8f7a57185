//! The generation pipeline: normalize a declaration, dispatch it, and
//! render the synthesized function's source text.

use vstd::prelude::*;

use crate::decl::{BindDeclV, Decl, DeclV, GenError, GenErrorV, WrapDeclV};
use crate::dispatch::{Rule, classify, classify_spec};
use crate::normalize::{norm_spec, normalize};
use crate::render::{render, render_spec};
use crate::synth::{plan_spec, synthesize, synthesize_wrap, wrap_plan_spec};

verus! {

/// The source text generated for a binding declaration that matches a
/// dispatch rule.
pub open spec fn bind_output(d: BindDeclV) -> Seq<char> {
    render_spec(plan_spec(norm_spec(d)))
}

/// The source text generated for a wrapper declaration.
pub open spec fn wrap_output(w: WrapDeclV) -> Seq<char> {
    render_spec(wrap_plan_spec(w))
}

/// What generation produces for one declaration: the generated source
/// text, or the build-time failure for a binding declaration matching no
/// dispatch rule. Wrapper declarations always match their rule.
pub open spec fn generate_spec(d: DeclV) -> Result<Seq<char>, GenErrorV> {
    match d {
        DeclV::Bind(b) => if classify_spec(norm_spec(b)) == Rule::NoMatch {
            Err(GenErrorV::UnmatchedShape { name: b.name })
        } else {
            Ok(bind_output(b))
        },
        DeclV::Wrap(w) => Ok(wrap_output(w)),
    }
}

/// Generates the source text of the function a declaration describes, or
/// reports the build-time failure identifying the unmatched shape.
pub fn generate(d: &Decl) -> (r: Result<String, GenError>)
    ensures
        (match (r, generate_spec(d@)) {
            (Ok(s), Ok(t)) => s@ == t,
            (Err(e), Err(f)) => e@ == f,
            _ => false,
        }),
{
    match d {
        Decl::Bind(b) => {
            let c = normalize(b);
            let rule = classify(&c);
            if rule == Rule::NoMatch {
                Err(GenError::UnmatchedShape { name: b.name.clone() })
            } else {
                let f = synthesize(&c);
                Ok(render(&f))
            }
        },
        Decl::Wrap(w) => {
            let f = synthesize_wrap(w);
            Ok(render(&f))
        },
    }
}

/// Generates every declaration of a batch independently and in order. A
/// malformed declaration yields its own failure entry and leaves its batch
/// siblings untouched.
pub fn generate_all(ds: &Vec<Decl>) -> (rs: Vec<Result<String, GenError>>)
    ensures
        rs@.len() == ds@.len(),
        forall|i: int| 0 <= i < ds@.len() ==> (match (#[trigger] rs@[i], generate_spec(
            ds@[i]@,
        )) {
            (Ok(s), Ok(t)) => s@ == t,
            (Err(e), Err(f)) => e@ == f,
            _ => false,
        }),
{
    let mut rs: Vec<Result<String, GenError>> = Vec::new();
    let mut i: usize = 0;
    while i < ds.len()
        invariant
            i <= ds.len(),
            rs@.len() == i,
            forall|j: int| 0 <= j < i ==> (match (#[trigger] rs@[j], generate_spec(
                ds@[j]@,
            )) {
                (Ok(s), Ok(t)) => s@ == t,
                (Err(e), Err(f)) => e@ == f,
                _ => false,
            }),
        decreases ds.len() - i,
    {
        let r = generate(&ds[i]);
        rs.push(r);
        i += 1;
    }
    rs
}

} // verus!
