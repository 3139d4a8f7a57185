//! Canonicalization of shorthand declaration forms, so the dispatcher and
//! synthesizer never special-case them.

use vstd::prelude::*;

use crate::decl::{
    Argument, BindDecl, CanonBind, CanonBindV, PathHead, PathHeadV, Receiver, ReceiverV,
    canon_tok_wf, clone_args, clone_strings,
};

verus! {

/// The canonical receiver a path head resolves to. The bare identifier
/// `self` names the enclosing value; any other identifier is a module to
/// import, converging with the bracketed literal-expression form on the
/// same representation.
pub open spec fn norm_receiver(h: PathHeadV) -> ReceiverV {
    match h {
        PathHeadV::Ident(s) => if s == "self"@ {
            ReceiverV::SelfBound
        } else {
            ReceiverV::Module { path: s, literal: false }
        },
        PathHeadV::Expr(e) => ReceiverV::Module { path: e, literal: true },
    }
}

/// The canonical form of a binding declaration: the receiver is resolved
/// from the path head, and a declaration without a caller-supplied token
/// keeps the absence as a flag while gaining the synthesized internal token
/// name that the generated scope will bind.
pub open spec fn norm_spec(d: crate::decl::BindDeclV) -> CanonBindV {
    CanonBindV {
        receiver: norm_receiver(d.head),
        chain: d.chain,
        is_call: d.is_call,
        is_assign: d.is_assign,
        token: d.token,
        tok: match d.token {
            Some(n) => n,
            None => "py"@,
        },
        args: d.args,
        ret: d.ret,
        vis: d.vis,
        name: d.name,
    }
}

/// Rewrites a declaration into its canonical form. This is purely a
/// rewriting pass: every field the author wrote is kept, only the shorthand
/// forms (plain identifier receiver, omitted token parameter) are expanded.
pub fn normalize(d: &BindDecl) -> (c: CanonBind)
    ensures
        c@ == norm_spec(d@),
        canon_tok_wf(c@),
{
    let receiver = match &d.head {
        PathHead::Ident(s) => {
            if *s == "self".to_owned() {
                Receiver::SelfBound
            } else {
                Receiver::Module { path: s.clone(), literal: false }
            }
        },
        PathHead::Expr(e) => Receiver::Module { path: e.clone(), literal: true },
    };
    let (token, tok): (Option<String>, String) = match &d.token {
        Some(n) => (Some(n.clone()), n.clone()),
        None => (None, "py".to_owned()),
    };
    CanonBind {
        receiver,
        chain: clone_strings(&d.chain),
        is_call: d.is_call,
        is_assign: d.is_assign,
        token,
        tok,
        args: clone_args(&d.args),
        ret: d.ret.duplicate(),
        vis: d.vis.clone(),
        name: d.name.clone(),
    }
}

} // verus!
