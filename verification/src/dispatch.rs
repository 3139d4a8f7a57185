//! The declaration dispatcher: routing a canonical declaration to the
//! synthesis rule matching its syntactic shape.

use vstd::prelude::*;

use crate::decl::{CanonBind, CanonBindV, Receiver, ReceiverV, ReturnShape, ReturnShapeV};

verus! {

/// The dispatch rules, one per recognized shape of a canonical binding
/// declaration. Shapes overlap — a self-bound callable also has the shape
/// of a module callable read with `self` as a module name — so dispatch
/// tries the rules in the order listed here and the first match wins.
#[derive(Clone, Copy, Debug, PartialEq, Eq, Structural)]
pub enum Rule {
    SelfCallable,
    ModCallable,
    SelfGetter,
    ModGetter,
    SelfSetter,
    ModSetter,
    NoMatch,
}

/// Whether the canonical receiver is the enclosing value.
pub open spec fn is_self_bound(c: CanonBindV) -> bool {
    c.receiver is SelfBound
}

/// The callable shape: a non-empty attribute path ending in a call form,
/// bound with an arrow.
pub open spec fn callable_shape(c: CanonBindV) -> bool {
    c.is_call && !c.is_assign && c.chain.len() >= 1
}

/// The getter shape: a non-empty attribute path without a call form, bound
/// with an arrow, no declared arguments, and a value-producing return
/// shape.
pub open spec fn getter_shape(c: CanonBindV) -> bool {
    !c.is_call && !c.is_assign && c.chain.len() >= 1 && c.args.len() == 0 && !(c.ret is Unit)
}

/// The setter shape: a non-empty attribute path without a call form, bound
/// with an assignment, exactly one declared argument (the value to assign),
/// and no returned value.
pub open spec fn setter_shape(c: CanonBindV) -> bool {
    !c.is_call && c.is_assign && c.chain.len() >= 1 && c.args.len() == 1 && c.ret is Unit
}

/// The priority-ordered dispatch: self-bound rules are tried before their
/// module-path counterparts, callables before getters before setters, and a
/// declaration matching no rule is a build-time failure.
pub open spec fn classify_spec(c: CanonBindV) -> Rule {
    if is_self_bound(c) && callable_shape(c) {
        Rule::SelfCallable
    } else if callable_shape(c) {
        Rule::ModCallable
    } else if is_self_bound(c) && getter_shape(c) {
        Rule::SelfGetter
    } else if getter_shape(c) {
        Rule::ModGetter
    } else if is_self_bound(c) && setter_shape(c) {
        Rule::SelfSetter
    } else if setter_shape(c) {
        Rule::ModSetter
    } else {
        Rule::NoMatch
    }
}

/// Routes a canonical declaration to the first dispatch rule whose shape it
/// matches. A declaration with a self-bound receiver and a callable shape
/// always resolves to the self-bound callable rule, never to the generic
/// module-path rule below it.
pub fn classify(c: &CanonBind) -> (r: Rule)
    ensures
        r == classify_spec(c@),
        is_self_bound(c@) && callable_shape(c@) ==> r == Rule::SelfCallable,
{
    let self_bound = match &c.receiver {
        Receiver::SelfBound => true,
        Receiver::Module { .. } => false,
    };
    let callable = c.is_call && !c.is_assign && c.chain.len() >= 1;
    let ret_unit = match &c.ret {
        ReturnShape::Unit => true,
        _ => false,
    };
    let getter = !c.is_call && !c.is_assign && c.chain.len() >= 1 && c.args.len() == 0
        && !ret_unit;
    let setter = !c.is_call && c.is_assign && c.chain.len() >= 1 && c.args.len() == 1
        && ret_unit;
    if self_bound && callable {
        Rule::SelfCallable
    } else if callable {
        Rule::ModCallable
    } else if self_bound && getter {
        Rule::SelfGetter
    } else if getter {
        Rule::ModGetter
    } else if self_bound && setter {
        Rule::SelfSetter
    } else if setter {
        Rule::ModSetter
    } else {
        Rule::NoMatch
    }
}

/// The three shapes are pairwise disjoint, so — priority aside — no
/// canonical declaration can match two rules of different kinds: ambiguity
/// between rule kinds is impossible by construction.
pub proof fn lemma_shapes_disjoint(c: CanonBindV)
    ensures
        !(callable_shape(c) && getter_shape(c)),
        !(callable_shape(c) && setter_shape(c)),
        !(getter_shape(c) && setter_shape(c)),
{
}

} // verus!
