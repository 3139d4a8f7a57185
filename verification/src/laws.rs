//! The engine-wide laws: statements that relate several components, proved
//! over the same spec functions the components' contracts use.

use vstd::prelude::*;

use crate::decl::{CanonBindV, DeclV};
use crate::dispatch::{Rule, callable_shape, classify_spec, is_self_bound};
use crate::engine::generate_spec;
use crate::synth::{StepV, plan_spec, scoped, strip_raw};

verus! {

/// Generation is a pure function of the declaration: re-running it on an
/// unchanged declaration produces byte-identical synthesized output.
pub proof fn lemma_generation_deterministic(a: DeclV, b: DeclV)
    requires
        a == b,
    ensures
        generate_spec(a) == generate_spec(b),
{
}

/// A zero-argument callable never builds a keyword-argument map: no step
/// of its plan creates, fills, or passes one.
pub proof fn lemma_zero_arg_callable_builds_no_kwargs(c: CanonBindV)
    requires
        callable_shape(c),
        c.args.len() == 0,
    ensures
        forall|i: int| 0 <= i < plan_spec(c).steps.len() ==> {
            &&& !(#[trigger] plan_spec(c).steps[i] is NewKwargs)
            &&& !(plan_spec(c).steps[i] is InsertKwarg)
            &&& !(plan_spec(c).steps[i] is CallKwargs)
        },
{
}

/// Dispatch priority: a declaration whose shape is both self-bound
/// callable and — read with the receiver as a module — generic callable
/// always resolves to the self-bound rule, and its plan takes the
/// enclosing value as a parameter and performs no module import.
pub proof fn lemma_self_callable_priority(c: CanonBindV)
    requires
        is_self_bound(c),
        callable_shape(c),
    ensures
        classify_spec(c) == Rule::SelfCallable,
        !(plan_spec(c).self_kind is NoSelf),
        forall|i: int| 0 <= i < plan_spec(c).steps.len()
            ==> !(#[trigger] plan_spec(c).steps[i] is Import),
{
}

/// More generally, no plan of a self-bound declaration imports a module.
pub proof fn lemma_self_bound_performs_no_import(c: CanonBindV)
    requires
        classify_spec(c) != Rule::NoMatch,
        c.receiver is SelfBound,
    ensures
        !(plan_spec(c).self_kind is NoSelf),
        forall|i: int| 0 <= i < plan_spec(c).steps.len()
            ==> !(#[trigger] plan_spec(c).steps[i] is Import),
{
}

/// The token scope of a plan is exactly the declaration's: a declaration
/// with a caller-supplied token yields a plan that defers to the caller's
/// scope and acquires nothing of its own, and one without yields a scoped
/// plan with the synthesized internal token.
pub proof fn lemma_token_scope_passes_through(c: CanonBindV)
    requires
        classify_spec(c) != Rule::NoMatch,
    ensures
        plan_spec(c).token == c.token,
        scoped(plan_spec(c)) <==> c.token is None,
{
}

/// Every keyword-map entry of a callable's plan carries the declared
/// argument's runtime-side name — the declared name with the
/// raw-identifier escape prefix stripped — and takes its value from the
/// parameter of the declared name.
pub proof fn lemma_kwarg_keys_are_stripped(c: CanonBindV)
    requires
        callable_shape(c),
        c.args.len() > 0,
    ensures
        forall|j: int| 0 <= j < c.args.len() ==> #[trigger] plan_spec(c).steps[2 + c.chain.len()
            + j] == StepV::InsertKwarg(strip_raw(c.args[j].name), c.args[j].name),
{
}

} // verus!
