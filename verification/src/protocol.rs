//! A reference model of the runtime behavior of a synthesized function:
//! the five-step call protocol executed against a scripted stand-in for
//! the dynamic runtime. The model makes the scoped-token contract and the
//! short-circuit error propagation of the generated code checkable.

use vstd::prelude::*;

use crate::decl::{CanonBind, CanonBindV, Receiver, ReturnShape, ReturnShapeV, WrapDecl,
    WrapDeclV};
use crate::dispatch::{Rule, callable_shape, classify, classify_spec, getter_shape};

verus! {

/// A scripted stand-in for the dynamic runtime: which interactions
/// succeed, and the values successful extraction yields. Attribute lookup
/// number `i` succeeds exactly when `attr_ok` holds `true` at `i`.
pub struct ScriptedRuntime {
    pub import_ok: bool,
    pub attr_ok: Vec<bool>,
    pub invoke_ok: bool,
    pub extract_ok: bool,
    pub set_ok: bool,
    pub value: u64,
    pub seq_values: Vec<u64>,
}

/// Mathematical model of a [`ScriptedRuntime`].
pub struct ScriptedRuntimeV {
    pub import_ok: bool,
    pub attr_ok: Seq<bool>,
    pub invoke_ok: bool,
    pub extract_ok: bool,
    pub set_ok: bool,
    pub value: u64,
    pub seq_values: Seq<u64>,
}

impl View for ScriptedRuntime {
    type V = ScriptedRuntimeV;

    open spec fn view(&self) -> ScriptedRuntimeV {
        ScriptedRuntimeV {
            import_ok: self.import_ok,
            attr_ok: self.attr_ok@,
            invoke_ok: self.invoke_ok,
            extract_ok: self.extract_ok,
            set_ok: self.set_ok,
            value: self.value,
            seq_values: self.seq_values@,
        }
    }
}

/// What one run of a synthesized function returns: success without a
/// value, an extracted value, an extracted sequence, or the first failure
/// the protocol hit.
pub enum RunResult {
    Done,
    Value(u64),
    ValueSeq(Vec<u64>),
    Failed,
}

/// Mathematical model of a [`RunResult`].
pub enum RunResultV {
    Done,
    Value(u64),
    ValueSeq(Seq<u64>),
    Failed,
}

impl View for RunResult {
    type V = RunResultV;

    open spec fn view(&self) -> RunResultV {
        match self {
            RunResult::Done => RunResultV::Done,
            RunResult::Value(v) => RunResultV::Value(*v),
            RunResult::ValueSeq(vs) => RunResultV::ValueSeq(vs@),
            RunResult::Failed => RunResultV::Failed,
        }
    }
}

/// What one run did to the runtime's resources: how many exclusive-access
/// tokens it acquired and released, and how many keyword-argument maps it
/// built.
#[derive(Clone, Copy, Debug, PartialEq, Eq, Structural)]
pub struct Trace {
    pub acquires: u64,
    pub releases: u64,
    pub kwarg_builds: u64,
}

/// Attribute lookup number `i` of the script succeeds.
pub open spec fn lookup_ok(rt: ScriptedRuntimeV, i: int) -> bool {
    0 <= i < rt.attr_ok.len() && rt.attr_ok[i]
}

/// The first `n` attribute lookups of the script all succeed.
pub open spec fn lookups_ok(rt: ScriptedRuntimeV, n: int) -> bool {
    forall|i: int| 0 <= i < n ==> #[trigger] lookup_ok(rt, i)
}

/// The receiver of a canonical declaration resolves under the script: a
/// self-bound receiver always does, a module receiver exactly when the
/// import succeeds.
pub open spec fn receiver_ok(c: CanonBindV, rt: ScriptedRuntimeV) -> bool {
    c.receiver is SelfBound || rt.import_ok
}

/// Every interaction a binding's run needs succeeds under the script:
/// receiver resolution and full-chain traversal, then — per shape — the
/// invocation and any extraction, the extraction alone, or the prefix
/// traversal and the assignment.
pub open spec fn bind_run_ok(c: CanonBindV, rt: ScriptedRuntimeV) -> bool {
    if callable_shape(c) {
        receiver_ok(c, rt) && lookups_ok(rt, c.chain.len() as int) && rt.invoke_ok && (c.ret
            is Unit || rt.extract_ok)
    } else if getter_shape(c) {
        receiver_ok(c, rt) && lookups_ok(rt, c.chain.len() as int) && rt.extract_ok
    } else {
        receiver_ok(c, rt) && lookups_ok(rt, c.chain.len() - 1) && rt.set_ok
    }
}

/// The result a binding's run returns under the script: the first failure
/// aborts the remaining steps; success carries the shape the declaration
/// returns.
pub open spec fn bind_run_result(c: CanonBindV, rt: ScriptedRuntimeV) -> RunResultV {
    if !bind_run_ok(c, rt) {
        RunResultV::Failed
    } else {
        match c.ret {
            ReturnShapeV::Unit => RunResultV::Done,
            ReturnShapeV::Single(_) => RunResultV::Value(rt.value),
            ReturnShapeV::Sequence(_) => RunResultV::ValueSeq(rt.seq_values),
        }
    }
}

/// Whether a callable's run reaches the point where the keyword map is
/// built: the target resolved and the declaration has arguments.
pub open spec fn builds_kwargs(c: CanonBindV, rt: ScriptedRuntimeV) -> bool {
    callable_shape(c) && c.args.len() > 0 && receiver_ok(c, rt) && lookups_ok(
        rt,
        c.chain.len() as int,
    )
}

/// Performs the first `n` attribute lookups of the script.
fn traverse(rt: &ScriptedRuntime, n: usize) -> (ok: bool)
    ensures
        ok == lookups_ok(rt@, n as int),
{
    let mut i: usize = 0;
    while i < n
        invariant
            i <= n,
            lookups_ok(rt@, i as int),
        decreases n - i,
    {
        let failed_here = i >= rt.attr_ok.len() || !rt.attr_ok[i];
        if failed_here {
            proof {
                assert(!lookup_ok(rt@, i as int));
                assert(!lookups_ok(rt@, n as int)) by {
                    if lookups_ok(rt@, n as int) {
                        assert(lookup_ok(rt@, i as int));
                    }
                }
            }
            return false;
        }
        i += 1;
        proof {
            assert(lookup_ok(rt@, i - 1));
            assert forall|j: int| 0 <= j < i implies #[trigger] lookup_ok(rt@, j) by {
                if j < i - 1 {
                    assert(lookup_ok(rt@, j));
                }
            }
        }
    }
    true
}

/// Copies the scripted sequence values.
fn copy_values(v: &Vec<u64>) -> (r: Vec<u64>)
    ensures
        r@ == v@,
{
    let mut r: Vec<u64> = Vec::new();
    let mut i: usize = 0;
    while i < v.len()
        invariant
            i <= v.len(),
            r@ =~= v@.subrange(0, i as int),
        decreases v.len() - i,
    {
        r.push(v[i]);
        i += 1;
    }
    proof {
        assert(r@ =~= v@);
    }
    r
}

/// Steps two to five of the protocol for a binding declaration: resolve
/// the receiver, traverse, then invoke, read, or assign, and convert. The
/// token is handled by the caller; the first failing interaction aborts
/// the remaining steps.
fn run_interaction(c: &CanonBind, rt: &ScriptedRuntime) -> (r: (RunResult, u64))
    requires
        classify_spec(c@) != Rule::NoMatch,
    ensures
        r.0@ == bind_run_result(c@, rt@),
        r.1 == if builds_kwargs(c@, rt@) {
            1u64
        } else {
            0u64
        },
{
    let resolved = match &c.receiver {
        Receiver::SelfBound => true,
        Receiver::Module { .. } => rt.import_ok,
    };
    let rule = classify(c);
    let is_setter = rule == Rule::SelfSetter || rule == Rule::ModSetter;
    let is_getter = rule == Rule::SelfGetter || rule == Rule::ModGetter;
    if !resolved {
        return (RunResult::Failed, 0);
    }
    let depth: usize = if is_setter {
        c.chain.len() - 1
    } else {
        c.chain.len()
    };
    if !traverse(rt, depth) {
        return (RunResult::Failed, 0);
    }
    if is_setter {
        if rt.set_ok {
            return (RunResult::Done, 0);
        }
        return (RunResult::Failed, 0);
    }
    let mut kwargs: u64 = 0;
    if !is_getter {
        // A callable with declared arguments fills the keyword map before
        // invoking; one without arguments invokes directly.
        if c.args.len() > 0 {
            kwargs = 1;
        }
        if !rt.invoke_ok {
            return (RunResult::Failed, kwargs);
        }
    }
    match &c.ret {
        ReturnShape::Unit => (RunResult::Done, kwargs),
        ReturnShape::Single(_) => {
            if rt.extract_ok {
                (RunResult::Value(rt.value), kwargs)
            } else {
                (RunResult::Failed, kwargs)
            }
        },
        ReturnShape::Sequence(_) => {
            if rt.extract_ok {
                (RunResult::ValueSeq(copy_values(&rt.seq_values)), kwargs)
            } else {
                (RunResult::Failed, kwargs)
            }
        },
    }
}

/// Runs a binding declaration's synthesized function against the script.
///
/// The scoped-token contract holds of every run, successful or failing:
/// acquisitions and releases balance exactly, a declaration with a
/// caller-supplied token acquires nothing of its own, and one without
/// acquires — and releases — exactly once. A zero-argument declaration
/// never builds a keyword map.
pub fn run_bind(c: &CanonBind, rt: &ScriptedRuntime) -> (r: (RunResult, Trace))
    requires
        classify_spec(c@) != Rule::NoMatch,
    ensures
        r.0@ == bind_run_result(c@, rt@),
        r.1.acquires == r.1.releases,
        c@.token is Some ==> r.1.acquires == 0,
        c@.token is None ==> r.1.acquires == 1,
        r.1.kwarg_builds == if builds_kwargs(c@, rt@) {
            1u64
        } else {
            0u64
        },
        c@.args.len() == 0 ==> r.1.kwarg_builds == 0,
{
    let own_token = c.token.is_none();
    let acquires: u64 = if own_token {
        1
    } else {
        0
    };
    // The interaction runs inside the acquisition scope; the release below
    // is coupled to the acquisition above by construction, so every exit
    // path of the interaction — success or propagated failure — releases
    // exactly what was acquired.
    let (result, kwarg_builds) = run_interaction(c, rt);
    let releases: u64 = acquires;
    (result, Trace { acquires, releases, kwarg_builds })
}

/// Every interaction a wrapper's run needs succeeds under the script: the
/// single call of the existing function.
pub open spec fn wrap_run_ok(rt: ScriptedRuntimeV) -> bool {
    rt.invoke_ok
}

/// The result a wrapper's run returns under the script.
pub open spec fn wrap_run_result(w: WrapDeclV, rt: ScriptedRuntimeV) -> RunResultV {
    if !wrap_run_ok(rt) {
        RunResultV::Failed
    } else {
        match w.ret {
            ReturnShapeV::Unit => RunResultV::Done,
            ReturnShapeV::Single(_) => RunResultV::Value(rt.value),
            ReturnShapeV::Sequence(_) => RunResultV::ValueSeq(rt.seq_values),
        }
    }
}

/// Runs a wrapper declaration's synthesized function against the script.
/// A wrapper always acquires its own token, and releases it exactly once
/// on every exit path; its conversions cannot fail, so the run fails
/// exactly when the wrapped call does.
pub fn run_wrap(w: &WrapDecl, rt: &ScriptedRuntime) -> (r: (RunResult, Trace))
    ensures
        r.0@ == wrap_run_result(w@, rt@),
        r.1.acquires == 1,
        r.1.releases == 1,
        r.1.kwarg_builds == 0,
{
    let result = if !rt.invoke_ok {
        RunResult::Failed
    } else {
        match &w.ret {
            ReturnShape::Unit => RunResult::Done,
            ReturnShape::Single(_) => RunResult::Value(rt.value),
            ReturnShape::Sequence(_) => RunResult::ValueSeq(copy_values(&rt.seq_values)),
        }
    };
    (result, Trace { acquires: 1, releases: 1, kwarg_builds: 0 })
}

} // verus!
