//! The call-protocol synthesizer: turning a dispatched declaration into the
//! plan of a synthesized function — its signature data and the ordered
//! protocol steps its body performs.

use vstd::prelude::*;

use crate::decl::{Argument, ArgumentV, CanonBind, CanonBindV, Receiver, ReceiverV, ReturnShape,
    ReturnShapeV, WrapDecl, WrapDeclV, clone_args};
use crate::dispatch::{Rule, classify_spec, classify, callable_shape, getter_shape};
use crate::path_split::{chain_last, chain_prefix, split_chain};

verus! {

/// One step of a synthesized function body, in the order the generated code
/// performs them: resolve the receiver, traverse attributes, build keyword
/// arguments, invoke or read or assign, and convert the result.
pub enum Step {
    /// Import the runtime module named by the stringified path.
    Import(String),
    /// Obtain the enclosing value's runtime-side handle.
    BindSelf,
    /// Look up one attribute on the current target.
    GetAttr(String),
    /// Create the empty keyword-argument map.
    NewKwargs,
    /// Insert one entry into the keyword-argument map: the runtime-side key
    /// and the parameter whose value it carries.
    InsertKwarg(String, String),
    /// Invoke the target with an empty positional list.
    CallNoArgs,
    /// Invoke the target with an empty positional list and the keyword map.
    CallKwargs,
    /// Assign one attribute on the current target: the key and the
    /// parameter whose value is assigned.
    SetAttr(String, String),
    /// Call an existing function with the token prepended to the declared
    /// arguments.
    CallSource(String, Vec<String>),
    /// Discard the result and return success.
    FinishUnit,
    /// Extract the invocation result into the declared type.
    ExtractRet,
    /// Extract the traversal target itself into the declared type.
    ExtractTarget,
    /// Convert an existing function's result into the declared type.
    ConvertInto,
    /// Convert an existing function's result element-wise into an owned
    /// sequence.
    ConvertSeq,
}

/// Mathematical model of a [`Step`].
pub enum StepV {
    Import(Seq<char>),
    BindSelf,
    GetAttr(Seq<char>),
    NewKwargs,
    InsertKwarg(Seq<char>, Seq<char>),
    CallNoArgs,
    CallKwargs,
    SetAttr(Seq<char>, Seq<char>),
    CallSource(Seq<char>, Seq<Seq<char>>),
    FinishUnit,
    ExtractRet,
    ExtractTarget,
    ConvertInto,
    ConvertSeq,
}

impl View for Step {
    type V = StepV;

    open spec fn view(&self) -> StepV {
        match self {
            Step::Import(m) => StepV::Import(m@),
            Step::BindSelf => StepV::BindSelf,
            Step::GetAttr(a) => StepV::GetAttr(a@),
            Step::NewKwargs => StepV::NewKwargs,
            Step::InsertKwarg(k, p) => StepV::InsertKwarg(k@, p@),
            Step::CallNoArgs => StepV::CallNoArgs,
            Step::CallKwargs => StepV::CallKwargs,
            Step::SetAttr(k, p) => StepV::SetAttr(k@, p@),
            Step::CallSource(f, a) => StepV::CallSource(f@, a.deep_view()),
            Step::FinishUnit => StepV::FinishUnit,
            Step::ExtractRet => StepV::ExtractRet,
            Step::ExtractTarget => StepV::ExtractTarget,
            Step::ConvertInto => StepV::ConvertInto,
            Step::ConvertSeq => StepV::ConvertSeq,
        }
    }
}

impl DeepView for Step {
    type V = StepV;

    open spec fn deep_view(&self) -> StepV {
        self@
    }
}

/// How the synthesized function receives the enclosing value.
#[derive(Clone, Copy, Debug, PartialEq, Eq, Structural)]
pub enum SelfKind {
    NoSelf,
    RefSelf,
    RefMutSelf,
}

/// The plan of one synthesized function: everything its source text is
/// rendered from. A plan without a caller-supplied token is *scoped*: its
/// body acquires a fresh token under the name `tok` and every step runs
/// inside that scope.
pub struct SynthFn {
    pub vis: String,
    pub name: String,
    pub self_kind: SelfKind,
    pub token: Option<String>,
    pub tok: String,
    pub args: Vec<Argument>,
    pub ret: ReturnShape,
    pub steps: Vec<Step>,
}

/// Mathematical model of a [`SynthFn`].
pub struct SynthFnV {
    pub vis: Seq<char>,
    pub name: Seq<char>,
    pub self_kind: SelfKind,
    pub token: Option<Seq<char>>,
    pub tok: Seq<char>,
    pub args: Seq<ArgumentV>,
    pub ret: ReturnShapeV,
    pub steps: Seq<StepV>,
}

impl View for SynthFn {
    type V = SynthFnV;

    open spec fn view(&self) -> SynthFnV {
        SynthFnV {
            vis: self.vis@,
            name: self.name@,
            self_kind: self.self_kind,
            token: self.token.deep_view(),
            tok: self.tok@,
            args: self.args.deep_view(),
            ret: self.ret@,
            steps: self.steps.deep_view(),
        }
    }
}

/// Whether a plan acquires its own scoped token rather than using a
/// caller-supplied one.
pub open spec fn scoped(f: SynthFnV) -> bool {
    f.token is None
}

/// A declared argument name with the raw-identifier escape prefix removed,
/// if it carries one; the result is the name the runtime sees.
pub open spec fn strip_raw(s: Seq<char>) -> Seq<char> {
    if s.len() >= 2 && s[0] == 'r' && s[1] == '#' {
        s.subrange(2, s.len() as int)
    } else {
        s
    }
}

/// Removes the raw-identifier escape prefix from an argument name.
pub fn strip_raw_name(s: &String) -> (r: String)
    ensures
        r@ == strip_raw(s@),
{
    let st = s.as_str();
    let n: usize = st.unicode_len();
    if n >= 2 {
        let c0 = st.get_char(0);
        let c1 = st.get_char(1);
        if c0 == 'r' && c1 == '#' {
            let tail = st.substring_char(2, n);
            return tail.to_owned();
        }
    }
    s.clone()
}

/// The receiver-resolution step: a module import, or binding the enclosing
/// value's handle. A self-bound receiver performs no import.
pub open spec fn receiver_steps(r: ReceiverV) -> Seq<StepV> {
    match r {
        ReceiverV::SelfBound => seq![StepV::BindSelf],
        ReceiverV::Module { path, .. } => seq![StepV::Import(path)],
    }
}

/// One attribute lookup per segment, in chain order.
pub open spec fn getattr_steps(chain: Seq<Seq<char>>) -> Seq<StepV> {
    chain.map_values(|s: Seq<char>| StepV::GetAttr(s))
}

/// The invocation steps of a callable: a plain call when no arguments are
/// declared; otherwise the keyword map is created, filled with one entry
/// per declared argument — keyed by the argument's runtime-side name, after
/// raw-identifier stripping — and passed to the call. A zero-argument
/// callable therefore never touches the keyword-argument path.
pub open spec fn invoke_steps(args: Seq<ArgumentV>) -> Seq<StepV> {
    if args.len() == 0 {
        seq![StepV::CallNoArgs]
    } else {
        seq![StepV::NewKwargs]
            + args.map_values(|a: ArgumentV| StepV::InsertKwarg(strip_raw(a.name), a.name))
            + seq![StepV::CallKwargs]
    }
}

/// The conversion step closing a callable body: discard, or extract the
/// invocation result.
pub open spec fn finish_steps(ret: ReturnShapeV) -> Seq<StepV> {
    match ret {
        ReturnShapeV::Unit => seq![StepV::FinishUnit],
        ReturnShapeV::Single(_) => seq![StepV::ExtractRet],
        ReturnShapeV::Sequence(_) => seq![StepV::ExtractRet],
    }
}

/// The conversion step closing a wrapper body.
pub open spec fn wrap_finish_steps(ret: ReturnShapeV) -> Seq<StepV> {
    match ret {
        ReturnShapeV::Unit => seq![StepV::FinishUnit],
        ReturnShapeV::Single(_) => seq![StepV::ConvertInto],
        ReturnShapeV::Sequence(_) => seq![StepV::ConvertSeq],
    }
}

/// The body steps of a canonical binding declaration, by its dispatch rule:
/// callables traverse the whole chain and invoke; getters traverse the
/// whole chain and extract the target; setters traverse the chain's prefix
/// and assign its final segment.
pub open spec fn bind_steps(c: CanonBindV) -> Seq<StepV>
    recommends
        classify_spec(c) != Rule::NoMatch,
{
    if callable_shape(c) {
        receiver_steps(c.receiver) + getattr_steps(c.chain) + invoke_steps(c.args)
            + finish_steps(c.ret)
    } else if getter_shape(c) {
        receiver_steps(c.receiver) + getattr_steps(c.chain) + seq![StepV::ExtractTarget]
    } else {
        receiver_steps(c.receiver) + getattr_steps(chain_prefix(c.chain))
            + seq![StepV::SetAttr(chain_last(c.chain), c.args[0].name), StepV::FinishUnit]
    }
}

/// How the synthesized function receives the enclosing value: setters bind
/// it mutably, callables and getters immutably, module receivers not at
/// all.
pub open spec fn self_kind_spec(c: CanonBindV) -> SelfKind {
    match c.receiver {
        ReceiverV::SelfBound => if c.is_assign {
            SelfKind::RefMutSelf
        } else {
            SelfKind::RefSelf
        },
        ReceiverV::Module { .. } => SelfKind::NoSelf,
    }
}

/// The full plan of a canonical binding declaration.
pub open spec fn plan_spec(c: CanonBindV) -> SynthFnV
    recommends
        classify_spec(c) != Rule::NoMatch,
{
    SynthFnV {
        vis: c.vis,
        name: c.name,
        self_kind: self_kind_spec(c),
        token: c.token,
        tok: c.tok,
        args: c.args,
        ret: c.ret,
        steps: bind_steps(c),
    }
}

/// The plan of a wrapper declaration: always scoped, no receiver, one call
/// of the existing function followed by the declared conversion.
pub open spec fn wrap_plan_spec(w: WrapDeclV) -> SynthFnV {
    SynthFnV {
        vis: w.vis,
        name: w.name,
        self_kind: SelfKind::NoSelf,
        token: None,
        tok: "py"@,
        args: w.args,
        ret: w.ret,
        steps: seq![
            StepV::CallSource(w.source, w.args.map_values(|a: ArgumentV| a.name)),
        ] + wrap_finish_steps(w.ret),
    }
}

/// Appends one attribute-lookup step per segment.
fn push_getattrs(steps: &mut Vec<Step>, segs: &Vec<String>)
    ensures
        final(steps).deep_view() == old(steps).deep_view() + getattr_steps(segs.deep_view()),
{
    let mut i: usize = 0;
    while i < segs.len()
        invariant
            i <= segs.len(),
            steps@.len() == old(steps)@.len() + i,
            forall|j: int| 0 <= j < old(steps)@.len()
                ==> steps.deep_view()[j] == old(steps).deep_view()[j],
            forall|j: int| 0 <= j < i ==> steps.deep_view()[old(steps)@.len() + j]
                == StepV::GetAttr(segs.deep_view()[j]),
        decreases segs.len() - i,
    {
        steps.push(Step::GetAttr(segs[i].clone()));
        i += 1;
    }
    proof {
        assert(steps.deep_view() =~= old(steps).deep_view() + getattr_steps(segs.deep_view()));
    }
}

/// Appends the invocation steps of a callable with the declared arguments.
fn push_invoke(steps: &mut Vec<Step>, args: &Vec<Argument>)
    ensures
        final(steps).deep_view() == old(steps).deep_view() + invoke_steps(args.deep_view()),
{
    if args.len() == 0 {
        steps.push(Step::CallNoArgs);
        proof {
            assert(steps.deep_view() =~= old(steps).deep_view()
                + invoke_steps(args.deep_view()));
        }
        return ;
    }
    steps.push(Step::NewKwargs);
    let mut i: usize = 0;
    while i < args.len()
        invariant
            i <= args.len(),
            args@.len() >= 1,
            steps@.len() == old(steps)@.len() + 1 + i,
            forall|j: int| 0 <= j < old(steps)@.len()
                ==> steps.deep_view()[j] == old(steps).deep_view()[j],
            steps.deep_view()[old(steps)@.len() as int] == StepV::NewKwargs,
            forall|j: int| 0 <= j < i ==> steps.deep_view()[old(steps)@.len() + 1 + j]
                == StepV::InsertKwarg(
                    strip_raw(args.deep_view()[j].name),
                    args.deep_view()[j].name,
                ),
        decreases args.len() - i,
    {
        let key = strip_raw_name(&args[i].name);
        steps.push(Step::InsertKwarg(key, args[i].name.clone()));
        i += 1;
    }
    steps.push(Step::CallKwargs);
    proof {
        assert(steps.deep_view() =~= old(steps).deep_view() + invoke_steps(args.deep_view()));
    }
}

/// Synthesizes the plan of a canonical binding declaration that matched a
/// dispatch rule. A self-bound declaration yields a plan that takes the
/// enclosing value and performs no module import; a zero-argument callable
/// yields a plan without any keyword-argument step.
pub fn synthesize(c: &CanonBind) -> (f: SynthFn)
    requires
        classify_spec(c@) != Rule::NoMatch,
    ensures
        f@ == plan_spec(c@),
{
    let mut steps: Vec<Step> = Vec::new();
    match &c.receiver {
        Receiver::SelfBound => steps.push(Step::BindSelf),
        Receiver::Module { path, .. } => steps.push(Step::Import(path.clone())),
    }
    proof {
        assert(steps.deep_view() =~= receiver_steps(c@.receiver));
    }
    let rule = classify(c);
    match rule {
        Rule::SelfCallable | Rule::ModCallable => {
            push_getattrs(&mut steps, &c.chain);
            push_invoke(&mut steps, &c.args);
            match &c.ret {
                ReturnShape::Unit => steps.push(Step::FinishUnit),
                ReturnShape::Single(_) => steps.push(Step::ExtractRet),
                ReturnShape::Sequence(_) => steps.push(Step::ExtractRet),
            }
            proof {
                assert(steps.deep_view() =~= bind_steps(c@));
            }
        },
        Rule::SelfGetter | Rule::ModGetter => {
            push_getattrs(&mut steps, &c.chain);
            steps.push(Step::ExtractTarget);
            proof {
                assert(steps.deep_view() =~= bind_steps(c@));
            }
        },
        Rule::SelfSetter | Rule::ModSetter => {
            let (prefix, last) = split_chain(&c.chain);
            push_getattrs(&mut steps, &prefix);
            steps.push(Step::SetAttr(last, c.args[0].name.clone()));
            steps.push(Step::FinishUnit);
            proof {
                assert(steps.deep_view() =~= bind_steps(c@));
            }
        },
        Rule::NoMatch => {
            proof {
                assert(false);
            }
        },
    }
    let self_kind = match &c.receiver {
        Receiver::SelfBound => if c.is_assign {
            SelfKind::RefMutSelf
        } else {
            SelfKind::RefSelf
        },
        Receiver::Module { .. } => SelfKind::NoSelf,
    };
    let token: Option<String> = match &c.token {
        Some(n) => Some(n.clone()),
        None => None,
    };
    SynthFn {
        vis: c.vis.clone(),
        name: c.name.clone(),
        self_kind,
        token,
        tok: c.tok.clone(),
        args: clone_args(&c.args),
        ret: c.ret.duplicate(),
        steps,
    }
}

/// Synthesizes the plan of a wrapper declaration.
pub fn synthesize_wrap(w: &WrapDecl) -> (f: SynthFn)
    ensures
        f@ == wrap_plan_spec(w@),
{
    let mut names: Vec<String> = Vec::new();
    let mut i: usize = 0;
    while i < w.args.len()
        invariant
            i <= w.args.len(),
            names@.len() == i,
            forall|j: int| 0 <= j < i ==> names@[j]@ == w.args.deep_view()[j].name,
        decreases w.args.len() - i,
    {
        let nm = w.args[i].name.clone();
        proof {
            assert(nm@ == w.args.deep_view()[i as int].name);
        }
        names.push(nm);
        i += 1;
    }
    proof {
        assert(names.deep_view() =~= w@.args.map_values(|a: ArgumentV| a.name));
    }
    let mut steps: Vec<Step> = Vec::new();
    steps.push(Step::CallSource(w.source.clone(), names));
    match &w.ret {
        ReturnShape::Unit => steps.push(Step::FinishUnit),
        ReturnShape::Single(_) => steps.push(Step::ConvertInto),
        ReturnShape::Sequence(_) => steps.push(Step::ConvertSeq),
    }
    proof {
        assert(steps.deep_view() =~= wrap_plan_spec(w@).steps);
    }
    SynthFn {
        vis: w.vis.clone(),
        name: w.name.clone(),
        self_kind: SelfKind::NoSelf,
        token: None,
        tok: "py".to_owned(),
        args: clone_args(&w.args),
        ret: w.ret.duplicate(),
        steps,
    }
}

} // verus!
