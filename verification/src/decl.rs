//! The declaration records that the engine consumes and the canonical form
//! that the dispatcher and synthesizer work on.

use vstd::prelude::*;

verus! {

/// One declared argument of a synthesized function: the parameter name and
/// the textual type it carries. The type text is pass-through metadata.
pub struct Argument {
    pub name: String,
    pub ty: String,
}

/// Mathematical model of an [`Argument`].
pub struct ArgumentV {
    pub name: Seq<char>,
    pub ty: Seq<char>,
}

impl View for Argument {
    type V = ArgumentV;

    open spec fn view(&self) -> ArgumentV {
        ArgumentV { name: self.name@, ty: self.ty@ }
    }
}

impl DeepView for Argument {
    type V = ArgumentV;

    open spec fn deep_view(&self) -> ArgumentV {
        self@
    }
}

/// How the extracted runtime value is returned: discarded, converted into a
/// single value of the named type, or converted element-wise into an owned
/// sequence of the named type.
pub enum ReturnShape {
    Unit,
    Single(String),
    Sequence(String),
}

/// Mathematical model of a [`ReturnShape`].
pub enum ReturnShapeV {
    Unit,
    Single(Seq<char>),
    Sequence(Seq<char>),
}

impl View for ReturnShape {
    type V = ReturnShapeV;

    open spec fn view(&self) -> ReturnShapeV {
        match self {
            ReturnShape::Unit => ReturnShapeV::Unit,
            ReturnShape::Single(t) => ReturnShapeV::Single(t@),
            ReturnShape::Sequence(t) => ReturnShapeV::Sequence(t@),
        }
    }
}

/// The head of the dotted path a declaration starts with, exactly as the
/// author wrote it: a plain identifier (which may be the receiver keyword
/// `self`, or the name of an importable module), or a bracketed literal
/// expression naming a module whose full dotted path must be imported in a
/// single call.
pub enum PathHead {
    Ident(String),
    Expr(String),
}

/// Mathematical model of a [`PathHead`].
pub enum PathHeadV {
    Ident(Seq<char>),
    Expr(Seq<char>),
}

impl View for PathHead {
    type V = PathHeadV;

    open spec fn view(&self) -> PathHeadV {
        match self {
            PathHead::Ident(s) => PathHeadV::Ident(s@),
            PathHead::Expr(s) => PathHeadV::Expr(s@),
        }
    }
}

/// A binding declaration in the shape the author wrote it: a dotted path
/// (head plus attribute chain), whether the path ends in a call form `()`,
/// whether the function part is bound with an assignment (a setter) rather
/// than an arrow, an optional caller-supplied exclusive-access token
/// parameter, the declared arguments, the return shape, and the visibility
/// and name copied onto the generated function.
pub struct BindDecl {
    pub head: PathHead,
    pub chain: Vec<String>,
    pub is_call: bool,
    pub is_assign: bool,
    pub token: Option<String>,
    pub args: Vec<Argument>,
    pub ret: ReturnShape,
    pub vis: String,
    pub name: String,
}

/// Mathematical model of a [`BindDecl`].
pub struct BindDeclV {
    pub head: PathHeadV,
    pub chain: Seq<Seq<char>>,
    pub is_call: bool,
    pub is_assign: bool,
    pub token: Option<Seq<char>>,
    pub args: Seq<ArgumentV>,
    pub ret: ReturnShapeV,
    pub vis: Seq<char>,
    pub name: Seq<char>,
}

impl View for BindDecl {
    type V = BindDeclV;

    open spec fn view(&self) -> BindDeclV {
        BindDeclV {
            head: self.head@,
            chain: self.chain.deep_view(),
            is_call: self.is_call,
            is_assign: self.is_assign,
            token: self.token.deep_view(),
            args: self.args.deep_view(),
            ret: self.ret@,
            vis: self.vis@,
            name: self.name@,
        }
    }
}

/// A declaration that wraps an existing function rather than interacting
/// with the runtime's object model: the generated function acquires a token,
/// calls the named source function with the token prepended to the declared
/// arguments, and converts the result into the declared return shape.
pub struct WrapDecl {
    pub source: String,
    pub args: Vec<Argument>,
    pub ret: ReturnShape,
    pub vis: String,
    pub name: String,
}

/// Mathematical model of a [`WrapDecl`].
pub struct WrapDeclV {
    pub source: Seq<char>,
    pub args: Seq<ArgumentV>,
    pub ret: ReturnShapeV,
    pub vis: Seq<char>,
    pub name: Seq<char>,
}

impl View for WrapDecl {
    type V = WrapDeclV;

    open spec fn view(&self) -> WrapDeclV {
        WrapDeclV {
            source: self.source@,
            args: self.args.deep_view(),
            ret: self.ret@,
            vis: self.vis@,
            name: self.name@,
        }
    }
}

/// The unit of input to the engine.
pub enum Decl {
    Bind(BindDecl),
    Wrap(WrapDecl),
}

/// Mathematical model of a [`Decl`].
pub enum DeclV {
    Bind(BindDeclV),
    Wrap(WrapDeclV),
}

impl View for Decl {
    type V = DeclV;

    open spec fn view(&self) -> DeclV {
        match self {
            Decl::Bind(b) => DeclV::Bind(b@),
            Decl::Wrap(w) => DeclV::Wrap(w@),
        }
    }
}

/// The canonical receiver a declaration resolves to after normalization:
/// either the enclosing value itself, or a runtime module to import.
/// `literal` records whether the module path was written as a bracketed
/// literal expression rather than a plain identifier; both forms import the
/// same stringified path and the flag is kept only as provenance.
pub enum Receiver {
    SelfBound,
    Module { path: String, literal: bool },
}

/// Mathematical model of a [`Receiver`].
pub enum ReceiverV {
    SelfBound,
    Module { path: Seq<char>, literal: bool },
}

impl View for Receiver {
    type V = ReceiverV;

    open spec fn view(&self) -> ReceiverV {
        match self {
            Receiver::SelfBound => ReceiverV::SelfBound,
            Receiver::Module { path, literal } => ReceiverV::Module {
                path: path@,
                literal: *literal,
            },
        }
    }
}

/// A binding declaration after normalization: the receiver is resolved, and
/// the exclusive-access token is present as a flag (`token`) together with
/// the effective token name `tok` — the caller's name when one was supplied,
/// otherwise the synthesized internal name the generated scope binds.
pub struct CanonBind {
    pub receiver: Receiver,
    pub chain: Vec<String>,
    pub is_call: bool,
    pub is_assign: bool,
    pub token: Option<String>,
    pub tok: String,
    pub args: Vec<Argument>,
    pub ret: ReturnShape,
    pub vis: String,
    pub name: String,
}

/// Mathematical model of a [`CanonBind`].
pub struct CanonBindV {
    pub receiver: ReceiverV,
    pub chain: Seq<Seq<char>>,
    pub is_call: bool,
    pub is_assign: bool,
    pub token: Option<Seq<char>>,
    pub tok: Seq<char>,
    pub args: Seq<ArgumentV>,
    pub ret: ReturnShapeV,
    pub vis: Seq<char>,
    pub name: Seq<char>,
}

impl View for CanonBind {
    type V = CanonBindV;

    open spec fn view(&self) -> CanonBindV {
        CanonBindV {
            receiver: self.receiver@,
            chain: self.chain.deep_view(),
            is_call: self.is_call,
            is_assign: self.is_assign,
            token: self.token.deep_view(),
            tok: self.tok@,
            args: self.args.deep_view(),
            ret: self.ret@,
            vis: self.vis@,
            name: self.name@,
        }
    }
}

/// The effective token name is coupled to the token flag: it is the caller's
/// parameter name when one was supplied and the synthesized internal name
/// otherwise.
pub open spec fn canon_tok_wf(c: CanonBindV) -> bool {
    match c.token {
        Some(n) => c.tok == n,
        None => c.tok == "py"@,
    }
}

/// A build-time failure of the engine: the declaration matched no dispatch
/// rule, or the record handed to the dictionary-conversion generator is not
/// a struct with named fields. Each carries the name identifying the
/// offending input.
#[derive(Debug)]
pub enum GenError {
    UnmatchedShape { name: String },
    NotNamedRecord { name: String },
}

/// Mathematical model of a [`GenError`].
pub enum GenErrorV {
    UnmatchedShape { name: Seq<char> },
    NotNamedRecord { name: Seq<char> },
}

impl View for GenError {
    type V = GenErrorV;

    open spec fn view(&self) -> GenErrorV {
        match self {
            GenError::UnmatchedShape { name } => GenErrorV::UnmatchedShape { name: name@ },
            GenError::NotNamedRecord { name } => GenErrorV::NotNamedRecord { name: name@ },
        }
    }
}

/// The report text of a build-time failure.
pub open spec fn error_message(e: GenErrorV) -> Seq<char> {
    match e {
        GenErrorV::UnmatchedShape { name } =>
            "declaration '"@ + name + "' matches no binding rule"@,
        GenErrorV::NotNamedRecord { name } =>
            "'"@ + name + "' is not a struct with named fields"@,
    }
}

impl GenError {
    /// Renders the failure as the report text the engine surfaces at build
    /// time.
    pub fn message(&self) -> (r: String)
        ensures
            r@ == error_message(self@),
    {
        match self {
            GenError::UnmatchedShape { name } => {
                let mut out = "declaration '".to_owned();
                out.append(name.as_str());
                out.append("' matches no binding rule");
                out
            },
            GenError::NotNamedRecord { name } => {
                let mut out = "'".to_owned();
                out.append(name.as_str());
                out.append("' is not a struct with named fields");
                out
            },
        }
    }
}

/// Copies a chain of identifier segments. The engine never mutates its
/// input, so canonical forms duplicate the segment strings they keep.
pub fn clone_strings(v: &Vec<String>) -> (r: Vec<String>)
    ensures
        r.deep_view() == v.deep_view(),
{
    let mut r: Vec<String> = Vec::new();
    let mut i: usize = 0;
    while i < v.len()
        invariant
            i <= v.len(),
            r@.len() == i,
            forall|j: int| 0 <= j < i ==> r.deep_view()[j] == v.deep_view()[j],
        decreases v.len() - i,
    {
        r.push(v[i].clone());
        i += 1;
    }
    proof {
        assert(r.deep_view() =~= v.deep_view());
    }
    r
}

/// Copies a declared argument list.
pub fn clone_args(v: &Vec<Argument>) -> (r: Vec<Argument>)
    ensures
        r.deep_view() == v.deep_view(),
{
    let mut r: Vec<Argument> = Vec::new();
    let mut i: usize = 0;
    while i < v.len()
        invariant
            i <= v.len(),
            r@.len() == i,
            forall|j: int| 0 <= j < i ==> r.deep_view()[j] == v.deep_view()[j],
        decreases v.len() - i,
    {
        let a = Argument { name: v[i].name.clone(), ty: v[i].ty.clone() };
        r.push(a);
        i += 1;
    }
    proof {
        assert(r.deep_view() =~= v.deep_view());
    }
    r
}

impl ReturnShape {
    /// Copies a return shape.
    pub fn duplicate(&self) -> (r: ReturnShape)
        ensures
            r@ == self@,
    {
        match self {
            ReturnShape::Unit => ReturnShape::Unit,
            ReturnShape::Single(t) => ReturnShape::Single(t.clone()),
            ReturnShape::Sequence(t) => ReturnShape::Sequence(t.clone()),
        }
    }
}

} // verus!
