//! The mid-level IR that the analysis reads: bodies, blocks, instructions,
//! places, operands, the scope tree and the table of locals.

use vstd::prelude::*;

verus! {

/// A local variable, named by its index in the body's table of locals.
pub type Local = usize;

/// The global identity of a function.
#[derive(Clone, Copy, Debug, PartialEq, Eq, Structural)]
pub struct DefId {
    pub krate: u32,
    pub index: u32,
}

/// One step of a projection applied to a local.
#[derive(Clone, Copy, Debug, PartialEq, Eq, Structural)]
pub enum ProjectionElem {
    Deref,
    Field(u32),
    Index(Local),
    ConstantIndex(u64),
    Downcast(u32),
}

/// A memory location: a local with a (possibly empty) projection.
#[derive(Clone, Debug)]
pub struct Place {
    pub local: Local,
    pub projection: Vec<ProjectionElem>,
}

impl Place {
    /// A place that names `local` with no projection.
    pub fn from_local(local: Local) -> (r: Place)
        ensures
            r.local == local,
            r.projection@.len() == 0,
    {
        Place { local, projection: Vec::new() }
    }

    /// The local that this place names when it has no projection.
    pub open spec fn spec_as_local(&self) -> Option<Local> {
        if self.projection@.len() == 0 {
            Some(self.local)
        } else {
            None
        }
    }

    /// The local, when the place is bare.
    pub fn as_local(&self) -> (r: Option<Local>)
        ensures
            r == self.spec_as_local(),
    {
        if self.projection.len() == 0 {
            Some(self.local)
        } else {
            None
        }
    }
}


/// A reference to a function as a constant, with its type-parameter
/// substitution (empty when the function is not generic).
#[derive(Clone, Debug)]
pub struct FnRef {
    pub def_id: DefId,
    pub substs: Vec<u64>,
    pub is_closure: bool,
}

/// A constant operand.
#[derive(Clone, Debug)]
pub enum Constant {
    Scalar(u64),
    FnDef(FnRef),
}

/// A value read by an instruction.
#[derive(Clone, Debug)]
pub enum Operand {
    Copy(Place),
    Move(Place),
    Constant(Constant),
}

impl Operand {
    /// The place read, for a copy or a move.
    pub open spec fn spec_place(&self) -> Option<Place> {
        match self {
            Operand::Copy(p) => Some(*p),
            Operand::Move(p) => Some(*p),
            Operand::Constant(_) => None,
        }
    }

    pub open spec fn is_constant(&self) -> bool {
        self matches Operand::Constant(_)
    }

    /// The function named, for a constant that is a function.
    pub open spec fn spec_const_fn_def(&self) -> Option<FnRef> {
        match self {
            Operand::Constant(Constant::FnDef(f)) => Some(*f),
            _ => None,
        }
    }

    pub fn place(&self) -> (r: Option<&Place>)
        ensures
            r matches Some(p) ==> self.spec_place() == Some(*p),
            r is None <==> self.spec_place() is None,
    {
        match self {
            Operand::Copy(p) => Some(p),
            Operand::Move(p) => Some(p),
            Operand::Constant(_) => None,
        }
    }

    pub fn constant(&self) -> (r: Option<&Constant>)
        ensures
            r is Some <==> self.is_constant(),
            r matches Some(c) ==> *self == Operand::Constant(*c),
    {
        match self {
            Operand::Constant(c) => Some(c),
            _ => None,
        }
    }

    pub fn const_fn_def(&self) -> (r: Option<&FnRef>)
        ensures
            r matches Some(f) ==> self.spec_const_fn_def() == Some(*f),
            r is None <==> self.spec_const_fn_def() is None,
    {
        match self {
            Operand::Constant(Constant::FnDef(f)) => Some(f),
            _ => None,
        }
    }
}

/// The value expression of an assignment.
#[derive(Clone, Debug)]
pub enum Rvalue {
    Use(Operand),
    Repeat(Operand, u64),
    Ref(Place),
    AddressOf(Place),
    Len(Place),
    Cast(Operand),
    BinaryOp(Operand, Operand),
    UnaryOp(Operand),
    Discriminant(Place),
    Aggregate(Vec<Operand>),
}

/// The kinds of simple (non-terminating) instruction.
#[derive(Clone, Debug)]
pub enum StatementKind {
    Assign(Place, Rvalue),
    FakeRead(Place),
    SetDiscriminant(Place, u32),
    Deinit(Place),
    StorageLive(Local),
    StorageDead(Local),
    Retag(Place),
    AscribeUserType(Place),
    Coverage,
    Intrinsic,
    ConstEvalCounter,
    Nop,
}

/// A source span, as byte offsets.
#[derive(Clone, Copy, Debug, PartialEq, Eq, Structural)]
pub struct Span {
    pub lo: u32,
    pub hi: u32,
}

/// Where an instruction comes from: its lexical scope and its span.
#[derive(Clone, Copy, Debug, PartialEq, Eq, Structural)]
pub struct SourceInfo {
    pub scope: usize,
    pub span: Span,
}

/// A simple instruction. `pta_target` is its taint mark.
#[derive(Clone, Debug)]
pub struct Statement {
    pub source_info: SourceInfo,
    pub kind: StatementKind,
    pub pta_target: bool,
}

/// The kinds of block terminator.
#[derive(Clone, Debug)]
pub enum TerminatorKind {
    Goto { target: usize },
    SwitchInt { discr: Operand, targets: Vec<usize> },
    Return,
    Unreachable,
    UnwindResume,
    Drop { place: Place, target: usize },
    Call { func: Operand, args: Vec<Operand>, destination: Place, target: Option<usize> },
    Assert { cond: Operand, target: usize },
}

/// The instruction that ends a block. `pta_target` is its taint mark.
#[derive(Clone, Debug)]
pub struct Terminator {
    pub source_info: SourceInfo,
    pub kind: TerminatorKind,
    pub pta_target: bool,
}

impl Terminator {
    pub open spec fn is_call(&self) -> bool {
        self.kind matches TerminatorKind::Call { .. }
    }
}

/// A basic block: simple instructions followed by exactly one terminator.
#[derive(Clone, Debug)]
pub struct BasicBlockData {
    pub statements: Vec<Statement>,
    pub terminator: Terminator,
}

impl BasicBlockData {
    pub fn terminator(&self) -> (r: &Terminator)
        ensures
            *r == self.terminator,
    {
        &self.terminator
    }
}

/// The explicit safety annotation of a scope.
#[derive(Clone, Copy, Debug, PartialEq, Eq, Structural)]
pub enum ScopeSafety {
    Safe,
    ExplicitUnsafe,
    /// No annotation: the scope defers to its parent.
    Unknown,
}

/// A node of the scope tree.
#[derive(Clone, Copy, Debug, PartialEq, Eq, Structural)]
pub struct SourceScopeData {
    pub parent_scope: Option<usize>,
    pub safety: ScopeSafety,
}

/// The kind of a declared type.
#[derive(Clone, Copy, Debug, PartialEq, Eq, Structural)]
pub enum Ty {
    Bool,
    Char,
    Str,
    Int,
    Uint,
    Float,
    Never,
    Adt(DefId),
    Ref,
    RawPtr,
    Tuple,
    Array,
    Slice,
    FnDef(DefId),
    Closure(DefId),
    Param(u32),
    /// Any other kind of type: never primitive.
    Other,
}

impl Ty {
    /// Booleans, characters, string slices' `str`, integers and floats.
    pub open spec fn spec_is_primitive(&self) -> bool {
        match self {
            Ty::Bool | Ty::Char | Ty::Str | Ty::Int | Ty::Uint | Ty::Float => true,
            _ => false,
        }
    }

    pub fn is_primitive_ty(&self) -> (r: bool)
        ensures
            r == self.spec_is_primitive(),
    {
        match self {
            Ty::Bool | Ty::Char | Ty::Str | Ty::Int | Ty::Uint | Ty::Float => true,
            _ => false,
        }
    }
}

/// The declaration of a local: its type and its safety flag, true until an
/// unsafe instruction is found to touch the local.
#[derive(Clone, Copy, Debug, PartialEq, Eq, Structural)]
pub struct LocalDecl {
    pub ty: Ty,
    pub safety: bool,
}

/// The position of an instruction: a block, and an index in it, where the
/// number of statements stands for the terminator.
#[derive(Clone, Copy, Debug, PartialEq, Eq, Structural)]
pub struct Location {
    pub block: usize,
    pub statement_index: usize,
}

/// A function body.
#[derive(Clone, Debug)]
pub struct Body {
    pub basic_blocks: Vec<BasicBlockData>,
    pub local_decls: Vec<LocalDecl>,
    pub source_scopes: Vec<SourceScopeData>,
    pub arg_count: usize,
    /// Changes whenever the body is rebuilt, so that stale call-site handles
    /// can be told apart.
    pub generation: u32,
}

/// A scope table is a forest whose parents come before their children. The
/// compiler creates each scope after its parent, so a parent always has the
/// lower index; this ordering is what makes the walk up a scope chain end.
pub open spec fn scopes_wf(scopes: Seq<SourceScopeData>) -> bool {
    forall|i: int|
        0 <= i < scopes.len() ==> (#[trigger] scopes[i].parent_scope matches Some(p) ==> p < i)
}

impl Body {
    /// Every scope's parent precedes it, and every instruction's scope exists.
    pub open spec fn wf(&self) -> bool {
        &&& scopes_wf(self.source_scopes@)
        &&& forall|b: int, i: int|
            0 <= b < self.basic_blocks@.len() && 0 <= i < self.basic_blocks@[b].statements@.len()
                ==> self.basic_blocks@[b].statements@[i].source_info.scope
                < self.source_scopes@.len()
        &&& forall|b: int|
            0 <= b < self.basic_blocks@.len()
                ==> self.basic_blocks@[b].terminator.source_info.scope < self.source_scopes@.len()
    }
}

} // verus!
