//! Accessors over a body, the scope-safety classifier, call-target
//! resolution and call-site handles.

use vstd::prelude::*;
use crate::pta_filter::{args_locals, call_locals, lemma_args_none_extends, operand_locals};
use crate::ir::{
    Body, DefId, Local, LocalDecl, Location, Operand, Place, SourceInfo, SourceScopeData, ScopeSafety,
    Statement, Terminator, TerminatorKind, scopes_wf,
};

verus! {

/// An instruction of a block: anything that carries a source position.
pub trait Instruction {
    spec fn spec_source_info(&self) -> SourceInfo;

    fn source_info(&self) -> (r: SourceInfo)
        ensures
            r == self.spec_source_info(),
    ;
}

impl Instruction for Statement {
    open spec fn spec_source_info(&self) -> SourceInfo {
        self.source_info
    }

    fn source_info(&self) -> (r: SourceInfo) {
        self.source_info
    }
}

impl Instruction for Terminator {
    open spec fn spec_source_info(&self) -> SourceInfo {
        self.source_info
    }

    fn source_info(&self) -> (r: SourceInfo) {
        self.source_info
    }
}

/// A borrowed instruction of either shape.
pub enum InstructionRef<'a> {
    Statement(&'a Statement),
    Terminator(&'a Terminator),
}

impl<'a> Instruction for InstructionRef<'a> {
    open spec fn spec_source_info(&self) -> SourceInfo {
        match self {
            InstructionRef::Statement(s) => s.source_info,
            InstructionRef::Terminator(t) => t.source_info,
        }
    }

    fn source_info(&self) -> (r: SourceInfo) {
        match self {
            InstructionRef::Statement(s) => s.source_info,
            InstructionRef::Terminator(t) => t.source_info,
        }
    }
}

/// Whether scope `s` or one of its ancestors is annotated as explicitly
/// unsafe: the walk goes up the parent links and stops at the first such
/// scope; a `Safe` annotation does not stop it.
pub open spec fn scope_is_unsafe(scopes: Seq<SourceScopeData>, s: int) -> bool
    decreases s,
{
    if !(0 <= s < scopes.len()) {
        false
    } else if scopes[s].safety == ScopeSafety::ExplicitUnsafe {
        true
    } else {
        match scopes[s].parent_scope {
            Some(p) => if p < s {
                scope_is_unsafe(scopes, p as int)
            } else {
                false
            },
            None => false,
        }
    }
}

/// `a` is `s` itself or is reached from `s` by parent links.
pub open spec fn is_ancestor(scopes: Seq<SourceScopeData>, a: int, s: int) -> bool
    decreases s,
{
    0 <= s < scopes.len() && (a == s || match scopes[s].parent_scope {
        Some(p) => p < s && is_ancestor(scopes, a, p as int),
        None => false,
    })
}

/// The classifier's answer for scope `s` is true exactly when `s` has an
/// ancestor (itself included) annotated as explicitly unsafe.
pub proof fn lemma_unsafe_iff_unsafe_ancestor(scopes: Seq<SourceScopeData>, s: int)
    requires
        scopes_wf(scopes),
        0 <= s < scopes.len(),
    ensures
        scope_is_unsafe(scopes, s) <==> exists|a: int|
            is_ancestor(scopes, a, s) && #[trigger] scopes[a].safety == ScopeSafety::ExplicitUnsafe,
    decreases s,
{
    if scopes[s].safety == ScopeSafety::ExplicitUnsafe {
        assert(is_ancestor(scopes, s, s));
    } else {
        match scopes[s].parent_scope {
            Some(p) => {
                assert(p < s);
                lemma_unsafe_iff_unsafe_ancestor(scopes, p as int);
                if scope_is_unsafe(scopes, s) {
                    let a = choose|a: int|
                        is_ancestor(scopes, a, p as int) && #[trigger] scopes[a].safety
                            == ScopeSafety::ExplicitUnsafe;
                    assert(is_ancestor(scopes, a, s));
                }
                if exists|a: int|
                    is_ancestor(scopes, a, s) && #[trigger] scopes[a].safety
                        == ScopeSafety::ExplicitUnsafe {
                    let a = choose|a: int|
                        is_ancestor(scopes, a, s) && #[trigger] scopes[a].safety
                            == ScopeSafety::ExplicitUnsafe;
                    assert(a != s);
                    assert(is_ancestor(scopes, a, p as int));
                }
            },
            None => {
                assert forall|a: int| is_ancestor(scopes, a, s) implies a == s by {}
            },
        }
    }
}

/// Whether the instruction comes from an unsafe scope: walks up from its own
/// scope and stops at the first scope annotated as explicitly unsafe.
pub fn is_unsafe<T: Instruction>(body: &Body, instruction: &T) -> (r: bool)
    requires
        scopes_wf(body.source_scopes@),
        instruction.spec_source_info().scope < body.source_scopes@.len(),
    ensures
        r == scope_is_unsafe(body.source_scopes@, instruction.spec_source_info().scope as int),
{
    let ghost start = instruction.spec_source_info().scope as int;
    let mut scope: Option<usize> = Some(instruction.source_info().scope);
    loop
        invariant
            scopes_wf(body.source_scopes@),
            start == instruction.spec_source_info().scope as int,
            scope matches Some(s) ==> s < body.source_scopes@.len(),
            scope_is_unsafe(body.source_scopes@, start) == match scope {
                Some(s) => scope_is_unsafe(body.source_scopes@, s as int),
                None => false,
            },
        decreases
            match scope {
                Some(s) => s + 1,
                None => 0,
            },
    {
        match scope {
            None => {
                return false;
            },
            Some(s) => {
                let data = &body.source_scopes[s];
                if data.safety == ScopeSafety::ExplicitUnsafe {
                    return true;
                }
                assert(data.parent_scope matches Some(p) ==> p < s);
                scope = data.parent_scope;
            },
        }
    }
}

/// The declaration of `local`.
pub fn get_localdecl_by_local(body: &Body, local: Local) -> (r: &LocalDecl)
    requires
        local < body.local_decls@.len(),
    ensures
        *r == body.local_decls@[local as int],
{
    &body.local_decls[local]
}

/// The instruction at `loc`: a statement, or the terminator where the index
/// equals the number of statements.
pub fn get_instruction_by_location(body: &Body, loc: Location) -> (r: InstructionRef)
    requires
        loc.block < body.basic_blocks@.len(),
        loc.statement_index <= body.basic_blocks@[loc.block as int].statements@.len(),
    ensures
        ({
            let bb = body.basic_blocks@[loc.block as int];
            if loc.statement_index == bb.statements@.len() {
                r == InstructionRef::Terminator(&bb.terminator)
            } else {
                r == InstructionRef::Statement(&bb.statements@[loc.statement_index as int])
            }
        }),
{
    let bb = &body.basic_blocks[loc.block];
    if bb.statements.len() == loc.statement_index {
        InstructionRef::Terminator(bb.terminator())
    } else {
        InstructionRef::Statement(&bb.statements[loc.statement_index])
    }
}

/// Whether the declared type of `local` is not a primitive type.
pub fn is_local_non_primitive(body: &Body, local: Local) -> (r: bool)
    requires
        local < body.local_decls@.len(),
    ensures
        r == !body.local_decls@[local as int].ty.spec_is_primitive(),
{
    !body.local_decls[local].ty.is_primitive_ty()
}

/// The role and local of each argument of a call that is a place, in
/// position order; argument `i` has role `i + 1`.
pub open spec fn arg_roles(args: Seq<Operand>) -> Seq<(u32, Local)>
    decreases args.len(),
{
    if args.len() == 0 {
        seq![]
    } else {
        arg_roles(args.drop_last()) + match args.last().spec_place() {
            Some(p) => seq![(args.len() as u32, p.local)],
            None => seq![],
        }
    }
}

/// The role-tagged locals of a call: each argument that is a place, with its
/// position plus one, in position order, then the destination with role 0;
/// `None` where an argument or the destination is a projected place.
pub open spec fn call_roles(args: Seq<Operand>, destination: Place) -> Option<Seq<(u32, Local)>> {
    if call_locals(args, destination) is Some {
        Some(arg_roles(args).push((0u32, destination.local)))
    } else {
        None
    }
}

/// The locals that a call names, by role: each place argument's local with
/// its position plus one, in position order, then the destination's local
/// with role 0. `None` where an argument or the destination is a projected
/// place.
pub fn extract_locals_from_terminator(terminator: &Terminator) -> (r: Option<Vec<(u32, Local)>>)
    requires
        terminator.is_call(),
        terminator.kind matches TerminatorKind::Call { args, .. } ==> args@.len() < u32::MAX,
    ensures
        terminator.kind matches TerminatorKind::Call { args, destination, .. } ==> {
            &&& (r is None <==> call_roles(args@, destination) is None)
            &&& (r matches Some(v) ==> call_roles(args@, destination) == Some(v@))
        },
{
    match &terminator.kind {
        TerminatorKind::Call { func, args, destination, target } => {
            let mut extracted: Vec<(u32, Local)> = Vec::new();
            let mut idx: usize = 0;
            assert(args_locals(args@.take(0)) == Some(Seq::<Local>::empty()));
            while idx < args.len()
                invariant
                    0 <= idx <= args@.len(),
                    args@.len() < u32::MAX,
                    terminator.kind == (TerminatorKind::Call {
                        func: *func,
                        args: *args,
                        destination: *destination,
                        target: *target,
                    }),
                    args_locals(args@.take(idx as int)) is Some,
                    extracted@ == arg_roles(args@.take(idx as int)),
                decreases args@.len() - idx,
            {
                assert(args@.take(idx as int + 1).drop_last() =~= args@.take(idx as int));
                assert(args@.take(idx as int + 1).last() == args@[idx as int]);
                match args[idx].place() {
                    Some(place) => match place.as_local() {
                        Some(l) => {
                            extracted.push(((idx as u32) + 1, l));
                        },
                        None => {
                            proof {
                                assert(operand_locals(args@[idx as int]) is None);
                                assert(args_locals(args@.take(idx as int + 1)) is None);
                                lemma_args_none_extends(args@, idx as int + 1);
                            }
                            return None;
                        },
                    },
                    None => {},
                }
                assert(extracted@ =~= arg_roles(args@.take(idx as int + 1)));
                idx = idx + 1;
            }
            assert(args@.take(idx as int) =~= args@);
            match destination.as_local() {
                Some(d) => {
                    extracted.push((0, d));
                    Some(extracted)
                },
                None => None,
            }
        },
        _ => None,
    }
}

/// The function that a call names directly, if any.
pub open spec fn spec_callee(func: Operand) -> Option<DefId> {
    match func.spec_const_fn_def() {
        Some(f) => Some(f.def_id),
        None => None,
    }
}

/// The function that a call names directly, or `None` for a call through a
/// value.
pub fn extract_callee_from_terminator(terminator: &Terminator) -> (r: Option<DefId>)
    requires
        terminator.is_call(),
    ensures
        terminator.kind matches TerminatorKind::Call { func, .. } ==> r == spec_callee(func),
{
    match &terminator.kind {
        TerminatorKind::Call { func, .. } => match func.const_fn_def() {
            Some(f) => Some(f.def_id),
            None => None,
        },
        _ => None,
    }
}

/// The instance-resolution oracle failed.
#[derive(Clone, Copy, Debug, PartialEq, Eq, Structural)]
pub struct ResolveError;

/// Whether resolving `func` asks the instance-resolution oracle: it names a
/// function that is not a closure and has a type-parameter substitution.
pub open spec fn spec_needs_instance(func: Operand) -> bool {
    match func.spec_const_fn_def() {
        Some(f) => !f.is_closure && f.substs@.len() != 0,
        None => false,
    }
}

/// The function and substitution to hand to the instance-resolution oracle
/// when resolving `func` needs one.
pub fn instance_query(func: &Operand) -> (r: Option<&crate::ir::FnRef>)
    ensures
        r is Some <==> spec_needs_instance(*func),
        r matches Some(f) ==> func.spec_const_fn_def() == Some(*f),
{
    match func.const_fn_def() {
        Some(f) => if f.is_closure || f.substs.len() == 0 {
            None
        } else {
            Some(f)
        },
        None => None,
    }
}

/// The concrete target of a call to `func`. `instance` is the oracle's answer
/// for the callee and its substitution, already devirtualized to a function
/// identity; it is consulted only when `func` is generic and not a closure.
/// A call through a value has no target; a closure or a function without
/// substitution is its own target; where the oracle finds no instance or
/// fails, the generic function is the target.
pub fn resolve_func(func: &Operand, instance: Result<Option<DefId>, ResolveError>) -> (r: Option<DefId>)
    ensures
        func.spec_const_fn_def() is None ==> r is None,
        func.spec_const_fn_def() matches Some(f) ==> r == Some(
            if spec_needs_instance(*func) {
                match instance {
                    Ok(Some(d)) => d,
                    _ => f.def_id,
                }
            } else {
                f.def_id
            },
        ),
{
    let const_fn = match func.const_fn_def() {
        Some(f) => f,
        None => {
            return None;
        },
    };
    let did = const_fn.def_id;
    if const_fn.is_closure {
        return Some(did);
    }
    if const_fn.substs.len() == 0 {
        return Some(did);
    }
    match instance {
        Ok(Some(resolved)) => Some(resolved),
        Ok(None) => Some(did),
        Err(_) => Some(did),
    }
}

/// Call-site handles carry the body's generation above this many blocks.
pub const BLOCKS_PER_GENERATION: u64 = 4294967296;

/// The handle of the call that ends block `block` of a body of generation
/// `generation`.
pub open spec fn handle_of(generation: u32, block: int) -> int {
    generation * (BLOCKS_PER_GENERATION as int) + block
}

/// The block whose call `handle` names in `body`: none where the handle was
/// made for another generation of the body, or names no call of it.
pub open spec fn spec_decode(body: Body, handle: u64) -> Option<usize> {
    let b = handle as int % (BLOCKS_PER_GENERATION as int);
    if handle as int / (BLOCKS_PER_GENERATION as int) == body.generation && b
        < body.basic_blocks@.len() && body.basic_blocks@[b].terminator.is_call() {
        Some(b as usize)
    } else {
        None
    }
}

/// The handle of the call that ends block `block`.
pub fn encode_callsite(body: &Body, block: usize) -> (r: u64)
    requires
        block < body.basic_blocks@.len(),
        block < BLOCKS_PER_GENERATION,
        body.basic_blocks@[block as int].terminator.is_call(),
    ensures
        r as int == handle_of(body.generation, block as int),
{
    let g = body.generation as u64;
    assert(g * BLOCKS_PER_GENERATION + block as u64 <= u64::MAX) by (nonlinear_arith)
        requires
            g < 4294967296,
            block < BLOCKS_PER_GENERATION,
            BLOCKS_PER_GENERATION == 4294967296,
    ;
    g * BLOCKS_PER_GENERATION + block as u64
}

/// The block whose call `handle` names, or `None` where the handle is stale
/// or names no call of this body.
pub fn decode_callsite(body: &Body, handle: u64) -> (r: Option<usize>)
    ensures
        r == spec_decode(*body, handle),
{
    let g = handle / BLOCKS_PER_GENERATION;
    let b = handle % BLOCKS_PER_GENERATION;
    if g != body.generation as u64 {
        return None;
    }
    if b >= body.basic_blocks.len() as u64 {
        return None;
    }
    let block = b as usize;
    match &body.basic_blocks[block].terminator.kind {
        TerminatorKind::Call { .. } => Some(block),
        _ => None,
    }
}

/// A handle that decodes to a call encodes back to itself.
pub proof fn lemma_encode_of_decode(body: Body, handle: u64)
    requires
        spec_decode(body, handle) is Some,
    ensures
        spec_decode(body, handle) matches Some(b) && b < BLOCKS_PER_GENERATION && handle_of(
            body.generation,
            b as int,
        ) == handle as int,
{
    let h = handle as int;
    let d = BLOCKS_PER_GENERATION as int;
    assert(h == d * (h / d) + h % d && 0 <= h % d < d) by (nonlinear_arith)
        requires
            d == 4294967296,
            h >= 0,
    ;
    assert(body.generation * d == d * (h / d)) by (nonlinear_arith)
        requires
            h / d == body.generation,
    ;
}

/// The handle of a call decodes to that call's block.
pub proof fn lemma_decode_of_encode(body: Body, block: usize)
    requires
        block < body.basic_blocks@.len(),
        block < BLOCKS_PER_GENERATION,
        body.basic_blocks@[block as int].terminator.is_call(),
    ensures
        0 <= handle_of(body.generation, block as int) <= u64::MAX,
        spec_decode(body, handle_of(body.generation, block as int) as u64) == Some(block),
{
    let d = BLOCKS_PER_GENERATION as int;
    let g = body.generation as int;
    let h = handle_of(body.generation, block as int);
    assert(0 <= h <= u64::MAX && h / d == g && h % d == block) by (nonlinear_arith)
        requires
            d == 4294967296,
            0 <= g < 4294967296,
            0 <= block < d,
            h == g * d + block,
    ;
}

} // verus!
