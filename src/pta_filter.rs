//! Operand extraction and the propagation pass that flags locals touched by
//! unsafe instructions.

use vstd::prelude::*;
use crate::mirutil::{arg_roles, call_roles};
use crate::ir::{BasicBlockData, Body, Constant, Local, LocalDecl, Operand, Place, Rvalue, Statement, StatementKind, Terminator, TerminatorKind};

verus! {

/// The view of an extraction result.
pub open spec fn opt_view(o: Option<Vec<Local>>) -> Option<Seq<Local>> {
    match o {
        Some(v) => Some(v@),
        None => None,
    }
}

/// The locals that an assigned value reads: none for a constant, the local
/// of a bare place; anything else cannot be resolved.
pub open spec fn rvalue_locals(rvalue: Rvalue) -> Option<Seq<Local>> {
    match rvalue {
        Rvalue::Use(op) => operand_locals(op),
        _ => None,
    }
}

/// The locals that an operand reads: none for a constant, the local of a bare
/// place, and no answer for a projected place.
pub open spec fn operand_locals(op: Operand) -> Option<Seq<Local>> {
    match op.spec_place() {
        None => Some(seq![]),
        Some(p) => match p.spec_as_local() {
            Some(l) => Some(seq![l]),
            None => None,
        },
    }
}

/// The locals of a simple instruction: for an assignment to a bare local, the
/// destination followed by what the value reads; other kinds touch nothing.
pub open spec fn statement_locals(kind: StatementKind) -> Option<Seq<Local>> {
    match kind {
        StatementKind::Assign(place, rvalue) => match (place.spec_as_local(), rvalue_locals(rvalue)) {
            (Some(d), Some(v)) => Some(seq![d] + v),
            _ => None,
        },
        _ => Some(seq![]),
    }
}

/// The locals of a call's arguments, in position order, constants skipped;
/// no answer as soon as one argument is a projected place.
pub open spec fn args_locals(args: Seq<Operand>) -> Option<Seq<Local>>
    decreases args.len(),
{
    if args.len() == 0 {
        Some(seq![])
    } else {
        match (args_locals(args.drop_last()), operand_locals(args.last())) {
            (Some(v), Some(w)) => Some(v + w),
            _ => None,
        }
    }
}

/// The locals of a call: its arguments' locals followed by the bare
/// destination.
pub open spec fn call_locals(args: Seq<Operand>, destination: Place) -> Option<Seq<Local>> {
    match args_locals(args) {
        None => None,
        Some(v) => match destination.spec_as_local() {
            Some(d) => Some(v.push(d)),
            None => None,
        },
    }
}

/// The locals of a terminator: for a call, its arguments' locals followed by
/// the bare destination; other kinds touch nothing.
pub open spec fn terminator_locals(kind: TerminatorKind) -> Option<Seq<Local>> {
    match kind {
        TerminatorKind::Call { args, destination, .. } => call_locals(args@, destination),
        _ => Some(seq![]),
    }
}

pub(crate) proof fn lemma_args_none_extends(args: Seq<Operand>, i: int)
    requires
        0 <= i <= args.len(),
        args_locals(args.take(i)) is None,
    ensures
        args_locals(args) is None,
    decreases args.len() - i,
{
    if i < args.len() {
        assert(args.take(i + 1).drop_last() =~= args.take(i));
        lemma_args_none_extends(args, i + 1);
    } else {
        assert(args.take(i) =~= args);
    }
}

fn operand_local(op: &Operand) -> (r: Option<Vec<Local>>)
    ensures
        opt_view(r) == operand_locals(*op),
{
    match op.place() {
        None => Some(Vec::new()),
        Some(place) => match place.as_local() {
            Some(l) => {
                let mut v: Vec<Local> = Vec::new();
                v.push(l);
                assert(v@ =~= seq![l]);
                Some(v)
            },
            None => None,
        },
    }
}

/// The locals that an assigned value reads, or `None` where the value is not
/// a plain use of a constant or of a bare place.
pub fn get_locals_from_rvalue(rvalue: &Rvalue) -> (r: Option<Vec<Local>>)
    ensures
        opt_view(r) == rvalue_locals(*rvalue),
{
    match rvalue {
        Rvalue::Use(operand) => operand_local(operand),
        Rvalue::Repeat(..) => None,
        Rvalue::Ref(..) => None,
        Rvalue::AddressOf(..) => None,
        _ => None,
    }
}

/// The locals that a simple instruction touches, or `None` where they cannot
/// be determined.
pub fn get_locals_from_statement(stmt: &Statement) -> (r: Option<Vec<Local>>)
    ensures
        opt_view(r) == statement_locals(stmt.kind),
{
    let mut result: Vec<Local> = Vec::new();
    match &stmt.kind {
        StatementKind::Assign(place, rvalue) => {
            match place.as_local() {
                None => {
                    return None;
                },
                Some(d) => {
                    result.push(d);
                },
            }
            match get_locals_from_rvalue(rvalue) {
                None => {
                    return None;
                },
                Some(mut v) => {
                    result.append(&mut v);
                },
            }
        },
        StatementKind::FakeRead(..) => {},
        StatementKind::SetDiscriminant(..) => {},
        StatementKind::Deinit(..) => {},
        StatementKind::StorageLive(..) => {},
        StatementKind::StorageDead(..) => {},
        StatementKind::Retag(..) => {},
        StatementKind::AscribeUserType(..) => {},
        StatementKind::Coverage => {},
        StatementKind::Intrinsic => {},
        StatementKind::ConstEvalCounter => {},
        StatementKind::Nop => {},
    }
    Some(result)
}

/// The locals that a terminator touches, or `None` where they cannot be
/// determined: for a call, each argument that is a place, then the destination.
pub fn get_locals_from_terminator(term: &Terminator) -> (r: Option<Vec<Local>>)
    ensures
        opt_view(r) == terminator_locals(term.kind),
{
    let mut result: Vec<Local> = Vec::new();
    match &term.kind {
        TerminatorKind::Call { func, args, destination, target } => {
            let mut i: usize = 0;
            while i < args.len()
                invariant
                    0 <= i <= args@.len(),
                    terminator_locals(term.kind) == call_locals(args@, *destination),
                    args_locals(args@.take(i as int)) == Some(result@),
                decreases args@.len() - i,
            {
                assert(args@.take(i as int + 1).drop_last() =~= args@.take(i as int));
                assert(args@.take(i as int + 1).last() == args@[i as int]);
                match operand_local(&args[i]) {
                    None => {
                        proof {
                            lemma_args_none_extends(args@, i as int + 1);
                        }
                        return None;
                    },
                    Some(mut v) => {
                        result.append(&mut v);
                    },
                }
                i = i + 1;
            }
            assert(args@.take(i as int) =~= args@);
            match destination.as_local() {
                None => {
                    return None;
                },
                Some(d) => {
                    result.push(d);
                },
            }
        },
        _ => {},
    }
    Some(result)
}


/// A tainted simple instruction whose locals are known and include `l`.
pub open spec fn stmt_touches(s: Statement, l: Local) -> bool {
    s.pta_target && (statement_locals(s.kind) matches Some(v) && v.contains(l))
}

/// A tainted terminator whose locals are known and include `l`.
pub open spec fn term_touches(t: Terminator, l: Local) -> bool {
    t.pta_target && (terminator_locals(t.kind) matches Some(v) && v.contains(l))
}

/// Some instruction of the first `j` statements touches `l`.
pub open spec fn stmts_touch(stmts: Seq<Statement>, j: int, l: Local) -> bool {
    exists|i: int| 0 <= i < j && stmt_touches(#[trigger] stmts[i], l)
}

/// Some instruction of the block touches `l`.
pub open spec fn block_touches(bb: BasicBlockData, l: Local) -> bool {
    stmts_touch(bb.statements@, bb.statements@.len() as int, l) || term_touches(bb.terminator, l)
}

/// Some instruction of the blocks touches `l`.
pub open spec fn blocks_touch(blocks: Seq<BasicBlockData>, l: Local) -> bool {
    exists|b: int| 0 <= b < blocks.len() && block_touches(#[trigger] blocks[b], l)
}

/// Every local that a tainted instruction touches has a declaration.
pub open spec fn touched_locals_declared(body: Body) -> bool {
    forall|l: Local| blocks_touch(body.basic_blocks@, l) ==> l < body.local_decls@.len()
}

/// A declaration after the pass: its flag is cleared where `touched`.
pub open spec fn filtered_decl(d: LocalDecl, touched: bool) -> LocalDecl {
    LocalDecl { safety: d.safety && !touched, ..d }
}

/// Clears the safety flag of each local in `locals`. A cleared flag stays
/// cleared.
pub fn mark_locals(decls: &mut Vec<LocalDecl>, locals: &Vec<Local>)
    requires
        forall|k: int| 0 <= k < locals@.len() ==> #[trigger] locals@[k] < old(decls)@.len(),
    ensures
        final(decls)@.len() == old(decls)@.len(),
        forall|l: Local|
            l < old(decls)@.len() ==> #[trigger] final(decls)@[l as int] == filtered_decl(
                old(decls)@[l as int],
                locals@.contains(l),
            ),
        forall|l: Local|
            l < old(decls)@.len() && !old(decls)@[l as int].safety ==> !(
            #[trigger] final(decls)@[l as int]).safety,
{
    let mut k: usize = 0;
    while k < locals.len()
        invariant
            0 <= k <= locals@.len(),
            decls@.len() == old(decls)@.len(),
            forall|k: int| 0 <= k < locals@.len() ==> #[trigger] locals@[k] < old(decls)@.len(),
            forall|l: Local|
                l < old(decls)@.len() ==> #[trigger] decls@[l as int] == filtered_decl(
                    old(decls)@[l as int],
                    locals@.take(k as int).contains(l),
                ),
        decreases locals@.len() - k,
    {
        let l = locals[k];
        let mut d = decls[l];
        d.safety = false;
        decls[l] = d;
        proof {
            let pre = locals@.take(k as int);
            let post = locals@.take(k as int + 1);
            assert(post =~= pre.push(l));
            assert forall|m: Local| #[trigger] post.contains(m) <==> pre.contains(m) || m == l by {
                if post.contains(m) {
                    let i = choose|i: int| 0 <= i < post.len() && post[i] == m;
                    if i < k {
                        assert(pre[i] == m);
                    }
                }
                if pre.contains(m) {
                    let i = choose|i: int| 0 <= i < pre.len() && pre[i] == m;
                    assert(post[i] == m);
                }
                if m == l {
                    assert(post[k as int] == m);
                }
            }
        }
        k = k + 1;
    }
    assert(locals@.take(k as int) =~= locals@);
}

/// The pass that flags locals for precise tracking.
pub struct PTAFilter;

impl PTAFilter {
    /// The pass runs only above the lowest optimisation level.
    pub fn is_enabled(&self, mir_opt_level: usize) -> (r: bool)
        ensures
            r == (mir_opt_level > 0),
    {
        mir_opt_level > 0
    }

    /// For every instruction whose taint mark is set and whose locals can be
    /// determined, clears the safety flag of each of those locals. Nothing
    /// else changes.
    pub fn run_pass(&self, body: &mut Body)
        requires
            touched_locals_declared(*old(body)),
        ensures
            final(body).basic_blocks@ == old(body).basic_blocks@,
            final(body).source_scopes@ == old(body).source_scopes@,
            final(body).arg_count == old(body).arg_count,
            final(body).generation == old(body).generation,
            final(body).local_decls@.len() == old(body).local_decls@.len(),
            forall|l: Local|
                l < old(body).local_decls@.len() ==> #[trigger] final(body).local_decls@[l as int]
                    == filtered_decl(
                    old(body).local_decls@[l as int],
                    blocks_touch(old(body).basic_blocks@, l),
                ),
            forall|l: Local|
                l < old(body).local_decls@.len() && !old(body).local_decls@[l as int].safety ==> !(
                #[trigger] final(body).local_decls@[l as int]).safety,
    {
        let ghost blocks = old(body).basic_blocks@;
        let ghost decls0 = old(body).local_decls@;
        let mut b: usize = 0;
        while b < body.basic_blocks.len()
            invariant
                0 <= b <= blocks.len(),
                body.basic_blocks@ == blocks,
                body.source_scopes@ == old(body).source_scopes@,
                body.arg_count == old(body).arg_count,
                body.generation == old(body).generation,
                decls0 == old(body).local_decls@,
                touched_locals_declared(*old(body)),
                blocks == old(body).basic_blocks@,
                body.local_decls@.len() == decls0.len(),
                forall|l: Local|
                    l < decls0.len() ==> #[trigger] body.local_decls@[l as int] == filtered_decl(
                        decls0[l as int],
                        blocks_touch(blocks.take(b as int), l),
                    ),
            decreases blocks.len() - b,
        {
            let bb = &body.basic_blocks[b];
            let mut j: usize = 0;
            while j < bb.statements.len()
                invariant
                    0 <= b < blocks.len(),
                    *bb == blocks[b as int],
                    0 <= j <= bb.statements@.len(),
                    body.basic_blocks@ == blocks,
                    body.source_scopes@ == old(body).source_scopes@,
                    body.arg_count == old(body).arg_count,
                    body.generation == old(body).generation,
                    decls0 == old(body).local_decls@,
                    touched_locals_declared(*old(body)),
                    blocks == old(body).basic_blocks@,
                    body.local_decls@.len() == decls0.len(),
                    forall|l: Local|
                        l < decls0.len() ==> #[trigger] body.local_decls@[l as int] == filtered_decl(
                            decls0[l as int],
                            blocks_touch(blocks.take(b as int), l) || stmts_touch(
                                bb.statements@,
                                j as int,
                                l,
                            ),
                        ),
                decreases bb.statements@.len() - j,
            {
                let statement = &bb.statements[j];
                let ghost pre = body.local_decls@;
                if statement.pta_target {
                    match get_locals_from_statement(statement) {
                        Some(locals) => {
                            proof {
                                assert forall|k: int| 0 <= k < locals@.len() implies #[trigger] locals@[k]
                                    < decls0.len() by {
                                    let l = locals@[k];
                                    assert(stmt_touches(bb.statements@[j as int], l));
                                    assert(stmts_touch(bb.statements@, bb.statements@.len() as int, l));
                                    assert(block_touches(blocks[b as int], l));
                                    assert(blocks_touch(blocks, l));
                                }
                            }
                            mark_locals(&mut body.local_decls, &locals);
                        },
                        None => {},
                    }
                }
                proof {
                    assert forall|l: Local| #[trigger] stmts_touch(bb.statements@, j as int + 1, l)
                        <==> stmts_touch(bb.statements@, j as int, l) || stmt_touches(
                        bb.statements@[j as int],
                        l,
                    ) by {
                        if stmts_touch(bb.statements@, j as int + 1, l) {
                            let i = choose|i: int|
                                0 <= i < j + 1 && stmt_touches(#[trigger] bb.statements@[i], l);
                        }
                    }
                }
                j = j + 1;
            }
            let terminator = bb.terminator();
            if terminator.pta_target {
                match get_locals_from_terminator(terminator) {
                    Some(locals) => {
                        proof {
                            assert forall|k: int| 0 <= k < locals@.len() implies #[trigger] locals@[k]
                                < decls0.len() by {
                                let l = locals@[k];
                                assert(term_touches(bb.terminator, l));
                                assert(block_touches(blocks[b as int], l));
                                assert(blocks_touch(blocks, l));
                            }
                        }
                        mark_locals(&mut body.local_decls, &locals);
                    },
                    None => {},
                }
            }
            proof {
                assert forall|l: Local| #[trigger] blocks_touch(blocks.take(b as int + 1), l)
                    <==> blocks_touch(blocks.take(b as int), l) || block_touches(blocks[b as int], l) by {
                    let pre = blocks.take(b as int);
                    let post = blocks.take(b as int + 1);
                    if blocks_touch(post, l) {
                        let c = choose|c: int| 0 <= c < post.len() && block_touches(#[trigger] post[c], l);
                        if c < b {
                            assert(pre[c] == post[c]);
                        }
                    }
                    if blocks_touch(pre, l) {
                        let c = choose|c: int| 0 <= c < pre.len() && block_touches(#[trigger] pre[c], l);
                        assert(pre[c] == post[c]);
                    }
                    if block_touches(blocks[b as int], l) {
                        assert(post[b as int] == blocks[b as int]);
                    }
                }
            }
            b = b + 1;
        }
        assert(blocks.take(b as int) =~= blocks);
    }
}

/// Assigning a constant to a bare local touches exactly that local.
pub proof fn lemma_assign_constant_touches_destination(place: Place, c: Constant)
    requires
        place.spec_as_local() is Some,
    ensures
        statement_locals(StatementKind::Assign(place, Rvalue::Use(Operand::Constant(c))))
            == Some(seq![place.local]),
{
    assert(seq![place.local] + seq![] =~= seq![place.local]);
}

/// An assignment whose value takes a reference or an address has no
/// determinable locals, so even when tainted it touches no local.
pub proof fn lemma_reference_touches_nothing(s: Statement)
    requires
        s.kind matches StatementKind::Assign(_, rvalue) && (rvalue is Ref || rvalue is AddressOf),
    ensures
        statement_locals(s.kind) is None,
        forall|l: Local| !stmt_touches(s, l),
{
}

/// A call with two arguments that are bare places and a bare destination
/// touches the two arguments' locals and then the destination's, tagged with
/// roles 1, 2 and 0 in that order; when the
/// call ends a block of a body and is tainted, the pass clears all three
/// locals' flags.
pub proof fn lemma_call_with_two_places(body: Body, b: int)
    requires
        0 <= b < body.basic_blocks@.len(),
        body.basic_blocks@[b].terminator.pta_target,
        body.basic_blocks@[b].terminator.kind matches TerminatorKind::Call { args, destination, .. }
            && args@.len() == 2 && destination.spec_as_local() is Some && (args@[0].spec_place() matches Some(
            p,
        ) && p.spec_as_local() is Some) && (args@[1].spec_place() matches Some(p) && p.spec_as_local() is Some),
    ensures
        body.basic_blocks@[b].terminator.kind matches TerminatorKind::Call { args, destination, .. } && ({
            let l0 = args@[0].spec_place().unwrap().local;
            let l1 = args@[1].spec_place().unwrap().local;
            let d = destination.local;
            &&& terminator_locals(body.basic_blocks@[b].terminator.kind) == Some(seq![l0, l1, d])
            &&& call_roles(args@, destination) == Some(seq![(1u32, l0), (2u32, l1), (0u32, d)])
            &&& blocks_touch(body.basic_blocks@, l0)
            &&& blocks_touch(body.basic_blocks@, l1)
            &&& blocks_touch(body.basic_blocks@, d)
            &&& forall|decl: LocalDecl|
                !filtered_decl(decl, blocks_touch(body.basic_blocks@, l0)).safety && !filtered_decl(
                    decl,
                    blocks_touch(body.basic_blocks@, l1),
                ).safety && !filtered_decl(decl, blocks_touch(body.basic_blocks@, d)).safety
        }),
{
    let t = body.basic_blocks@[b].terminator;
    if let TerminatorKind::Call { args, destination, .. } = t.kind {
        let l0 = args@[0].spec_place().unwrap().local;
        let l1 = args@[1].spec_place().unwrap().local;
        let d = destination.local;
        let a = args@;
        assert(a.take(1).drop_last() =~= a.take(0));
        assert(a.take(2).drop_last() =~= a.take(1));
        assert(a.take(2) =~= a);
        assert(args_locals(a.take(0)) == Some(Seq::<Local>::empty()));
        assert(args_locals(a.take(1)) == Some(seq![l0])) by {
            assert(a.take(1).last() == a[0]);
            assert(Seq::<Local>::empty() + seq![l0] =~= seq![l0]);
        }
        assert(args_locals(a) == Some(seq![l0, l1])) by {
            assert(a.take(2).last() == a[1]);
            assert(seq![l0] + seq![l1] =~= seq![l0, l1]);
        }
        assert(arg_roles(a.take(0)) =~= Seq::<(u32, Local)>::empty());
        assert(arg_roles(a.take(1)) =~= seq![(1u32, l0)]) by {
            assert(a.take(1).last() == a[0]);
            assert(a.take(1).len() as u32 == 1u32);
            assert(Seq::<(u32, Local)>::empty() + seq![(1u32, l0)] =~= seq![(1u32, l0)]);
        }
        assert(arg_roles(a) =~= seq![(1u32, l0), (2u32, l1)]) by {
            assert(a.take(2).last() == a[1]);
            assert(a.take(2).len() as u32 == 2u32);
            assert(seq![(1u32, l0)] + seq![(2u32, l1)] =~= seq![(1u32, l0), (2u32, l1)]);
        }
        assert(arg_roles(a).push((0u32, d)) =~= seq![(1u32, l0), (2u32, l1), (0u32, d)]);
        let v = seq![l0, l1, d];
        assert(seq![l0, l1].push(d) =~= v);
        assert(v[0] == l0 && v[1] == l1 && v[2] == d);
        assert(term_touches(t, l0) && term_touches(t, l1) && term_touches(t, d));
        assert(block_touches(body.basic_blocks@[b], l0));
        assert(block_touches(body.basic_blocks@[b], l1));
        assert(block_touches(body.basic_blocks@[b], d));
    }
}

} // verus!
