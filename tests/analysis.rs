use pta_filter::analysis::{is_analysable, run};
use pta_filter::ir::{
    BasicBlockData, Body, Constant, DefId, FnRef, LocalDecl, Location, Operand, Place,
    ProjectionElem, Rvalue, ScopeSafety, SourceInfo, SourceScopeData, Span, Statement,
    StatementKind, Terminator, TerminatorKind, Ty,
};
use pta_filter::mirutil::{
    decode_callsite, encode_callsite, extract_callee_from_terminator,
    extract_locals_from_terminator, get_instruction_by_location, get_localdecl_by_local,
    instance_query, is_local_non_primitive, is_unsafe, resolve_func, InstructionRef, ResolveError,
};
use pta_filter::mydbg::MyDbg;
use pta_filter::pta_filter::{
    get_locals_from_rvalue, get_locals_from_statement, get_locals_from_terminator, mark_locals,
    PTAFilter,
};
use pta_filter::util::type_of;

fn info(scope: usize) -> SourceInfo {
    SourceInfo { scope, span: Span { lo: 0, hi: 1 } }
}

fn stmt(scope: usize, kind: StatementKind) -> Statement {
    Statement { source_info: info(scope), kind, pta_target: false }
}

fn term(scope: usize, kind: TerminatorKind) -> Terminator {
    Terminator { source_info: info(scope), kind, pta_target: false }
}

fn bare(l: usize) -> Place {
    Place::from_local(l)
}

fn field_of(l: usize) -> Place {
    Place { local: l, projection: vec![ProjectionElem::Field(0)] }
}

fn did(index: u32) -> DefId {
    DefId { krate: 0, index }
}

fn fn_const(index: u32, substs: Vec<u64>, is_closure: bool) -> Operand {
    Operand::Constant(Constant::FnDef(FnRef { def_id: did(index), substs, is_closure }))
}

fn call(scope: usize, args: Vec<Operand>, destination: Place) -> Terminator {
    term(scope, TerminatorKind::Call { func: fn_const(7, vec![], false), args, destination, target: Some(1) })
}

/// Scopes: 0 safe root; 1 unsafe child of 0; 2 safe child of 1; 3 unannotated
/// child of 0; 4 unannotated child of 2.
fn scopes() -> Vec<SourceScopeData> {
    vec![
        SourceScopeData { parent_scope: None, safety: ScopeSafety::Safe },
        SourceScopeData { parent_scope: Some(0), safety: ScopeSafety::ExplicitUnsafe },
        SourceScopeData { parent_scope: Some(1), safety: ScopeSafety::Safe },
        SourceScopeData { parent_scope: Some(0), safety: ScopeSafety::Unknown },
        SourceScopeData { parent_scope: Some(2), safety: ScopeSafety::Unknown },
    ]
}

fn decls(n: usize) -> Vec<LocalDecl> {
    let mut v = Vec::new();
    for _ in 0..n {
        v.push(LocalDecl { ty: Ty::Int, safety: true });
    }
    v
}

fn body(blocks: Vec<BasicBlockData>, n_locals: usize) -> Body {
    Body { basic_blocks: blocks, local_decls: decls(n_locals), source_scopes: scopes(), arg_count: 1, generation: 3 }
}

fn flags(b: &Body) -> Vec<bool> {
    b.local_decls.iter().map(|d| d.safety).collect()
}

fn marks(b: &Body) -> Vec<bool> {
    let mut v = Vec::new();
    for bb in &b.basic_blocks {
        for s in &bb.statements {
            v.push(s.pta_target);
        }
        v.push(bb.terminator.pta_target);
    }
    v
}

#[test]
fn classify_follows_nearest_unsafe_ancestor() {
    let b = body(vec![], 0);
    assert!(!is_unsafe(&b, &stmt(0, StatementKind::Nop)));
    assert!(is_unsafe(&b, &stmt(1, StatementKind::Nop)));
    assert!(is_unsafe(&b, &stmt(2, StatementKind::Nop)));
    assert!(!is_unsafe(&b, &stmt(3, StatementKind::Nop)));
    assert!(is_unsafe(&b, &term(4, TerminatorKind::Return)));
}

#[test]
fn classification_pass_sets_marks_from_scopes() {
    let mut b = body(
        vec![
            BasicBlockData { statements: vec![stmt(0, StatementKind::Nop), stmt(2, StatementKind::Nop)], terminator: term(3, TerminatorKind::Return) },
            BasicBlockData { statements: vec![], terminator: term(4, TerminatorKind::Goto { target: 0 }) },
        ],
        0,
    );
    b.basic_blocks[0].statements[0].pta_target = true;
    MyDbg.run_pass(&mut b);
    assert_eq!(marks(&b), vec![false, true, false, true]);
}

#[test]
fn classification_twice_gives_same_marks() {
    let mut b = body(
        vec![BasicBlockData { statements: vec![stmt(1, StatementKind::Nop), stmt(3, StatementKind::Nop)], terminator: term(2, TerminatorKind::Return) }],
        0,
    );
    MyDbg.run_pass(&mut b);
    let first = marks(&b);
    MyDbg.run_pass(&mut b);
    assert_eq!(marks(&b), first);
    assert_eq!(first, vec![true, false, true]);
}

#[test]
fn assign_constant_yields_destination_only() {
    let s = stmt(1, StatementKind::Assign(bare(2), Rvalue::Use(Operand::Constant(Constant::Scalar(5)))));
    assert_eq!(get_locals_from_statement(&s), Some(vec![2]));
}

#[test]
fn assign_place_yields_destination_then_source() {
    let s = stmt(1, StatementKind::Assign(bare(2), Rvalue::Use(Operand::Copy(bare(4)))));
    assert_eq!(get_locals_from_statement(&s), Some(vec![2, 4]));
    let m = stmt(1, StatementKind::Assign(bare(2), Rvalue::Use(Operand::Move(bare(0)))));
    assert_eq!(get_locals_from_statement(&m), Some(vec![2, 0]));
}

#[test]
fn assign_to_projection_is_indeterminate() {
    let s = stmt(1, StatementKind::Assign(field_of(2), Rvalue::Use(Operand::Copy(bare(4)))));
    assert_eq!(get_locals_from_statement(&s), None);
    let t = stmt(1, StatementKind::Assign(bare(2), Rvalue::Use(Operand::Copy(field_of(4)))));
    assert_eq!(get_locals_from_statement(&t), None);
}

#[test]
fn reference_and_compound_values_are_indeterminate() {
    assert_eq!(get_locals_from_rvalue(&Rvalue::Ref(bare(1))), None);
    assert_eq!(get_locals_from_rvalue(&Rvalue::AddressOf(bare(1))), None);
    assert_eq!(get_locals_from_rvalue(&Rvalue::Repeat(Operand::Copy(bare(1)), 3)), None);
    assert_eq!(get_locals_from_rvalue(&Rvalue::BinaryOp(Operand::Copy(bare(1)), Operand::Copy(bare(2)))), None);
    assert_eq!(get_locals_from_rvalue(&Rvalue::Use(Operand::Constant(Constant::Scalar(1)))), Some(vec![]));
    let s = stmt(1, StatementKind::Assign(bare(0), Rvalue::Ref(bare(1))));
    assert_eq!(get_locals_from_statement(&s), None);
}

#[test]
fn tainted_reference_assignment_changes_no_flag() {
    let mut b = body(
        vec![BasicBlockData { statements: vec![stmt(1, StatementKind::Assign(bare(0), Rvalue::AddressOf(bare(1))))], terminator: term(0, TerminatorKind::Return) }],
        2,
    );
    b.basic_blocks[0].statements[0].pta_target = true;
    PTAFilter.run_pass(&mut b);
    assert_eq!(flags(&b), vec![true, true]);
}

#[test]
fn markers_touch_nothing() {
    for kind in vec![
        StatementKind::StorageLive(1),
        StatementKind::StorageDead(1),
        StatementKind::Deinit(bare(1)),
        StatementKind::SetDiscriminant(bare(1), 0),
        StatementKind::FakeRead(bare(1)),
        StatementKind::Retag(bare(1)),
        StatementKind::AscribeUserType(bare(1)),
        StatementKind::Coverage,
        StatementKind::Intrinsic,
        StatementKind::ConstEvalCounter,
        StatementKind::Nop,
    ] {
        assert_eq!(get_locals_from_statement(&stmt(1, kind)), Some(vec![]));
    }
    assert_eq!(get_locals_from_terminator(&term(1, TerminatorKind::Return)), Some(vec![]));
    assert_eq!(get_locals_from_terminator(&term(1, TerminatorKind::Goto { target: 0 })), Some(vec![]));
    assert_eq!(get_locals_from_terminator(&term(1, TerminatorKind::Drop { place: bare(1), target: 0 })), Some(vec![]));
}

#[test]
fn call_with_two_places_flags_all_three() {
    let t = call(1, vec![Operand::Copy(bare(1)), Operand::Move(bare(2))], bare(3));
    assert_eq!(get_locals_from_terminator(&t), Some(vec![1, 2, 3]));
    assert_eq!(extract_locals_from_terminator(&t), Some(vec![(1, 1), (2, 2), (0, 3)]));
    let mut b = body(vec![BasicBlockData { statements: vec![], terminator: t }], 5);
    MyDbg.run_pass(&mut b);
    PTAFilter.run_pass(&mut b);
    assert_eq!(flags(&b), vec![true, false, false, false, true]);
}

#[test]
fn call_skips_constants_and_rejects_projections() {
    let t = call(1, vec![Operand::Constant(Constant::Scalar(9)), Operand::Copy(bare(2))], bare(0));
    assert_eq!(get_locals_from_terminator(&t), Some(vec![2, 0]));
    assert_eq!(extract_locals_from_terminator(&t), Some(vec![(2, 2), (0, 0)]));
    let p = call(1, vec![Operand::Copy(field_of(2)), Operand::Copy(bare(1))], bare(0));
    assert_eq!(get_locals_from_terminator(&p), None);
    let n = call(1, vec![], bare(4));
    assert_eq!(extract_locals_from_terminator(&n), Some(vec![(0, 4)]));
    let d = call(1, vec![Operand::Copy(bare(2))], field_of(0));
    assert_eq!(get_locals_from_terminator(&d), None);
    assert_eq!(extract_locals_from_terminator(&d), None);
    assert_eq!(extract_locals_from_terminator(&p), None);
}

#[test]
fn filter_skips_untainted_instructions() {
    let mut b = body(
        vec![BasicBlockData {
            statements: vec![stmt(0, StatementKind::Assign(bare(0), Rvalue::Use(Operand::Copy(bare(1)))))],
            terminator: call(0, vec![Operand::Copy(bare(2))], bare(3)),
        }],
        4,
    );
    MyDbg.run_pass(&mut b);
    PTAFilter.run_pass(&mut b);
    assert_eq!(flags(&b), vec![true, true, true, true]);
}

#[test]
fn cleared_flag_stays_cleared() {
    let mut b = body(
        vec![
            BasicBlockData { statements: vec![stmt(1, StatementKind::Assign(bare(0), Rvalue::Use(Operand::Copy(bare(1)))))], terminator: term(1, TerminatorKind::Return) },
            BasicBlockData { statements: vec![stmt(1, StatementKind::Assign(bare(0), Rvalue::Ref(bare(2))))], terminator: term(0, TerminatorKind::Return) },
        ],
        4,
    );
    b.local_decls[3].safety = false;
    MyDbg.run_pass(&mut b);
    PTAFilter.run_pass(&mut b);
    assert_eq!(flags(&b), vec![false, false, true, false]);
    PTAFilter.run_pass(&mut b);
    assert_eq!(flags(&b), vec![false, false, true, false]);
}

#[test]
fn mark_locals_clears_each_named_local() {
    let mut d = decls(3);
    d[2].safety = false;
    mark_locals(&mut d, &vec![0, 0]);
    assert_eq!(d.iter().map(|x| x.safety).collect::<Vec<bool>>(), vec![false, true, false]);
}

#[test]
fn run_is_gated_by_optimisation_level() {
    let blocks = vec![BasicBlockData { statements: vec![stmt(1, StatementKind::Assign(bare(0), Rvalue::Use(Operand::Copy(bare(1)))))], terminator: term(0, TerminatorKind::Return) }];
    let mut off = body(blocks.clone(), 2);
    run(&mut off, 0);
    assert_eq!(flags(&off), vec![true, true]);
    assert_eq!(marks(&off), vec![false, false]);
    let mut on = body(blocks, 2);
    run(&mut on, 2);
    assert_eq!(flags(&on), vec![false, false]);
    assert_eq!(marks(&on), vec![true, false]);
    assert!(!MyDbg.is_enabled(0));
    assert!(MyDbg.is_enabled(1));
    assert!(!PTAFilter.is_enabled(0));
    assert!(PTAFilter.is_enabled(3));
}

#[test]
fn resolve_non_generic_call_is_its_own_target() {
    let f = fn_const(11, vec![], false);
    assert_eq!(resolve_func(&f, Ok(Some(did(99)))), Some(did(11)));
    assert!(instance_query(&f).is_none());
}

#[test]
fn resolve_generic_call_without_instance_keeps_generic_target() {
    let f = fn_const(12, vec![4], false);
    assert!(instance_query(&f).is_some());
    assert_eq!(resolve_func(&f, Ok(None)), Some(did(12)));
    assert_eq!(resolve_func(&f, Err(ResolveError)), Some(did(12)));
    assert_eq!(resolve_func(&f, Ok(Some(did(40)))), Some(did(40)));
}

#[test]
fn resolve_closure_and_indirect_calls() {
    let c = fn_const(13, vec![1, 2], true);
    assert_eq!(resolve_func(&c, Ok(Some(did(50)))), Some(did(13)));
    assert!(instance_query(&c).is_none());
    let indirect = Operand::Copy(bare(1));
    assert_eq!(resolve_func(&indirect, Ok(Some(did(50)))), None);
    let scalar = Operand::Constant(Constant::Scalar(0));
    assert_eq!(resolve_func(&scalar, Err(ResolveError)), None);
}

#[test]
fn callee_of_call() {
    let t = call(0, vec![], bare(0));
    assert_eq!(extract_callee_from_terminator(&t), Some(did(7)));
    let i = term(0, TerminatorKind::Call { func: Operand::Move(bare(1)), args: vec![], destination: bare(0), target: None });
    assert_eq!(extract_callee_from_terminator(&i), None);
}

#[test]
fn callsite_handle_round_trip() {
    let b = body(
        vec![
            BasicBlockData { statements: vec![], terminator: term(0, TerminatorKind::Return) },
            BasicBlockData { statements: vec![], terminator: call(0, vec![], bare(0)) },
        ],
        1,
    );
    let h = encode_callsite(&b, 1);
    assert_eq!(h, 3 * 4294967296 + 1);
    assert_eq!(decode_callsite(&b, h), Some(1));
    assert_eq!(encode_callsite(&b, decode_callsite(&b, h).unwrap()), h);
    assert_eq!(decode_callsite(&b, 3 * 4294967296), None);
    assert_eq!(decode_callsite(&b, 3 * 4294967296 + 2), None);
    assert_eq!(decode_callsite(&b, 2 * 4294967296 + 1), None);
}

#[test]
fn accessors() {
    let mut b = body(
        vec![BasicBlockData { statements: vec![stmt(2, StatementKind::Nop)], terminator: term(3, TerminatorKind::Unreachable) }],
        2,
    );
    b.local_decls[1].ty = Ty::Adt(did(1));
    assert_eq!(*get_localdecl_by_local(&b, 1), LocalDecl { ty: Ty::Adt(did(1)), safety: true });
    assert!(!is_local_non_primitive(&b, 0));
    assert!(is_local_non_primitive(&b, 1));
    match get_instruction_by_location(&b, Location { block: 0, statement_index: 0 }) {
        InstructionRef::Statement(s) => assert_eq!(s.source_info.scope, 2),
        InstructionRef::Terminator(_) => panic!("expected a statement"),
    }
    match get_instruction_by_location(&b, Location { block: 0, statement_index: 1 }) {
        InstructionRef::Terminator(t) => assert_eq!(t.source_info.scope, 3),
        InstructionRef::Statement(_) => panic!("expected the terminator"),
    }
    assert_eq!(b.basic_blocks[0].terminator().source_info.scope, 3);
}

#[test]
fn type_names() {
    assert_eq!(type_of(&bare(0)), "Place");
    assert_eq!(type_of(&stmt(0, StatementKind::Nop)), "Statement");
    assert_eq!(type_of(&body(vec![], 0)), "Body");
}

#[test]
fn analysable_bodies() {
    let good = body(
        vec![BasicBlockData { statements: vec![stmt(4, StatementKind::Assign(bare(1), Rvalue::Use(Operand::Copy(bare(0)))))], terminator: call(2, vec![Operand::Copy(bare(1))], bare(0)) }],
        2,
    );
    assert!(is_analysable(&good));
    let mut undeclared = good.clone();
    undeclared.local_decls.pop();
    assert!(!is_analysable(&undeclared));
    let mut bad_scope = good.clone();
    bad_scope.basic_blocks[0].terminator.source_info.scope = 5;
    assert!(!is_analysable(&bad_scope));
    let mut bad_parent = good.clone();
    bad_parent.source_scopes[1].parent_scope = Some(3);
    assert!(!is_analysable(&bad_parent));
    let mut indeterminate = good;
    indeterminate.basic_blocks[0].statements[0].kind = StatementKind::Assign(bare(9), Rvalue::Ref(bare(8)));
    assert!(is_analysable(&indeterminate));
}
