//! The pass that sets every instruction's taint mark from its scope.

use vstd::prelude::*;
use crate::ir::{BasicBlockData, Body, Statement, SourceScopeData, Terminator};
use crate::mirutil::{is_unsafe, scope_is_unsafe};

verus! {

/// The statement with its taint mark set from its scope.
pub open spec fn classified_statement(scopes: Seq<SourceScopeData>, s: Statement) -> Statement {
    Statement { pta_target: scope_is_unsafe(scopes, s.source_info.scope as int), ..s }
}

/// The terminator with its taint mark set from its scope.
pub open spec fn classified_terminator(scopes: Seq<SourceScopeData>, t: Terminator) -> Terminator {
    Terminator { pta_target: scope_is_unsafe(scopes, t.source_info.scope as int), ..t }
}

/// `new` is block `old` with each instruction's taint mark set from its scope.
pub open spec fn classified_block(
    scopes: Seq<SourceScopeData>,
    old: BasicBlockData,
    new: BasicBlockData,
) -> bool {
    &&& new.statements@.len() == old.statements@.len()
    &&& forall|i: int|
        0 <= i < old.statements@.len() ==> #[trigger] new.statements@[i] == classified_statement(
            scopes,
            old.statements@[i],
        )
    &&& new.terminator == classified_terminator(scopes, old.terminator)
}

/// `new` is body `old` with each instruction's taint mark set from its scope,
/// and nothing else changed.
pub open spec fn classified_body(old: Body, new: Body) -> bool {
    &&& new.local_decls@ == old.local_decls@
    &&& new.source_scopes@ == old.source_scopes@
    &&& new.arg_count == old.arg_count
    &&& new.generation == old.generation
    &&& new.basic_blocks@.len() == old.basic_blocks@.len()
    &&& forall|b: int|
        0 <= b < old.basic_blocks@.len() ==> classified_block(
            old.source_scopes@,
            old.basic_blocks@[b],
            #[trigger] new.basic_blocks@[b],
        )
}

/// The pass that marks the instructions of unsafe scopes.
pub struct MyDbg;

impl MyDbg {
    /// The pass runs only above the lowest optimisation level.
    pub fn is_enabled(&self, mir_opt_level: usize) -> (r: bool)
        ensures
            r == (mir_opt_level > 0),
    {
        mir_opt_level > 0
    }

    /// Sets the taint mark of every instruction to whether it comes from an
    /// unsafe scope.
    pub fn run_pass(&self, body: &mut Body)
        requires
            old(body).wf(),
        ensures
            classified_body(*old(body), *final(body)),
            final(body).wf(),
    {
        let ghost blocks = old(body).basic_blocks@;
        let ghost scopes = old(body).source_scopes@;
        let mut b: usize = 0;
        while b < body.basic_blocks.len()
            invariant
                0 <= b <= blocks.len(),
                body.basic_blocks@.len() == blocks.len(),
                blocks == old(body).basic_blocks@,
                scopes == old(body).source_scopes@,
                old(body).wf(),
                body.source_scopes@ == scopes,
                body.local_decls@ == old(body).local_decls@,
                body.arg_count == old(body).arg_count,
                body.generation == old(body).generation,
                forall|c: int|
                    0 <= c < b ==> classified_block(scopes, blocks[c], #[trigger] body.basic_blocks@[c]),
                forall|c: int| b <= c < blocks.len() ==> #[trigger] body.basic_blocks@[c] == blocks[c],
            decreases blocks.len() - b,
        {
            let mut bb = body.basic_blocks.remove(b);
            assert(bb == blocks[b as int]);
            let mut i: usize = 0;
            while i < bb.statements.len()
                invariant
                    0 <= b < blocks.len(),
                    old(body).wf(),
                    blocks == old(body).basic_blocks@,
                    scopes == old(body).source_scopes@,
                    body.source_scopes@ == scopes,
                    0 <= i <= bb.statements@.len(),
                    bb.statements@.len() == blocks[b as int].statements@.len(),
                    bb.terminator == blocks[b as int].terminator,
                    forall|k: int|
                        0 <= k < i ==> #[trigger] bb.statements@[k] == classified_statement(
                            scopes,
                            blocks[b as int].statements@[k],
                        ),
                    forall|k: int|
                        i <= k < bb.statements@.len() ==> #[trigger] bb.statements@[k]
                            == blocks[b as int].statements@[k],
                decreases bb.statements@.len() - i,
            {
                let mut statement = bb.statements.remove(i);
                assert(statement == blocks[b as int].statements@[i as int]);
                statement.pta_target = is_unsafe(body, &statement);
                bb.statements.insert(i, statement);
                i = i + 1;
            }
            bb.terminator.pta_target = is_unsafe(body, &bb.terminator);
            body.basic_blocks.insert(b, bb);
            b = b + 1;
        }
    }
}

/// Classifying a body that was just classified sets the same taint marks:
/// the marks depend only on the scopes and the instructions' positions, which
/// classification leaves alone.
pub proof fn lemma_classification_idempotent(a: Body, b: Body, c: Body)
    requires
        classified_body(a, b),
        classified_body(b, c),
    ensures
        c.basic_blocks@.len() == b.basic_blocks@.len(),
        forall|k: int|
            0 <= k < b.basic_blocks@.len() ==> (#[trigger] c.basic_blocks@[k]).terminator
                == b.basic_blocks@[k].terminator,
        forall|k: int, i: int|
            0 <= k < b.basic_blocks@.len() && 0 <= i < b.basic_blocks@[k].statements@.len()
                ==> #[trigger] c.basic_blocks@[k].statements@[i] == b.basic_blocks@[k].statements@[i],
{
    assert forall|k: int|
        0 <= k < b.basic_blocks@.len() implies (#[trigger] c.basic_blocks@[k]).terminator
        == b.basic_blocks@[k].terminator by {
        assert(classified_block(a.source_scopes@, a.basic_blocks@[k], b.basic_blocks@[k]));
        assert(classified_block(b.source_scopes@, b.basic_blocks@[k], c.basic_blocks@[k]));
    }
    assert forall|k: int, i: int|
        0 <= k < b.basic_blocks@.len() && 0 <= i < b.basic_blocks@[k].statements@.len()
        implies #[trigger] c.basic_blocks@[k].statements@[i] == b.basic_blocks@[k].statements@[i] by {
        assert(classified_block(a.source_scopes@, a.basic_blocks@[k], b.basic_blocks@[k]));
        assert(classified_block(b.source_scopes@, b.basic_blocks@[k], c.basic_blocks@[k]));
        assert(b.basic_blocks@[k].statements@[i] == classified_statement(
            a.source_scopes@,
            a.basic_blocks@[k].statements@[i],
        ));
    }
}

} // verus!
