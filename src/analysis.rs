//! The whole analysis of one body: classification, then propagation.

use vstd::prelude::*;
use crate::ir::{Body, Local, scopes_wf};
use crate::mydbg::{MyDbg, classified_block, classified_body};
use crate::pta_filter::{
    PTAFilter, get_locals_from_statement, get_locals_from_terminator, opt_view, block_touches, blocks_touch, filtered_decl, statement_locals, stmt_touches,
    stmts_touch, term_touches, terminator_locals, touched_locals_declared,
};

verus! {

/// Every local named in an extraction result is below `n`.
pub open spec fn locals_below(o: Option<Seq<Local>>, n: nat) -> bool {
    o is Some ==> forall|k: int| 0 <= k < o.unwrap().len() ==> (#[trigger] o.unwrap()[k]) < n
}

/// Every local that an instruction's determinable locals name, tainted or
/// not, has a declaration.
pub open spec fn named_locals_declared(body: Body) -> bool {
    &&& forall|b: int, i: int|
        0 <= b < body.basic_blocks@.len() && 0 <= i < body.basic_blocks@[b].statements@.len()
            ==> locals_below(
            statement_locals((#[trigger] body.basic_blocks@[b].statements@[i]).kind),
            body.local_decls@.len(),
        )
    &&& forall|b: int|
        0 <= b < body.basic_blocks@.len() ==> locals_below(
            terminator_locals((#[trigger] body.basic_blocks@[b]).terminator.kind),
            body.local_decls@.len(),
        )
}

proof fn lemma_classified_touches_declared(old: Body, new: Body)
    requires
        classified_body(old, new),
        named_locals_declared(old),
    ensures
        touched_locals_declared(new),
{
    assert forall|l: Local| blocks_touch(new.basic_blocks@, l) implies l < new.local_decls@.len() by {
        let b = choose|b: int| 0 <= b < new.basic_blocks@.len() && block_touches(
            #[trigger] new.basic_blocks@[b],
            l,
        );
        assert(classified_block(old.source_scopes@, old.basic_blocks@[b], new.basic_blocks@[b]));
        let nb = new.basic_blocks@[b];
        if stmts_touch(nb.statements@, nb.statements@.len() as int, l) {
            let i = choose|i: int|
                0 <= i < nb.statements@.len() && stmt_touches(#[trigger] nb.statements@[i], l);
            assert(nb.statements@[i].kind == old.basic_blocks@[b].statements@[i].kind);
            assert(locals_below(
                statement_locals(old.basic_blocks@[b].statements@[i].kind),
                old.local_decls@.len(),
            ));
        } else {
            assert(term_touches(nb.terminator, l));
            assert(nb.terminator.kind == old.basic_blocks@[b].terminator.kind);
            assert(locals_below(
                terminator_locals(old.basic_blocks@[b].terminator.kind),
                old.local_decls@.len(),
            ));
        }
    }
}

/// Runs the analysis on `body` when the optimisation level is above its
/// lowest value: every instruction's taint mark is set from its scope, and
/// then every local that a tainted instruction with determinable locals names
/// loses its safety flag. At the lowest level nothing changes.
pub fn run(body: &mut Body, mir_opt_level: usize)
    requires
        old(body).wf(),
        named_locals_declared(*old(body)),
    ensures
        mir_opt_level == 0 ==> *final(body) == *old(body),
        mir_opt_level > 0 ==> {
            &&& final(body).source_scopes@ == old(body).source_scopes@
            &&& final(body).arg_count == old(body).arg_count
            &&& final(body).generation == old(body).generation
            &&& final(body).basic_blocks@.len() == old(body).basic_blocks@.len()
            &&& forall|b: int|
                0 <= b < old(body).basic_blocks@.len() ==> classified_block(
                    old(body).source_scopes@,
                    old(body).basic_blocks@[b],
                    #[trigger] final(body).basic_blocks@[b],
                )
            &&& final(body).local_decls@.len() == old(body).local_decls@.len()
            &&& forall|l: Local|
                l < old(body).local_decls@.len() ==> #[trigger] final(body).local_decls@[l as int]
                    == filtered_decl(
                    old(body).local_decls@[l as int],
                    blocks_touch(final(body).basic_blocks@, l),
                )
        },
{
    let classify = MyDbg;
    let filter = PTAFilter;
    if !classify.is_enabled(mir_opt_level) {
        return;
    }
    let ghost before = *body;
    classify.run_pass(body);
    proof {
        lemma_classified_touches_declared(before, *body);
    }
    if filter.is_enabled(mir_opt_level) {
        filter.run_pass(body);
    }
}

fn locals_all_below(o: &Option<Vec<Local>>, n: usize) -> (r: bool)
    ensures
        r == locals_below(opt_view(*o), n as nat),
{
    match o {
        None => true,
        Some(v) => {
            let mut k: usize = 0;
            while k < v.len()
                invariant
                    0 <= k <= v@.len(),
                    opt_view(*o) == Some(v@),
                    forall|j: int| 0 <= j < k ==> #[trigger] v@[j] < n,
                decreases v@.len() - k,
            {
                let x = v[k];
                if x >= n {
                    proof {
                        assert(v@[k as int] == x);
                        assert(opt_view(*o) == Some(v@));
                        assert(opt_view(*o).unwrap()[k as int] == x);
                        assert(!((opt_view(*o).unwrap()[k as int]) < n as nat));
                    }
                    return false;
                }
                k = k + 1;
            }
            true
        },
    }
}

/// Whether `run` may be called on `body`: the scope tree is ordered parent
/// first, every instruction's scope exists, and every local that an
/// instruction names is declared.
pub fn is_analysable(body: &Body) -> (r: bool)
    ensures
        r == (body.wf() && named_locals_declared(*body)),
{
    let n_scopes = body.source_scopes.len();
    let n_locals = body.local_decls.len();
    let mut s: usize = 0;
    while s < n_scopes
        invariant
            0 <= s <= n_scopes,
            n_scopes == body.source_scopes@.len(),
            forall|i: int|
                0 <= i < s ==> (#[trigger] body.source_scopes@[i].parent_scope matches Some(p) ==> p < i),
        decreases n_scopes - s,
    {
        match body.source_scopes[s].parent_scope {
            Some(p) => {
                if p >= s {
                    return false;
                }
            },
            None => {},
        }
        s = s + 1;
    }
    assert(scopes_wf(body.source_scopes@));
    let mut b: usize = 0;
    while b < body.basic_blocks.len()
        invariant
            0 <= b <= body.basic_blocks@.len(),
            n_scopes == body.source_scopes@.len(),
            n_locals == body.local_decls@.len(),
            scopes_wf(body.source_scopes@),
            forall|c: int, i: int|
                0 <= c < b && 0 <= i < body.basic_blocks@[c].statements@.len() ==> {
                    &&& (#[trigger] body.basic_blocks@[c].statements@[i]).source_info.scope < n_scopes
                    &&& locals_below(
                        statement_locals(body.basic_blocks@[c].statements@[i].kind),
                        n_locals as nat,
                    )
                },
            forall|c: int|
                0 <= c < b ==> {
                    &&& (#[trigger] body.basic_blocks@[c]).terminator.source_info.scope < n_scopes
                    &&& locals_below(terminator_locals(body.basic_blocks@[c].terminator.kind), n_locals as nat)
                },
        decreases body.basic_blocks@.len() - b,
    {
        let bb = &body.basic_blocks[b];
        let mut i: usize = 0;
        while i < bb.statements.len()
            invariant
                0 <= i <= bb.statements@.len(),
                0 <= b < body.basic_blocks@.len(),
                *bb == body.basic_blocks@[b as int],
                n_scopes == body.source_scopes@.len(),
                n_locals == body.local_decls@.len(),
                forall|j: int|
                    0 <= j < i ==> {
                        &&& (#[trigger] bb.statements@[j]).source_info.scope < n_scopes
                        &&& locals_below(statement_locals(bb.statements@[j].kind), n_locals as nat)
                    },
            decreases bb.statements@.len() - i,
        {
            let st = &bb.statements[i];
            if st.source_info.scope >= n_scopes {
                return false;
            }
            if !locals_all_below(&get_locals_from_statement(st), n_locals) {
                return false;
            }
            i = i + 1;
        }
        if bb.terminator.source_info.scope >= n_scopes {
            return false;
        }
        if !locals_all_below(&get_locals_from_terminator(&bb.terminator), n_locals) {
            return false;
        }
        b = b + 1;
    }
    true
}

} // verus!
