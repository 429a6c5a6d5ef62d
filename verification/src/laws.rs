//! Block-level laws of the rewrite, stated and proved over the ghost
//! specification.

use vstd::prelude::*;
use crate::ast::{
    BlockView, ExpressionView, PairView, StmtView, TokenKind, TokenReferenceView, VarView,
};
use crate::minifier::{
    block_wf, lemma_rename_vars_len, nil_fill, spec_minify_block, spec_rename_var,
    spec_rename_vars, spec_scan_stmt, spec_scan_stmts, stmt_wf, stmts_wf,
};
use crate::punctuator::pair_values;
use crate::utils::{
    key_index, lemma_key_index_bounds, lemma_key_index_fresh, lemma_key_index_of_first_match,
    lemma_key_index_stable, lemma_next_name_injective, spec_next_name,
};
use crate::whitespace::{spec_trim, spec_trim_exp};

verus! {

/// The trimmed names of every local declaration in a statement list,
/// concatenated in source order.
pub open spec fn concat_local_names(stmts: Seq<(StmtView, Option<TokenReferenceView>)>) -> Seq<
    TokenReferenceView,
>
    decreases stmts.len(),
{
    if stmts.len() == 0 {
        Seq::empty()
    } else {
        (match stmts[0].0 {
            StmtView::LocalAssignment(x) => x.names.map_values(
                |p: PairView<TokenReferenceView>| spec_trim(p.value),
            ),
            _ => Seq::empty(),
        }) + concat_local_names(stmts.drop_first())
    }
}

/// The trimmed initializers of every local declaration in a statement list,
/// concatenated in source order, each declaration padded with implicit-nil
/// literals up to its name count.
pub open spec fn concat_local_exprs(stmts: Seq<(StmtView, Option<TokenReferenceView>)>) -> Seq<
    ExpressionView,
>
    decreases stmts.len(),
{
    if stmts.len() == 0 {
        Seq::empty()
    } else {
        (match stmts[0].0 {
            StmtView::LocalAssignment(x) => x.expressions.map_values(
                |p: PairView<ExpressionView>| spec_trim_exp(p.value),
            ) + nil_fill(x.names.len() - x.expressions.len()),
            _ => Seq::empty(),
        }) + concat_local_exprs(stmts.drop_first())
    }
}

/// Scanning a list of local declarations accumulates exactly their names
/// and padded initializers, contributes no other statement, and registers
/// no global name.
proof fn lemma_scan_all_locals(
    names: Seq<Seq<char>>,
    stmts: Seq<(StmtView, Option<TokenReferenceView>)>,
)
    requires
        forall|i: int| 0 <= i < stmts.len() ==> (#[trigger] stmts[i]).0 is LocalAssignment,
    ensures
        spec_scan_stmts(names, stmts).names == names,
        spec_scan_stmts(names, stmts).local_names == concat_local_names(stmts),
        spec_scan_stmts(names, stmts).local_exprs == concat_local_exprs(stmts),
        spec_scan_stmts(names, stmts).global_vars == Seq::<VarView>::empty(),
        spec_scan_stmts(names, stmts).global_exprs == Seq::<ExpressionView>::empty(),
        spec_scan_stmts(names, stmts).rest == Seq::<
            (StmtView, Option<TokenReferenceView>),
        >::empty(),
    decreases stmts.len(),
{
    if stmts.len() > 0 {
        assert(stmts[0].0 is LocalAssignment);
        assert forall|i: int| 0 <= i < stmts.drop_first().len() implies (#[trigger] stmts.drop_first()[i]).0
            is LocalAssignment by {
            assert(stmts.drop_first()[i] == stmts[i + 1]);
        }
        lemma_scan_all_locals(names, stmts.drop_first());
        match stmts[0].0 {
            StmtView::LocalAssignment(x) => {
                let first = spec_scan_stmt(names, stmts[0].0);
                assert(first.local_names =~= x.names.map_values(
                    |p: PairView<TokenReferenceView>| spec_trim(p.value),
                ));
                assert(first.local_exprs =~= x.expressions.map_values(
                    |p: PairView<ExpressionView>| spec_trim_exp(p.value),
                ) + nil_fill(x.names.len() - x.expressions.len()));
                assert(spec_scan_stmts(names, stmts).local_names =~= concat_local_names(stmts));
                assert(spec_scan_stmts(names, stmts).local_exprs =~= concat_local_exprs(stmts));
            },
            _ => {
                assert(false);
            },
        }
        assert(spec_scan_stmts(names, stmts).global_vars =~= Seq::<VarView>::empty());
        assert(spec_scan_stmts(names, stmts).global_exprs =~= Seq::<ExpressionView>::empty());
        assert(spec_scan_stmts(names, stmts).rest =~= Seq::<
            (StmtView, Option<TokenReferenceView>),
        >::empty());
    }
}

/// Over well-formed local declarations the padded initializer list is
/// exactly as long as the name list.
proof fn lemma_concat_locals_len(stmts: Seq<(StmtView, Option<TokenReferenceView>)>)
    requires
        stmts_wf(stmts),
        forall|i: int| 0 <= i < stmts.len() ==> (#[trigger] stmts[i]).0 is LocalAssignment,
    ensures
        concat_local_exprs(stmts).len() == concat_local_names(stmts).len(),
    decreases stmts.len(),
{
    if stmts.len() > 0 {
        assert(stmt_wf(stmts[0].0));
        assert forall|i: int| 0 <= i < stmts.drop_first().len() implies (#[trigger] stmts.drop_first()[i]).0
            is LocalAssignment by {
            assert(stmts.drop_first()[i] == stmts[i + 1]);
        }
        lemma_concat_locals_len(stmts.drop_first());
    }
}

/// Coalescing completeness: a block consisting solely of local declarations
/// (each declaring at least one name) rewrites to a block holding exactly
/// one local declaration, whose name list is the concatenation of all the
/// original names in order and whose expression list has the same length,
/// the missing initializers filled with the implicit-nil literal; no global
/// name is registered.
pub proof fn lemma_coalescing_complete(names: Seq<Seq<char>>, b: BlockView)
    requires
        block_wf(b),
        b.stmts.len() > 0,
        forall|i: int| 0 <= i < b.stmts.len() ==> (#[trigger] b.stmts[i]).0 is LocalAssignment,
        forall|i: int|
            0 <= i < b.stmts.len() ==> match (#[trigger] b.stmts[i]).0 {
                StmtView::LocalAssignment(x) => x.names.len() > 0,
                _ => true,
            },
    ensures
        spec_minify_block(names, b).0 == names,
        spec_minify_block(names, b).1.stmts.len() == 1,
        spec_minify_block(names, b).1.stmts[0].0 matches StmtView::LocalAssignment(la) && {
            &&& pair_values(la.names) == concat_local_names(b.stmts)
            &&& pair_values(la.expressions) == concat_local_exprs(b.stmts)
            &&& la.expressions.len() == la.names.len()
        },
{
    lemma_scan_all_locals(names, b.stmts);
    lemma_concat_locals_len(b.stmts);
    let r = spec_scan_stmts(names, b.stmts);
    assert(r.local_names.len() > 0) by {
        assert(b.stmts[0].0 is LocalAssignment);
        assert(concat_local_names(b.stmts).len() > 0);
    }
    let combined = spec_minify_block(names, b).1.stmts[0].0;
    assert(combined matches StmtView::LocalAssignment(la));
    assert(spec_minify_block(names, b).1.stmts.len() == 1);
    match combined {
        StmtView::LocalAssignment(la) => {
            assert(pair_values(la.names) =~= r.local_names);
            assert(pair_values(la.expressions) =~= r.local_exprs);
        },
        _ => {
            assert(false);
        },
    }
}

/// Whether the later name list keeps every earlier registration, at its
/// place, and only appends.
pub open spec fn extends_names(before: Seq<Seq<char>>, after: Seq<Seq<char>>) -> bool {
    before.len() <= after.len() && forall|i: int|
        0 <= i < before.len() ==> after[i] == before[i]
}

/// Renaming one target only appends to the name list.
proof fn lemma_rename_var_extends(names: Seq<Seq<char>>, v: VarView)
    ensures
        extends_names(names, spec_rename_var(names, v).0),
{
}

/// Renaming a target list only appends to the name list.
proof fn lemma_rename_vars_extends(names: Seq<Seq<char>>, vs: Seq<VarView>)
    ensures
        extends_names(names, spec_rename_vars(names, vs).0),
    decreases vs.len(),
{
    if vs.len() > 0 {
        lemma_rename_var_extends(names, vs[0]);
        lemma_rename_vars_extends(spec_rename_var(names, vs[0]).0, vs.drop_first());
    }
}

/// Scanning one statement only appends to the name list.
proof fn lemma_scan_stmt_extends(names: Seq<Seq<char>>, s: StmtView)
    ensures
        extends_names(names, spec_scan_stmt(names, s).names),
    decreases s,
{
    match s {
        StmtView::Assignment(x) => {
            lemma_rename_vars_extends(names, pair_values(x.variables));
        },
        StmtView::LocalFunction(x) => {
            lemma_minify_block_extends(names, x.body.block);
        },
        StmtView::FunctionDeclaration(x) => {
            lemma_minify_block_extends(names, x.body.block);
        },
        _ => {},
    }
}

/// Scanning a statement list only appends to the name list.
proof fn lemma_scan_stmts_extends(
    names: Seq<Seq<char>>,
    stmts: Seq<(StmtView, Option<TokenReferenceView>)>,
)
    ensures
        extends_names(names, spec_scan_stmts(names, stmts).names),
    decreases stmts,
{
    if stmts.len() > 0 {
        lemma_scan_stmt_extends(names, stmts[0].0);
        lemma_scan_stmts_extends(spec_scan_stmt(names, stmts[0].0).names, stmts.drop_first());
    }
}

/// Rewriting a block only appends to the name list: no registration is ever
/// dropped, moved, or overwritten.
pub proof fn lemma_minify_block_extends(names: Seq<Seq<char>>, b: BlockView)
    ensures
        extends_names(names, spec_minify_block(names, b).0),
    decreases b,
{
    lemma_scan_stmts_extends(names, b.stmts);
}

/// A registered name keeps its index under any extension of the name list.
pub proof fn lemma_key_index_extends(before: Seq<Seq<char>>, after: Seq<Seq<char>>, k: Seq<char>)
    requires
        extends_names(before, after),
        before.contains(k),
    ensures
        after.contains(k),
        key_index(after, k) == key_index(before, k),
{
    lemma_key_index_bounds(before, k);
    let i = key_index(before, k);
    assert(after[i] == k);
    lemma_key_index_of_first_match(after, k, i);
}

/// Renaming stability across a whole run: a name registered before a block
/// is rewritten keeps its index, and with it its minified name, afterwards.
pub proof fn lemma_renaming_stable_across_run(names: Seq<Seq<char>>, b: BlockView, k: Seq<char>)
    requires
        names.contains(k),
    ensures
        spec_minify_block(names, b).0.contains(k),
        spec_next_name(key_index(spec_minify_block(names, b).0, k) as nat) == spec_next_name(
            key_index(names, k) as nat,
        ),
{
    lemma_minify_block_extends(names, b);
    lemma_key_index_extends(names, spec_minify_block(names, b).0, k);
}

/// Every-occurrence substitution: within one assignment, every plain
/// identifier target whose original text is `s` is replaced by the minified
/// name of `s` as given by the name list the whole target list ends with —
/// so all occurrences of one original name in the statement receive one and
/// the same minified name.  Because later steps of the run only extend the
/// name list (`lemma_minify_block_extends`) and a registered name keeps its
/// index under extension (`lemma_key_index_extends`), that is also the name
/// every later occurrence in the same run receives.
pub proof fn lemma_rename_vars_every_occurrence(names: Seq<Seq<char>>, vs: Seq<VarView>, i: int)
    requires
        0 <= i < vs.len(),
        vs[i] is Name,
        vs[i]->Name_0.token.kind == TokenKind::Identifier,
    ensures
        spec_rename_vars(names, vs).0.contains(vs[i]->Name_0.token.text),
        spec_rename_vars(names, vs).1[i] == VarView::Name(
            TokenReferenceView::identifier(
                spec_next_name(
                    key_index(spec_rename_vars(names, vs).0, vs[i]->Name_0.token.text) as nat,
                ),
            ),
        ),
    decreases vs.len(),
{
    let key = vs[i]->Name_0.token.text;
    let (n1, v1) = spec_rename_var(names, vs[0]);
    let (n2, vr) = spec_rename_vars(n1, vs.drop_first());
    if i == 0 {
        lemma_rename_vars_extends(n1, vs.drop_first());
        if names.contains(key) {
            lemma_key_index_extends(names, n2, key);
        } else {
            lemma_key_index_fresh(names, key);
            lemma_key_index_extends(n1, n2, key);
        }
        assert(spec_rename_vars(names, vs).1[0] == v1);
    } else {
        assert(vs.drop_first()[i - 1] == vs[i]);
        lemma_rename_vars_every_occurrence(n1, vs.drop_first(), i - 1);
        lemma_rename_vars_len(n1, vs.drop_first());
        assert((seq![v1] + vr)[i] == vr[i - 1]);
        assert(spec_rename_vars(names, vs).1[i] == vr[i - 1]);
    }
}

/// Renaming injectivity: two distinct registered original names are never
/// assigned the same minified name.
pub proof fn lemma_renaming_injective(names: Seq<Seq<char>>, k1: Seq<char>, k2: Seq<char>)
    requires
        names.contains(k1),
        names.contains(k2),
        k1 != k2,
    ensures
        spec_next_name(key_index(names, k1) as nat) != spec_next_name(key_index(names, k2) as nat),
{
    lemma_key_index_bounds(names, k1);
    lemma_key_index_bounds(names, k2);
    assert(key_index(names, k1) != key_index(names, k2));
    lemma_next_name_injective(key_index(names, k1) as nat, key_index(names, k2) as nat);
}

/// Renaming stability: registering further names never changes the
/// minified name assigned to a name already registered.
pub proof fn lemma_renaming_stable(names: Seq<Seq<char>>, more: Seq<char>, k: Seq<char>)
    requires
        names.contains(k),
    ensures
        names.push(more).contains(k),
        spec_next_name(key_index(names.push(more), k) as nat) == spec_next_name(
            key_index(names, k) as nat,
        ),
{
    lemma_key_index_stable(names, more, k);
}

} // verus!
