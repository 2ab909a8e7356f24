//! Properties of the pass, proved over the specifications of its steps.
use vstd::prelude::*;

use crate::calls::{call_views, expr_calls, exprs_calls, own_calls, TargetView};
use crate::fields::{field_views, total_fields, variants_records};
use crate::metacollect::{decl_records, items_calls, items_fields, qualified, Metacollect};
use crate::model::{BinOp, Expr, ExprKind, ItemKind, Program, TypeId, VariantDecl};
use crate::names::Sym;
use crate::ops::{spec_binary_candidates, OpTrait};
use crate::resolve::{lookup, resolve_first, ImplEntry, Registry, Resolved};

verus! {

/// The number of fields a declaration has over all its variants.
pub open spec fn decl_field_count(kind: ItemKind) -> nat {
    match kind {
        ItemKind::Struct(fs) => fs@.len(),
        ItemKind::Enum(vs) => total_fields(vs@),
        _ => 0,
    }
}

proof fn lemma_variants_records(owner: Seq<Sym>, vs: Seq<VariantDecl>)
    ensures
        variants_records(owner, vs).len() == total_fields(vs),
        forall|i: int|
            0 <= i < variants_records(owner, vs).len() ==> (#[trigger] variants_records(
                owner,
                vs,
            )[i]).0 == owner,
    decreases vs.len(),
{
    if vs.len() > 0 {
        lemma_variants_records(owner, vs.drop_last());
    }
}

/// A declaration with N fields over all its variants yields exactly N field
/// records, each under the declaration's qualified path.
pub proof fn lemma_one_record_per_field(path: Seq<Sym>, kind: ItemKind)
    ensures
        decl_records(path, kind).len() == decl_field_count(kind),
        forall|i: int|
            0 <= i < decl_records(path, kind).len() ==> (#[trigger] decl_records(
                path,
                kind,
            )[i]).0 == path,
{
    match kind {
        ItemKind::Enum(vs) => lemma_variants_records(path, vs@),
        _ => {},
    }
}

/// A short-circuit `&&` or `||` never yields a record of its own: only its
/// operands may.
pub proof fn lemma_logical_ops_never_call(impls: Seq<ImplEntry>, caller: Seq<Sym>, e: Expr)
    requires
        e.kind matches ExprKind::Binary(op, _, _) && (op == BinOp::And || op == BinOp::Or),
    ensures
        own_calls(impls, caller, e).len() == 0,
        e.kind matches ExprKind::Binary(_, l, r) && expr_calls(impls, caller, e) == expr_calls(
            impls,
            caller,
            *l,
        ) + expr_calls(impls, caller, *r),
{
    match e.kind {
        ExprKind::Binary(_, l, r) => {
            assert(expr_calls(impls, caller, e) =~= expr_calls(impls, caller, *l) + expr_calls(
                impls,
                caller,
                *r,
            ));
        },
        _ => {},
    }
}

/// Resolution picks the first candidate in list order that is implemented:
/// every candidate before it has no implementation for the operand types.
pub proof fn lemma_first_match_wins(
    impls: Seq<ImplEntry>,
    cands: Seq<OpTrait>,
    lhs: TypeId,
    rhs: Option<TypeId>,
)
    ensures
        resolve_first(impls, cands, lhs, rhs) matches Some(r) ==> exists|k: int|
            0 <= k < cands.len() && cands[k] == r.op_trait && lookup(impls, cands[k], lhs, rhs)
                == Some(r.method) && forall|j: int|
                0 <= j < k ==> lookup(impls, #[trigger] cands[j], lhs, rhs) is None,
        resolve_first(impls, cands, lhs, rhs) is None ==> forall|j: int|
            0 <= j < cands.len() ==> lookup(impls, #[trigger] cands[j], lhs, rhs) is None,
    decreases cands.len(),
{
    if cands.len() > 0 {
        let rest = cands.subrange(1, cands.len() as int);
        lemma_first_match_wins(impls, rest, lhs, rhs);
        match lookup(impls, cands[0], lhs, rhs) {
            Some(m) => {
                assert(forall|j: int| 0 <= j < 0 ==> lookup(impls, #[trigger] cands[j], lhs, rhs) is None);
            },
            None => {
                match resolve_first(impls, rest, lhs, rhs) {
                    Some(r) => {
                        let k = choose|k: int|
                            0 <= k < rest.len() && rest[k] == r.op_trait && lookup(
                                impls,
                                rest[k],
                                lhs,
                                rhs,
                            ) == Some(r.method) && forall|j: int|
                                0 <= j < k ==> lookup(impls, #[trigger] rest[j], lhs, rhs) is None;
                        assert(cands[k + 1] == rest[k]);
                        assert forall|j: int| 0 <= j < k + 1 implies lookup(
                            impls,
                            #[trigger] cands[j],
                            lhs,
                            rhs,
                        ) is None by {
                            if j > 0 {
                                assert(cands[j] == rest[j - 1]);
                            }
                        }
                    },
                    None => {
                        assert forall|j: int| 0 <= j < cands.len() implies lookup(
                            impls,
                            #[trigger] cands[j],
                            lhs,
                            rhs,
                        ) is None by {
                            if j > 0 {
                                assert(cands[j] == rest[j - 1]);
                            }
                        }
                    },
                }
            },
        }
    }
}

/// An ordering comparison asks for the total order first, and for the
/// partial order only when the total order has no implementation.
pub proof fn lemma_ordering_tries_total_first(
    impls: Seq<ImplEntry>,
    op: BinOp,
    lhs: TypeId,
    rhs: TypeId,
)
    requires
        op == BinOp::Lt || op == BinOp::Le || op == BinOp::Ge || op == BinOp::Gt,
    ensures
        spec_binary_candidates(op) == seq![OpTrait::Ord, OpTrait::PartialOrd],
        resolve_first(impls, spec_binary_candidates(op), lhs, Some(rhs)) == match lookup(
            impls,
            OpTrait::Ord,
            lhs,
            Some(rhs),
        ) {
            Some(m) => Some(Resolved { op_trait: OpTrait::Ord, method: m }),
            None => match lookup(impls, OpTrait::PartialOrd, lhs, Some(rhs)) {
                Some(m) => Some(Resolved { op_trait: OpTrait::PartialOrd, method: m }),
                None => None,
            },
        },
{
    let c = seq![OpTrait::Ord, OpTrait::PartialOrd];
    assert(c.subrange(1, 2) =~= seq![OpTrait::PartialOrd]);
    assert(c.subrange(1, 2).subrange(1, 1) =~= Seq::<OpTrait>::empty());
    assert(resolve_first(impls, Seq::<OpTrait>::empty(), lhs, Some(rhs)) is None);
    assert(resolve_first(impls, seq![OpTrait::PartialOrd], lhs, Some(rhs)) == match lookup(
        impls,
        OpTrait::PartialOrd,
        lhs,
        Some(rhs),
    ) {
        Some(m) => Some(Resolved { op_trait: OpTrait::PartialOrd, method: m }),
        None => resolve_first(impls, Seq::<OpTrait>::empty(), lhs, Some(rhs)),
    });
}

/// A direct call is recorded, and the pass still descends into its callee
/// and every argument: nested calls are recorded after it, in order.
pub proof fn lemma_nested_calls_recorded(impls: Seq<ImplEntry>, caller: Seq<Sym>, e: Expr)
    requires
        e.kind matches ExprKind::Call(f, _) && f.kind is Path,
    ensures
        e.kind matches ExprKind::Call(f, args) && f.kind matches ExprKind::Path(p) && expr_calls(
            impls,
            caller,
            e,
        ) == seq![(caller, TargetView::Fn(p@))] + exprs_calls(
            impls,
            caller,
            args@,
        ),
{
    match e.kind {
        ExprKind::Call(f, args) => {
            assert(expr_calls(impls, caller, *f) =~= Seq::empty());
            match f.kind {
                ExprKind::Path(p) => {
                    assert(expr_calls(impls, caller, e) =~= seq![
                        (caller, TargetView::Fn(p@)),
                    ] + exprs_calls(impls, caller, args@));
                },
                _ => {},
            }
        },
        _ => {},
    }
}

/// Two passes over the same program and registry, each from a fresh state,
/// produce the same records in the same order.
pub proof fn lemma_pass_is_deterministic(
    reg: Registry,
    prog: Program,
    before1: Metacollect,
    after1: Metacollect,
    before2: Metacollect,
    after2: Metacollect,
)
    requires
        before1.itemstack@.len() == 0 && before1.field_records@.len() == 0
            && before1.call_records@.len() == 0,
        before2.itemstack@.len() == 0 && before2.field_records@.len() == 0
            && before2.call_records@.len() == 0,
        field_views(after1.field_records@) == field_views(before1.field_records@)
            + items_fields(qualified(prog.root, before1.itemstack@), prog.items@),
        call_views(after1.call_records@) == call_views(before1.call_records@) + items_calls(
            reg.impls@,
            qualified(prog.root, before1.itemstack@),
            prog.items@,
        ),
        field_views(after2.field_records@) == field_views(before2.field_records@)
            + items_fields(qualified(prog.root, before2.itemstack@), prog.items@),
        call_views(after2.call_records@) == call_views(before2.call_records@) + items_calls(
            reg.impls@,
            qualified(prog.root, before2.itemstack@),
            prog.items@,
        ),
    ensures
        field_views(after1.field_records@) == field_views(after2.field_records@),
        call_views(after1.call_records@) == call_views(after2.call_records@),
{
    assert(before1.itemstack@ =~= before2.itemstack@);
    assert(field_views(before1.field_records@) =~= field_views(before2.field_records@));
    assert(call_views(before1.call_records@) =~= call_views(before2.call_records@));
}

} // verus!
