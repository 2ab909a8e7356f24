//! The function body walker: one call record per resolved call-shaped expression.
use vstd::prelude::*;

use crate::model::{Expr, ExprKind, TypeId};
use crate::names::{copy_syms, Sym};
use crate::ops::{
    assign_candidates, binary_candidates, spec_assign_candidates, spec_binary_candidates,
    spec_unary_candidates, unary_candidates, OpTrait,
};
use crate::resolve::{resolve_first, ImplEntry, Registry, Resolved};

verus! {

/// What a call-shaped expression invokes.
#[derive(Clone, Debug, PartialEq, Eq)]
pub enum Target {
    /// A function named by a plain path.
    Fn(Vec<Sym>),
    /// The method of an operator trait's implementation.
    TraitMethod(Resolved),
}

/// The mathematical value of a `Target`.
pub enum TargetView {
    Fn(Seq<Sym>),
    TraitMethod(Resolved),
}

impl View for Target {
    type V = TargetView;

    open spec fn view(&self) -> TargetView {
        match self {
            Target::Fn(p) => TargetView::Fn(p@),
            Target::TraitMethod(r) => TargetView::TraitMethod(*r),
        }
    }
}

/// The enclosing function's qualified path and the target it invokes.
#[derive(Clone, Debug, PartialEq, Eq)]
pub struct CallRecord {
    pub caller: Vec<Sym>,
    pub target: Target,
}

impl View for CallRecord {
    type V = (Seq<Sym>, TargetView);

    open spec fn view(&self) -> (Seq<Sym>, TargetView) {
        (self.caller@, self.target@)
    }
}

/// The values of a sequence of call records.
pub open spec fn call_views(v: Seq<CallRecord>) -> Seq<(Seq<Sym>, TargetView)> {
    v.map_values(|c: CallRecord| c@)
}

/// Resolution of a trait-backed operation, as a target.
pub open spec fn resolved_target(
    impls: Seq<ImplEntry>,
    cands: Seq<OpTrait>,
    lhs: TypeId,
    rhs: Option<TypeId>,
) -> Option<TargetView> {
    match resolve_first(impls, cands, lhs, rhs) {
        Some(r) => Some(TargetView::TraitMethod(r)),
        None => None,
    }
}

/// The target of an expression itself, not of its sub-expressions.
pub open spec fn own_target(impls: Seq<ImplEntry>, e: Expr) -> Option<TargetView> {
    match e.kind {
        ExprKind::Call(f, _) => match f.kind {
            ExprKind::Path(p) => Some(TargetView::Fn(p@)),
            _ => None,
        },
        ExprKind::Unary(op, a) => resolved_target(impls, spec_unary_candidates(op), a.ty, None),
        ExprKind::Binary(op, l, r) => resolved_target(
            impls,
            spec_binary_candidates(op),
            l.ty,
            Some(r.ty),
        ),
        ExprKind::AssignOp(op, l, r) => resolved_target(
            impls,
            spec_assign_candidates(op),
            l.ty,
            Some(r.ty),
        ),
        ExprKind::Index(l, r) => resolved_target(impls, seq![OpTrait::Index], l.ty, Some(r.ty)),
        _ => None,
    }
}

/// The record of the expression itself, if it has one.
pub open spec fn own_calls(impls: Seq<ImplEntry>, caller: Seq<Sym>, e: Expr) -> Seq<
    (Seq<Sym>, TargetView),
> {
    match own_target(impls, e) {
        Some(t) => seq![(caller, t)],
        None => Seq::empty(),
    }
}

/// The records of an expression: its own first, then those of each
/// sub-expression in source order, whether or not it had one itself.
pub open spec fn expr_calls(impls: Seq<ImplEntry>, caller: Seq<Sym>, e: Expr) -> Seq<
    (Seq<Sym>, TargetView),
>
    decreases e,
{
    own_calls(impls, caller, e) + match e.kind {
        ExprKind::Call(f, args) => expr_calls(impls, caller, *f) + exprs_calls(
            impls,
            caller,
            args@,
        ),
        ExprKind::MethodCall(_, args) => exprs_calls(impls, caller, args@),
        ExprKind::Unary(_, a) => expr_calls(impls, caller, *a),
        ExprKind::Binary(_, l, r) => expr_calls(impls, caller, *l) + expr_calls(impls, caller, *r),
        ExprKind::AssignOp(_, l, r) => expr_calls(impls, caller, *l) + expr_calls(
            impls,
            caller,
            *r,
        ),
        ExprKind::Index(l, r) => expr_calls(impls, caller, *l) + expr_calls(impls, caller, *r),
        ExprKind::Block(v) => exprs_calls(impls, caller, v@),
        ExprKind::Other(v) => exprs_calls(impls, caller, v@),
        _ => Seq::empty(),
    }
}

/// The records of a sequence of expressions, in order.
pub open spec fn exprs_calls(impls: Seq<ImplEntry>, caller: Seq<Sym>, es: Seq<Expr>) -> Seq<
    (Seq<Sym>, TargetView),
>
    decreases es,
{
    if es.len() == 0 {
        Seq::empty()
    } else {
        expr_calls(impls, caller, es[0]) + exprs_calls(
            impls,
            caller,
            es.subrange(1, es.len() as int),
        )
    }
}

fn push_call(calls: &mut Vec<CallRecord>, caller: &Vec<Sym>, target: Target)
    ensures
        call_views(final(calls)@) == call_views(old(calls)@).push((caller@, target@)),
{
    let c = CallRecord { caller: copy_syms(caller), target };
    calls.push(c);
    assert(call_views(final(calls)@) =~= call_views(old(calls)@).push((caller@, target@)));
}

fn push_resolved(calls: &mut Vec<CallRecord>, caller: &Vec<Sym>, r: Option<Resolved>)
    ensures
        call_views(final(calls)@) == call_views(old(calls)@) + match r {
            Some(x) => seq![(caller@, TargetView::TraitMethod(x))],
            None => Seq::<(Seq<Sym>, TargetView)>::empty(),
        },
{
    match r {
        Some(x) => {
            push_call(calls, caller, Target::TraitMethod(x));
            assert(call_views(final(calls)@) =~= call_views(old(calls)@) + seq![
                (caller@, TargetView::TraitMethod(x)),
            ]);
        },
        None => {
            assert(call_views(old(calls)@) =~= call_views(old(calls)@) + Seq::<
                (Seq<Sym>, TargetView),
            >::empty());
        },
    }
}

/// Appends the record of the expression itself, if it is call-shaped and resolves.
pub fn record_own_call(calls: &mut Vec<CallRecord>, reg: &Registry, caller: &Vec<Sym>, e: &Expr)
    ensures
        call_views(final(calls)@) == call_views(old(calls)@) + own_calls(
            reg.impls@,
            caller@,
            *e,
        ),
{
    match &e.kind {
        ExprKind::Call(f, _) => {
            match &f.kind {
                ExprKind::Path(p) => {
                    push_call(calls, caller, Target::Fn(copy_syms(p)));
                    assert(call_views(final(calls)@) =~= call_views(old(calls)@) + own_calls(
                        reg.impls@,
                        caller@,
                        *e,
                    ));
                },
                _ => {
                    assert(call_views(old(calls)@) =~= call_views(old(calls)@) + own_calls(
                        reg.impls@,
                        caller@,
                        *e,
                    ));
                },
            }
        },
        ExprKind::Unary(op, a) => {
            let cands = unary_candidates(*op);
            let r = reg.resolve(&cands, a.ty, None);
            push_resolved(calls, caller, r);
        },
        ExprKind::Binary(op, l, r) => {
            let cands = binary_candidates(*op);
            let res = reg.resolve(&cands, l.ty, Some(r.ty));
            push_resolved(calls, caller, res);
        },
        ExprKind::AssignOp(op, l, r) => {
            let cands = assign_candidates(*op);
            let res = reg.resolve(&cands, l.ty, Some(r.ty));
            push_resolved(calls, caller, res);
        },
        ExprKind::Index(l, r) => {
            let cands = vec![OpTrait::Index];
            assert(cands@ =~= seq![OpTrait::Index]);
            let res = reg.resolve(&cands, l.ty, Some(r.ty));
            push_resolved(calls, caller, res);
        },
        _ => {
            assert(call_views(old(calls)@) =~= call_views(old(calls)@) + own_calls(
                reg.impls@,
                caller@,
                *e,
            ));
        },
    }
}

/// Walks an expression in pre-order: records the expression itself, then
/// descends into every sub-expression, whether or not it was recorded.
pub fn walk_expr(calls: &mut Vec<CallRecord>, reg: &Registry, caller: &Vec<Sym>, e: &Expr)
    ensures
        call_views(final(calls)@) == call_views(old(calls)@) + expr_calls(
            reg.impls@,
            caller@,
            *e,
        ),
    decreases e,
{
    let ghost c0 = call_views(calls@);
    record_own_call(calls, reg, caller, e);
    let ghost c1 = call_views(calls@);
    match &e.kind {
        ExprKind::Call(f, args) => {
            walk_expr(calls, reg, caller, f);
            walk_exprs(calls, reg, caller, args);
        },
        ExprKind::MethodCall(_, args) => {
            walk_exprs(calls, reg, caller, args);
        },
        ExprKind::Unary(_, a) => {
            walk_expr(calls, reg, caller, a);
        },
        ExprKind::Binary(_, l, r) => {
            walk_expr(calls, reg, caller, l);
            walk_expr(calls, reg, caller, r);
        },
        ExprKind::AssignOp(_, l, r) => {
            walk_expr(calls, reg, caller, l);
            walk_expr(calls, reg, caller, r);
        },
        ExprKind::Index(l, r) => {
            walk_expr(calls, reg, caller, l);
            walk_expr(calls, reg, caller, r);
        },
        ExprKind::Block(v) => {
            walk_exprs(calls, reg, caller, v);
        },
        ExprKind::Other(v) => {
            walk_exprs(calls, reg, caller, v);
        },
        _ => {},
    }
    assert(call_views(calls@) =~= c0 + expr_calls(reg.impls@, caller@, *e));
}

/// Walks a sequence of expressions in order.
pub fn walk_exprs(calls: &mut Vec<CallRecord>, reg: &Registry, caller: &Vec<Sym>, es: &Vec<Expr>)
    ensures
        call_views(final(calls)@) == call_views(old(calls)@) + exprs_calls(
            reg.impls@,
            caller@,
            es@,
        ),
    decreases es,
{
    let ghost c0 = call_views(calls@);
    let mut i: usize = 0;
    assert(es@.subrange(0, es@.len() as int) =~= es@);
    while i < es.len()
        invariant
            i <= es.len(),
            c0 + exprs_calls(reg.impls@, caller@, es@) == call_views(calls@) + exprs_calls(
                reg.impls@,
                caller@,
                es@.subrange(i as int, es@.len() as int),
            ),
        decreases es.len() - i,
    {
        let ghost rest = es@.subrange(i as int, es@.len() as int);
        assert(rest[0] == es@[i as int]);
        assert(rest.subrange(1, rest.len() as int) =~= es@.subrange(i + 1, es@.len() as int));
        proof {
            assert(decreases_to!(es => es@));
            assert(decreases_to!(es@ => es@[i as int]));
        }
        walk_expr(calls, reg, caller, &es[i]);
        i = i + 1;
    }
    assert(es@.subrange(i as int, es@.len() as int).len() == 0);
}

} // verus!
