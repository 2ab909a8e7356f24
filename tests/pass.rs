use metacollect::calls::{walk_expr, CallRecord, Target};
use metacollect::fields::FieldRecord;
use metacollect::metacollect::{Metacollect, StackNotEmpty};
use metacollect::model::{
    BinOp, Expr, ExprKind, FieldDecl, Item, ItemKind, Program, ShapeToken, UnOp, VariantDecl,
};
use metacollect::names::copy_syms;
use metacollect::ops::{assign_candidates, binary_candidates, unary_candidates, OpTrait};
use metacollect::resolve::{ImplEntry, Registry, Resolved};

const ROOT: u32 = 1;
const T: u32 = 10;
const U: u32 = 11;
const INT: u32 = 12;

fn path(p: &[u32]) -> Expr {
    Expr { ty: 0, kind: ExprKind::Path(p.to_vec()) }
}

fn var(ty: u32, name: u32) -> Expr {
    Expr { ty, kind: ExprKind::Path(vec![name]) }
}

fn lit(ty: u32) -> Expr {
    Expr { ty, kind: ExprKind::Lit }
}

fn call(ty: u32, callee: Expr, args: Vec<Expr>) -> Expr {
    Expr { ty, kind: ExprKind::Call(Box::new(callee), args) }
}

fn bin(ty: u32, op: BinOp, l: Expr, r: Expr) -> Expr {
    Expr { ty, kind: ExprKind::Binary(op, Box::new(l), Box::new(r)) }
}

fn func(name: u32, body: Vec<Expr>) -> Item {
    Item { name, kind: ItemKind::Fn(Expr { ty: 0, kind: ExprKind::Block(body) }), children: vec![] }
}

fn field(shape: Vec<ShapeToken>) -> FieldDecl {
    FieldDecl { shape }
}

fn imp(op_trait: OpTrait, lhs: u32, rhs: Option<u32>, method: u32) -> ImplEntry {
    ImplEntry { op_trait, lhs, rhs, method }
}

fn run(reg: &Registry, items: Vec<Item>) -> (Metacollect, Result<(), StackNotEmpty>) {
    let mut m = Metacollect::new();
    let r = m.visit_program(reg, &Program { root: ROOT, items });
    (m, r)
}

fn method_target(op_trait: OpTrait, method: u32) -> Target {
    Target::TraitMethod(Resolved { op_trait, method })
}

#[test]
fn struct_fields_one_record_each() {
    let s = Item {
        name: 2,
        kind: ItemKind::Struct(vec![
            field(vec![ShapeToken::Named(INT)]),
            field(vec![ShapeToken::Ref, ShapeToken::Named(T)]),
        ]),
        children: vec![],
    };
    let (m, r) = run(&Registry { impls: vec![] }, vec![s]);
    assert_eq!(r, Ok(()));
    assert_eq!(
        m.field_records,
        vec![
            FieldRecord { owner: vec![ROOT, 2], shape: vec![ShapeToken::Named(INT)] },
            FieldRecord { owner: vec![ROOT, 2], shape: vec![ShapeToken::Ref, ShapeToken::Named(T)] },
        ]
    );
    assert!(m.call_records.is_empty());
}

#[test]
fn enum_fields_counted_over_all_variants() {
    let e = Item {
        name: 3,
        kind: ItemKind::Enum(vec![
            VariantDecl {
                name: 4,
                fields: vec![
                    field(vec![ShapeToken::Tuple(2), ShapeToken::Named(T), ShapeToken::Named(U)]),
                    field(vec![ShapeToken::Named(INT)]),
                ],
            },
            VariantDecl { name: 5, fields: vec![] },
            VariantDecl { name: 6, fields: vec![field(vec![ShapeToken::Slice, ShapeToken::Named(U)])] },
        ]),
        children: vec![],
    };
    let (m, _) = run(&Registry { impls: vec![] }, vec![e]);
    assert_eq!(m.field_records.len(), 3);
    for f in &m.field_records {
        assert_eq!(f.owner, vec![ROOT, 3]);
    }
    assert_eq!(m.field_records[2].shape, vec![ShapeToken::Slice, ShapeToken::Named(U)]);
}

#[test]
fn nested_items_get_qualified_paths_and_siblings_do_not_leak() {
    let inner = Item {
        name: 21,
        kind: ItemKind::Struct(vec![field(vec![ShapeToken::Named(INT)])]),
        children: vec![],
    };
    let module = Item { name: 20, kind: ItemKind::Other, children: vec![inner] };
    let sibling = Item {
        name: 22,
        kind: ItemKind::Struct(vec![field(vec![ShapeToken::Never])]),
        children: vec![],
    };
    let (m, r) = run(&Registry { impls: vec![] }, vec![module, sibling]);
    assert_eq!(r, Ok(()));
    assert_eq!(m.field_records[0].owner, vec![ROOT, 20, 21]);
    assert_eq!(m.field_records[1].owner, vec![ROOT, 22]);
    assert!(m.itemstack.is_empty());
}

#[test]
fn balanced_traversal_leaves_empty_stack() {
    let f = func(30, vec![call(0, path(&[31]), vec![])]);
    let module = Item { name: 32, kind: ItemKind::Other, children: vec![f] };
    let (m, r) = run(&Registry { impls: vec![] }, vec![module]);
    assert_eq!(r, Ok(()));
    assert!(m.itemstack.is_empty());
    assert_eq!(m.call_records[0].caller, vec![ROOT, 32, 30]);
}

#[test]
fn unbalanced_enter_exit_is_reported() {
    let mut m = Metacollect::new();
    m.check_crate(ROOT);
    let item = Item { name: 40, kind: ItemKind::Other, children: vec![] };
    m.check_item(&item);
    m.check_item(&item);
    m.check_item_post();
    assert_eq!(m.current_path(), vec![ROOT, 40]);
    assert_eq!(m.check_crate_post(), Err(StackNotEmpty { depth: 1 }));
    assert!(m.itemstack.is_empty());
}

#[test]
fn program_on_unbalanced_state_is_reported() {
    let mut m = Metacollect::new();
    m.itemstack.push(50);
    let r = m.visit_program(&Registry { impls: vec![] }, &Program { root: ROOT, items: vec![] });
    assert_eq!(r, Err(StackNotEmpty { depth: 1 }));
    assert!(m.itemstack.is_empty());
}

#[test]
fn logical_and_or_never_recorded() {
    let reg = Registry {
        impls: vec![
            imp(OpTrait::BitAnd, T, Some(T), 60),
            imp(OpTrait::BitOr, T, Some(T), 61),
            imp(OpTrait::PartialEq, T, Some(T), 62),
        ],
    };
    let f = func(
        63,
        vec![bin(T, BinOp::And, var(T, 1), var(T, 2)), bin(T, BinOp::Or, var(T, 1), var(T, 2))],
    );
    let (m, _) = run(&reg, vec![f]);
    assert!(m.call_records.is_empty());
}

#[test]
fn logical_operands_still_walked() {
    let reg = Registry { impls: vec![imp(OpTrait::PartialEq, T, Some(T), 62)] };
    let f = func(64, vec![bin(T, BinOp::And, bin(T, BinOp::Eq, var(T, 1), var(T, 2)), lit(T))]);
    let (m, _) = run(&reg, vec![f]);
    assert_eq!(m.call_records.len(), 1);
    assert_eq!(m.call_records[0].target, method_target(OpTrait::PartialEq, 62));
}

#[test]
fn ordering_prefers_total_order() {
    let reg = Registry {
        impls: vec![imp(OpTrait::PartialOrd, T, Some(T), 70), imp(OpTrait::Ord, T, Some(T), 71)],
    };
    let f = func(72, vec![bin(T, BinOp::Lt, var(T, 1), var(T, 2))]);
    let (m, _) = run(&reg, vec![f]);
    assert_eq!(m.call_records.len(), 1);
    assert_eq!(m.call_records[0].target, method_target(OpTrait::Ord, 71));
}

#[test]
fn ordering_falls_back_to_partial_order() {
    let reg = Registry { impls: vec![imp(OpTrait::PartialOrd, T, Some(T), 70)] };
    let f = func(72, vec![bin(T, BinOp::Ge, var(T, 1), var(T, 2))]);
    let (m, _) = run(&reg, vec![f]);
    assert_eq!(m.call_records.len(), 1);
    assert_eq!(m.call_records[0].target, method_target(OpTrait::PartialOrd, 70));
    let none = Registry { impls: vec![imp(OpTrait::PartialOrd, U, Some(U), 70)] };
    let (m2, _) = run(&none, vec![func(72, vec![bin(T, BinOp::Gt, var(T, 1), var(T, 2))])]);
    assert!(m2.call_records.is_empty());
}

#[test]
fn resolver_order_is_candidate_order() {
    let reg = Registry {
        impls: vec![imp(OpTrait::PartialOrd, T, Some(T), 70), imp(OpTrait::Ord, T, Some(T), 71)],
    };
    assert_eq!(
        reg.resolve(&vec![OpTrait::Ord, OpTrait::PartialOrd], T, Some(T)),
        Some(Resolved { op_trait: OpTrait::Ord, method: 71 })
    );
    assert_eq!(
        reg.resolve(&vec![OpTrait::PartialOrd, OpTrait::Ord], T, Some(T)),
        Some(Resolved { op_trait: OpTrait::PartialOrd, method: 70 })
    );
    assert_eq!(reg.resolve(&vec![], T, Some(T)), None);
}

#[test]
fn lookup_takes_first_registered_and_matches_both_operands() {
    let reg = Registry {
        impls: vec![
            imp(OpTrait::Add, T, Some(U), 80),
            imp(OpTrait::Add, T, Some(T), 81),
            imp(OpTrait::Add, T, Some(T), 82),
            imp(OpTrait::Neg, T, None, 83),
        ],
    };
    assert_eq!(reg.lookup_trait(OpTrait::Add, T, Some(T)), Some(81));
    assert_eq!(reg.lookup_trait(OpTrait::Add, T, Some(U)), Some(80));
    assert_eq!(reg.lookup_trait(OpTrait::Neg, T, None), Some(83));
    assert_eq!(reg.lookup_trait(OpTrait::Neg, T, Some(T)), None);
    assert_eq!(reg.lookup_trait(OpTrait::Sub, T, Some(T)), None);
}

#[test]
fn add_round_trip_single_record() {
    let reg = Registry {
        impls: vec![
            imp(OpTrait::Neg, U, None, 90),
            imp(OpTrait::Add, T, Some(T), 91),
            imp(OpTrait::Mul, U, Some(U), 92),
        ],
    };
    let f = func(93, vec![bin(T, BinOp::Add, var(T, 1), var(T, 2))]);
    let (m, r) = run(&reg, vec![f]);
    assert_eq!(r, Ok(()));
    assert_eq!(
        m.call_records,
        vec![CallRecord { caller: vec![ROOT, 93], target: method_target(OpTrait::Add, 91) }]
    );
}

#[test]
fn compound_assign_falls_back_to_plain_trait() {
    let reg = Registry { impls: vec![imp(OpTrait::Add, T, Some(T), 91)] };
    let e = Expr {
        ty: 0,
        kind: ExprKind::AssignOp(BinOp::Add, Box::new(var(T, 1)), Box::new(var(T, 2))),
    };
    let (m, _) = run(&reg, vec![func(94, vec![e])]);
    assert_eq!(m.call_records[0].target, method_target(OpTrait::Add, 91));
}

#[test]
fn compound_assign_prefers_assign_trait() {
    let reg = Registry {
        impls: vec![imp(OpTrait::Shl, T, Some(INT), 95), imp(OpTrait::ShlAssign, T, Some(INT), 96)],
    };
    let e = Expr {
        ty: 0,
        kind: ExprKind::AssignOp(BinOp::Shl, Box::new(var(T, 1)), Box::new(lit(INT))),
    };
    let (m, _) = run(&reg, vec![func(94, vec![e])]);
    assert_eq!(m.call_records.len(), 1);
    assert_eq!(m.call_records[0].target, method_target(OpTrait::ShlAssign, 96));
}

#[test]
fn nested_calls_all_recorded() {
    let inner = call(INT, path(&[101]), vec![var(INT, 1)]);
    let body = call(0, path(&[100]), vec![bin(INT, BinOp::Add, inner, lit(INT))]);
    let (m, _) = run(&Registry { impls: vec![] }, vec![func(102, vec![body])]);
    assert_eq!(
        m.call_records,
        vec![
            CallRecord { caller: vec![ROOT, 102], target: Target::Fn(vec![100]) },
            CallRecord { caller: vec![ROOT, 102], target: Target::Fn(vec![101]) },
        ]
    );
}

#[test]
fn nested_calls_with_resolvable_add() {
    let reg = Registry { impls: vec![imp(OpTrait::Add, INT, Some(INT), 103)] };
    let inner = call(INT, path(&[101]), vec![var(INT, 1)]);
    let body = call(0, path(&[100]), vec![bin(INT, BinOp::Add, inner, lit(INT))]);
    let (m, _) = run(&reg, vec![func(102, vec![body])]);
    assert_eq!(m.call_records.len(), 3);
    assert_eq!(m.call_records[0].target, Target::Fn(vec![100]));
    assert_eq!(m.call_records[1].target, method_target(OpTrait::Add, 103));
    assert_eq!(m.call_records[2].target, Target::Fn(vec![101]));
    for c in &m.call_records {
        assert_eq!(c.caller, vec![ROOT, 102]);
    }
}

fn sample_program() -> (Registry, Vec<Item>) {
    let reg = Registry {
        impls: vec![imp(OpTrait::Add, T, Some(T), 91), imp(OpTrait::Index, T, Some(INT), 110)],
    };
    let s = Item {
        name: 111,
        kind: ItemKind::Struct(vec![field(vec![ShapeToken::Array, ShapeToken::Named(T)])]),
        children: vec![],
    };
    let idx = Expr { ty: 0, kind: ExprKind::Index(Box::new(var(T, 1)), Box::new(lit(INT))) };
    let f = func(112, vec![bin(T, BinOp::Add, var(T, 1), var(T, 2)), idx, call(0, path(&[7, 8]), vec![])]);
    (reg, vec![s, f])
}

#[test]
fn two_runs_identical() {
    let (reg, items) = sample_program();
    let (_, items2) = sample_program();
    let (m1, r1) = run(&reg, items);
    let (m2, r2) = run(&reg, items2);
    assert_eq!(r1, r2);
    assert_eq!(m1.field_records, m2.field_records);
    assert_eq!(m1.call_records, m2.call_records);
    assert_eq!(m1.call_records.len(), 3);
    assert_eq!(m1.call_records[1].target, method_target(OpTrait::Index, 110));
    assert_eq!(m1.call_records[2].target, Target::Fn(vec![7, 8]));
}

#[test]
fn method_calls_and_computed_callees_are_skipped() {
    let mc = Expr { ty: 0, kind: ExprKind::MethodCall(120, vec![var(T, 1), call(0, path(&[121]), vec![])]) };
    let computed = call(0, call(0, path(&[122]), vec![]), vec![]);
    let (m, _) = run(&Registry { impls: vec![] }, vec![func(123, vec![mc, computed])]);
    assert_eq!(
        m.call_records.iter().map(|c| c.target.clone()).collect::<Vec<_>>(),
        vec![Target::Fn(vec![121]), Target::Fn(vec![122])]
    );
}

#[test]
fn unary_operators_resolve_to_their_trait() {
    let reg = Registry {
        impls: vec![imp(OpTrait::Neg, T, None, 130), imp(OpTrait::Deref, U, None, 131)],
    };
    let neg = Expr { ty: T, kind: ExprKind::Unary(UnOp::Neg, Box::new(var(T, 1))) };
    let deref = Expr { ty: T, kind: ExprKind::Unary(UnOp::Deref, Box::new(var(U, 2))) };
    let not = Expr { ty: T, kind: ExprKind::Unary(UnOp::Not, Box::new(var(T, 1))) };
    let (m, _) = run(&reg, vec![func(132, vec![neg, deref, not])]);
    assert_eq!(m.call_records.len(), 2);
    assert_eq!(m.call_records[0].target, method_target(OpTrait::Neg, 130));
    assert_eq!(m.call_records[1].target, method_target(OpTrait::Deref, 131));
}

#[test]
fn walk_expr_appends_to_existing_records() {
    let reg = Registry { impls: vec![] };
    let mut calls = vec![CallRecord { caller: vec![9], target: Target::Fn(vec![9]) }];
    walk_expr(&mut calls, &reg, &vec![ROOT, 5], &call(0, path(&[6]), vec![]));
    assert_eq!(calls.len(), 2);
    assert_eq!(calls[1], CallRecord { caller: vec![ROOT, 5], target: Target::Fn(vec![6]) });
}

#[test]
fn candidate_tables() {
    assert_eq!(binary_candidates(BinOp::Add), vec![OpTrait::Add]);
    assert_eq!(binary_candidates(BinOp::Shr), vec![OpTrait::Shr]);
    assert_eq!(binary_candidates(BinOp::Ne), vec![OpTrait::PartialEq]);
    assert_eq!(binary_candidates(BinOp::Le), vec![OpTrait::Ord, OpTrait::PartialOrd]);
    assert!(binary_candidates(BinOp::And).is_empty());
    assert!(binary_candidates(BinOp::Or).is_empty());
    assert_eq!(assign_candidates(BinOp::Rem), vec![OpTrait::RemAssign, OpTrait::Rem]);
    assert_eq!(assign_candidates(BinOp::BitXor), vec![OpTrait::BitXorAssign, OpTrait::BitXor]);
    assert!(assign_candidates(BinOp::Eq).is_empty());
    assert_eq!(unary_candidates(UnOp::Not), vec![OpTrait::Not]);
    assert_eq!(unary_candidates(UnOp::Deref), vec![OpTrait::Deref]);
}

#[test]
fn empty_program_and_copy() {
    let (m, r) = run(&Registry { impls: vec![] }, vec![]);
    assert_eq!(r, Ok(()));
    assert!(m.field_records.is_empty() && m.call_records.is_empty());
    assert_eq!(copy_syms(&vec![3, 1, 2]), vec![3, 1, 2]);
}
