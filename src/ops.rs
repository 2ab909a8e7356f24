//! Which operator traits back each operator, in the order they are tried.
use vstd::prelude::*;

use crate::model::{BinOp, UnOp};

verus! {

/// The operator traits of the standard library that an operator may resolve to.
#[derive(Clone, Copy, PartialEq, Eq, Structural, Debug)]
pub enum OpTrait {
    Add,
    Sub,
    Mul,
    Div,
    Rem,
    BitXor,
    BitAnd,
    BitOr,
    Shl,
    Shr,
    AddAssign,
    SubAssign,
    MulAssign,
    DivAssign,
    RemAssign,
    BitXorAssign,
    BitAndAssign,
    BitOrAssign,
    ShlAssign,
    ShrAssign,
    PartialEq,
    Ord,
    PartialOrd,
    Index,
    Deref,
    Not,
    Neg,
}

/// The arithmetic or bitwise trait of an operator, if it has one.
pub open spec fn arith_trait(op: BinOp) -> Option<OpTrait> {
    match op {
        BinOp::Add => Some(OpTrait::Add),
        BinOp::Sub => Some(OpTrait::Sub),
        BinOp::Mul => Some(OpTrait::Mul),
        BinOp::Div => Some(OpTrait::Div),
        BinOp::Rem => Some(OpTrait::Rem),
        BinOp::BitXor => Some(OpTrait::BitXor),
        BinOp::BitAnd => Some(OpTrait::BitAnd),
        BinOp::BitOr => Some(OpTrait::BitOr),
        BinOp::Shl => Some(OpTrait::Shl),
        BinOp::Shr => Some(OpTrait::Shr),
        _ => None,
    }
}

/// The compound-assignment trait of an operator, if it has one.
pub open spec fn assign_trait(op: BinOp) -> Option<OpTrait> {
    match op {
        BinOp::Add => Some(OpTrait::AddAssign),
        BinOp::Sub => Some(OpTrait::SubAssign),
        BinOp::Mul => Some(OpTrait::MulAssign),
        BinOp::Div => Some(OpTrait::DivAssign),
        BinOp::Rem => Some(OpTrait::RemAssign),
        BinOp::BitXor => Some(OpTrait::BitXorAssign),
        BinOp::BitAnd => Some(OpTrait::BitAndAssign),
        BinOp::BitOr => Some(OpTrait::BitOrAssign),
        BinOp::Shl => Some(OpTrait::ShlAssign),
        BinOp::Shr => Some(OpTrait::ShrAssign),
        _ => None,
    }
}

/// Candidates for a binary operator: its own trait; equality; total order,
/// then partial order; none for the short-circuit operators.
pub open spec fn spec_binary_candidates(op: BinOp) -> Seq<OpTrait> {
    match op {
        BinOp::Eq | BinOp::Ne => seq![OpTrait::PartialEq],
        BinOp::Lt | BinOp::Le | BinOp::Ge | BinOp::Gt => seq![OpTrait::Ord, OpTrait::PartialOrd],
        BinOp::And | BinOp::Or => Seq::empty(),
        _ => seq![arith_trait(op).unwrap()],
    }
}

/// Candidates for a compound assignment: the assigning trait, then the plain one.
pub open spec fn spec_assign_candidates(op: BinOp) -> Seq<OpTrait> {
    match (assign_trait(op), arith_trait(op)) {
        (Some(a), Some(p)) => seq![a, p],
        _ => Seq::empty(),
    }
}

/// The one candidate of a unary operator.
pub open spec fn spec_unary_candidates(op: UnOp) -> Seq<OpTrait> {
    match op {
        UnOp::Deref => seq![OpTrait::Deref],
        UnOp::Not => seq![OpTrait::Not],
        UnOp::Neg => seq![OpTrait::Neg],
    }
}

fn arith_trait_of(op: BinOp) -> (r: Option<OpTrait>)
    ensures
        r == arith_trait(op),
{
    match op {
        BinOp::Add => Some(OpTrait::Add),
        BinOp::Sub => Some(OpTrait::Sub),
        BinOp::Mul => Some(OpTrait::Mul),
        BinOp::Div => Some(OpTrait::Div),
        BinOp::Rem => Some(OpTrait::Rem),
        BinOp::BitXor => Some(OpTrait::BitXor),
        BinOp::BitAnd => Some(OpTrait::BitAnd),
        BinOp::BitOr => Some(OpTrait::BitOr),
        BinOp::Shl => Some(OpTrait::Shl),
        BinOp::Shr => Some(OpTrait::Shr),
        _ => None,
    }
}

fn assign_trait_of(op: BinOp) -> (r: Option<OpTrait>)
    ensures
        r == assign_trait(op),
{
    match op {
        BinOp::Add => Some(OpTrait::AddAssign),
        BinOp::Sub => Some(OpTrait::SubAssign),
        BinOp::Mul => Some(OpTrait::MulAssign),
        BinOp::Div => Some(OpTrait::DivAssign),
        BinOp::Rem => Some(OpTrait::RemAssign),
        BinOp::BitXor => Some(OpTrait::BitXorAssign),
        BinOp::BitAnd => Some(OpTrait::BitAndAssign),
        BinOp::BitOr => Some(OpTrait::BitOrAssign),
        BinOp::Shl => Some(OpTrait::ShlAssign),
        BinOp::Shr => Some(OpTrait::ShrAssign),
        _ => None,
    }
}

/// The traits to try for a binary operator, first match wins.
pub fn binary_candidates(op: BinOp) -> (r: Vec<OpTrait>)
    ensures
        r@ == spec_binary_candidates(op),
{
    match op {
        BinOp::Eq | BinOp::Ne => vec![OpTrait::PartialEq],
        BinOp::Lt | BinOp::Le | BinOp::Ge | BinOp::Gt => vec![OpTrait::Ord, OpTrait::PartialOrd],
        BinOp::And | BinOp::Or => Vec::new(),
        _ => {
            let t = arith_trait_of(op);
            match t {
                Some(t) => vec![t],
                None => Vec::new(),
            }
        },
    }
}

/// The traits to try for a compound assignment, first match wins.
pub fn assign_candidates(op: BinOp) -> (r: Vec<OpTrait>)
    ensures
        r@ == spec_assign_candidates(op),
{
    match (assign_trait_of(op), arith_trait_of(op)) {
        (Some(a), Some(p)) => vec![a, p],
        _ => Vec::new(),
    }
}

/// The trait to try for a unary operator.
pub fn unary_candidates(op: UnOp) -> (r: Vec<OpTrait>)
    ensures
        r@ == spec_unary_candidates(op),
{
    match op {
        UnOp::Deref => vec![OpTrait::Deref],
        UnOp::Not => vec![OpTrait::Not],
        UnOp::Neg => vec![OpTrait::Neg],
    }
}

} // verus!
