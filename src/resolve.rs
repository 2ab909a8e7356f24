//! Looks operator traits up in a registry of implementations.
use vstd::prelude::*;

use crate::model::TypeId;
use crate::names::Sym;
use crate::ops::OpTrait;

verus! {

/// One implementation of an operator trait: for the left operand's type, and
/// for the right operand's type where the trait takes one.
#[derive(Clone, Copy, Debug)]
pub struct ImplEntry {
    pub op_trait: OpTrait,
    pub lhs: TypeId,
    pub rhs: Option<TypeId>,
    pub method: Sym,
}

/// A resolved operator: the trait and the method its implementation supplies.
#[derive(Clone, Copy, PartialEq, Eq, Structural, Debug)]
pub struct Resolved {
    pub op_trait: OpTrait,
    pub method: Sym,
}

/// The implementations known for the program, in registration order.
#[derive(Clone, Debug)]
pub struct Registry {
    pub impls: Vec<ImplEntry>,
}

pub open spec fn entry_matches(e: ImplEntry, t: OpTrait, lhs: TypeId, rhs: Option<TypeId>) -> bool {
    e.op_trait == t && e.lhs == lhs && e.rhs == rhs
}

/// The method of the first implementation of `t` for the operand types.
pub open spec fn lookup(impls: Seq<ImplEntry>, t: OpTrait, lhs: TypeId, rhs: Option<TypeId>) -> Option<Sym>
    decreases impls.len(),
{
    if impls.len() == 0 {
        None
    } else if entry_matches(impls[0], t, lhs, rhs) {
        Some(impls[0].method)
    } else {
        lookup(impls.subrange(1, impls.len() as int), t, lhs, rhs)
    }
}

/// The first candidate, in order, that is implemented for the operand types.
pub open spec fn resolve_first(
    impls: Seq<ImplEntry>,
    cands: Seq<OpTrait>,
    lhs: TypeId,
    rhs: Option<TypeId>,
) -> Option<Resolved>
    decreases cands.len(),
{
    if cands.len() == 0 {
        None
    } else {
        match lookup(impls, cands[0], lhs, rhs) {
            Some(m) => Some(Resolved { op_trait: cands[0], method: m }),
            None => resolve_first(impls, cands.subrange(1, cands.len() as int), lhs, rhs),
        }
    }
}

fn option_eq(a: Option<TypeId>, b: Option<TypeId>) -> (r: bool)
    ensures
        r == (a == b),
{
    match (a, b) {
        (Some(x), Some(y)) => x == y,
        (None, None) => true,
        _ => false,
    }
}

impl Registry {
    /// Finds the first implementation of `t` for the operand types.
    pub fn lookup_trait(&self, t: OpTrait, lhs: TypeId, rhs: Option<TypeId>) -> (r: Option<Sym>)
        ensures
            r == lookup(self.impls@, t, lhs, rhs),
    {
        let mut i: usize = 0;
        assert(self.impls@.subrange(0, self.impls@.len() as int) =~= self.impls@);
        while i < self.impls.len()
            invariant
                i <= self.impls.len(),
                lookup(self.impls@, t, lhs, rhs) == lookup(
                    self.impls@.subrange(i as int, self.impls@.len() as int),
                    t,
                    lhs,
                    rhs,
                ),
            decreases self.impls.len() - i,
        {
            let e = self.impls[i];
            let ghost rest = self.impls@.subrange(i as int, self.impls@.len() as int);
            if e.op_trait == t && e.lhs == lhs && option_eq(e.rhs, rhs) {
                assert(rest[0] == e);
                return Some(e.method);
            }
            assert(rest.subrange(1, rest.len() as int) =~= self.impls@.subrange(
                i + 1,
                self.impls@.len() as int,
            ));
            i = i + 1;
        }
        assert(self.impls@.subrange(i as int, self.impls@.len() as int).len() == 0);
        None
    }

    /// Tries the candidates in order and stops at the first one implemented
    /// for the operand types.
    pub fn resolve(&self, cands: &Vec<OpTrait>, lhs: TypeId, rhs: Option<TypeId>) -> (r: Option<
        Resolved,
    >)
        ensures
            r == resolve_first(self.impls@, cands@, lhs, rhs),
    {
        let mut i: usize = 0;
        assert(cands@.subrange(0, cands@.len() as int) =~= cands@);
        while i < cands.len()
            invariant
                i <= cands.len(),
                resolve_first(self.impls@, cands@, lhs, rhs) == resolve_first(
                    self.impls@,
                    cands@.subrange(i as int, cands@.len() as int),
                    lhs,
                    rhs,
                ),
            decreases cands.len() - i,
        {
            let t = cands[i];
            let ghost rest = cands@.subrange(i as int, cands@.len() as int);
            assert(rest[0] == t);
            match self.lookup_trait(t, lhs, rhs) {
                Some(m) => {
                    return Some(Resolved { op_trait: t, method: m });
                },
                None => {},
            }
            assert(rest.subrange(1, rest.len() as int) =~= cands@.subrange(
                i + 1,
                cands@.len() as int,
            ));
            i = i + 1;
        }
        assert(cands@.subrange(i as int, cands@.len() as int).len() == 0);
        None
    }
}

} // verus!
