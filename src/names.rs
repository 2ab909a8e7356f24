//! Interned names and sequences of them.
use vstd::prelude::*;

verus! {

/// An interned name, as the program model hands it out.
pub type Sym = u32;

/// Copies a sequence of names.
pub fn copy_syms(v: &Vec<Sym>) -> (r: Vec<Sym>)
    ensures
        r@ == v@,
{
    let mut r: Vec<Sym> = Vec::new();
    let mut i: usize = 0;
    while i < v.len()
        invariant
            i <= v.len(),
            r@ == v@.subrange(0, i as int),
        decreases v.len() - i,
    {
        r.push(v[i]);
        i = i + 1;
        proof {
            assert(r@ =~= v@.subrange(0, i as int));
        }
    }
    proof {
        assert(r@ =~= v@);
    }
    r
}

} // verus!
