//! The declaration walker: one field record per field of every variant.
use vstd::prelude::*;

use crate::model::{FieldDecl, ShapeToken, VariantDecl};
use crate::names::{copy_syms, Sym};

verus! {

/// A field's owning qualified path and its declared shape.
#[derive(Clone, Debug, PartialEq, Eq)]
pub struct FieldRecord {
    pub owner: Vec<Sym>,
    pub shape: Vec<ShapeToken>,
}

impl View for FieldRecord {
    type V = (Seq<Sym>, Seq<ShapeToken>);

    open spec fn view(&self) -> (Seq<Sym>, Seq<ShapeToken>) {
        (self.owner@, self.shape@)
    }
}

/// The values of a sequence of field records.
pub open spec fn field_views(v: Seq<FieldRecord>) -> Seq<(Seq<Sym>, Seq<ShapeToken>)> {
    v.map_values(|f: FieldRecord| f@)
}

/// The records of a field list, all under `owner`, in declaration order.
pub open spec fn fields_records(owner: Seq<Sym>, fs: Seq<FieldDecl>) -> Seq<
    (Seq<Sym>, Seq<ShapeToken>),
> {
    fs.map_values(|f: FieldDecl| (owner, f.shape@))
}

/// The records of every variant's fields, variant by variant.
pub open spec fn variants_records(owner: Seq<Sym>, vs: Seq<VariantDecl>) -> Seq<
    (Seq<Sym>, Seq<ShapeToken>),
>
    decreases vs.len(),
{
    if vs.len() == 0 {
        Seq::empty()
    } else {
        variants_records(owner, vs.drop_last()) + fields_records(owner, vs.last().fields@)
    }
}

/// The number of fields over all variants.
pub open spec fn total_fields(vs: Seq<VariantDecl>) -> nat
    decreases vs.len(),
{
    if vs.len() == 0 {
        0
    } else {
        total_fields(vs.drop_last()) + vs.last().fields@.len()
    }
}

fn copy_shape(v: &Vec<ShapeToken>) -> (r: Vec<ShapeToken>)
    ensures
        r@ == v@,
{
    let mut r: Vec<ShapeToken> = Vec::new();
    let mut i: usize = 0;
    while i < v.len()
        invariant
            i <= v.len(),
            r@ == v@.subrange(0, i as int),
        decreases v.len() - i,
    {
        r.push(v[i]);
        i = i + 1;
        assert(r@ =~= v@.subrange(0, i as int));
    }
    assert(r@ =~= v@);
    r
}

/// Appends one record per field, under `owner`.
pub fn insert_struct_fields(out: &mut Vec<FieldRecord>, owner: &Vec<Sym>, fs: &Vec<FieldDecl>)
    ensures
        field_views(final(out)@) == field_views(old(out)@) + fields_records(owner@, fs@),
{
    let mut i: usize = 0;
    while i < fs.len()
        invariant
            i <= fs.len(),
            field_views(out@) == field_views(old(out)@) + fields_records(
                owner@,
                fs@.subrange(0, i as int),
            ),
        decreases fs.len() - i,
    {
        let ghost before = field_views(out@);
        let rec = FieldRecord { owner: copy_syms(owner), shape: copy_shape(&fs[i].shape) };
        out.push(rec);
        i = i + 1;
        assert(field_views(out@) =~= before.push((owner@, fs@[i - 1].shape@)));
        assert(field_views(out@) =~= field_views(old(out)@) + fields_records(
            owner@,
            fs@.subrange(0, i as int),
        ));
    }
    assert(fs@.subrange(0, i as int) =~= fs@);
}

/// Appends one record per field of every variant, under `owner`.
pub fn insert_variants(out: &mut Vec<FieldRecord>, owner: &Vec<Sym>, vs: &Vec<VariantDecl>)
    ensures
        field_views(final(out)@) == field_views(old(out)@) + variants_records(owner@, vs@),
{
    let mut i: usize = 0;
    while i < vs.len()
        invariant
            i <= vs.len(),
            field_views(out@) == field_views(old(out)@) + variants_records(
                owner@,
                vs@.subrange(0, i as int),
            ),
        decreases vs.len() - i,
    {
        let ghost before = field_views(out@);
        insert_struct_fields(out, owner, &vs[i].fields);
        i = i + 1;
        assert(vs@.subrange(0, i as int).drop_last() =~= vs@.subrange(0, i - 1));
        assert(field_views(out@) =~= field_views(old(out)@) + variants_records(
            owner@,
            vs@.subrange(0, i as int),
        ));
    }
    assert(vs@.subrange(0, i as int) =~= vs@);
}

} // verus!
