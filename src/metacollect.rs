//! The whole-program pass: the stack of enclosing items and the two record streams.
use vstd::prelude::*;

use crate::calls::{call_views, expr_calls, walk_expr, CallRecord, TargetView};
use crate::fields::{
    field_views, fields_records, insert_struct_fields, insert_variants, variants_records,
    FieldRecord,
};
use crate::model::{Item, ItemKind, Program, ShapeToken};
use crate::names::Sym;
use crate::resolve::{ImplEntry, Registry};

verus! {

/// The qualified path of the current position: the root, then the enclosing items.
pub open spec fn qualified(root: Sym, stack: Seq<Sym>) -> Seq<Sym> {
    seq![root] + stack
}

/// The field records of one declaration under `path`.
pub open spec fn decl_records(path: Seq<Sym>, kind: ItemKind) -> Seq<(Seq<Sym>, Seq<ShapeToken>)> {
    match kind {
        ItemKind::Struct(fs) => fields_records(path, fs@),
        ItemKind::Enum(vs) => variants_records(path, vs@),
        _ => Seq::empty(),
    }
}

/// The field records of an item nested at `path`, and of the items in it.
pub open spec fn item_fields(path: Seq<Sym>, item: Item) -> Seq<(Seq<Sym>, Seq<ShapeToken>)>
    decreases item,
{
    decl_records(path.push(item.name), item.kind) + items_fields(
        path.push(item.name),
        item.children@,
    )
}

/// The field records of a sequence of items, in source order.
pub open spec fn items_fields(path: Seq<Sym>, items: Seq<Item>) -> Seq<
    (Seq<Sym>, Seq<ShapeToken>),
>
    decreases items,
{
    if items.len() == 0 {
        Seq::empty()
    } else {
        item_fields(path, items[0]) + items_fields(path, items.subrange(1, items.len() as int))
    }
}

/// The call records of the body of an item at `path`.
pub open spec fn body_calls(impls: Seq<ImplEntry>, path: Seq<Sym>, kind: ItemKind) -> Seq<
    (Seq<Sym>, TargetView),
> {
    match kind {
        ItemKind::Fn(body) => expr_calls(impls, path, body),
        _ => Seq::empty(),
    }
}

/// The call records of an item nested at `path`, and of the items in it.
pub open spec fn item_calls(impls: Seq<ImplEntry>, path: Seq<Sym>, item: Item) -> Seq<
    (Seq<Sym>, TargetView),
>
    decreases item,
{
    body_calls(impls, path.push(item.name), item.kind) + items_calls(
        impls,
        path.push(item.name),
        item.children@,
    )
}

/// The call records of a sequence of items, in source order.
pub open spec fn items_calls(impls: Seq<ImplEntry>, path: Seq<Sym>, items: Seq<Item>) -> Seq<
    (Seq<Sym>, TargetView),
>
    decreases items,
{
    if items.len() == 0 {
        Seq::empty()
    } else {
        item_calls(impls, path, items[0]) + items_calls(
            impls,
            path,
            items.subrange(1, items.len() as int),
        )
    }
}

/// The pass finished with enclosing items still on the stack: enter and
/// exit were not paired.
#[derive(Clone, Copy, PartialEq, Eq, Structural, Debug)]
pub struct StackNotEmpty {
    pub depth: usize,
}

/// The state of one pass over one program.
pub struct Metacollect {
    pub current_crate: Sym,
    pub itemstack: Vec<Sym>,
    pub field_records: Vec<FieldRecord>,
    pub call_records: Vec<CallRecord>,
}

impl Metacollect {
    /// The qualified path of the current position.
    pub open spec fn spec_path(&self) -> Seq<Sym> {
        qualified(self.current_crate, self.itemstack@)
    }

    /// A pass with no root yet, no enclosing item and no records.
    pub fn new() -> (r: Metacollect)
        ensures
            r.current_crate == 0,
            r.itemstack@.len() == 0,
            r.field_records@.len() == 0,
            r.call_records@.len() == 0,
    {
        Metacollect {
            current_crate: 0,
            itemstack: Vec::new(),
            field_records: Vec::new(),
            call_records: Vec::new(),
        }
    }

    /// The root followed by the enclosing items.
    pub fn current_path(&self) -> (r: Vec<Sym>)
        ensures
            r@ == self.spec_path(),
    {
        let mut r: Vec<Sym> = vec![self.current_crate];
        let mut i: usize = 0;
        while i < self.itemstack.len()
            invariant
                i <= self.itemstack.len(),
                r@ == seq![self.current_crate] + self.itemstack@.subrange(0, i as int),
            decreases self.itemstack.len() - i,
        {
            r.push(self.itemstack[i]);
            i = i + 1;
            assert(r@ =~= seq![self.current_crate] + self.itemstack@.subrange(0, i as int));
        }
        assert(self.itemstack@.subrange(0, i as int) =~= self.itemstack@);
        r
    }

    /// Starts a program: its root name prefixes every path from now on.
    pub fn check_crate(&mut self, root: Sym)
        ensures
            final(self).current_crate == root,
            final(self).itemstack@ == old(self).itemstack@,
            final(self).field_records@ == old(self).field_records@,
            final(self).call_records@ == old(self).call_records@,
    {
        self.current_crate = root;
    }

    /// Ends a program. The stack is left empty; it is an error if it was not.
    pub fn check_crate_post(&mut self) -> (r: Result<(), StackNotEmpty>)
        ensures
            r is Ok <==> old(self).itemstack@.len() == 0,
            r matches Err(e) ==> e.depth == old(self).itemstack@.len(),
            final(self).itemstack@.len() == 0,
            final(self).current_crate == 0,
            final(self).field_records@ == old(self).field_records@,
            final(self).call_records@ == old(self).call_records@,
    {
        let depth = self.itemstack.len();
        self.itemstack.clear();
        self.current_crate = 0;
        if depth != 0 {
            Err(StackNotEmpty { depth })
        } else {
            Ok(())
        }
    }

    /// Enters an item, and records the fields it declares under its path.
    pub fn check_item(&mut self, item: &Item)
        ensures
            final(self).current_crate == old(self).current_crate,
            final(self).itemstack@ == old(self).itemstack@.push(item.name),
            field_views(final(self).field_records@) == field_views(old(self).field_records@)
                + decl_records(final(self).spec_path(), item.kind),
            final(self).call_records@ == old(self).call_records@,
    {
        self.itemstack.push(item.name);
        let path = self.current_path();
        match &item.kind {
            ItemKind::Struct(fs) => {
                insert_struct_fields(&mut self.field_records, &path, fs);
            },
            ItemKind::Enum(vs) => {
                insert_variants(&mut self.field_records, &path, vs);
            },
            _ => {
                assert(field_views(self.field_records@) =~= field_views(self.field_records@)
                    + decl_records(self.spec_path(), item.kind));
            },
        }
    }

    /// Leaves the innermost item.
    pub fn check_item_post(&mut self)
        ensures
            final(self).current_crate == old(self).current_crate,
            old(self).itemstack@.len() > 0 ==> final(self).itemstack@
                == old(self).itemstack@.drop_last(),
            old(self).itemstack@.len() == 0 ==> final(self).itemstack@.len() == 0,
            final(self).field_records@ == old(self).field_records@,
            final(self).call_records@ == old(self).call_records@,
    {
        let _ = self.itemstack.pop();
    }

    /// Records the calls of a function body under the current path.
    pub fn check_fn(&mut self, reg: &Registry, body: &crate::model::Expr)
        ensures
            final(self).current_crate == old(self).current_crate,
            final(self).itemstack@ == old(self).itemstack@,
            final(self).field_records@ == old(self).field_records@,
            call_views(final(self).call_records@) == call_views(old(self).call_records@)
                + expr_calls(reg.impls@, old(self).spec_path(), *body),
    {
        let path = self.current_path();
        walk_expr(&mut self.call_records, reg, &path, body);
    }
    /// Visits an item and everything nested in it, in source order, and
    /// leaves the stack as it found it.
    pub fn visit_item(&mut self, reg: &Registry, item: &Item)
        ensures
            final(self).current_crate == old(self).current_crate,
            final(self).itemstack@ == old(self).itemstack@,
            field_views(final(self).field_records@) == field_views(old(self).field_records@)
                + item_fields(old(self).spec_path(), *item),
            call_views(final(self).call_records@) == call_views(old(self).call_records@)
                + item_calls(reg.impls@, old(self).spec_path(), *item),
        decreases item,
    {
        let ghost path = self.spec_path();
        let ghost f0 = field_views(self.field_records@);
        let ghost c0 = call_views(self.call_records@);
        self.check_item(item);
        assert(self.spec_path() =~= path.push(item.name));
        let ghost f1 = field_views(self.field_records@);
        match &item.kind {
            ItemKind::Fn(body) => {
                self.check_fn(reg, body);
            },
            _ => {
                assert(call_views(self.call_records@) =~= c0 + body_calls(
                    reg.impls@,
                    path.push(item.name),
                    item.kind,
                ));
            },
        }
        let ghost c1 = call_views(self.call_records@);
        self.visit_items(reg, &item.children);
        self.check_item_post();
        assert(old(self).itemstack@.push(item.name).drop_last() =~= old(self).itemstack@);
        assert(field_views(self.field_records@) =~= f0 + item_fields(path, *item));
        assert(call_views(self.call_records@) =~= c0 + item_calls(reg.impls@, path, *item));
    }

    /// Visits a sequence of items in order.
    pub fn visit_items(&mut self, reg: &Registry, items: &Vec<Item>)
        ensures
            final(self).current_crate == old(self).current_crate,
            final(self).itemstack@ == old(self).itemstack@,
            field_views(final(self).field_records@) == field_views(old(self).field_records@)
                + items_fields(old(self).spec_path(), items@),
            call_views(final(self).call_records@) == call_views(old(self).call_records@)
                + items_calls(reg.impls@, old(self).spec_path(), items@),
        decreases items,
    {
        let ghost path = self.spec_path();
        let ghost f0 = field_views(self.field_records@);
        let ghost c0 = call_views(self.call_records@);
        let mut i: usize = 0;
        assert(items@.subrange(0, items@.len() as int) =~= items@);
        while i < items.len()
            invariant
                i <= items.len(),
                self.current_crate == old(self).current_crate,
                self.itemstack@ == old(self).itemstack@,
                path == self.spec_path(),
                f0 + items_fields(path, items@) == field_views(self.field_records@)
                    + items_fields(path, items@.subrange(i as int, items@.len() as int)),
                c0 + items_calls(reg.impls@, path, items@) == call_views(self.call_records@)
                    + items_calls(reg.impls@, path, items@.subrange(i as int, items@.len() as int)),
            decreases items.len() - i,
        {
            let ghost rest = items@.subrange(i as int, items@.len() as int);
            assert(rest[0] == items@[i as int]);
            assert(rest.subrange(1, rest.len() as int) =~= items@.subrange(
                i + 1,
                items@.len() as int,
            ));
            proof {
                assert(decreases_to!(items => items@));
                assert(decreases_to!(items@ => items@[i as int]));
            }
            self.visit_item(reg, &items[i]);
            i = i + 1;
        }
        assert(items@.subrange(i as int, items@.len() as int).len() == 0);
    }

    /// Runs the whole pass over a program: every item in source order, then
    /// the check that the stack came back empty.
    pub fn visit_program(&mut self, reg: &Registry, prog: &Program) -> (r: Result<(), StackNotEmpty>)
        ensures
            r is Ok <==> old(self).itemstack@.len() == 0,
            final(self).itemstack@.len() == 0,
            field_views(final(self).field_records@) == field_views(old(self).field_records@)
                + items_fields(qualified(prog.root, old(self).itemstack@), prog.items@),
            call_views(final(self).call_records@) == call_views(old(self).call_records@)
                + items_calls(reg.impls@, qualified(prog.root, old(self).itemstack@), prog.items@),
    {
        self.check_crate(prog.root);
        self.visit_items(reg, &prog.items);
        self.check_crate_post()
    }
}

} // verus!
