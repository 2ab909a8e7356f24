//! The typed program model that the pass walks.
use vstd::prelude::*;

use crate::names::Sym;

verus! {

/// A static type, as the type checker identifies it.
pub type TypeId = u32;

/// One token of a field's declared shape, written in prefix order:
/// `Ref` is followed by the shape it refers to, `Tuple(n)` by its `n` parts.
#[derive(Clone, Copy, PartialEq, Eq, Structural, Debug)]
pub enum ShapeToken {
    Named(Sym),
    Ref,
    RefMut,
    Ptr,
    Slice,
    Array,
    Tuple(u32),
    FnPtr,
    Never,
    Infer,
    Other,
}

/// A field of a record-like declaration or of a variant.
#[derive(Clone, Debug)]
pub struct FieldDecl {
    pub shape: Vec<ShapeToken>,
}

/// A variant of a tagged union, with its own field list.
#[derive(Clone, Debug)]
pub struct VariantDecl {
    pub name: Sym,
    pub fields: Vec<FieldDecl>,
}

/// Unary operators.
#[derive(Clone, Copy, PartialEq, Eq, Structural, Debug)]
pub enum UnOp {
    Deref,
    Not,
    Neg,
}

/// Binary operators, the short-circuit ones included.
#[derive(Clone, Copy, PartialEq, Eq, Structural, Debug)]
pub enum BinOp {
    Add,
    Sub,
    Mul,
    Div,
    Rem,
    And,
    Or,
    BitXor,
    BitAnd,
    BitOr,
    Shl,
    Shr,
    Eq,
    Lt,
    Le,
    Ne,
    Ge,
    Gt,
}

/// An expression together with its resolved static type.
#[derive(Debug)]
pub struct Expr {
    pub ty: TypeId,
    pub kind: ExprKind,
}

/// The shapes of expression the pass tells apart.
#[derive(Debug)]
pub enum ExprKind {
    /// A reference to a named item or local, by its path.
    Path(Vec<Sym>),
    Lit,
    /// A call: the callee, then the arguments.
    Call(Box<Expr>, Vec<Expr>),
    /// A method call: the method's name, then the receiver and the arguments.
    MethodCall(Sym, Vec<Expr>),
    Unary(UnOp, Box<Expr>),
    Binary(BinOp, Box<Expr>, Box<Expr>),
    /// A compound assignment such as `a += b`.
    AssignOp(BinOp, Box<Expr>, Box<Expr>),
    Index(Box<Expr>, Box<Expr>),
    /// A block of statements and expressions.
    Block(Vec<Expr>),
    /// Any other form, with its sub-expressions in source order.
    Other(Vec<Expr>),
}

/// What an item declares.
#[derive(Debug)]
pub enum ItemKind {
    Struct(Vec<FieldDecl>),
    Enum(Vec<VariantDecl>),
    /// A function or method, with its body.
    Fn(Expr),
    /// Modules, impls and the rest: they only hold nested items.
    Other,
}

/// A declaration, with the items nested in it in source order.
#[derive(Debug)]
pub struct Item {
    pub name: Sym,
    pub kind: ItemKind,
    pub children: Vec<Item>,
}

/// A whole type-checked program.
#[derive(Debug)]
pub struct Program {
    pub root: Sym,
    pub items: Vec<Item>,
}

} // verus!
