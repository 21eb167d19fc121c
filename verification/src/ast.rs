//! The abstract syntax tree: types, expressions and whole programs.
//!
//! `Expr` nodes are created once by the parser and are immutable
//! afterwards; every recursive child is exclusively owned, so the tree has
//! no cycles and no sharing.

use vstd::prelude::*;

verus! {

/// The closed set of value types of the source language.
///
/// Equality is structural and there is no implicit coercion between any
/// two of these types.
#[derive(Debug, PartialEq)]
pub enum Type {
    /// Text.
    Metn,
    /// A list, parametrized by its element type.
    Siyahi(Box<Type>),
    /// A user-named type.
    Istifadeci(String),
    /// The default integer type.
    Integer,
    /// A wide integer.
    BigInteger,
    /// A narrow integer.
    LowInteger,
    /// A boolean.
    Bool,
    /// A single character, as produced by indexing into text.
    Char,
    /// The unknown type, used for empty or heterogeneous list literals.
    Any,
}

impl Clone for Type {
    /// Clones preserve the type exactly.
    fn clone(&self) -> (res: Self)
        ensures
            res == *self,
        decreases self,
    {
        match self {
            Type::Metn => Type::Metn,
            Type::Siyahi(inner) => Type::Siyahi(Box::new((**inner).clone())),
            Type::Istifadeci(name) => Type::Istifadeci(name.clone()),
            Type::Integer => Type::Integer,
            Type::BigInteger => Type::BigInteger,
            Type::LowInteger => Type::LowInteger,
            Type::Bool => Type::Bool,
            Type::Char => Type::Char,
            Type::Any => Type::Any,
        }
    }
}

/// Structural equality on `Type`: same variant, equal element types, and
/// user-named types with the same name text. Every contract that speaks of
/// type equality speaks of this relation.
pub open spec fn type_eqv(a: Type, b: Type) -> bool
    decreases a,
{
    match (a, b) {
        (Type::Metn, Type::Metn) => true,
        (Type::Siyahi(x), Type::Siyahi(y)) => type_eqv(*x, *y),
        (Type::Istifadeci(x), Type::Istifadeci(y)) => x@ == y@,
        (Type::Integer, Type::Integer) => true,
        (Type::BigInteger, Type::BigInteger) => true,
        (Type::LowInteger, Type::LowInteger) => true,
        (Type::Bool, Type::Bool) => true,
        (Type::Char, Type::Char) => true,
        (Type::Any, Type::Any) => true,
        _ => false,
    }
}

/// `type_eqv` is reflexive.
pub proof fn lemma_type_eqv_refl(a: Type)
    ensures
        type_eqv(a, a),
    decreases a,
{
    match a {
        Type::Siyahi(x) => lemma_type_eqv_refl(*x),
        _ => {}
    }
}

/// `type_eqv` is symmetric.
pub proof fn lemma_type_eqv_sym(a: Type, b: Type)
    requires
        type_eqv(a, b),
    ensures
        type_eqv(b, a),
    decreases a,
{
    match (a, b) {
        (Type::Siyahi(x), Type::Siyahi(y)) => lemma_type_eqv_sym(*x, *y),
        _ => {}
    }
}

/// `type_eqv` is transitive.
pub proof fn lemma_type_eqv_trans(a: Type, b: Type, c: Type)
    requires
        type_eqv(a, b),
        type_eqv(b, c),
    ensures
        type_eqv(a, c),
    decreases a,
{
    match (a, b, c) {
        (Type::Siyahi(x), Type::Siyahi(y), Type::Siyahi(z)) => lemma_type_eqv_trans(*x, *y, *z),
        _ => {}
    }
}

/// The closed set of built-in functions, resolved by name before any
/// user-defined function.
#[derive(Debug, Clone, Copy, PartialEq, Eq, Structural)]
pub enum BuiltInFunction {
    Print,
    Input,
    Len,
    Number,
    Sum,
}

/// One expression of the source language. Statements are expressions too:
/// a program is an ordered sequence of these.
#[derive(Debug, PartialEq)]
pub enum Expr {
    /// A plain string literal.
    String(String),
    /// An integer literal.
    Number(i64),
    /// A boolean literal.
    Bool(bool),
    /// A conditional with a then branch and an optional else branch.
    If { condition: Box<Expr>, then_branch: Vec<Expr>, else_branch: Option<Vec<Expr>> },
    /// A method call on a target expression.
    MethodCall { target: Box<Expr>, method: String, args: Vec<Expr> },
    /// A binary operator application.
    BinaryOp { left: Box<Expr>, op: String, right: Box<Expr> },
    /// A loop that binds a variable to each element of an iterable.
    Loop { var_name: String, iterable: Box<Expr>, body: Vec<Expr> },
    /// A call to a user-defined function.
    FunctionCall { name: String, args: Vec<Expr> },
    /// A return from the enclosing function definition.
    Return(Box<Expr>),
    /// A call to one of the built-in functions.
    BuiltInCall { func: BuiltInFunction, args: Vec<Expr> },
    /// A mutable variable declaration, with an optional type annotation.
    MutableDecl { name: String, typ: Option<Type>, value: Box<Expr> },
    /// A constant declaration, with an optional type annotation.
    ConstantDecl { name: String, typ: Option<Type>, value: Box<Expr> },
    /// An indexing expression.
    Index { target: Box<Expr>, index: Box<Expr> },
    /// A reference to a declared variable.
    VariableRef(String),
    /// A list literal.
    List(Vec<Expr>),
    /// A function definition; each parameter carries its name, its type and
    /// whether it is mutable.
    FunctionDef { name: String, params: Vec<(String, Type, bool)>, body: Vec<Expr> },
}

/// A whole program: the ordered sequence of its top-level expressions,
/// append-only while parsing and read-only afterwards.
#[derive(Debug)]
pub struct Program {
    pub expressions: Vec<Expr>,
}

/// Decides structural equality on `Type`, pinned to `type_eqv`.
///
/// The derived `PartialEq` exists for callers outside the library; verified
/// code goes through this function.
pub fn type_eq(a: &Type, b: &Type) -> (r: bool)
    ensures
        r == type_eqv(*a, *b),
    decreases a,
{
    match (a, b) {
        (Type::Metn, Type::Metn) => true,
        (Type::Siyahi(x), Type::Siyahi(y)) => type_eq(x, y),
        (Type::Istifadeci(x), Type::Istifadeci(y)) => *x == *y,
        (Type::Integer, Type::Integer) => true,
        (Type::BigInteger, Type::BigInteger) => true,
        (Type::LowInteger, Type::LowInteger) => true,
        (Type::Bool, Type::Bool) => true,
        (Type::Char, Type::Char) => true,
        (Type::Any, Type::Any) => true,
        _ => false,
    }
}

} // verus!

