//! The specification of the parser: a mathematical mirror of the whole
//! recursive-descent grammar.
//!
//! Trees are mirrored at the view level (`ExprV`, with character
//! sequences for every name and text), because distinct runs of the
//! parser allocate distinct strings; `expr_view` maps a built tree to its
//! view. Each parse function is pinned to its mirror: it succeeds exactly
//! when the mirror accepts the tokens at the cursor, and then the built
//! tree's view and the new cursor are exactly the mirror's.
//!
//! The mirrors guard each continuation on cursor progress; the grammar
//! always advances, so the guards only make well-foundedness structural.

use vstd::prelude::*;

use crate::ast::{BuiltInFunction, Expr, Type};
use crate::token::Token;
use crate::transpiler::builtin::spec_match_builtin;
use crate::transpiler::context::contains_name;
use super::expressions::spec_precedence;
use super::types::spec_parse_type;

verus! {

/// The view of an expression tree: the same shape, with every string as
/// its character sequence.
pub enum ExprV {
    String(Seq<char>),
    Number(i64),
    Bool(bool),
    If { condition: Box<ExprV>, then_branch: Seq<ExprV>, else_branch: Option<Seq<ExprV>> },
    MethodCall { target: Box<ExprV>, method: Seq<char>, args: Seq<ExprV> },
    BinaryOp { left: Box<ExprV>, op: Seq<char>, right: Box<ExprV> },
    Loop { var_name: Seq<char>, iterable: Box<ExprV>, body: Seq<ExprV> },
    FunctionCall { name: Seq<char>, args: Seq<ExprV> },
    Return(Box<ExprV>),
    BuiltInCall { func: BuiltInFunction, args: Seq<ExprV> },
    MutableDecl { name: Seq<char>, typ: Option<Type>, value: Box<ExprV> },
    ConstantDecl { name: Seq<char>, typ: Option<Type>, value: Box<ExprV> },
    Index { target: Box<ExprV>, index: Box<ExprV> },
    VariableRef(Seq<char>),
    List(Seq<ExprV>),
    FunctionDef { name: Seq<char>, params: Seq<(Seq<char>, Type, bool)>, body: Seq<ExprV> },
}

/// The view of an expression.
pub open spec fn expr_view(e: Expr) -> ExprV
    decreases e, 0int,
{
    match e {
        Expr::String(s) => ExprV::String(s@),
        Expr::Number(n) => ExprV::Number(n),
        Expr::Bool(b) => ExprV::Bool(b),
        Expr::If { condition, then_branch, else_branch } => ExprV::If {
            condition: Box::new(expr_view(*condition)),
            then_branch: exprs_view_from(then_branch@, 0),
            else_branch: match else_branch {
                None => None,
                Some(es) => Some(exprs_view_from(es@, 0)),
            },
        },
        Expr::MethodCall { target, method, args } => ExprV::MethodCall {
            target: Box::new(expr_view(*target)),
            method: method@,
            args: exprs_view_from(args@, 0),
        },
        Expr::BinaryOp { left, op, right } => ExprV::BinaryOp {
            left: Box::new(expr_view(*left)),
            op: op@,
            right: Box::new(expr_view(*right)),
        },
        Expr::Loop { var_name, iterable, body } => ExprV::Loop {
            var_name: var_name@,
            iterable: Box::new(expr_view(*iterable)),
            body: exprs_view_from(body@, 0),
        },
        Expr::FunctionCall { name, args } => ExprV::FunctionCall {
            name: name@,
            args: exprs_view_from(args@, 0),
        },
        Expr::Return(inner) => ExprV::Return(Box::new(expr_view(*inner))),
        Expr::BuiltInCall { func, args } => ExprV::BuiltInCall {
            func,
            args: exprs_view_from(args@, 0),
        },
        Expr::MutableDecl { name, typ, value } => ExprV::MutableDecl {
            name: name@,
            typ,
            value: Box::new(expr_view(*value)),
        },
        Expr::ConstantDecl { name, typ, value } => ExprV::ConstantDecl {
            name: name@,
            typ,
            value: Box::new(expr_view(*value)),
        },
        Expr::Index { target, index } => ExprV::Index {
            target: Box::new(expr_view(*target)),
            index: Box::new(expr_view(*index)),
        },
        Expr::VariableRef(name) => ExprV::VariableRef(name@),
        Expr::List(items) => ExprV::List(exprs_view_from(items@, 0)),
        Expr::FunctionDef { name, params, body } => ExprV::FunctionDef {
            name: name@,
            params: params_view_from(params@, 0),
            body: exprs_view_from(body@, 0),
        },
    }
}

/// The views of a sequence of expressions, from index `i`.
pub open spec fn exprs_view_from(es: Seq<Expr>, i: int) -> Seq<ExprV>
    decreases es, 0int, es.len() - i,
{
    if i < 0 || i >= es.len() {
        Seq::empty()
    } else {
        exprs_view_from(es, i + 1).insert(0, expr_view(es[i]))
    }
}

/// The views of a parameter list, from index `i`.
pub open spec fn params_view_from(ps: Seq<(String, Type, bool)>, i: int) -> Seq<
    (Seq<char>, Type, bool),
>
    decreases ps.len() - i,
{
    if i < 0 || i >= ps.len() {
        Seq::empty()
    } else {
        params_view_from(ps, i + 1).insert(0, (ps[i].0@, ps[i].1, ps[i].2))
    }
}

/// Shifting by one: the views of a sequence with an element inserted in
/// front, read from the next index, are the views of the original.
proof fn lemma_evf_shift(big: Seq<Expr>, small: Seq<Expr>, i: int)
    requires
        big.len() == small.len() + 1,
        0 <= i <= small.len(),
        forall|k: int| i <= k < small.len() ==> big[k + 1] == small[k],
    ensures
        exprs_view_from(big, i + 1) == exprs_view_from(small, i),
    decreases small.len() - i,
{
    if i < small.len() {
        lemma_evf_shift(big, small, i + 1);
    }
}

/// Inserting an element in front inserts its view in front.
pub proof fn lemma_exprs_view_insert0(pre: Seq<Expr>, x: Expr)
    ensures
        exprs_view_from(pre.insert(0, x), 0) == exprs_view_from(pre, 0).insert(0, expr_view(x)),
{
    let big = pre.insert(0, x);
    assert(big[0] == x);
    assert forall|k: int| 0 <= k < pre.len() implies big[k + 1] == pre[k] by {}
    lemma_evf_shift(big, pre, 0);
}

proof fn lemma_pvf_shift(big: Seq<(String, Type, bool)>, small: Seq<(String, Type, bool)>, i: int)
    requires
        big.len() == small.len() + 1,
        0 <= i <= small.len(),
        forall|k: int| i <= k < small.len() ==> big[k + 1] == small[k],
    ensures
        params_view_from(big, i + 1) == params_view_from(small, i),
    decreases small.len() - i,
{
    if i < small.len() {
        lemma_pvf_shift(big, small, i + 1);
    }
}

/// Inserting a parameter in front inserts its view in front.
pub proof fn lemma_params_view_insert0(pre: Seq<(String, Type, bool)>, x: (String, Type, bool))
    ensures
        params_view_from(pre.insert(0, x), 0) == params_view_from(pre, 0).insert(
            0,
            (x.0@, x.1, x.2),
        ),
{
    let big = pre.insert(0, x);
    assert(big[0] == x);
    assert forall|k: int| 0 <= k < pre.len() implies big[k + 1] == pre[k] by {}
    lemma_pvf_shift(big, pre, 0);
}

proof fn lemma_evf_push_from(pre: Seq<Expr>, x: Expr, i: int)
    requires
        0 <= i <= pre.len(),
    ensures
        exprs_view_from(pre.push(x), i) == exprs_view_from(pre, i).push(expr_view(x)),
    decreases pre.len() - i,
{
    let big = pre.push(x);
    if i == pre.len() {
        assert(exprs_view_from(big, i + 1) =~= Seq::<ExprV>::empty());
        assert(exprs_view_from(big, i) =~= exprs_view_from(pre, i).push(expr_view(x)));
    } else {
        lemma_evf_push_from(pre, x, i + 1);
        assert(big[i] == pre[i]);
        assert(exprs_view_from(big, i) =~= exprs_view_from(pre, i).push(expr_view(x)));
    }
}

/// Appending an element appends its view.
pub proof fn lemma_exprs_view_push(pre: Seq<Expr>, x: Expr)
    ensures
        exprs_view_from(pre.push(x), 0) == exprs_view_from(pre, 0).push(expr_view(x)),
{
    lemma_evf_push_from(pre, x, 0);
}

/// The usage walk over a view tree: the used-name list after recording
/// every variable reference the recorder visits, in walk order.
pub open spec fn spec_record_v(e: ExprV, used: Seq<Seq<char>>) -> Seq<Seq<char>>
    decreases e, 0int,
{
    match e {
        ExprV::VariableRef(n) => used.push(n),
        ExprV::FunctionCall { name, args } => spec_record_seq(args, 0, used),
        ExprV::BuiltInCall { func, args } => spec_record_seq(args, 0, used),
        ExprV::List(args) => spec_record_seq(args, 0, used),
        ExprV::MethodCall { target, method, args } => spec_record_seq(
            args,
            0,
            spec_record_v(*target, used),
        ),
        ExprV::Return(inner) => spec_record_v(*inner, used),
        ExprV::Index { target, index } => spec_record_v(*target, used),
        ExprV::MutableDecl { name, typ, value } => spec_record_v(*value, used),
        ExprV::ConstantDecl { name, typ, value } => spec_record_v(*value, used),
        _ => used,
    }
}

/// The usage walk over a sequence of views, from index `i`.
pub open spec fn spec_record_seq(es: Seq<ExprV>, i: int, used: Seq<Seq<char>>) -> Seq<Seq<char>>
    decreases es, 0int, es.len() - i,
{
    if i < 0 || i >= es.len() {
        used
    } else {
        spec_record_seq(es, i + 1, spec_record_v(es[i], used))
    }
}

proof fn lemma_record_seq_shift(big: Seq<ExprV>, small: Seq<ExprV>, i: int, u: Seq<Seq<char>>)
    requires
        big.len() == small.len() + 1,
        0 <= i <= small.len(),
        forall|k: int| i <= k < small.len() ==> big[k + 1] == small[k],
    ensures
        spec_record_seq(big, i + 1, u) == spec_record_seq(small, i, u),
    decreases small.len() - i,
{
    if i < small.len() {
        lemma_record_seq_shift(big, small, i + 1, spec_record_v(small[i], u));
    }
}

/// The usage walk over a sequence with an element inserted in front
/// first records that element.
pub proof fn lemma_record_seq_insert0(pre: Seq<ExprV>, x: ExprV, u: Seq<Seq<char>>)
    ensures
        spec_record_seq(pre.insert(0, x), 0, u) == spec_record_seq(pre, 0, spec_record_v(x, u)),
{
    let big = pre.insert(0, x);
    assert(big[0] == x);
    assert forall|k: int| 0 <= k < pre.len() implies big[k + 1] == pre[k] by {}
    lemma_record_seq_shift(big, pre, 0, spec_record_v(x, u));
}

/// An expression parsed from the lowest precedence level.
pub open spec fn spec_p_expression(tokens: Seq<Token>, i: int, inf: bool) -> Option<(ExprV, int)>
    decreases tokens.len() - i, 5int,
{
    spec_p_binop(tokens, i, inf, 1)
}

/// Precedence climbing: one primary expression, then operators of at
/// least the given precedence, the right operand parsed one level
/// tighter, chaining left-associatively.
pub open spec fn spec_p_binop(tokens: Seq<Token>, i: int, inf: bool, min_prec: int) -> Option<
    (ExprV, int),
>
    decreases tokens.len() - i, 4int,
{
    match spec_p_primary(tokens, i, inf) {
        None => None,
        Some((left, j)) => if j <= i || j > tokens.len() {
            None
        } else {
            spec_binop_climb(tokens, j, inf, min_prec, left)
        },
    }
}

/// The operator climb after a parsed left operand.
pub open spec fn spec_binop_climb(
    tokens: Seq<Token>,
    j: int,
    inf: bool,
    min_prec: int,
    left: ExprV,
) -> Option<(ExprV, int)>
    decreases tokens.len() - j, 3int,
{
    if j < 0 || j >= tokens.len() {
        Some((left, j))
    } else {
        match tokens[j] {
            Token::Operator(op) => {
                let prec = spec_precedence(op@);
                if prec < min_prec {
                    Some((left, j))
                } else {
                    match spec_p_binop(tokens, j + 1, inf, prec + 1) {
                        None => None,
                        Some((right, k)) => if k <= j || k > tokens.len() {
                            None
                        } else {
                            spec_binop_climb(
                                tokens,
                                k,
                                inf,
                                min_prec,
                                ExprV::BinaryOp {
                                    left: Box::new(left),
                                    op: op@,
                                    right: Box::new(right),
                                },
                            )
                        },
                    }
                }
            },
            _ => Some((left, j)),
        }
    }
}

/// One primary expression: a literal, a conditional, a return, a
/// function definition, a list literal, a loop, or an identifier-led
/// form; a string literal or an identifier form may continue with a
/// method chain. Index nodes are built only directly on a bare
/// identifier, never on a call or chain result.
pub open spec fn spec_p_primary(tokens: Seq<Token>, i: int, inf: bool) -> Option<(ExprV, int)>
    decreases tokens.len() - i, 2int,
{
    if i < 0 || i >= tokens.len() {
        None
    } else {
        match tokens[i] {
            Token::StringLiteral(s) => spec_postfix(tokens, i + 1, ExprV::String(s@)),
            Token::Conditional => spec_p_if(tokens, i),
            Token::Return => spec_p_return(tokens, i, inf),
            Token::FunctionDef => spec_p_fndef(tokens, i),
            Token::Number(v) => Some((ExprV::Number(v), i + 1)),
            Token::ListStart => spec_p_list(tokens, i + 1),
            Token::Loop => spec_p_loop(tokens, i),
            Token::Identifier(id) => if i + 1 < tokens.len() && tokens[i + 1] is LParen {
                if spec_match_builtin(id@) is Some {
                    spec_p_call(tokens, i + 1, id@)
                } else {
                    match spec_args_multi(tokens, i + 2) {
                        None => None,
                        Some((args, j)) => Some((ExprV::FunctionCall { name: id@, args }, j)),
                    }
                }
            } else {
                match spec_index_chain(tokens, i + 1, inf, ExprV::VariableRef(id@)) {
                    None => None,
                    Some((e1, j1)) => if j1 <= i || j1 > tokens.len() {
                        None
                    } else {
                        spec_postfix(tokens, j1, e1)
                    },
                }
            },
            _ => None,
        }
    }
}

/// The chain of bracketed indexes directly after a bare identifier.
pub open spec fn spec_index_chain(tokens: Seq<Token>, j: int, inf: bool, acc: ExprV) -> Option<
    (ExprV, int),
>
    decreases tokens.len() - j, 6int,
{
    if 0 <= j < tokens.len() && tokens[j] is ListStart {
        match spec_p_expression(tokens, j + 1, inf) {
            None => None,
            Some((ix, k)) => if k <= j {
                None
            } else if k < tokens.len() && tokens[k] is ListEnd {
                spec_index_chain(
                    tokens,
                    k + 1,
                    inf,
                    ExprV::Index { target: Box::new(acc), index: Box::new(ix) },
                )
            } else {
                None
            },
        }
    } else {
        Some((acc, j))
    }
}

/// The chain of method calls after a parsed primary.
pub open spec fn spec_postfix(tokens: Seq<Token>, j: int, acc: ExprV) -> Option<(ExprV, int)>
    decreases tokens.len() - j, 6int,
{
    if 0 <= j < tokens.len() && (tokens[j] matches Token::Operator(op) && op@ == "."@) {
        if j + 1 < tokens.len() && tokens[j + 1] is Identifier && j + 2 < tokens.len() && tokens[j
            + 2] is LParen {
            let m = tokens[j + 1]->Identifier_0;
            match spec_args_multi(tokens, j + 3) {
                None => None,
                Some((args, k)) => if k <= j || k > tokens.len() {
                    None
                } else {
                    spec_postfix(
                        tokens,
                        k,
                        ExprV::MethodCall { target: Box::new(acc), method: m@, args },
                    )
                },
            }
        } else {
            None
        }
    } else {
        Some((acc, j))
    }
}

/// A parenthesized, comma-separated argument list up to the closing
/// parenthesis (the comma is optional); ends after the parenthesis.
pub open spec fn spec_args_multi(tokens: Seq<Token>, j: int) -> Option<(Seq<ExprV>, int)>
    decreases tokens.len() - j, 6int,
{
    if j < 0 || j >= tokens.len() {
        None
    } else if tokens[j] is RParen {
        Some((Seq::empty(), j + 1))
    } else {
        match spec_p_expression(tokens, j, false) {
            None => None,
            Some((e, k)) => if k <= j || k > tokens.len() {
                None
            } else {
                let k2 = if k < tokens.len() && tokens[k] is Comma {
                    k + 1
                } else {
                    k
                };
                match spec_args_multi(tokens, k2) {
                    None => None,
                    Some((rest, end)) => Some((rest.insert(0, e), end)),
                }
            },
        }
    }
}

/// A call's parenthesized argument (this grammar takes at most one),
/// resolved against the built-in table.
pub open spec fn spec_p_call(tokens: Seq<Token>, j: int, name: Seq<char>) -> Option<(ExprV, int)>
    decreases tokens.len() - j, 6int,
{
    if !(0 <= j < tokens.len() && tokens[j] is LParen) {
        None
    } else if j + 1 >= tokens.len() {
        None
    } else if tokens[j + 1] is RParen {
        Some((spec_call_node(name, Seq::empty()), j + 2))
    } else {
        match spec_p_expression(tokens, j + 1, false) {
            None => None,
            Some((a, k)) => if k <= j {
                None
            } else if k < tokens.len() && tokens[k] is RParen {
                Some((spec_call_node(name, Seq::empty().push(a)), k + 1))
            } else {
                None
            },
        }
    }
}

/// The node a named call builds: a built-in call for a built-in name, a
/// user function call otherwise.
pub open spec fn spec_call_node(name: Seq<char>, args: Seq<ExprV>) -> ExprV {
    match spec_match_builtin(name) {
        Some(func) => ExprV::BuiltInCall { func, args },
        None => ExprV::FunctionCall { name, args },
    }
}

/// A return expression; legal only inside a function definition.
pub open spec fn spec_p_return(tokens: Seq<Token>, i: int, inf: bool) -> Option<(ExprV, int)>
    decreases tokens.len() - i, 1int,
{
    if !inf {
        None
    } else if i < 0 || i >= tokens.len() {
        None
    } else {
        match spec_p_expression(tokens, i + 1, true) {
            None => None,
            Some((e, j)) => Some((ExprV::Return(Box::new(e)), j)),
        }
    }
}

/// A list literal's elements after the opening bracket, comma-separated
/// up to the closing bracket.
pub open spec fn spec_list_items(tokens: Seq<Token>, j: int) -> Option<(Seq<ExprV>, int)>
    decreases tokens.len() - j, 6int,
{
    if j < 0 || j >= tokens.len() {
        None
    } else if tokens[j] is ListEnd {
        Some((Seq::empty(), j + 1))
    } else {
        match spec_p_expression(tokens, j, false) {
            None => None,
            Some((e, k)) => if k <= j {
                None
            } else if k < tokens.len() && tokens[k] is Comma {
                match spec_list_items(tokens, k + 1) {
                    None => None,
                    Some((rest, end)) => Some((rest.insert(0, e), end)),
                }
            } else if k < tokens.len() && tokens[k] is ListEnd {
                match spec_list_items(tokens, k) {
                    None => None,
                    Some((rest, end)) => Some((rest.insert(0, e), end)),
                }
            } else {
                None
            },
        }
    }
}

/// A list literal after the opening bracket.
pub open spec fn spec_p_list(tokens: Seq<Token>, j: int) -> Option<(ExprV, int)>
    decreases tokens.len() - j, 7int,
{
    match spec_list_items(tokens, j) {
        None => None,
        Some((elems, end)) => Some((ExprV::List(elems), end)),
    }
}

/// A braced statement list with optional semicolons; a tolerant block
/// accepts the end of input as a close, a strict one rejects it.
pub open spec fn spec_block(tokens: Seq<Token>, j: int, inf: bool, strict: bool) -> Option<
    (Seq<ExprV>, int),
>
    decreases tokens.len() - j, 6int,
{
    if j < 0 || j >= tokens.len() {
        if strict {
            None
        } else {
            Some((Seq::empty(), j))
        }
    } else if tokens[j] is RBrace {
        Some((Seq::empty(), j + 1))
    } else {
        match spec_p_expression(tokens, j, inf) {
            None => None,
            Some((e, k)) => if k <= j || k > tokens.len() {
                None
            } else {
                let k2 = if k < tokens.len() && tokens[k] is Semicolon {
                    k + 1
                } else {
                    k
                };
                match spec_block(tokens, k2, inf, strict) {
                    None => None,
                    Some((rest, end)) => Some((rest.insert(0, e), end)),
                }
            },
        }
    }
}

/// A conditional at the conditional keyword: a condition, a braced then
/// branch, and an optional else branch that is either another
/// conditional or a braced block.
pub open spec fn spec_p_if(tokens: Seq<Token>, i: int) -> Option<(ExprV, int)>
    decreases tokens.len() - i, 1int,
{
    if !(0 <= i < tokens.len() && tokens[i] is Conditional) {
        None
    } else {
        match spec_p_expression(tokens, i + 1, false) {
            None => None,
            Some((cond, j)) => if j <= i {
                None
            } else if j < tokens.len() && tokens[j] is LBrace {
                match spec_block(tokens, j + 1, false, false) {
                    None => None,
                    Some((thn, k)) => if k <= j || k > tokens.len() {
                        None
                    } else if k < tokens.len() && tokens[k] is Else {
                        let after = k + 1;
                        if after < tokens.len() && tokens[after] is Conditional {
                            match spec_p_if(tokens, after) {
                                None => None,
                                Some((elf, m)) => Some(
                                    (
                                        ExprV::If {
                                            condition: Box::new(cond),
                                            then_branch: thn,
                                            else_branch: Some(Seq::empty().push(elf)),
                                        },
                                        m,
                                    ),
                                ),
                            }
                        } else if after < tokens.len() && tokens[after] is LBrace {
                            match spec_block(tokens, after + 1, false, false) {
                                None => None,
                                Some((els, m)) => Some(
                                    (
                                        ExprV::If {
                                            condition: Box::new(cond),
                                            then_branch: thn,
                                            else_branch: Some(els),
                                        },
                                        m,
                                    ),
                                ),
                            }
                        } else {
                            None
                        }
                    } else {
                        Some(
                            (
                                ExprV::If {
                                    condition: Box::new(cond),
                                    then_branch: thn,
                                    else_branch: None,
                                },
                                k,
                            ),
                        )
                    },
                }
            } else {
                None
            },
        }
    }
}

/// A loop at the loop keyword: the loop variable, the iterable, and a
/// braced body.
pub open spec fn spec_p_loop(tokens: Seq<Token>, i: int) -> Option<(ExprV, int)>
    decreases tokens.len() - i, 1int,
{
    if i < 0 || i >= tokens.len() {
        None
    } else if !(i + 1 < tokens.len() && tokens[i + 1] is Identifier) {
        None
    } else {
        let v = tokens[i + 1]->Identifier_0;
        match spec_p_expression(tokens, i + 2, false) {
            None => None,
            Some((it, j)) => if j <= i {
                None
            } else if j < tokens.len() && tokens[j] is LBrace {
                match spec_block(tokens, j + 1, true, false) {
                    None => None,
                    Some((b, k)) => Some(
                        (
                            ExprV::Loop {
                                var_name: v@,
                                iterable: Box::new(it),
                                body: b,
                            },
                            k,
                        ),
                    ),
                }
            } else {
                None
            },
        }
    }
}

/// A function definition's parameter list, from inside the parentheses:
/// each parameter optionally marked constant or mutable, with a name, a
/// colon and a type keyword; mutability holds exactly when the
/// mutable-declaration keyword prefixed the parameter.
pub open spec fn spec_params(tokens: Seq<Token>, j: int) -> Option<
    (Seq<(Seq<char>, Type, bool)>, int),
>
    decreases tokens.len() - j, 0int,
{
    if j < 0 || j >= tokens.len() {
        None
    } else if tokens[j] is RParen {
        Some((Seq::empty(), j))
    } else {
        let head_consumes = if tokens[j] is ConstantDecl || tokens[j] is MutableDecl {
            1int
        } else if tokens[j] is Identifier {
            0int
        } else {
            -1int
        };
        if head_consumes < 0 {
            None
        } else {
            let is_mut = tokens[j] is MutableDecl;
            let k = j + head_consumes;
            if k < tokens.len() && tokens[k] is Identifier && k + 1 < tokens.len() && tokens[k
                + 1] is Colon && k + 2 < tokens.len() && tokens[k + 2] is TypeName {
                let pn = tokens[k]->Identifier_0;
                let t = tokens[k + 2]->TypeName_0;
                let sep = k + 3;
                if sep < tokens.len() && tokens[sep] is Comma {
                    match spec_params(tokens, sep + 1) {
                        None => None,
                        Some((rest, end)) => Some((rest.insert(0, (pn@, t, is_mut)), end)),
                    }
                } else if sep < tokens.len() && tokens[sep] is RParen {
                    match spec_params(tokens, sep) {
                        None => None,
                        Some((rest, end)) => Some((rest.insert(0, (pn@, t, is_mut)), end)),
                    }
                } else {
                    None
                }
            } else {
                None
            }
        }
    }
}

/// A function definition at its keyword: the name, the parameter list,
/// and a braced body parsed with return legal.
pub open spec fn spec_p_fndef(tokens: Seq<Token>, i: int) -> Option<(ExprV, int)>
    decreases tokens.len() - i, 1int,
{
    if i < 0 || i >= tokens.len() {
        None
    } else if !(i + 1 < tokens.len() && tokens[i + 1] is Identifier) {
        None
    } else if !(i + 2 < tokens.len() && tokens[i + 2] is LParen) {
        None
    } else {
        let n = tokens[i + 1]->Identifier_0;
        match spec_params(tokens, i + 3) {
            None => None,
            Some((ps, j)) => if j < i + 3 || j > tokens.len() {
                None
            } else if !(j < tokens.len() && tokens[j] is RParen) {
                None
            } else if !(j + 1 < tokens.len() && tokens[j + 1] is LBrace) {
                None
            } else {
                match spec_block(tokens, j + 2, true, true) {
                    None => None,
                    Some((b, k)) => Some(
                        (ExprV::FunctionDef { name: n@, params: ps, body: b }, k),
                    ),
                }
            },
        }
    }
}

/// A declaration after its keyword: the name (not yet declared), an
/// optional annotation, `=`, and the initializer; the name enters both
/// the declared and the used set. A constant refuses an input-call
/// initializer.
pub open spec fn spec_p_vardecl(
    tokens: Seq<Token>,
    j: int,
    constant: bool,
    declared: Seq<Seq<char>>,
    used: Seq<Seq<char>>,
) -> Option<(ExprV, int, Seq<Seq<char>>, Seq<Seq<char>>)>
    decreases tokens.len() - j, 7int,
{
    if !(0 <= j < tokens.len() && tokens[j] is Identifier) {
        None
    } else {
        let n = tokens[j]->Identifier_0;
        if contains_name(declared, n@) {
            None
        } else {
            let d2 = declared.push(n@);
            let u2 = used.push(n@);
            let annotated = j + 1 < tokens.len() && tokens[j + 1] is Colon;
            let after_typ = if annotated {
                match spec_parse_type(tokens, j + 2) {
                    None => None,
                    Some((t, k)) => if k <= j + 1 {
                        None
                    } else {
                        Some((Some(t), k))
                    },
                }
            } else {
                Some((None::<Type>, j + 1))
            };
            match after_typ {
                None => None,
                Some((typ, pos)) => if !(pos < tokens.len() && (tokens[pos] matches
                    Token::Operator(op) && op@ == "="@)) {
                    None
                } else {
                    match spec_p_expression(tokens, pos + 1, false) {
                        None => None,
                        Some((v, end)) => if end <= pos {
                            None
                        } else if constant && ((v matches ExprV::FunctionCall { name, args }
                            && name == "input"@) || (v matches ExprV::BuiltInCall { func, args }
                            && func is Input)) {
                            None
                        } else {
                            let node = if constant {
                                ExprV::ConstantDecl { name: n@, typ, value: Box::new(v) }
                            } else {
                                ExprV::MutableDecl { name: n@, typ, value: Box::new(v) }
                            };
                            Some((node, end, d2, u2))
                        },
                    }
                },
            }
        }
    }
}

/// An expression as a statement: a bare input call is refused, and every
/// variable the expression references enters the used set.
pub open spec fn spec_p_exprstmt(
    tokens: Seq<Token>,
    i: int,
    declared: Seq<Seq<char>>,
    used: Seq<Seq<char>>,
) -> Option<(ExprV, int, Seq<Seq<char>>, Seq<Seq<char>>)>
    decreases tokens.len() - i, 7int,
{
    match spec_p_expression(tokens, i, false) {
        None => None,
        Some((e, j)) => if (e matches ExprV::FunctionCall { name, args } && name == "input"@) || (
        e matches ExprV::BuiltInCall { func, args } && func is Input) {
            None
        } else {
            Some((e, j, declared, spec_record_v(e, used)))
        },
    }
}

/// One statement: a declaration keyword dispatches to the declaration
/// parse, anything else is an expression-as-statement.
pub open spec fn spec_p_stmt(
    tokens: Seq<Token>,
    i: int,
    declared: Seq<Seq<char>>,
    used: Seq<Seq<char>>,
) -> Option<(ExprV, int, Seq<Seq<char>>, Seq<Seq<char>>)>
    decreases tokens.len() - i, 8int,
{
    if 0 <= i < tokens.len() && tokens[i] is MutableDecl {
        spec_p_vardecl(tokens, i + 1, false, declared, used)
    } else if 0 <= i < tokens.len() && tokens[i] is ConstantDecl {
        spec_p_vardecl(tokens, i + 1, true, declared, used)
    } else {
        spec_p_exprstmt(tokens, i, declared, used)
    }
}

/// A whole program from the cursor: statements each followed by a
/// semicolon, until the tokens run out; at the end every declared name
/// must be in the used set.
pub open spec fn spec_p_program(
    tokens: Seq<Token>,
    i: int,
    declared: Seq<Seq<char>>,
    used: Seq<Seq<char>>,
    acc: Seq<ExprV>,
) -> Option<(Seq<ExprV>, Seq<Seq<char>>, Seq<Seq<char>>)>
    decreases tokens.len() - i, 9int,
{
    if i >= tokens.len() {
        if forall|k: int| 0 <= k < declared.len() ==> contains_name(used, #[trigger] declared[k]) {
            Some((acc, declared, used))
        } else {
            None
        }
    } else {
        match spec_p_stmt(tokens, i, declared, used) {
            None => None,
            Some((e, j, d2, u2)) => if j <= i {
                None
            } else if j < tokens.len() && tokens[j] is Semicolon {
                spec_p_program(tokens, j + 1, d2, u2, acc.push(e))
            } else {
                None
            },
        }
    }
}

} // verus!
