//! Expression parsing: precedence climbing over primary expressions.
//!
//! Every function here is pinned to its mirror in the grammar module: it
//! succeeds exactly when the mirror accepts the tokens at the cursor, and
//! the built tree's view is exactly the mirror's.

use vstd::prelude::*;

use crate::ast::Expr;
use crate::strutil::str_eq;
use crate::token::Token;
use crate::transpiler::builtin::match_builtin;
use super::Parser;
use super::call::parse_function_call;
use super::function::parse_function_def;
use super::grammar::{
    ExprV, expr_view, exprs_view_from, lemma_exprs_view_insert0, spec_args_multi,
    spec_binop_climb, spec_block, spec_index_chain, spec_p_binop, spec_p_expression, spec_p_if,
    spec_p_loop, spec_p_primary, spec_postfix,
};
use super::list::parse_list;
use super::returnn::parse_return;

verus! {

/// The precedence of a binary operator; tighter operators bind first,
/// and an unrecognized operator has precedence zero, which stops the
/// climb.
pub open spec fn spec_precedence(op: Seq<char>) -> int {
    if op == "||"@ {
        1
    } else if op == "&&"@ {
        2
    } else if op == "=="@ || op == "!="@ {
        3
    } else if op == "<"@ || op == ">"@ || op == "<="@ || op == ">="@ {
        4
    } else if op == "+"@ || op == "-"@ {
        5
    } else if op == "*"@ || op == "/"@ {
        6
    } else {
        0
    }
}

fn get_precedence(op: &str) -> (r: u8)
    ensures
        r as int == spec_precedence(op@),
        r <= 6,
{
    if str_eq(op, "||") {
        1
    } else if str_eq(op, "&&") {
        2
    } else if str_eq(op, "==") || str_eq(op, "!=") {
        3
    } else if str_eq(op, "<") || str_eq(op, ">") || str_eq(op, "<=") || str_eq(op, ">=") {
        4
    } else if str_eq(op, "+") || str_eq(op, "-") {
        5
    } else if str_eq(op, "*") || str_eq(op, "/") {
        6
    } else {
        0
    }
}

/// Parses one expression, climbing from the lowest precedence; pinned to
/// `spec_p_expression`.
pub fn parse_expression(parser: &mut Parser, inside_function: bool) -> (r: Result<Expr, String>)
    requires
        old(parser).wf(),
    ensures
        final(parser).advanced_from(*old(parser)),
        final(parser).declared_variables == old(parser).declared_variables,
        final(parser).used_variables == old(parser).used_variables,
        r matches Ok(e) ==> final(parser).position > old(parser).position,
        r matches Ok(e) ==> spec_p_expression(
            old(parser).tokens@,
            old(parser).position as int,
            inside_function,
        ) == Some((expr_view(e), final(parser).position as int)),
        r is Err ==> spec_p_expression(
            old(parser).tokens@,
            old(parser).position as int,
            inside_function,
        ) is None,
    decreases old(parser).tokens@.len() - old(parser).position, 5int,
{
    parse_binary_op_expression(parser, inside_function, 1)
}

/// Precedence climbing: parses one primary expression, then repeatedly
/// consumes operators of at least the given precedence, recursing on the
/// right operand one level tighter; pinned to `spec_p_binop`, which
/// fixes the tree shape (tighter operators bind first, equal precedence
/// chains left-associatively).
pub fn parse_binary_op_expression(parser: &mut Parser, inside_function: bool, min_prec: u8) -> (r:
    Result<Expr, String>)
    requires
        old(parser).wf(),
    ensures
        final(parser).advanced_from(*old(parser)),
        final(parser).declared_variables == old(parser).declared_variables,
        final(parser).used_variables == old(parser).used_variables,
        r matches Ok(e) ==> final(parser).position > old(parser).position,
        r matches Ok(e) ==> spec_p_binop(
            old(parser).tokens@,
            old(parser).position as int,
            inside_function,
            min_prec as int,
        ) == Some((expr_view(e), final(parser).position as int)),
        r is Err ==> spec_p_binop(
            old(parser).tokens@,
            old(parser).position as int,
            inside_function,
            min_prec as int,
        ) is None,
    decreases old(parser).tokens@.len() - old(parser).position, 4int,
{
    let ghost target = spec_p_binop(
        old(parser).tokens@,
        old(parser).position as int,
        inside_function,
        min_prec as int,
    );
    let mut left = match parse_primary_expression(parser, inside_function) {
        Ok(e) => e,
        Err(e) => {
            return Err(e);
        },
    };

    loop
        invariant
            parser.wf(),
            parser.tokens == old(parser).tokens,
            parser.declared_variables == old(parser).declared_variables,
            parser.used_variables == old(parser).used_variables,
            old(parser).position < parser.position,
            target == spec_p_binop(
                old(parser).tokens@,
                old(parser).position as int,
                inside_function,
                min_prec as int,
            ),
            target == spec_binop_climb(
                parser.tokens@,
                parser.position as int,
                inside_function,
                min_prec as int,
                expr_view(left),
            ),
        ensures
            parser.wf(),
            parser.tokens == old(parser).tokens,
            parser.declared_variables == old(parser).declared_variables,
            parser.used_variables == old(parser).used_variables,
            old(parser).position < parser.position,
            target == spec_p_binop(
                old(parser).tokens@,
                old(parser).position as int,
                inside_function,
                min_prec as int,
            ),
            target == Some((expr_view(left), parser.position as int)),
        decreases parser.tokens@.len() - parser.position,
    {
        let op = match parser.peek() {
            Some(t) => match t {
                Token::Operator(op) => op.clone(),
                _ => {
                    break;
                },
            },
            None => {
                break;
            },
        };

        let prec = get_precedence(op.as_str());
        if prec < min_prec {
            break;
        }

        let _ = parser.next();

        let right = match parse_binary_op_expression(parser, inside_function, prec + 1) {
            Ok(e) => e,
            Err(e) => {
                return Err(e);
            },
        };

        left = Expr::BinaryOp { left: Box::new(left), op, right: Box::new(right) };
    }

    Ok(left)
}

/// A parenthesized, comma-separated argument list up to the closing
/// parenthesis (the comma is optional between arguments); pinned to
/// `spec_args_multi`.
pub(crate) fn parse_args_multi(parser: &mut Parser) -> (r: Result<Vec<Expr>, String>)
    requires
        old(parser).wf(),
    ensures
        final(parser).advanced_from(*old(parser)),
        final(parser).declared_variables == old(parser).declared_variables,
        final(parser).used_variables == old(parser).used_variables,
        r matches Ok(v) ==> final(parser).position > old(parser).position && spec_args_multi(
            old(parser).tokens@,
            old(parser).position as int,
        ) == Some((exprs_view_from(v@, 0), final(parser).position as int)),
        r is Err ==> spec_args_multi(old(parser).tokens@, old(parser).position as int) is None,
    decreases old(parser).tokens@.len() - old(parser).position, 6int,
{
    let at_close = match parser.peek() {
        Some(t) => matches!(t, Token::RParen),
        None => {
            return Err("Funksiya çağırışı bağlanmadı".to_owned());
        },
    };
    if at_close {
        let _ = parser.next();
        let empty: Vec<Expr> = Vec::new();
        proof {
            assert(exprs_view_from(empty@, 0) =~= Seq::<ExprV>::empty());
        }
        return Ok(empty);
    }
    let e = match parse_expression(parser, false) {
        Ok(e) => e,
        Err(err) => {
            return Err(err);
        },
    };
    let at_comma = match parser.peek() {
        Some(t) => matches!(t, Token::Comma),
        None => false,
    };
    if at_comma {
        let _ = parser.next();
    }
    let mut rest = match parse_args_multi(parser) {
        Ok(v) => v,
        Err(err) => {
            return Err(err);
        },
    };
    let ghost pre = rest@;
    rest.insert(0, e);
    proof {
        assert(rest@ == pre.insert(0, e));
        lemma_exprs_view_insert0(pre, e);
    }
    Ok(rest)
}

/// The chain of bracketed indexes directly after a bare identifier;
/// pinned to `spec_index_chain`. Indexing is never parsed on the result
/// of a call or method chain.
fn parse_index_chain(parser: &mut Parser, inside_function: bool, expr: Expr) -> (r: Result<
    Expr,
    String,
>)
    requires
        old(parser).wf(),
    ensures
        final(parser).advanced_from(*old(parser)),
        final(parser).declared_variables == old(parser).declared_variables,
        final(parser).used_variables == old(parser).used_variables,
        r matches Ok(e) ==> spec_index_chain(
            old(parser).tokens@,
            old(parser).position as int,
            inside_function,
            expr_view(expr),
        ) == Some((expr_view(e), final(parser).position as int)),
        r is Err ==> spec_index_chain(
            old(parser).tokens@,
            old(parser).position as int,
            inside_function,
            expr_view(expr),
        ) is None,
    decreases old(parser).tokens@.len() - old(parser).position, 6int,
{
    let at_bracket = match parser.peek() {
        Some(t) => matches!(t, Token::ListStart),
        None => false,
    };
    if !at_bracket {
        return Ok(expr);
    }
    let _ = parser.next();
    let index_expr = match parse_expression(parser, inside_function) {
        Ok(e) => e,
        Err(e) => {
            return Err(e);
        },
    };
    let at_end = match parser.peek() {
        Some(t) => matches!(t, Token::ListEnd),
        None => false,
    };
    if !at_end {
        return Err("Bağlanış ']' gözlənilirdi".to_owned());
    }
    let _ = parser.next();
    parse_index_chain(
        parser,
        inside_function,
        Expr::Index { target: Box::new(expr), index: Box::new(index_expr) },
    )
}

/// The chain of method calls after a parsed primary; pinned to
/// `spec_postfix`.
fn parse_postfix(parser: &mut Parser, expr: Expr) -> (r: Result<Expr, String>)
    requires
        old(parser).wf(),
    ensures
        final(parser).advanced_from(*old(parser)),
        final(parser).declared_variables == old(parser).declared_variables,
        final(parser).used_variables == old(parser).used_variables,
        r matches Ok(e) ==> spec_postfix(
            old(parser).tokens@,
            old(parser).position as int,
            expr_view(expr),
        ) == Some((expr_view(e), final(parser).position as int)),
        r is Err ==> spec_postfix(
            old(parser).tokens@,
            old(parser).position as int,
            expr_view(expr),
        ) is None,
    decreases old(parser).tokens@.len() - old(parser).position, 6int,
{
    let at_dot = match parser.peek() {
        Some(t) => match t {
            Token::Operator(op) => str_eq(op.as_str(), "."),
            _ => false,
        },
        None => false,
    };
    if !at_dot {
        return Ok(expr);
    }
    let _ = parser.next();
    let method_name = match parser.next() {
        Some(Token::Identifier(name)) => name,
        _ => {
            return Err("Method adı gözlənilirdi".to_owned());
        },
    };
    let opened = match parser.next() {
        Some(t) => matches!(t, Token::LParen),
        None => false,
    };
    if !opened {
        return Err("Funksiya çağırışı üçün '(' gözlənilirdi".to_owned());
    }
    let args = match parse_args_multi(parser) {
        Ok(v) => v,
        Err(e) => {
            return Err(e);
        },
    };
    parse_postfix(
        parser,
        Expr::MethodCall { target: Box::new(expr), method: method_name, args },
    )
}

/// Parses one primary expression: a literal, a conditional, a loop, a
/// return, a function definition, a list literal, or an identifier-led
/// form (call, indexing), followed by any chain of method calls; pinned
/// to `spec_p_primary`. A numeric literal builds a direct number node.
pub fn parse_primary_expression(parser: &mut Parser, inside_function: bool) -> (r: Result<
    Expr,
    String,
>)
    requires
        old(parser).wf(),
    ensures
        final(parser).advanced_from(*old(parser)),
        final(parser).declared_variables == old(parser).declared_variables,
        final(parser).used_variables == old(parser).used_variables,
        r matches Ok(e) ==> final(parser).position > old(parser).position,
        r matches Ok(e) ==> spec_p_primary(
            old(parser).tokens@,
            old(parser).position as int,
            inside_function,
        ) == Some((expr_view(e), final(parser).position as int)),
        r is Err ==> spec_p_primary(
            old(parser).tokens@,
            old(parser).position as int,
            inside_function,
        ) is None,
        old(parser).position < old(parser).tokens@.len() ==> (old(parser).tokens@[old(
            parser,
        ).position as int] matches Token::Number(v) ==> (r matches Ok(e) ==> e == Expr::Number(
            v,
        ))),
    decreases old(parser).tokens@.len() - old(parser).position, 2int,
{
    let kind: u8 = match parser.peek() {
        Some(t) => match t {
            Token::StringLiteral(_) => 0,
            Token::Conditional => 1,
            Token::Return => 2,
            Token::FunctionDef => 3,
            Token::Number(_) => 4,
            Token::ListStart => 5,
            Token::Loop => 6,
            Token::Identifier(_) => 7,
            _ => 8,
        },
        None => 8,
    };

    if kind == 0 {
        let expr = match parser.next() {
            Some(Token::StringLiteral(s)) => Expr::String(s),
            _ => {
                return Err("StringLiteral gözlənilirdi".to_owned());
            },
        };
        parse_postfix(parser, expr)
    } else if kind == 1 {
        parse_if_expr(parser)
    } else if kind == 2 {
        parse_return(parser, inside_function)
    } else if kind == 3 {
        parse_function_def(parser)
    } else if kind == 4 {
        match parser.next() {
            Some(Token::Number(val)) => Ok(Expr::Number(val)),
            _ => Err("Ədəd gözlənilirdi".to_owned()),
        }
    } else if kind == 5 {
        let _ = parser.next();
        parse_list(parser)
    } else if kind == 6 {
        parse_loop(parser)
    } else if kind == 7 {
        let id = match parser.next() {
            Some(Token::Identifier(id)) => id,
            _ => {
                return Err("Tanıtıcı gözlənilirdi".to_owned());
            },
        };
        let at_lparen = match parser.peek() {
            Some(t) => matches!(t, Token::LParen),
            None => false,
        };
        if at_lparen {
            if match_builtin(id.as_str()).is_some() {
                return parse_function_call(parser, id.as_str());
            }
            let _ = parser.next();
            let args = match parse_args_multi(parser) {
                Ok(v) => v,
                Err(e) => {
                    return Err(e);
                },
            };
            Ok(Expr::FunctionCall { name: id, args })
        } else {
            let chained = match parse_index_chain(parser, inside_function, Expr::VariableRef(id)) {
                Ok(e) => e,
                Err(e) => {
                    return Err(e);
                },
            };
            parse_postfix(parser, chained)
        }
    } else {
        Err("Dəyər gözlənilirdi".to_owned())
    }
}

/// A braced statement list with optional semicolons; a tolerant block
/// accepts the end of input as a close, a strict one rejects it. Pinned
/// to `spec_block`.
pub(crate) fn parse_block_exprs(parser: &mut Parser, inside_function: bool, strict: bool) -> (r:
    Result<Vec<Expr>, String>)
    requires
        old(parser).wf(),
    ensures
        final(parser).advanced_from(*old(parser)),
        final(parser).declared_variables == old(parser).declared_variables,
        final(parser).used_variables == old(parser).used_variables,
        r matches Ok(v) ==> spec_block(
            old(parser).tokens@,
            old(parser).position as int,
            inside_function,
            strict,
        ) == Some((exprs_view_from(v@, 0), final(parser).position as int)),
        r is Err ==> spec_block(
            old(parser).tokens@,
            old(parser).position as int,
            inside_function,
            strict,
        ) is None,
    decreases old(parser).tokens@.len() - old(parser).position, 6int,
{
    let head: u8 = match parser.peek() {
        Some(t) => {
            if matches!(t, Token::RBrace) {
                1
            } else {
                2
            }
        },
        None => 0,
    };
    if head == 0 {
        if strict {
            return Err("Funksiya gövdəsi bağlanmadı".to_owned());
        }
        let empty: Vec<Expr> = Vec::new();
        proof {
            assert(exprs_view_from(empty@, 0) =~= Seq::<ExprV>::empty());
        }
        return Ok(empty);
    }
    if head == 1 {
        let _ = parser.next();
        let empty: Vec<Expr> = Vec::new();
        proof {
            assert(exprs_view_from(empty@, 0) =~= Seq::<ExprV>::empty());
        }
        return Ok(empty);
    }
    let e = match parse_expression(parser, inside_function) {
        Ok(e) => e,
        Err(err) => {
            return Err(err);
        },
    };
    let at_semi = match parser.peek() {
        Some(t) => matches!(t, Token::Semicolon),
        None => false,
    };
    if at_semi {
        let _ = parser.next();
    }
    let mut rest = match parse_block_exprs(parser, inside_function, strict) {
        Ok(v) => v,
        Err(err) => {
            return Err(err);
        },
    };
    let ghost pre = rest@;
    rest.insert(0, e);
    proof {
        assert(rest@ == pre.insert(0, e));
        lemma_exprs_view_insert0(pre, e);
    }
    Ok(rest)
}

/// Parses a loop: the loop keyword, the loop variable, the iterable
/// expression, and a braced body; pinned to `spec_p_loop`.
pub fn parse_loop(parser: &mut Parser) -> (r: Result<Expr, String>)
    requires
        old(parser).wf(),
    ensures
        final(parser).advanced_from(*old(parser)),
        final(parser).declared_variables == old(parser).declared_variables,
        final(parser).used_variables == old(parser).used_variables,
        r matches Ok(e) ==> final(parser).position > old(parser).position && e is Loop,
        r matches Ok(e) ==> spec_p_loop(old(parser).tokens@, old(parser).position as int) == Some(
            (expr_view(e), final(parser).position as int),
        ),
        r is Err ==> spec_p_loop(old(parser).tokens@, old(parser).position as int) is None,
    decreases old(parser).tokens@.len() - old(parser).position, 1int,
{
    let _ = parser.next();

    let var_name = match parser.next() {
        Some(Token::Identifier(name)) => name,
        _ => {
            return Err("Dəyişən adı gözlənilirdi".to_owned());
        },
    };

    let iterable = match parse_expression(parser, false) {
        Ok(e) => e,
        Err(e) => {
            return Err(e);
        },
    };

    let at_brace = match parser.peek() {
        Some(t) => matches!(t, Token::LBrace),
        None => false,
    };
    if !at_brace {
        return Err("Loop gövdəsi üçün '{' gözlənilirdi".to_owned());
    }
    let _ = parser.next();

    let body = match parse_block_exprs(parser, true, false) {
        Ok(v) => v,
        Err(e) => {
            return Err(e);
        },
    };

    Ok(Expr::Loop { var_name, iterable: Box::new(iterable), body })
}

/// Parses a conditional: the condition, a braced then branch, and an
/// optional else branch that is either another conditional or a braced
/// block; pinned to `spec_p_if`.
pub fn parse_if_expr(parser: &mut Parser) -> (r: Result<Expr, String>)
    requires
        old(parser).wf(),
    ensures
        final(parser).advanced_from(*old(parser)),
        final(parser).declared_variables == old(parser).declared_variables,
        final(parser).used_variables == old(parser).used_variables,
        r matches Ok(e) ==> final(parser).position > old(parser).position && e is If,
        r matches Ok(e) ==> spec_p_if(old(parser).tokens@, old(parser).position as int) == Some(
            (expr_view(e), final(parser).position as int),
        ),
        r is Err ==> spec_p_if(old(parser).tokens@, old(parser).position as int) is None,
    decreases old(parser).tokens@.len() - old(parser).position, 1int,
{
    let at_cond = match parser.next() {
        Some(t) => matches!(t, Token::Conditional),
        None => false,
    };
    if !at_cond {
        return Err("Şərt açar sözü gözlənilirdi".to_owned());
    }

    let condition = match parse_expression(parser, false) {
        Ok(e) => e,
        Err(e) => {
            return Err(e);
        },
    };

    let opened = match parser.next() {
        Some(t) => matches!(t, Token::LBrace),
        None => false,
    };
    if !opened {
        return Err("'{' gözlənilirdi".to_owned());
    }

    let then_branch = match parse_block_exprs(parser, false, false) {
        Ok(v) => v,
        Err(e) => {
            return Err(e);
        },
    };

    let at_else = match parser.peek() {
        Some(t) => matches!(t, Token::Else),
        None => false,
    };
    let else_branch: Option<Vec<Expr>> = if at_else {
        let _ = parser.next();
        let after_else: u8 = match parser.peek() {
            Some(t) => match t {
                Token::Conditional => 0,
                Token::LBrace => 1,
                _ => 2,
            },
            None => 2,
        };
        if after_else == 0 {
            let else_if_expr = match parse_if_expr(parser) {
                Ok(e) => e,
                Err(e) => {
                    return Err(e);
                },
            };
            let els = vec![else_if_expr];
            proof {
                assert(exprs_view_from(els@, 1) =~= Seq::<ExprV>::empty());
                assert(exprs_view_from(els@, 0) =~= Seq::<ExprV>::empty().push(
                    expr_view(els@[0]),
                ));
            }
            Some(els)
        } else if after_else == 1 {
            let _ = parser.next();
            let els = match parse_block_exprs(parser, false, false) {
                Ok(v) => v,
                Err(e) => {
                    return Err(e);
                },
            };
            Some(els)
        } else {
            return Err("'əgər' və ya '{' gözlənilirdi (else üçün)".to_owned());
        }
    } else {
        None
    };

    Ok(Expr::If { condition: Box::new(condition), then_branch, else_branch })
}

} // verus!
