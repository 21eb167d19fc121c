//! Function call parsing, with built-in resolution.

use vstd::prelude::*;

use crate::ast::Expr;
use crate::token::Token;
use crate::transpiler::builtin::match_builtin;
use super::Parser;
use super::expressions::parse_expression;
use super::grammar::{expr_view, spec_p_call};

verus! {

/// Parses a call's parenthesized argument (the grammar takes at most
/// one) after the callee's name, and resolves the name against the
/// built-in table before falling back to a user function call — exactly
/// as `spec_p_call` states it.
pub fn parse_function_call(parser: &mut Parser, name: &str) -> (r: Result<Expr, String>)
    requires
        old(parser).wf(),
    ensures
        final(parser).advanced_from(*old(parser)),
        final(parser).declared_variables == old(parser).declared_variables,
        final(parser).used_variables == old(parser).used_variables,
        r matches Ok(e) ==> final(parser).position > old(parser).position,
        r matches Ok(e) ==> spec_p_call(
            old(parser).tokens@,
            old(parser).position as int,
            name@,
        ) == Some((expr_view(e), final(parser).position as int)),
        r is Err ==> spec_p_call(old(parser).tokens@, old(parser).position as int, name@) is None,
    decreases old(parser).tokens@.len() - old(parser).position, 1int,
{
    let opened = match parser.next() {
        Some(t) => matches!(t, Token::LParen),
        None => false,
    };
    if !opened {
        return Err("Function call üçün '(' gözlənilirdi".to_owned());
    }

    let mut args: Vec<Expr> = Vec::new();
    let at_close = match parser.peek() {
        Some(t) => matches!(t, Token::RParen),
        None => {
            return Err("Funksiya çağırışı bağlanmadı".to_owned());
        },
    };
    if at_close {
        let _ = parser.next();
        proof {
            assert(super::grammar::exprs_view_from(args@, 0) =~= Seq::<
                super::grammar::ExprV,
            >::empty());
        }
    } else {
        let arg = match parse_expression(parser, false) {
            Ok(e) => e,
            Err(e) => {
                return Err(e);
            },
        };
        args.push(arg);
        let closed = match parser.next() {
            Some(t) => matches!(t, Token::RParen),
            None => false,
        };
        if !closed {
            return Err("Function call üçün ')' gözlənilirdi".to_owned());
        }
        proof {
            assert(super::grammar::exprs_view_from(args@, 1) =~= Seq::<
                super::grammar::ExprV,
            >::empty());
            assert(super::grammar::exprs_view_from(args@, 0) =~= Seq::<
                super::grammar::ExprV,
            >::empty().push(expr_view(args@[0])));
        }
    }

    match match_builtin(name) {
        Some(builtin) => Ok(Expr::BuiltInCall { func: builtin, args }),
        None => Ok(Expr::FunctionCall { name: name.to_owned(), args }),
    }
}

} // verus!
