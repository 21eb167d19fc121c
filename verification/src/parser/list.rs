//! List literal parsing.

use vstd::prelude::*;

use crate::ast::Expr;
use crate::token::Token;
use super::Parser;
use super::expressions::parse_expression;
use super::grammar::{expr_view, exprs_view_from, lemma_exprs_view_insert0, spec_list_items, spec_p_list};

verus! {

/// Parses the elements of a list literal after its opening bracket:
/// comma-separated expressions up to the closing bracket, exactly as
/// `spec_list_items` states them.
fn parse_list_items(parser: &mut Parser) -> (r: Result<Vec<Expr>, String>)
    requires
        old(parser).wf(),
    ensures
        final(parser).advanced_from(*old(parser)),
        final(parser).declared_variables == old(parser).declared_variables,
        final(parser).used_variables == old(parser).used_variables,
        r matches Ok(v) ==> final(parser).position > old(parser).position && spec_list_items(
            old(parser).tokens@,
            old(parser).position as int,
        ) == Some((exprs_view_from(v@, 0), final(parser).position as int)),
        r is Err ==> spec_list_items(old(parser).tokens@, old(parser).position as int) is None,
    decreases old(parser).tokens@.len() - old(parser).position, 6int,
{
    let at_end = match parser.peek() {
        Some(t) => matches!(t, Token::ListEnd),
        None => {
            return Err("Siyahı bağlanmadı".to_owned());
        },
    };
    if at_end {
        let _ = parser.next();
        let empty: Vec<Expr> = Vec::new();
        proof {
            assert(exprs_view_from(empty@, 0) =~= Seq::<super::grammar::ExprV>::empty());
        }
        return Ok(empty);
    }
    let e = match parse_expression(parser, false) {
        Ok(e) => e,
        Err(err) => {
            return Err(err);
        },
    };
    let sep: u8 = match parser.peek() {
        Some(t) => match t {
            Token::Comma => 0,
            Token::ListEnd => 1,
            _ => 2,
        },
        None => 2,
    };
    if sep == 2 {
        return Err("Siyahı üçün ',' və ya ']' gözlənilirdi".to_owned());
    }
    if sep == 0 {
        let _ = parser.next();
    }
    let mut rest = match parse_list_items(parser) {
        Ok(v) => v,
        Err(err) => {
            return Err(err);
        },
    };
    let ghost pre = rest@;
    rest.insert(0, e);
    proof {
        assert(rest@ == pre.insert(0, e));
        lemma_exprs_view_insert0(pre, e);
    }
    Ok(rest)
}

/// Parses a list literal after its opening bracket, exactly as
/// `spec_p_list` states it.
pub fn parse_list(parser: &mut Parser) -> (r: Result<Expr, String>)
    requires
        old(parser).wf(),
    ensures
        final(parser).advanced_from(*old(parser)),
        final(parser).declared_variables == old(parser).declared_variables,
        final(parser).used_variables == old(parser).used_variables,
        r matches Ok(e) ==> final(parser).position > old(parser).position && e is List,
        r matches Ok(e) ==> spec_p_list(old(parser).tokens@, old(parser).position as int) == Some(
            (expr_view(e), final(parser).position as int),
        ),
        r is Err ==> spec_p_list(old(parser).tokens@, old(parser).position as int) is None,
    decreases old(parser).tokens@.len() - old(parser).position, 7int,
{
    match parse_list_items(parser) {
        Ok(elements) => Ok(Expr::List(elements)),
        Err(e) => Err(e),
    }
}

} // verus!
