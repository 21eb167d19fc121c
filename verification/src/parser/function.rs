//! Function definition parsing.

use vstd::prelude::*;

use crate::ast::{Expr, Type};
use crate::token::Token;
use super::Parser;
use super::expressions::parse_block_exprs;
use super::grammar::{
    expr_view, lemma_params_view_insert0, params_view_from, spec_p_fndef, spec_params,
};

verus! {

/// Parses the parameter list from inside the parentheses: each parameter
/// optionally marked constant or mutable, with a name, a colon and a
/// type keyword; mutability holds exactly when the mutable-declaration
/// keyword prefixed the parameter. Pinned to `spec_params`; stops at the
/// closing parenthesis without consuming it.
fn parse_params_list(parser: &mut Parser) -> (r: Result<Vec<(String, Type, bool)>, String>)
    requires
        old(parser).wf(),
    ensures
        final(parser).advanced_from(*old(parser)),
        final(parser).declared_variables == old(parser).declared_variables,
        final(parser).used_variables == old(parser).used_variables,
        r matches Ok(v) ==> spec_params(old(parser).tokens@, old(parser).position as int) == Some(
            (params_view_from(v@, 0), final(parser).position as int),
        ),
        r is Err ==> spec_params(old(parser).tokens@, old(parser).position as int) is None,
    decreases old(parser).tokens@.len() - old(parser).position, 0int,
{
    let head: u8 = match parser.peek() {
        Some(t) => match t {
            Token::ConstantDecl => 0,
            Token::MutableDecl => 1,
            Token::Identifier(_) => 2,
            Token::RParen => 3,
            _ => 4,
        },
        None => 4,
    };
    if head == 3 {
        let empty: Vec<(String, Type, bool)> = Vec::new();
        proof {
            assert(params_view_from(empty@, 0) =~= Seq::<(Seq<char>, Type, bool)>::empty());
        }
        return Ok(empty);
    }
    if head == 4 {
        return Err("Parametr adı və ya ')' gözlənilirdi".to_owned());
    }
    let is_mutable = head == 1;
    if head == 0 || head == 1 {
        let _ = parser.next();
    }

    let param_name = match parser.next() {
        Some(Token::Identifier(n)) => n,
        _ => {
            return Err("Parametr adı gözlənilirdi".to_owned());
        },
    };

    let has_colon = match parser.next() {
        Some(t) => matches!(t, Token::Colon),
        None => false,
    };
    if !has_colon {
        return Err("':' gözlənilirdi".to_owned());
    }

    let param_type = match parser.next() {
        Some(Token::TypeName(t)) => t,
        _ => {
            return Err("Parametr tipi gözlənilirdi".to_owned());
        },
    };

    let sep: u8 = match parser.peek() {
        Some(t) => match t {
            Token::Comma => 0,
            Token::RParen => 1,
            _ => 2,
        },
        None => 2,
    };
    if sep == 2 {
        return Err("Parametrlər arasında ',' və ya ')' gözlənilirdi".to_owned());
    }
    if sep == 0 {
        let _ = parser.next();
    }

    let mut rest = match parse_params_list(parser) {
        Ok(v) => v,
        Err(e) => {
            return Err(e);
        },
    };
    let ghost pre = rest@;
    let entry = (param_name, param_type, is_mutable);
    rest.insert(0, entry);
    proof {
        assert(rest@ == pre.insert(0, entry));
        lemma_params_view_insert0(pre, entry);
    }
    Ok(rest)
}

/// Parses a function definition: the keyword, the name, the
/// parenthesized parameter list, and a braced body parsed with return
/// legal; pinned to `spec_p_fndef`.
pub fn parse_function_def(parser: &mut Parser) -> (r: Result<Expr, String>)
    requires
        old(parser).wf(),
    ensures
        final(parser).advanced_from(*old(parser)),
        final(parser).declared_variables == old(parser).declared_variables,
        final(parser).used_variables == old(parser).used_variables,
        r matches Ok(e) ==> final(parser).position > old(parser).position && e is FunctionDef,
        r matches Ok(e) ==> spec_p_fndef(old(parser).tokens@, old(parser).position as int)
            == Some((expr_view(e), final(parser).position as int)),
        r is Err ==> spec_p_fndef(old(parser).tokens@, old(parser).position as int) is None,
    decreases old(parser).tokens@.len() - old(parser).position, 1int,
{
    let _ = parser.next();

    let name = match parser.next() {
        Some(Token::Identifier(name)) => name,
        _ => {
            return Err("Funksiya adı gözlənilirdi".to_owned());
        },
    };

    let opened = match parser.next() {
        Some(t) => matches!(t, Token::LParen),
        None => false,
    };
    if !opened {
        return Err("Funksiya parametr siyahısı '(' ilə başlamalıdır".to_owned());
    }

    let params = match parse_params_list(parser) {
        Ok(v) => v,
        Err(e) => {
            return Err(e);
        },
    };

    let closed = match parser.next() {
        Some(t) => matches!(t, Token::RParen),
        None => false,
    };
    let braced = match parser.next() {
        Some(t) => matches!(t, Token::LBrace),
        None => false,
    };
    if !closed || !braced {
        return Err("')' və ya '{' gözlənilirdi".to_owned());
    }

    let body = match parse_block_exprs(parser, true, true) {
        Ok(v) => v,
        Err(e) => {
            return Err(e);
        },
    };

    Ok(Expr::FunctionDef { name, params, body })
}

} // verus!
