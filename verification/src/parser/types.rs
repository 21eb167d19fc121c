//! Type annotation parsing.

use vstd::prelude::*;

use crate::ast::Type;
use crate::strutil::str_eq;
use crate::token::Token;
use super::Parser;

verus! {

/// The type annotation parsed at a token position, with the position
/// after it: a type keyword or a user-named type stands alone; the
/// list-type keyword takes an angle-bracketed element type, recursively,
/// so list types nest. Anything else, including a missing bracket, is no
/// type annotation.
pub open spec fn spec_parse_type(tokens: Seq<Token>, i: int) -> Option<(Type, int)>
    decreases tokens.len() - i,
{
    if i < 0 || i >= tokens.len() {
        None
    } else {
        match tokens[i] {
            Token::TypeName(t) => Some((t, i + 1)),
            Token::Identifier(ident) => Some((Type::Istifadeci(ident), i + 1)),
            Token::Integer => Some((Type::Integer, i + 1)),
            Token::BigInteger => Some((Type::BigInteger, i + 1)),
            Token::LowInteger => Some((Type::LowInteger, i + 1)),
            Token::String => Some((Type::Metn, i + 1)),
            Token::SiyahiKeyword => if i + 1 < tokens.len() && (tokens[i + 1] matches
                Token::Operator(op) && op@ == "<"@) {
                match spec_parse_type(tokens, i + 2) {
                    None => None,
                    Some((inner, j)) => if j < tokens.len() && (tokens[j] matches Token::Operator(
                        op2,
                    ) && op2@ == ">"@) {
                        Some((Type::Siyahi(Box::new(inner)), j + 1))
                    } else {
                        None
                    },
                }
            } else {
                None
            },
            _ => None,
        }
    }
}

/// Parses a type annotation, exactly as `spec_parse_type` states it.
pub fn parse_type(parser: &mut Parser) -> (r: Result<Type, String>)
    requires
        old(parser).wf(),
    ensures
        final(parser).advanced_from(*old(parser)),
        final(parser).declared_variables == old(parser).declared_variables,
        final(parser).used_variables == old(parser).used_variables,
        r matches Ok(t) ==> final(parser).position > old(parser).position && spec_parse_type(
            old(parser).tokens@,
            old(parser).position as int,
        ) == Some((t, final(parser).position as int)),
        r is Err ==> spec_parse_type(old(parser).tokens@, old(parser).position as int) is None,
    decreases old(parser).tokens@.len() - old(parser).position,
{
    let base_token = parser.next();
    match base_token {
        Some(Token::TypeName(t)) => Ok(t),
        Some(Token::Identifier(ident)) => Ok(Type::Istifadeci(ident)),
        Some(Token::Integer) => Ok(Type::Integer),
        Some(Token::BigInteger) => Ok(Type::BigInteger),
        Some(Token::LowInteger) => Ok(Type::LowInteger),
        Some(Token::String) => Ok(Type::Metn),
        Some(Token::SiyahiKeyword) => {
            match parser.next() {
                Some(Token::Operator(op)) => {
                    if !str_eq(op.as_str(), "<") {
                        return Err("'<' gözlənilirdi".to_owned());
                    }
                },
                _ => {
                    return Err("'<' gözlənilirdi".to_owned());
                },
            }
            let inner_type = match parse_type(parser) {
                Ok(t) => t,
                Err(e) => {
                    return Err(e);
                },
            };
            match parser.next() {
                Some(Token::Operator(op)) => {
                    if !str_eq(op.as_str(), ">") {
                        return Err("'>' gözlənilirdi".to_owned());
                    }
                },
                _ => {
                    return Err("'>' gözlənilirdi".to_owned());
                },
            }
            Ok(Type::Siyahi(Box::new(inner_type)))
        },
        _ => Err("Tip gözlənilirdi".to_owned()),
    }
}

} // verus!
