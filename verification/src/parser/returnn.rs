//! Return statement parsing.

use vstd::prelude::*;

use crate::ast::Expr;
use super::Parser;
use super::expressions::parse_expression;
use super::grammar::{expr_view, spec_p_return};

verus! {

/// Parses a return expression, exactly as `spec_p_return` states it.
/// `return` is legal only inside a function definition: when
/// `inside_function` is not set the parse fails, always.
pub fn parse_return(parser: &mut Parser, inside_function: bool) -> (r: Result<Expr, String>)
    requires
        old(parser).wf(),
    ensures
        final(parser).advanced_from(*old(parser)),
        final(parser).declared_variables == old(parser).declared_variables,
        final(parser).used_variables == old(parser).used_variables,
        !inside_function ==> r is Err,
        r matches Ok(e) ==> final(parser).position > old(parser).position && e is Return,
        r matches Ok(e) ==> spec_p_return(
            old(parser).tokens@,
            old(parser).position as int,
            inside_function,
        ) == Some((expr_view(e), final(parser).position as int)),
        r is Err ==> spec_p_return(
            old(parser).tokens@,
            old(parser).position as int,
            inside_function,
        ) is None,
    decreases old(parser).tokens@.len() - old(parser).position, 1int,
{
    if !inside_function {
        return Err("`return` yalnız funksiyanın içində istifadə oluna bilər".to_owned());
    }

    if parser.next().is_none() {
        return Err("Dəyər gözlənilirdi".to_owned());
    }
    match parse_expression(parser, inside_function) {
        Ok(e) => Ok(Expr::Return(Box::new(e))),
        Err(e) => Err(e),
    }
}

} // verus!
