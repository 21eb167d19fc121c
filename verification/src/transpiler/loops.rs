//! Loop code generation.

use vstd::prelude::*;

use crate::ast::Expr;
use crate::transpiler::context::TranspileContext;
use crate::transpiler::expr::{transpile_expr, transpile_seq};
use crate::transpiler::genspec::{gstate, spec_gen};

verus! {

/// Renders a loop. When the iterable is a variable in the mutable-symbol
/// set, iteration goes through its backing storage rather than the raw
/// binding.
///
/// The ghost `parent` names the loop expression the parts were taken
/// from; it ties the recursion into the expression walk.
pub fn transpile_loop(
    var_name: &str,
    iterable: &Expr,
    body: &Vec<Expr>,
    ctx: &mut TranspileContext,
    parent: Ghost<Expr>,
) -> (r: Result<String, String>)
    requires
        parent@ matches Expr::Loop { var_name: v, iterable: it, body: b } && v@ == var_name@ && *it
            == *iterable && b == *body,
    ensures
        old(ctx).evolves_to(*final(ctx)),
        r matches Ok(s) ==> spec_gen(parent@, gstate(*old(ctx))) == Some(
            (s@, gstate(*final(ctx))),
        ),
        r is Err ==> spec_gen(parent@, gstate(*old(ctx))) is None,
    decreases parent@, 0int, 0int,
{
    let is_mutable = match iterable {
        Expr::VariableRef(name) => ctx.is_mutable_symbol(name.as_str()),
        _ => false,
    };
    proof {
        assert(parent@ matches Expr::Loop { var_name: v, iterable: it, body: b } && v@
            == var_name@ && *it == *iterable && b == *body);
    }
    let iterable_code = match transpile_expr(iterable, ctx) {
        Ok(s) => s,
        Err(e) => {
            return Err(e);
        },
    };
    let ghost mid = *ctx;
    let body_code = match transpile_seq(body, 0, ctx) {
        Ok(v) => v,
        Err(e) => {
            return Err(e);
        },
    };
    proof {
        crate::transpiler::context::lemma_evolves_trans(*old(ctx), mid, *ctx);
    }
    let joined = crate::transpiler::expr::join_strings(&body_code, 0, "\n");

    let mut s = "for (".to_owned();
    s.push_str(iterable_code.as_str());
    if is_mutable {
        s.push_str(".items ) |");
    } else {
        s.push_str(" ) |");
    }
    s.push_str(var_name);
    s.push_str("| {\n");
    s.push_str(joined.as_str());
    s.push_str("\n}");
    Ok(s)
}

} // verus!
