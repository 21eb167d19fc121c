//! Function call and function definition code generation.

use vstd::prelude::*;

use crate::ast::{Expr, Type};
use crate::strutil::str_eq;
use crate::transpiler::builtin::match_builtin;
use crate::transpiler::context::TranspileContext;
use crate::transpiler::expr::{join_strings, transpile_builtin_call, transpile_expr, transpile_seq};
use crate::transpiler::genspec::{
    gstate, spec_gen_fncall, spec_gen_fndef, spec_indent_from, spec_params_from, spec_record_args,
    views_of,
};
use crate::transpiler::utils::map_type;

verus! {

/// Renders a call: a built-in name dispatches to the built-in handler;
/// any other name becomes a plain call. A variable argument that is not
/// yet in the symbol table is recorded as text, so later inference has a
/// type for it.
pub fn transpile_function_call(name: &str, args: &Vec<Expr>, ctx: &mut TranspileContext) -> (r:
    Result<String, String>)
    ensures
        old(ctx).evolves_to(*final(ctx)),
        r matches Ok(s) ==> spec_gen_fncall(name@, args@, gstate(*old(ctx))) == Some(
            (s@, gstate(*final(ctx))),
        ),
        r is Err ==> spec_gen_fncall(name@, args@, gstate(*old(ctx))) is None,
    decreases args@, 3int, 0int,
{
    match match_builtin(name) {
        Some(func) => transpile_builtin_call(&func, args, ctx),
        None => {
            let n = args.len();
            let mut i: usize = 0;
            while i < n
                invariant
                    n == args@.len(),
                    old(ctx).evolves_to(*ctx),
                    spec_record_args(args@, 0, gstate(*old(ctx))) == spec_record_args(
                        args@,
                        i as int,
                        gstate(*ctx),
                    ),
                decreases n - i,
            {
                let ghost pre = *ctx;
                match &args[i] {
                    Expr::VariableRef(var_name) => {
                        if ctx.symbol_type(var_name.as_str()).is_none() {
                            ctx.insert_symbol(var_name.clone(), Type::Metn);
                        }
                    },
                    _ => {},
                }
                proof {
                    crate::transpiler::context::lemma_evolves_trans(*old(ctx), pre, *ctx);
                }
                i += 1;
            }
            let ghost mid = *ctx;
            let args_code = match transpile_seq(args, 0, ctx) {
                Ok(v) => v,
                Err(e) => {
                    proof {
                        crate::transpiler::context::lemma_evolves_trans(*old(ctx), mid, *ctx);
                    }
                    return Err(e);
                },
            };
            proof {
                crate::transpiler::context::lemma_evolves_trans(*old(ctx), mid, *ctx);
            }
            let joined = join_strings(&args_code, 0, ", ");
            let mut s = name.to_owned();
            s.push_str("(");
            s.push_str(joined.as_str());
            s.push_str(")");
            Ok(s)
        },
    }
}

/// Renders a function definition: the mapped parameter list and the
/// indented body.
pub fn transpile_function_def(
    name: &str,
    params: &Vec<(String, Type, bool)>,
    body: &Vec<Expr>,
    ctx: &mut TranspileContext,
) -> (r: Result<String, String>)
    ensures
        old(ctx).evolves_to(*final(ctx)),
        r matches Ok(s) ==> spec_gen_fndef(name@, params@, body@, gstate(*old(ctx))) == Some(
            (s@, gstate(*final(ctx))),
        ),
        r is Err ==> spec_gen_fndef(name@, params@, body@, gstate(*old(ctx))) is None,
    decreases body@, 1int, 0int,
{
    let params_str = render_params(params, 0);

    let body_lines = match transpile_seq(body, 0, ctx) {
        Ok(v) => v,
        Err(e) => {
            return Err(e);
        },
    };

    let mut out = "fn ".to_owned();
    out.push_str(name);
    out.push_str("(");
    let joined_params = join_strings(&params_str, 0, ", ");
    out.push_str(joined_params.as_str());
    out.push_str(") {\n");
    let body_text = indent_lines(&body_lines, 0);
    let joined_body = join_strings(&body_text, 0, "\n");
    out.push_str(joined_body.as_str());
    out.push_str("\n}");
    Ok(out)
}

fn render_params(params: &Vec<(String, Type, bool)>, i: usize) -> (r: Vec<String>)
    ensures
        views_of(r@) == spec_params_from(params@, i as int),
    decreases params@.len() - i,
{
    if i >= params.len() {
        let empty: Vec<String> = Vec::new();
        proof {
            assert(views_of(empty@) =~= Seq::<Seq<char>>::empty());
        }
        empty
    } else {
        let mut rest = render_params(params, i + 1);
        let ghost pre = rest@;
        let param = &params[i];
        let rust_type = map_type(&param.1, !param.2);
        let mut p = param.0.clone();
        p.push_str(": ");
        p.push_str(rust_type.as_str());
        rest.insert(0, p);
        proof {
            assert(views_of(rest@) =~= views_of(pre).insert(
                0,
                params@[i as int].0@ + ": "@ + crate::transpiler::utils::spec_map_type(
                    params@[i as int].1,
                    !params@[i as int].2,
                ),
            ));
        }
        rest
    }
}

fn indent_lines(lines: &Vec<String>, i: usize) -> (r: Vec<String>)
    ensures
        views_of(r@) == spec_indent_from(views_of(lines@), i as int),
    decreases lines@.len() - i,
{
    if i >= lines.len() {
        let empty: Vec<String> = Vec::new();
        proof {
            assert(views_of(empty@) =~= Seq::<Seq<char>>::empty());
        }
        empty
    } else {
        let mut rest = indent_lines(lines, i + 1);
        let ghost pre = rest@;
        let mut line = "    ".to_owned();
        line.push_str(lines[i].as_str());
        rest.insert(0, line);
        proof {
            assert(views_of(lines@)[i as int] == lines@[i as int]@);
            assert(views_of(rest@) =~= views_of(pre).insert(
                0,
                "    "@ + views_of(lines@)[i as int],
            ));
        }
        rest
    }
}

} // verus!
