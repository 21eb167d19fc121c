//! Declaration code generation.
//!
//! A constant declaration whose initializer is a literal list takes a
//! direct path: it is emitted as a fixed-size, read-only reference built
//! straight from the literal, instead of going through general
//! expression translation. A mutable list becomes a growable list backed
//! by the allocator, with its cleanup statement queued for the end of
//! the program.

use vstd::prelude::*;

use crate::ast::{BuiltInFunction, Expr, Type};
use crate::strutil::concat3;
use crate::transpiler::context::{TranspileContext, lemma_evolves_trans};
use crate::transpiler::expr::{join_strings, transpile_expr, transpile_seq};
use crate::transpiler::genspec::{gstate, spec_gen_decl};
use crate::transpiler::utils::{get_expr_type, map_type, spec_infer, transpile_input_var};

verus! {

/// Renders a mutable declaration; an input-call initializer goes through
/// the input helper path.
pub fn transpile_mutable_decl(
    name: &str,
    typ: &Option<Type>,
    value: &Expr,
    ctx: &mut TranspileContext,
) -> (r: Result<String, String>)
    ensures
        old(ctx).evolves_to(*final(ctx)),
        r matches Ok(s) ==> spec_gen_decl(name@, *typ, *value, gstate(*old(ctx)), true) == Some(
            (s@, gstate(*final(ctx))),
        ),
        r is Err ==> spec_gen_decl(name@, *typ, *value, gstate(*old(ctx)), true) is None,
        typ is None && spec_infer(*value, old(ctx).syms()) is None ==> r is Err,
    decreases *value, 2int, 1int,
{
    transpile_decl(name, typ, value, ctx, true)
}

/// Renders a constant declaration; a literal list initializer takes the
/// direct read-only path.
pub fn transpile_constant_decl(
    name: &str,
    typ: &Option<Type>,
    value: &Expr,
    ctx: &mut TranspileContext,
) -> (r: Result<String, String>)
    ensures
        old(ctx).evolves_to(*final(ctx)),
        r matches Ok(s) ==> spec_gen_decl(name@, *typ, *value, gstate(*old(ctx)), false) == Some(
            (s@, gstate(*final(ctx))),
        ),
        r is Err ==> spec_gen_decl(name@, *typ, *value, gstate(*old(ctx)), false) is None,
        typ is None && spec_infer(*value, old(ctx).syms()) is None ==> r is Err,
    decreases *value, 2int, 1int,
{
    transpile_decl(name, typ, value, ctx, false)
}

#[verifier::rlimit(100)]
fn transpile_decl(
    name: &str,
    typ: &Option<Type>,
    value: &Expr,
    ctx: &mut TranspileContext,
    is_mutable: bool,
) -> (r: Result<String, String>)
    ensures
        old(ctx).evolves_to(*final(ctx)),
        r matches Ok(s) ==> spec_gen_decl(name@, *typ, *value, gstate(*old(ctx)), is_mutable)
            == Some((s@, gstate(*final(ctx)))),
        r is Err ==> spec_gen_decl(name@, *typ, *value, gstate(*old(ctx)), is_mutable) is None,
        typ is None && spec_infer(*value, old(ctx).syms()) is None ==> r is Err,
    decreases *value, 2int, 0int,
{
    let t = match typ {
        Some(t) => t.clone(),
        None => match get_expr_type(value, ctx) {
            Some(t) => t,
            None => {
                return Err(concat3("'", name, "' üçün tip təyin edilə bilmədi"));
            },
        },
    };

    let is_input = match value {
        Expr::BuiltInCall { func, args } => matches!(func, BuiltInFunction::Input),
        _ => false,
    };
    if is_input {
        match value {
            Expr::BuiltInCall { func, args } => {
                return transpile_input_var(name, &t, args, ctx, is_mutable);
            },
            _ => {},
        }
    }

    if is_mutable {
        ctx.insert_mutable(name);
    }
    let ghost c1 = *ctx;
    ctx.insert_symbol(name.to_owned(), t.clone());
    proof {
        lemma_evolves_trans(*old(ctx), c1, *ctx);
    }
    let ghost c2 = *ctx;

    let elem = match &t {
        Type::Siyahi(inner) => Some((**inner).clone()),
        _ => None,
    };

    match elem {
        Some(inner) => {
            let items: Option<&Vec<Expr>> = match value {
                Expr::List(items) => Some(items),
                _ => None,
            };
            match items {
                Some(items) => {
                    let codes = match transpile_seq(items, 0, ctx) {
                        Ok(v) => v,
                        Err(e) => {
                            proof {
                                lemma_evolves_trans(*old(ctx), c2, *ctx);
                            }
                            return Err(e);
                        },
                    };
                    proof {
                        lemma_evolves_trans(*old(ctx), c2, *ctx);
                    }
                    let ghost c3 = *ctx;
                    let joined = join_strings(&codes, 0, ", ");
                    let elem_ty = map_type(&inner, false);
                    if is_mutable {
                        ctx.needs_allocator = true;
                        let mut cleanup = name.to_owned();
                        cleanup.push_str(".deinit();");
                        ctx.push_cleanup(cleanup);
                        proof {
                            lemma_evolves_trans(*old(ctx), c3, *ctx);
                        }
                        let mut s = "var ".to_owned();
                        s.push_str(name);
                        s.push_str(" = std.ArrayList(");
                        s.push_str(elem_ty.as_str());
                        s.push_str(").init(allocator);\ntry ");
                        s.push_str(name);
                        s.push_str(".appendSlice(&[_]");
                        s.push_str(elem_ty.as_str());
                        s.push_str("{ ");
                        s.push_str(joined.as_str());
                        s.push_str(" });");
                        Ok(s)
                    } else {
                        let mut s = "const ".to_owned();
                        s.push_str(name);
                        s.push_str(" = &[_]");
                        s.push_str(elem_ty.as_str());
                        s.push_str("{ ");
                        s.push_str(joined.as_str());
                        s.push_str(" };");
                        Ok(s)
                    }
                },
                None => {
                    let code = match transpile_expr(value, ctx) {
                        Ok(s) => s,
                        Err(e) => {
                            proof {
                                lemma_evolves_trans(*old(ctx), c2, *ctx);
                            }
                            return Err(e);
                        },
                    };
                    proof {
                        lemma_evolves_trans(*old(ctx), c2, *ctx);
                    }
                    let mut s = if is_mutable {
                        "var ".to_owned()
                    } else {
                        "const ".to_owned()
                    };
                    s.push_str(name);
                    s.push_str(" = ");
                    s.push_str(code.as_str());
                    s.push_str(";");
                    Ok(s)
                },
            }
        },
        None => {
            let code = match transpile_expr(value, ctx) {
                Ok(s) => s,
                Err(e) => {
                    proof {
                        lemma_evolves_trans(*old(ctx), c2, *ctx);
                    }
                    return Err(e);
                },
            };
            proof {
                lemma_evolves_trans(*old(ctx), c2, *ctx);
            }
            let ty = map_type(&t, !is_mutable);
            let mut s = if is_mutable {
                "var ".to_owned()
            } else {
                "const ".to_owned()
            };
            s.push_str(name);
            s.push_str(": ");
            s.push_str(ty.as_str());
            s.push_str(" = ");
            s.push_str(code.as_str());
            s.push_str(";");
            Ok(s)
        },
    }
}

} // verus!
