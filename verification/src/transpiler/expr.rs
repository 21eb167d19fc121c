//! The central expression walk of the code generator.

use vstd::prelude::*;

use crate::ast::{BuiltInFunction, Expr, Type};
use crate::strutil::{esc_seq, escape_string, i64_dec, i64_to_string, str_eq};
use crate::transpiler::array_methods::transpile_list_method_call;
use crate::transpiler::context::{TranspileContext, lemma_evolves_trans};
use crate::transpiler::declaration::{transpile_constant_decl, transpile_mutable_decl};
use crate::transpiler::function::{transpile_function_call, transpile_function_def};
use crate::transpiler::genspec::{gstate, spec_gen, spec_gen_builtin, spec_gen_seq, views_of};
use crate::transpiler::loops::transpile_loop;
use crate::transpiler::string_methods::transpile_string_method_call;
use crate::transpiler::utils::{
    get_expr_type, transpile_builtin_print, transpile_builtin_sum, transpile_input_var,
};

verus! {

/// The join of string parts with a separator between consecutive parts.
pub open spec fn spec_join_from(parts: Seq<Seq<char>>, i: int, sep: Seq<char>) -> Seq<char>
    decreases parts.len() - i,
{
    if i < 0 || i >= parts.len() {
        Seq::empty()
    } else if i == parts.len() - 1 {
        parts[i]
    } else {
        parts[i] + sep + spec_join_from(parts, i + 1, sep)
    }
}

/// Joins rendered parts with a separator.
pub fn join_strings(v: &Vec<String>, i: usize, sep: &str) -> (r: String)
    ensures
        r@ == spec_join_from(views_of(v@), i as int, sep@),
    decreases v@.len() - i,
{
    let ghost parts = views_of(v@);
    if i >= v.len() {
        String::new()
    } else if i == v.len() - 1 {
        proof {
            assert(parts[i as int] == v@[i as int]@);
        }
        v[i].clone()
    } else {
        let rest = join_strings(v, i + 1, sep);
        let mut s = v[i].clone();
        s.push_str(sep);
        s.push_str(rest.as_str());
        proof {
            assert(parts[i as int] == v@[i as int]@);
        }
        s
    }
}

/// Renders each expression of a sequence in order, threading the context.
pub fn transpile_seq(es: &Vec<Expr>, i: usize, ctx: &mut TranspileContext) -> (r: Result<
    Vec<String>,
    String,
>)
    ensures
        old(ctx).evolves_to(*final(ctx)),
        r matches Ok(v) ==> spec_gen_seq(es@, i as int, gstate(*old(ctx))) == Some(
            (views_of(v@), gstate(*final(ctx))),
        ),
        r is Err ==> spec_gen_seq(es@, i as int, gstate(*old(ctx))) is None,
    decreases es@, 0int, es@.len() - i,
{
    if i >= es.len() {
        proof {
            crate::transpiler::context::lemma_evolves_refl(*ctx);
        }
        let empty: Vec<String> = Vec::new();
        proof {
            assert(views_of(empty@) =~= Seq::<Seq<char>>::empty());
        }
        Ok(empty)
    } else {
        let code = match transpile_expr(&es[i], ctx) {
            Ok(s) => s,
            Err(e) => {
                return Err(e);
            },
        };
        let ghost mid = *ctx;
        match transpile_seq(es, i + 1, ctx) {
            Ok(mut rest) => {
                proof {
                    lemma_evolves_trans(*old(ctx), mid, *ctx);
                }
                let ghost pre = rest@;
                rest.insert(0, code);
                proof {
                    assert(views_of(rest@) =~= views_of(pre).insert(0, code@));
                }
                Ok(rest)
            },
            Err(e) => {
                proof {
                    lemma_evolves_trans(*old(ctx), mid, *ctx);
                }
                Err(e)
            },
        }
    }
}

/// Renders one built-in call.
pub fn transpile_builtin_call(
    func: &BuiltInFunction,
    args: &Vec<Expr>,
    ctx: &mut TranspileContext,
) -> (r: Result<String, String>)
    ensures
        old(ctx).evolves_to(*final(ctx)),
        r matches Ok(s) ==> spec_gen_builtin(*func, args@, gstate(*old(ctx))) == Some(
            (s@, gstate(*final(ctx))),
        ),
        r is Err ==> spec_gen_builtin(*func, args@, gstate(*old(ctx))) is None,
    decreases args@, 2int, 1int,
{
    match func {
        BuiltInFunction::Print => {
            if args.len() == 0 {
                proof {
                    crate::transpiler::context::lemma_evolves_refl(*ctx);
                }
                return Err("çap funksiyası arqument gözləyir".to_owned());
            }
            transpile_builtin_print(&args[0], ctx)
        },
        BuiltInFunction::Sum => transpile_builtin_sum(args, ctx),
        BuiltInFunction::Number => {
            if args.len() == 0 {
                proof {
                    crate::transpiler::context::lemma_evolves_refl(*ctx);
                }
                return Err("ədəd funksiyası arqument gözləyir".to_owned());
            }
            let kind: u8 = match &args[0] {
                Expr::String(_) => 0,
                Expr::FunctionCall { name, args: inner } => 1,
                Expr::VariableRef(_) => 1,
                _ => 2,
            };
            if kind == 0 {
                match &args[0] {
                    Expr::String(s) => {
                        proof {
                            crate::transpiler::context::lemma_evolves_refl(*ctx);
                        }
                        Ok(s.clone())
                    },
                    _ => Err("ədəd funksiyası üçün dəyər gözlənilirdi".to_owned()),
                }
            } else if kind == 1 {
                let inner = match transpile_expr(&args[0], ctx) {
                    Ok(s) => s,
                    Err(e) => {
                        return Err(e);
                    },
                };
                let mut s = inner;
                s.push_str(".parse::<i32>().unwrap()");
                Ok(s)
            } else {
                proof {
                    crate::transpiler::context::lemma_evolves_refl(*ctx);
                }
                Ok("0".to_owned())
            }
        },
        BuiltInFunction::Input => {
            proof {
                crate::transpiler::context::lemma_evolves_refl(*ctx);
            }
            Ok(String::new())
        },
        BuiltInFunction::Len => {
            if args.len() == 0 {
                proof {
                    crate::transpiler::context::lemma_evolves_refl(*ctx);
                }
                return Err("uzunluq funksiyası arqument gözləyir".to_owned());
            }
            let arg_code = match transpile_expr(&args[0], ctx) {
                Ok(s) => s,
                Err(e) => {
                    return Err(e);
                },
            };
            let mut s = arg_code;
            s.push_str(".len()");
            Ok(s)
        },
    }
}

/// Renders one expression of the validated tree into target-language
/// text, extending the context with the imports, helper flags and
/// cleanup statements the rendering needs.
///
/// The whole walk is pinned to `spec_gen`: the call succeeds exactly
/// when the emission judgment accepts the expression, and then the
/// returned text and the context change are exactly the judgment's.
pub fn transpile_expr(expr: &Expr, ctx: &mut TranspileContext) -> (r: Result<String, String>)
    ensures
        old(ctx).evolves_to(*final(ctx)),
        r matches Ok(s) ==> spec_gen(*expr, gstate(*old(ctx))) == Some(
            (s@, gstate(*final(ctx))),
        ),
        r is Err ==> spec_gen(*expr, gstate(*old(ctx))) is None,
        *expr matches Expr::Number(n) ==> *final(ctx) == *old(ctx) && (r matches Ok(s) && s@
            == i64_dec(n as int)),
        *expr matches Expr::Bool(b) ==> *final(ctx) == *old(ctx) && (r matches Ok(s) && s@ == (if b {
            "true"@
        } else {
            "false"@
        })),
        *expr matches Expr::VariableRef(name) ==> *final(ctx) == *old(ctx) && (r matches Ok(s)
            && s@ == name@),
        *expr matches Expr::String(v) ==> *final(ctx) == *old(ctx) && (r matches Ok(s) && s@
            == seq!['"'] + esc_seq(v@) + seq!['"']),
    decreases *expr, 1int, 0int,
{
    match expr {
        Expr::Index { target, index } => {
            let target_code = match transpile_expr(target, ctx) {
                Ok(s) => s,
                Err(e) => {
                    return Err(e);
                },
            };
            let ghost mid = *ctx;
            let index_code = match transpile_expr(index, ctx) {
                Ok(s) => s,
                Err(e) => {
                    proof {
                        lemma_evolves_trans(*old(ctx), mid, *ctx);
                    }
                    return Err(e);
                },
            };
            proof {
                lemma_evolves_trans(*old(ctx), mid, *ctx);
            }
            let mut s = target_code;
            s.push_str("[");
            s.push_str(index_code.as_str());
            s.push_str("]");
            Ok(s)
        },
        Expr::BinaryOp { left, op, right } => {
            let left_code = match transpile_expr(left, ctx) {
                Ok(s) => s,
                Err(e) => {
                    return Err(e);
                },
            };
            let ghost mid = *ctx;
            let right_code = match transpile_expr(right, ctx) {
                Ok(s) => s,
                Err(e) => {
                    proof {
                        lemma_evolves_trans(*old(ctx), mid, *ctx);
                    }
                    return Err(e);
                },
            };
            proof {
                lemma_evolves_trans(*old(ctx), mid, *ctx);
            }
            let zig_op: String = if str_eq(op.as_str(), "&&") {
                "and".to_owned()
            } else if str_eq(op.as_str(), "||") {
                "or".to_owned()
            } else {
                op.clone()
            };
            let mut s = "(".to_owned();
            s.push_str(left_code.as_str());
            s.push_str(" ");
            s.push_str(zig_op.as_str());
            s.push_str(" ");
            s.push_str(right_code.as_str());
            s.push_str(")");
            Ok(s)
        },
        Expr::If { condition, then_branch, else_branch } => {
            let condition_code = match transpile_expr(condition, ctx) {
                Ok(s) => s,
                Err(e) => {
                    return Err(e);
                },
            };
            let ghost c1 = *ctx;
            let then_codes = match transpile_seq(then_branch, 0, ctx) {
                Ok(v) => v,
                Err(e) => {
                    proof {
                        lemma_evolves_trans(*old(ctx), c1, *ctx);
                    }
                    return Err(e);
                },
            };
            proof {
                lemma_evolves_trans(*old(ctx), c1, *ctx);
            }
            let ghost c2 = *ctx;
            let then_code = join_strings(&then_codes, 0, ";\n");
            let else_code: String = match else_branch {
                Some(branch) => {
                    let else_codes = match transpile_seq(branch, 0, ctx) {
                        Ok(v) => v,
                        Err(e) => {
                            proof {
                                lemma_evolves_trans(*old(ctx), c2, *ctx);
                            }
                            return Err(e);
                        },
                    };
                    proof {
                        lemma_evolves_trans(*old(ctx), c2, *ctx);
                    }
                    let joined = join_strings(&else_codes, 0, ";\n");
                    let mut e = " else {\n".to_owned();
                    e.push_str(joined.as_str());
                    e.push_str("\n}");
                    e
                },
                None => String::new(),
            };
            let mut s = "if (".to_owned();
            s.push_str(condition_code.as_str());
            s.push_str(") {\n");
            s.push_str(then_code.as_str());
            s.push_str("\n}");
            s.push_str(else_code.as_str());
            Ok(s)
        },
        Expr::Loop { var_name, iterable, body } => {
            let r = transpile_loop(var_name.as_str(), iterable, body, ctx, Ghost(*expr));
            r
        },
        Expr::BuiltInCall { func, args } => transpile_builtin_call(func, args, ctx),
        Expr::MutableDecl { name, typ, value } => transpile_mutable_decl(
            name.as_str(),
            typ,
            value,
            ctx,
        ),
        Expr::ConstantDecl { name, typ, value } => transpile_constant_decl(
            name.as_str(),
            typ,
            value,
            ctx,
        ),
        Expr::Bool(b) => {
            proof {
                crate::transpiler::context::lemma_evolves_refl(*ctx);
            }
            if *b {
                Ok("true".to_owned())
            } else {
                Ok("false".to_owned())
            }
        },
        Expr::Number(n) => {
            proof {
                crate::transpiler::context::lemma_evolves_refl(*ctx);
            }
            Ok(i64_to_string(*n))
        },
        Expr::MethodCall { target, method, args } => {
            let target_code = match transpile_expr(target, ctx) {
                Ok(s) => s,
                Err(e) => {
                    return Err(e);
                },
            };
            let ghost c1 = *ctx;
            let args_code = match transpile_seq(args, 0, ctx) {
                Ok(v) => v,
                Err(e) => {
                    proof {
                        lemma_evolves_trans(*old(ctx), c1, *ctx);
                    }
                    return Err(e);
                },
            };
            proof {
                lemma_evolves_trans(*old(ctx), c1, *ctx);
            }
            let ghost c2 = *ctx;
            let target_type = get_expr_type(target, ctx);
            match target_type {
                Some(Type::Metn) => {
                    let r = transpile_string_method_call(
                        target_code.as_str(),
                        method.as_str(),
                        &args_code,
                        ctx,
                    );
                    proof {
                        lemma_evolves_trans(*old(ctx), c2, *ctx);
                    }
                    match r {
                        Some(s) => Ok(s),
                        None => Err(
                            crate::strutil::concat3(
                                "Dəstəklənməyən string metodu: ",
                                method.as_str(),
                                "",
                            ),
                        ),
                    }
                },
                Some(Type::Siyahi(_)) => {
                    let is_mutable = ctx.is_mutable_symbol(target_code.as_str());
                    transpile_list_method_call(
                        target_code.as_str(),
                        method.as_str(),
                        &args_code,
                        is_mutable,
                    )
                },
                _ => Err("MethodCall üçün dəstəklənməyən target tipi".to_owned()),
            }
        },
        Expr::Return(inner) => {
            let expr_code = match transpile_expr(inner, ctx) {
                Ok(s) => s,
                Err(e) => {
                    return Err(e);
                },
            };
            let mut s = "return ".to_owned();
            s.push_str(expr_code.as_str());
            Ok(s)
        },
        Expr::FunctionCall { name, args } => transpile_function_call(name.as_str(), args, ctx),
        Expr::List(items) => {
            let items_code = match transpile_seq(items, 0, ctx) {
                Ok(v) => v,
                Err(e) => {
                    return Err(e);
                },
            };
            let items_str = join_strings(&items_code, 0, ", ");
            let mut s = "[".to_owned();
            s.push_str(items_str.as_str());
            s.push_str("]");
            Ok(s)
        },
        Expr::String(v) => {
            proof {
                crate::transpiler::context::lemma_evolves_refl(*ctx);
            }
            let escaped = escape_string(v.as_str());
            let mut s = "\"".to_owned();
            s.push_str(escaped.as_str());
            s.push_str("\"");
            proof {
                reveal_strlit("\"");
                assert(s@ =~= seq!['"'] + esc_seq(v@) + seq!['"']);
            }
            Ok(s)
        },
        Expr::VariableRef(name) => {
            proof {
                crate::transpiler::context::lemma_evolves_refl(*ctx);
            }
            Ok(name.clone())
        },
        Expr::FunctionDef { name, params, body } => transpile_function_def(
            name.as_str(),
            params,
            body,
            ctx,
        ),
    }
}

} // verus!
