//! The validator: one pre-order walk over the tree that performs type
//! inference and checking and builds the symbol table.
//!
//! Every rule is a hard, pass-aborting error; validation must succeed
//! before code generation runs. The whole pass is pinned to the spec
//! functions in this module, so the typing rules stated there are exactly
//! what the executable validator enforces.

use vstd::prelude::*;

use crate::ast::{BuiltInFunction, Expr, Type, lemma_type_eqv_refl, type_eq, type_eqv};
use crate::strutil::{concat3, str_eq};
use crate::transpiler::context::{TranspileContext, insert_name, sym_lookup};
use crate::transpiler::utils::{get_expr_type, map_type, spec_infer};

verus! {

/// The validator-owned state: the symbol table and the mutable-symbol
/// set, both at the level of name characters.
pub struct VState {
    pub syms: Seq<(Seq<char>, Type)>,
    pub mutables: Seq<Seq<char>>,
}

/// The validator-owned part of a compilation context.
pub open spec fn ctx_vstate(ctx: TranspileContext) -> VState {
    VState { syms: ctx.syms(), mutables: ctx.mutables() }
}

/// Whether a method name with this argument count is acceptable: the
/// fixed method tables with their arities. An unknown name or a wrong
/// arity is rejected.
pub open spec fn spec_method_ok(method: Seq<char>, nargs: int) -> bool {
    if method == "əlavə_et"@ || method == "sil"@ || method == "sıralı_sil"@ {
        nargs == 1
    } else if method == "sırala"@ || method == "əks_sırala"@ || method == "uzunluq"@
        || method == "boşdur"@ {
        nargs == 0
    } else if method == "cəm"@ || method == "sum"@ {
        nargs == 1
    } else if method == "böyüt"@ || method == "kiçilt"@ || method == "kənar_təmizlə"@ {
        nargs == 0
    } else if method == "əvəzlə"@ || method == "kəs"@ {
        nargs == 2
    } else if method == "birləşdir"@ || method == "böl"@ {
        nargs == 1
    } else {
        false
    }
}

/// The typing judgment of the language, as a state transformer: `None`
/// when the expression is rejected, and the updated validator state when
/// it is accepted.
///
/// Declarations record the symbol (and its mutability) and require any
/// annotation to equal the inferred initializer type; conditions must be
/// boolean; binary operands must share a type; loop iterables must be
/// lists, with the loop variable bound to the element type; list literals
/// must be homogeneous; a printed value must have a non-list type;
/// method calls must use a known method with its arity; variable
/// references must already be declared.
pub open spec fn spec_validate(e: Expr, st: VState) -> Option<VState>
    decreases e, 0int,
{
    match e {
        Expr::MutableDecl { name, typ, value } => {
            let m1 = insert_name(st.mutables, name@);
            match spec_infer(*value, st.syms) {
                None => None,
                Some(inferred) => {
                    let declared = match typ {
                        Some(t) => t,
                        None => inferred,
                    };
                    if !type_eqv(inferred, declared) {
                        None
                    } else {
                        spec_validate(
                            *value,
                            VState { syms: st.syms.push((name@, declared)), mutables: m1 },
                        )
                    }
                },
            }
        },
        Expr::ConstantDecl { name, typ, value } => match spec_infer(*value, st.syms) {
            None => None,
            Some(inferred) => {
                let declared = match typ {
                    Some(t) => t,
                    None => inferred,
                };
                if !type_eqv(inferred, declared) {
                    None
                } else {
                    spec_validate(
                        *value,
                        VState { syms: st.syms.push((name@, declared)), mutables: st.mutables },
                    )
                }
            },
        },
        Expr::If { condition, then_branch, else_branch } => match spec_validate(*condition, st) {
            None => None,
            Some(st1) => match spec_infer(*condition, st1.syms) {
                None => None,
                Some(ct) => if !(ct is Bool) {
                    None
                } else {
                    match spec_validate_seq(then_branch@, 0, st1) {
                        None => None,
                        Some(st2) => match else_branch {
                            None => Some(st2),
                            Some(es) => spec_validate_seq(es@, 0, st2),
                        },
                    }
                },
            },
        },
        Expr::BinaryOp { left, op, right } => match spec_validate(*left, st) {
            None => None,
            Some(st1) => match spec_validate(*right, st1) {
                None => None,
                Some(st2) => match (spec_infer(*left, st2.syms), spec_infer(*right, st2.syms)) {
                    (None, None) => Some(st2),
                    (Some(lt), Some(rt)) => if type_eqv(lt, rt) {
                        Some(st2)
                    } else {
                        None
                    },
                    _ => None,
                },
            },
        },
        Expr::BuiltInCall { func, args } => match spec_validate_seq(args@, 0, st) {
            None => None,
            Some(st1) => match func {
                BuiltInFunction::Sum => if args@.len() != 1 {
                    None
                } else {
                    match spec_infer(args@[0], st1.syms) {
                        None => Some(st1),
                        Some(t) => match t {
                            Type::Siyahi(inner) => if type_eqv(*inner, Type::Integer) {
                                Some(st1)
                            } else {
                                None
                            },
                            _ => None,
                        },
                    }
                },
                BuiltInFunction::Print => if args@.len() != 1 {
                    None
                } else {
                    match spec_infer(args@[0], st1.syms) {
                        None => None,
                        Some(t) => match t {
                            Type::Siyahi(_) => None,
                            _ => Some(st1),
                        },
                    }
                },
                BuiltInFunction::Len => if args@.len() != 1 {
                    None
                } else {
                    Some(st1)
                },
                BuiltInFunction::Number => if args@.len() != 1 {
                    None
                } else {
                    Some(st1)
                },
                BuiltInFunction::Input => Some(st1),
            },
        },
        Expr::MethodCall { target, method, args } => match spec_validate(*target, st) {
            None => None,
            Some(st1) => match spec_validate_seq(args@, 0, st1) {
                None => None,
                Some(st2) => if spec_method_ok(method@, args@.len() as int) {
                    Some(st2)
                } else {
                    None
                },
            },
        },
        Expr::FunctionCall { name, args } => spec_validate_seq(args@, 0, st),
        Expr::FunctionDef { name, params, body } => spec_validate_seq(body@, 0, st),
        Expr::Loop { var_name, iterable, body } => match spec_infer(*iterable, st.syms) {
            Some(t) => match t {
                Type::Siyahi(inner) => spec_validate_seq(
                    body@,
                    0,
                    VState { syms: st.syms.push((var_name@, *inner)), mutables: st.mutables },
                ),
                _ => None,
            },
            None => None,
        },
        Expr::Return(inner) => spec_validate(*inner, st),
        Expr::List(items) => if items@.len() == 0 {
            Some(st)
        } else {
            match spec_infer(items@[0], st.syms) {
                None => None,
                Some(ft) => spec_validate_list(items@, 1, ft, st),
            }
        },
        Expr::Index { target, index } => match spec_validate(*target, st) {
            None => None,
            Some(st1) => spec_validate(*index, st1),
        },
        Expr::VariableRef(name) => match sym_lookup(st.syms, name@) {
            Some(_) => Some(st),
            None => None,
        },
        Expr::String(_) => Some(st),
        Expr::Number(_) => Some(st),
        Expr::Bool(_) => Some(st),
    }
}

/// Validates the expressions of a sequence in order, threading the state.
pub open spec fn spec_validate_seq(es: Seq<Expr>, i: int, st: VState) -> Option<VState>
    decreases es, es.len() - i,
{
    if i < 0 || i >= es.len() {
        Some(st)
    } else {
        match spec_validate(es[i], st) {
            None => None,
            Some(st1) => spec_validate_seq(es, i + 1, st1),
        }
    }
}

/// Validates the tail of a list literal against the first element's type:
/// each element must infer a type equal to it, and must itself validate.
pub open spec fn spec_validate_list(items: Seq<Expr>, i: int, ft: Type, st: VState) -> Option<
    VState,
>
    decreases items, items.len() - i,
{
    if i < 0 || i >= items.len() {
        Some(st)
    } else {
        match spec_infer(items[i], st.syms) {
            None => None,
            Some(t) => if !type_eqv(t, ft) {
                None
            } else {
                match spec_validate(items[i], st) {
                    None => None,
                    Some(st1) => spec_validate_list(items, i + 1, ft, st1),
                }
            },
        }
    }
}

/// For a constant declaration with an explicit annotation `t` and an
/// initializer whose inferred type is `u`, validation succeeds exactly
/// when `t` and `u` are equal — provided the initializer itself passes
/// validation under the extended symbol table.
pub proof fn lemma_decl_annotation_rule(
    name: String,
    t: Type,
    value: Box<Expr>,
    st: VState,
    u: Type,
)
    requires
        spec_infer(*value, st.syms) == Some(u),
        spec_validate(
            *value,
            VState { syms: st.syms.push((name@, t)), mutables: st.mutables },
        ) is Some,
    ensures
        spec_validate(Expr::ConstantDecl { name, typ: Some(t), value }, st) is Some <==> type_eqv(
            u,
            t,
        ),
{
}

/// The same annotation rule for a mutable declaration, whose name also
/// enters the mutable-symbol set before the initializer is examined.
pub proof fn lemma_mutable_decl_annotation_rule(
    name: String,
    t: Type,
    value: Box<Expr>,
    st: VState,
    u: Type,
)
    requires
        spec_infer(*value, st.syms) == Some(u),
        spec_validate(
            *value,
            VState {
                syms: st.syms.push((name@, t)),
                mutables: insert_name(st.mutables, name@),
            },
        ) is Some,
    ensures
        spec_validate(Expr::MutableDecl { name, typ: Some(t), value }, st) is Some <==> type_eqv(
            u,
            t,
        ),
{
}

/// A loop validates exactly when its iterable infers a list type and the
/// body validates with the loop variable bound to the element type.
pub proof fn lemma_loop_rule(var_name: String, iterable: Box<Expr>, body: Vec<Expr>, st: VState)
    ensures
        spec_validate(Expr::Loop { var_name, iterable, body }, st) is Some <==> (spec_infer(
            *iterable,
            st.syms,
        ) matches Some(it) && it matches Type::Siyahi(inner) && spec_validate_seq(
            body@,
            0,
            VState { syms: st.syms.push((var_name@, *inner)), mutables: st.mutables },
        ) is Some),
{
}

proof fn lemma_validate_list_rest(items: Seq<Expr>, i: int, ft: Type, st: VState)
    requires
        1 <= i <= items.len(),
        forall|j: int| i <= j < items.len() ==> #[trigger] spec_validate(items[j], st) == Some(st),
    ensures
        spec_validate_list(items, i, ft, st) is Some <==> (forall|j: int|
            i <= j < items.len() ==> (#[trigger] spec_infer(items[j], st.syms) matches Some(tj)
                && type_eqv(tj, ft))),
    decreases items.len() - i,
{
    if i < items.len() {
        lemma_validate_list_rest(items, i + 1, ft, st);
        assert(spec_validate(items[i], st) == Some(st));
        if spec_validate_list(items, i, ft, st) is Some {
            assert forall|j: int|
                i <= j < items.len() implies (#[trigger] spec_infer(items[j], st.syms)
                matches Some(tj) && type_eqv(tj, ft)) by {
                if j == i {
                    assert(spec_infer(items[i], st.syms) matches Some(tj) && type_eqv(tj, ft));
                } else {
                    assert(spec_validate_list(items, i + 1, ft, st) is Some);
                }
            }
        } else {
            if forall|j: int|
                i <= j < items.len() ==> (#[trigger] spec_infer(items[j], st.syms) matches Some(
                    tj,
                ) && type_eqv(tj, ft)) {
                assert(spec_infer(items[i], st.syms) matches Some(tj) && type_eqv(tj, ft));
                assert(spec_validate_list(items, i + 1, ft, st) is Some);
                assert(false);
            }
        }
    }
}

/// A list literal validates exactly when it is empty or every element's
/// inferred type equals the first element's — provided each element
/// itself validates without changing the state, as every pure expression
/// does.
pub proof fn lemma_list_literal_rule(items: Vec<Expr>, st: VState)
    requires
        forall|i: int|
            0 <= i < items@.len() ==> #[trigger] spec_validate(items@[i], st) == Some(st),
    ensures
        spec_validate(Expr::List(items), st) is Some <==> (items@.len() == 0 || (spec_infer(
            items@[0],
            st.syms,
        ) matches Some(t0) && forall|i: int|
            0 <= i < items@.len() ==> (#[trigger] spec_infer(items@[i], st.syms) matches Some(ti)
                && type_eqv(ti, t0)))),
{
    if items@.len() > 0 {
        match spec_infer(items@[0], st.syms) {
            Some(t0) => {
                lemma_type_eqv_refl(t0);
                lemma_validate_list_rest(items@, 1, t0, st);
            },
            None => {},
        }
    }
}

/// A type-mismatch message naming the declaration, the expected type and
/// the found type.
fn type_mismatch_message(name: &str, expected: &Type, found: &Type) -> (r: String) {
    let head = concat3("'", name, "' üçün tip uyğunsuzluğu: gözlənilən ");
    let exp = map_type(expected, false);
    let fnd = map_type(found, false);
    let mid = concat3(head.as_str(), exp.as_str(), ", tapılan ");
    concat3(mid.as_str(), fnd.as_str(), "")
}

/// Checks a method name and argument count against the fixed method
/// tables.
fn validate_method_call(method: &str, nargs: usize) -> (r: Result<(), String>)
    ensures
        r is Ok <==> spec_method_ok(method@, nargs as int),
{
    if str_eq(method, "əlavə_et") || str_eq(method, "sil") || str_eq(method, "sıralı_sil") {
        if nargs != 1 {
            return Err(concat3(method, " metodu yalnız 1 arqument qəbul edir", ""));
        }
    } else if str_eq(method, "sırala") || str_eq(method, "əks_sırala") || str_eq(
        method,
        "uzunluq",
    ) || str_eq(method, "boşdur") {
        if nargs != 0 {
            return Err(concat3(method, " metodu arqumentsiz olmalıdır", ""));
        }
    } else if str_eq(method, "cəm") || str_eq(method, "sum") {
        if nargs != 1 {
            return Err(concat3(method, " metodu yalnız 1 arqument qəbul edir", ""));
        }
    } else if str_eq(method, "böyüt") || str_eq(method, "kiçilt") || str_eq(
        method,
        "kənar_təmizlə",
    ) {
        if nargs != 0 {
            return Err(concat3(method, " metodu arqumentsiz olmalıdır", ""));
        }
    } else if str_eq(method, "əvəzlə") || str_eq(method, "kəs") {
        if nargs != 2 {
            return Err(concat3(method, " metodu 2 arqument qəbul edir", ""));
        }
    } else if str_eq(method, "birləşdir") || str_eq(method, "böl") {
        if nargs != 1 {
            return Err(concat3(method, " metodu yalnız 1 arqument qəbul edir", ""));
        }
    } else {
        return Err(concat3("Dəstəklənməyən metod: ", method, ""));
    }
    Ok(())
}

/// Validates one expression against the typing rules, extending the
/// context's symbol table and mutable-symbol set.
///
/// The result is pinned to `spec_validate`: the call succeeds exactly
/// when the judgment accepts the expression, and on success the
/// context's validator-owned state is exactly the judgment's updated
/// state. The code-generator-owned parts of the context are never
/// touched.
#[verifier::rlimit(100)]
pub fn validate_expr(expr: &Expr, ctx: &mut TranspileContext) -> (r: Result<(), String>)
    ensures
        r is Ok <==> spec_validate(*expr, ctx_vstate(*old(ctx))) is Some,
        r is Ok ==> spec_validate(*expr, ctx_vstate(*old(ctx))) == Some(ctx_vstate(*final(ctx))),
        final(ctx).gen_state_eq(*old(ctx)),
        final(ctx).imports == old(ctx).imports,
        final(ctx).cleanup_statements == old(ctx).cleanup_statements,
    decreases *expr, 0int,
{
    match expr {
        Expr::MutableDecl { name, typ, value } => {
            ctx.insert_mutable(name.as_str());
            let inferred = match get_expr_type(value, ctx) {
                Some(t) => t,
                None => {
                    return Err(concat3("'", name.as_str(), "' üçün tip təyin edilə bilmədi"));
                },
            };
            let declared = match typ {
                Some(t) => t.clone(),
                None => inferred.clone(),
            };
            if !type_eq(&inferred, &declared) {
                return Err(type_mismatch_message(name.as_str(), &declared, &inferred));
            }
            ctx.insert_symbol(name.clone(), declared);
            validate_expr(value, ctx)
        },
        Expr::ConstantDecl { name, typ, value } => {
            let inferred = match get_expr_type(value, ctx) {
                Some(t) => t,
                None => {
                    return Err(concat3("'", name.as_str(), "' üçün tip təyin edilə bilmədi"));
                },
            };
            let declared = match typ {
                Some(t) => t.clone(),
                None => inferred.clone(),
            };
            if !type_eq(&inferred, &declared) {
                return Err(type_mismatch_message(name.as_str(), &declared, &inferred));
            }
            ctx.insert_symbol(name.clone(), declared);
            validate_expr(value, ctx)
        },
        Expr::If { condition, then_branch, else_branch } => {
            match validate_expr(condition, ctx) {
                Ok(()) => {},
                Err(e) => {
                    return Err(e);
                },
            }
            let ct = match get_expr_type(condition, ctx) {
                Some(t) => t,
                None => {
                    return Err("İf şərtinin tipi müəyyən edilə bilmədi".to_owned());
                },
            };
            match ct {
                Type::Bool => {},
                _ => {
                    return Err("İf şərti bool olmalıdır".to_owned());
                },
            }
            match validate_seq(then_branch, 0, ctx) {
                Ok(()) => {},
                Err(e) => {
                    return Err(e);
                },
            }
            match else_branch {
                None => Ok(()),
                Some(es) => validate_seq(es, 0, ctx),
            }
        },
        Expr::BinaryOp { left, op, right } => {
            match validate_expr(left, ctx) {
                Ok(()) => {},
                Err(e) => {
                    return Err(e);
                },
            }
            match validate_expr(right, ctx) {
                Ok(()) => {},
                Err(e) => {
                    return Err(e);
                },
            }
            let lt = get_expr_type(left, ctx);
            let rt = get_expr_type(right, ctx);
            match (lt, rt) {
                (None, None) => Ok(()),
                (Some(a), Some(b)) => if type_eq(&a, &b) {
                    Ok(())
                } else {
                    Err(concat3("Binary `", op.as_str(), "` operatorunda tip uyğunsuzluğu"))
                },
                _ => Err(concat3("Binary `", op.as_str(), "` operatorunda tip uyğunsuzluğu")),
            }
        },
        Expr::BuiltInCall { func, args } => {
            match validate_seq(args, 0, ctx) {
                Ok(()) => {},
                Err(e) => {
                    return Err(e);
                },
            }
            match func {
                BuiltInFunction::Sum => {
                    if args.len() != 1 {
                        return Err("cəm funksiyası yalnız 1 arqument qəbul edir".to_owned());
                    }
                    match get_expr_type(&args[0], ctx) {
                        None => Ok(()),
                        Some(t) => match t {
                            Type::Siyahi(inner) => if type_eq(&inner, &Type::Integer) {
                                Ok(())
                            } else {
                                Err(
                                    "cəm funksiyası yalnız ədəd tipli siyahı qəbul edir".to_owned(),
                                )
                            },
                            _ => Err(
                                "cəm funksiyası yalnız ədəd tipli siyahı qəbul edir".to_owned(),
                            ),
                        },
                    }
                },
                BuiltInFunction::Print => {
                    if args.len() != 1 {
                        return Err("çap funksiyası yalnız 1 arqument qəbul edir".to_owned());
                    }
                    match get_expr_type(&args[0], ctx) {
                        None => Err("Tipi müəyyən etmək mümkün olmadı".to_owned()),
                        Some(t) => match t {
                            Type::Siyahi(_) => Err(
                                "çap() ilə siyahı çıxarda bilməzsiniz, zəhmət olmasa yazdır() istifadə edin".to_owned(),
                            ),
                            _ => Ok(()),
                        },
                    }
                },
                BuiltInFunction::Len => {
                    if args.len() != 1 {
                        return Err("uzunluq funksiyası yalnız 1 arqument qəbul edir".to_owned());
                    }
                    Ok(())
                },
                BuiltInFunction::Number => {
                    if args.len() != 1 {
                        return Err("ədəd funksiyası yalnız 1 arqument qəbul edir".to_owned());
                    }
                    Ok(())
                },
                BuiltInFunction::Input => Ok(()),
            }
        },
        Expr::MethodCall { target, method, args } => {
            match validate_expr(target, ctx) {
                Ok(()) => {},
                Err(e) => {
                    return Err(e);
                },
            }
            match validate_seq(args, 0, ctx) {
                Ok(()) => {},
                Err(e) => {
                    return Err(e);
                },
            }
            validate_method_call(method.as_str(), args.len())
        },
        Expr::FunctionCall { name, args } => validate_seq(args, 0, ctx),
        Expr::FunctionDef { name, params, body } => validate_seq(body, 0, ctx),
        Expr::Loop { var_name, iterable, body } => {
            match get_expr_type(iterable, ctx) {
                Some(t) => match t {
                    Type::Siyahi(inner) => {
                        ctx.insert_symbol(var_name.clone(), *inner);
                    },
                    _ => {
                        return Err(
                            "Dövr üçün istifadə edilən obyekt siyahı olmalıdır".to_owned(),
                        );
                    },
                },
                None => {
                    return Err("Dövr üçün istifadə edilən obyekt siyahı olmalıdır".to_owned());
                },
            }
            validate_seq(body, 0, ctx)
        },
        Expr::Return(inner) => validate_expr(inner, ctx),
        Expr::List(items) => {
            if items.len() == 0 {
                return Ok(());
            }
            let ft = match get_expr_type(&items[0], ctx) {
                Some(t) => t,
                None => {
                    return Err(
                        "Siyahının ilk elementi üçün tip təyin edilə bilmədi".to_owned(),
                    );
                },
            };
            validate_list(items, 1, &ft, ctx)
        },
        Expr::Index { target, index } => {
            match validate_expr(target, ctx) {
                Ok(()) => {},
                Err(e) => {
                    return Err(e);
                },
            }
            validate_expr(index, ctx)
        },
        Expr::VariableRef(name) => match ctx.symbol_type(name.as_str()) {
            Some(_) => Ok(()),
            None => Err(
                concat3("Dəyişən '", name.as_str(), "' istifadə olunmadan əvvəl elan edilməyib"),
            ),
        },
        Expr::String(_) => Ok(()),
        Expr::Number(_) => Ok(()),
        Expr::Bool(_) => Ok(()),
    }
}

/// Validates the expressions of a vector in order, from index `i` on.
fn validate_seq(es: &Vec<Expr>, i: usize, ctx: &mut TranspileContext) -> (r: Result<(), String>)
    ensures
        r is Ok <==> spec_validate_seq(es@, i as int, ctx_vstate(*old(ctx))) is Some,
        r is Ok ==> spec_validate_seq(es@, i as int, ctx_vstate(*old(ctx))) == Some(
            ctx_vstate(*final(ctx)),
        ),
        final(ctx).gen_state_eq(*old(ctx)),
        final(ctx).imports == old(ctx).imports,
        final(ctx).cleanup_statements == old(ctx).cleanup_statements,
    decreases es@, es@.len() - i,
{
    if i >= es.len() {
        Ok(())
    } else {
        match validate_expr(&es[i], ctx) {
            Ok(()) => validate_seq(es, i + 1, ctx),
            Err(e) => Err(e),
        }
    }
}

/// Validates the tail of a list literal against the first element's type.
fn validate_list(items: &Vec<Expr>, i: usize, ft: &Type, ctx: &mut TranspileContext) -> (r: Result<
    (),
    String,
>)
    ensures
        r is Ok <==> spec_validate_list(items@, i as int, *ft, ctx_vstate(*old(ctx))) is Some,
        r is Ok ==> spec_validate_list(items@, i as int, *ft, ctx_vstate(*old(ctx))) == Some(
            ctx_vstate(*final(ctx)),
        ),
        final(ctx).gen_state_eq(*old(ctx)),
        final(ctx).imports == old(ctx).imports,
        final(ctx).cleanup_statements == old(ctx).cleanup_statements,
    decreases items@, items@.len() - i,
{
    if i >= items.len() {
        Ok(())
    } else {
        let t = match get_expr_type(&items[i], ctx) {
            Some(t) => t,
            None => {
                return Err("Siyahı elementi üçün tip təyin edilə bilmədi".to_owned());
            },
        };
        if !type_eq(&t, ft) {
            return Err("Siyahı daxilində tip uyğunsuzluğu".to_owned());
        }
        match validate_expr(&items[i], ctx) {
            Ok(()) => validate_list(items, i + 1, ft, ctx),
            Err(e) => Err(e),
        }
    }
}

} // verus!
