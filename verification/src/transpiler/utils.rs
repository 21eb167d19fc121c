//! Type inference over expressions, and small shared helpers of the code
//! generator.

use vstd::prelude::*;

use crate::ast::{BuiltInFunction, Expr, Type, type_eq, type_eqv};
use crate::strutil::str_eq;
use crate::transpiler::context::{TranspileContext, sym_lookup};
use crate::transpiler::genspec::{gstate, spec_gen_input, spec_gen_print, spec_gen_sum};

verus! {

/// Whether a binary operator always yields a boolean: the comparison and
/// logic operators.
pub open spec fn spec_is_bool_op(op: Seq<char>) -> bool {
    ||| op == "=="@
    ||| op == "!="@
    ||| op == "<"@
    ||| op == "<="@
    ||| op == ">"@
    ||| op == ">="@
    ||| op == "&&"@
    ||| op == "||"@
}

fn is_bool_op(op: &str) -> (r: bool)
    ensures
        r == spec_is_bool_op(op@),
{
    str_eq(op, "==") || str_eq(op, "!=") || str_eq(op, "<") || str_eq(op, "<=") || str_eq(op, ">")
        || str_eq(op, ">=") || str_eq(op, "&&") || str_eq(op, "||")
}

/// The inferred type of an expression, given a symbol table.
///
/// Literals have their literal types; a variable has its recorded type; an
/// index into a list has the element type and an index into text yields a
/// character; a non-empty list literal has the type of its first element
/// when all elements share it and the unknown element type otherwise; a
/// comparison or logic operator yields a boolean and any other operator
/// the shared operand type. Expressions outside these forms have no
/// inferred type.
pub open spec fn spec_infer(e: Expr, syms: Seq<(Seq<char>, Type)>) -> Option<Type>
    decreases e, 0int,
{
    match e {
        Expr::Index { target, index } => match spec_infer(*target, syms) {
            Some(t) => match t {
                Type::Siyahi(inner) => Some(*inner),
                Type::Metn => Some(Type::Char),
                _ => None,
            },
            None => None,
        },
        Expr::List(items) => if items@.len() == 0 {
            Some(Type::Siyahi(Box::new(Type::Any)))
        } else {
            match spec_infer(items@[0], syms) {
                None => None,
                Some(t0) => spec_infer_list(items@, 1, t0, syms),
            }
        },
        Expr::VariableRef(name) => sym_lookup(syms, name@),
        Expr::String(_) => Some(Type::Metn),
        Expr::Number(_) => Some(Type::Integer),
        Expr::Bool(_) => Some(Type::Bool),
        Expr::MethodCall { target, method, args } => match spec_infer(*target, syms) {
            Some(Type::Siyahi(_)) => if method@ == "uzunluq"@ || method@ == "boşdur"@ {
                Some(Type::Integer)
            } else {
                None
            },
            Some(Type::Metn) => if method@ == "uzunluq"@ || method@ == "boşdur"@ {
                Some(Type::Integer)
            } else if method@ == "böyüt"@ || method@ == "kiçilt"@ || method@
                == "kənar_təmizlə"@ {
                Some(Type::Metn)
            } else {
                None
            },
            _ => None,
        },
        Expr::FunctionCall { name, args } => if name@ == "print"@ {
            Some(Type::Metn)
        } else if name@ == "input"@ {
            Some(Type::Metn)
        } else if name@ == "number"@ {
            Some(Type::Integer)
        } else {
            None
        },
        Expr::BuiltInCall { func, args } => match func {
            BuiltInFunction::Print => Some(Type::Metn),
            BuiltInFunction::Len => Some(Type::Integer),
            BuiltInFunction::Number => Some(Type::Integer),
            BuiltInFunction::Sum => Some(Type::Integer),
            BuiltInFunction::Input => Some(Type::Metn),
        },
        Expr::BinaryOp { left, op, right } => match spec_infer(*left, syms) {
            None => None,
            Some(lt) => match spec_infer(*right, syms) {
                None => None,
                Some(rt) => if !type_eqv(lt, rt) {
                    None
                } else if spec_is_bool_op(op@) {
                    Some(Type::Bool)
                } else {
                    Some(lt)
                },
            },
        },
        _ => None,
    }
}

/// The type of a list literal once its first element's type is known:
/// walks the remaining elements; an element with no inferred type makes
/// the whole literal untypable, a mismatching element makes the element
/// type unknown.
pub open spec fn spec_infer_list(
    items: Seq<Expr>,
    i: int,
    t0: Type,
    syms: Seq<(Seq<char>, Type)>,
) -> Option<Type>
    decreases items, items.len() - i,
{
    if i < 0 || i >= items.len() {
        Some(Type::Siyahi(Box::new(t0)))
    } else {
        match spec_infer(items[i], syms) {
            None => None,
            Some(t) => if !type_eqv(t, t0) {
                Some(Type::Siyahi(Box::new(Type::Any)))
            } else {
                spec_infer_list(items, i + 1, t0, syms)
            },
        }
    }
}

/// Infers the type of an expression from the context's symbol table.
/// The result is pinned to `spec_infer`.
pub fn get_expr_type(expr: &Expr, ctx: &TranspileContext) -> (r: Option<Type>)
    ensures
        r == spec_infer(*expr, ctx.syms()),
    decreases *expr, 0int,
{
    match expr {
        Expr::Index { target, index } => match get_expr_type(target, ctx) {
            Some(t) => match t {
                Type::Siyahi(inner) => Some(*inner),
                Type::Metn => Some(Type::Char),
                _ => None,
            },
            None => None,
        },
        Expr::List(items) => if items.len() == 0 {
            Some(Type::Siyahi(Box::new(Type::Any)))
        } else {
            match get_expr_type(&items[0], ctx) {
                None => None,
                Some(t0) => infer_list_rest(items, 1, &t0, ctx),
            }
        },
        Expr::VariableRef(name) => ctx.symbol_type(name.as_str()),
        Expr::String(_) => Some(Type::Metn),
        Expr::Number(_) => Some(Type::Integer),
        Expr::Bool(_) => Some(Type::Bool),
        Expr::MethodCall { target, method, args } => match get_expr_type(target, ctx) {
            Some(Type::Siyahi(_)) => if str_eq(method.as_str(), "uzunluq") || str_eq(
                method.as_str(),
                "boşdur",
            ) {
                Some(Type::Integer)
            } else {
                None
            },
            Some(Type::Metn) => if str_eq(method.as_str(), "uzunluq") || str_eq(
                method.as_str(),
                "boşdur",
            ) {
                Some(Type::Integer)
            } else if str_eq(method.as_str(), "böyüt") || str_eq(method.as_str(), "kiçilt")
                || str_eq(method.as_str(), "kənar_təmizlə") {
                Some(Type::Metn)
            } else {
                None
            },
            _ => None,
        },
        Expr::FunctionCall { name, args } => if str_eq(name.as_str(), "print") {
            Some(Type::Metn)
        } else if str_eq(name.as_str(), "input") {
            Some(Type::Metn)
        } else if str_eq(name.as_str(), "number") {
            Some(Type::Integer)
        } else {
            None
        },
        Expr::BuiltInCall { func, args } => match func {
            BuiltInFunction::Print => Some(Type::Metn),
            BuiltInFunction::Len => Some(Type::Integer),
            BuiltInFunction::Number => Some(Type::Integer),
            BuiltInFunction::Sum => Some(Type::Integer),
            BuiltInFunction::Input => Some(Type::Metn),
        },
        Expr::BinaryOp { left, op, right } => match get_expr_type(left, ctx) {
            None => None,
            Some(lt) => match get_expr_type(right, ctx) {
                None => None,
                Some(rt) => if !type_eq(&lt, &rt) {
                    None
                } else if is_bool_op(op.as_str()) {
                    Some(Type::Bool)
                } else {
                    Some(lt)
                },
            },
        },
        _ => None,
    }
}

/// The target-language rendering of a type, constant or mutable.
pub open spec fn spec_map_type(typ: Type, is_const: bool) -> Seq<char>
    decreases typ,
{
    match typ {
        Type::Integer => "usize"@,
        Type::Any => "any"@,
        Type::BigInteger => if is_const {
            "const i128"@
        } else {
            "i128"@
        },
        Type::Char => "u8"@,
        Type::LowInteger => if is_const {
            "const u8"@
        } else {
            "u8"@
        },
        Type::Metn => if is_const {
            "[]const u8"@
        } else {
            "[]u8"@
        },
        Type::Bool => "bool"@,
        Type::Siyahi(inner) => if is_const {
            "[]const "@ + spec_map_type(*inner, true)
        } else {
            "[]"@ + spec_map_type(*inner, false)
        },
        Type::Istifadeci(name) => if is_const {
            "const "@ + name@
        } else {
            name@
        },
    }
}

/// Renders a type in the target language; constants get read-only forms.
pub fn map_type(typ: &Type, is_const: bool) -> (r: String)
    ensures
        r@ == spec_map_type(*typ, is_const),
    decreases *typ,
{
    match typ {
        Type::Integer => "usize".to_owned(),
        Type::Any => "any".to_owned(),
        Type::BigInteger => if is_const {
            "const i128".to_owned()
        } else {
            "i128".to_owned()
        },
        Type::Char => "u8".to_owned(),
        Type::LowInteger => if is_const {
            "const u8".to_owned()
        } else {
            "u8".to_owned()
        },
        Type::Metn => if is_const {
            "[]const u8".to_owned()
        } else {
            "[]u8".to_owned()
        },
        Type::Bool => "bool".to_owned(),
        Type::Siyahi(inner) => {
            let inner_str = map_type(inner, is_const);
            let mut s = if is_const {
                "[]const ".to_owned()
            } else {
                "[]".to_owned()
            };
            s.push_str(inner_str.as_str());
            s
        },
        Type::Istifadeci(name) => if is_const {
            let mut s = "const ".to_owned();
            s.push_str(name.as_str());
            s
        } else {
            name.clone()
        },
    }
}

/// The name and declared type of a mutable declaration, if the
/// expression is one. A missing annotation is outside this function's
/// domain.
pub fn is_mutable_decl(expr: &Expr) -> (r: Option<(&str, &Type)>)
    requires
        expr matches Expr::MutableDecl { name, typ, value } ==> typ is Some,
    ensures
        match *expr {
            Expr::MutableDecl { name, typ, value } => r matches Some(p) && p.0@ == name@ && Some(
                *p.1,
            ) == typ,
            _ => r is None,
        },
{
    match expr {
        Expr::MutableDecl { name, typ, value } => match typ {
            Some(t) => Some((name.as_str(), t)),
            None => None,
        },
        _ => None,
    }
}

fn infer_list_rest(items: &Vec<Expr>, i: usize, t0: &Type, ctx: &TranspileContext) -> (r: Option<
    Type,
>)
    requires
        1 <= i,
    ensures
        r == spec_infer_list(items@, i as int, *t0, ctx.syms()),
    decreases items@, items@.len() - i,
{
    if i >= items.len() {
        Some(Type::Siyahi(Box::new(t0.clone())))
    } else {
        match get_expr_type(&items[i], ctx) {
            None => None,
            Some(t) => if !type_eq(&t, t0) {
                Some(Type::Siyahi(Box::new(Type::Any)))
            } else {
                infer_list_rest(items, i + 1, t0, ctx)
            },
        }
    }
}

/// Renders a declaration whose initializer reads from the input: a fixed
/// buffer and a call of the input runtime helper. Only text variables
/// can be read; the helper flag is set on success.
pub fn transpile_input_var(
    name: &str,
    typ: &Type,
    args: &Vec<Expr>,
    ctx: &mut TranspileContext,
    is_mutable: bool,
) -> (r: Result<String, String>)
    ensures
        old(ctx).evolves_to(*final(ctx)),
        r matches Ok(s) ==> spec_gen_input(name@, *typ, args@, gstate(*old(ctx)), is_mutable)
            == Some((s@, gstate(*final(ctx)))),
        r is Err ==> spec_gen_input(name@, *typ, args@, gstate(*old(ctx)), is_mutable) is None,
        r is Ok ==> final(ctx).used_input_fn,
    decreases args@, 2int, 0int,
{
    if args.len() != 1 {
        return Err("input funksiyası yalnız 1 arqument qəbul edir".to_owned());
    }
    let ghost c0 = *ctx;
    ctx.insert_symbol(name.to_owned(), Type::Metn);
    proof {
        crate::transpiler::context::lemma_evolves_trans(*old(ctx), c0, *ctx);
    }
    let ghost c1 = *ctx;

    match typ {
        Type::Metn => {
            let prompt = match crate::transpiler::expr::transpile_expr(&args[0], ctx) {
                Ok(s) => s,
                Err(e) => {
                    proof {
                        crate::transpiler::context::lemma_evolves_trans(*old(ctx), c1, *ctx);
                    }
                    return Err(e);
                },
            };
            proof {
                crate::transpiler::context::lemma_evolves_trans(*old(ctx), c1, *ctx);
            }
            ctx.used_input_fn = true;
            let mut s = "var buf_".to_owned();
            s.push_str(name);
            s.push_str(": [100]u8 = undefined;\n");
            if is_mutable {
                s.push_str("var ");
            } else {
                s.push_str("const ");
            }
            s.push_str(name);
            s.push_str(": []u8 = try input(");
            s.push_str(prompt.as_str());
            s.push_str(", &buf_");
            s.push_str(name);
            s.push_str(");");
            Ok(s)
        },
        _ => {
            proof {
                crate::transpiler::context::lemma_evolves_trans(*old(ctx), c1, *ctx);
            }
            Err("input funksiyası yalnız metn tipli dəyişənlərə tətbiq oluna bilər.".to_owned())
        },
    }
}

/// Renders a print of a scalar value: the format specifier comes from the
/// argument's inferred type, a list is refused, and printing an indexed
/// mutable list goes through the backing storage.
pub fn transpile_builtin_print(expr: &Expr, ctx: &mut TranspileContext) -> (r: Result<
    String,
    String,
>)
    ensures
        old(ctx).evolves_to(*final(ctx)),
        r matches Ok(s) ==> spec_gen_print(*expr, gstate(*old(ctx))) == Some(
            (s@, gstate(*final(ctx))),
        ),
        r is Err ==> spec_gen_print(*expr, gstate(*old(ctx))) is None,
        spec_infer(*expr, old(ctx).syms()) is None ==> r is Err && *final(ctx) == *old(ctx),
        (spec_infer(*expr, old(ctx).syms()) matches Some(t) && t is Siyahi) ==> r is Err
            && *final(ctx) == *old(ctx),
    decreases *expr, 2int, 0int,
{
    let expr_type = get_expr_type(expr, ctx);

    let tip = match expr_type {
        Some(t) => match t {
            Type::Siyahi(_) => {
                return Err(
                    "çap() ilə siyahı çıxarda bilməzsiniz, zəhmət olmasa yazdır() istifadə edin".to_owned(),
                );
            },
            other => other,
        },
        None => {
            return Err("Tipi müəyyən etmək mümkün olmadı".to_owned());
        },
    };

    let format_str = crate::transpiler::builtin::get_format_str_from_type(&tip);
    let mut arg_code = match crate::transpiler::expr::transpile_expr(expr, ctx) {
        Ok(s) => s,
        Err(e) => {
            return Err(e);
        },
    };

    let indexed_name: Option<&String> = match expr {
        Expr::Index { target, index } => match &**target {
            Expr::VariableRef(name) => Some(name),
            _ => None,
        },
        _ => None,
    };
    match indexed_name {
        Some(name) => {
            let is_list = match ctx.symbol_type(name.as_str()) {
                Some(t) => matches!(t, Type::Siyahi(_)),
                None => false,
            };
            if is_list && ctx.is_mutable_symbol(name.as_str()) {
                let mut with_items = name.clone();
                with_items.push_str(".items");
                arg_code = crate::strutil::replace_all(
                    arg_code.as_str(),
                    name.as_str(),
                    with_items.as_str(),
                );
            }
        },
        None => {},
    }

    let mut s = "std.debug.print(\"".to_owned();
    s.push_str(format_str);
    s.push_str("\\n\", .{");
    s.push_str(arg_code.as_str());
    s.push_str("});");
    Ok(s)
}

/// Renders a sum over a list of numbers through the sum runtime helper,
/// setting its flag; a literal list is spliced into a fixed array
/// argument.
pub fn transpile_builtin_sum(args: &Vec<Expr>, ctx: &mut TranspileContext) -> (r: Result<
    String,
    String,
>)
    ensures
        old(ctx).evolves_to(*final(ctx)),
        r matches Ok(s) ==> spec_gen_sum(args@, gstate(*old(ctx))) == Some(
            (s@, gstate(*final(ctx))),
        ),
        r is Err ==> spec_gen_sum(args@, gstate(*old(ctx))) is None,
        r is Ok ==> final(ctx).used_sum_fn,
    decreases args@, 2int, 0int,
{
    if args.len() == 0 {
        return Err("cəm funksiyası arqument gözləyir".to_owned());
    }
    let list_code = match crate::transpiler::expr::transpile_expr(&args[0], ctx) {
        Ok(s) => s,
        Err(e) => {
            return Err(e);
        },
    };
    let ghost c1 = *ctx;

    let list_type = match get_expr_type(&args[0], ctx) {
        Some(t) => t,
        None => {
            return Err("sum() üçün siyahının tipi tapılmadı".to_owned());
        },
    };
    let inner_type = match list_type {
        Type::Siyahi(boxed) => *boxed,
        _ => {
            return Err("sum() yalnız siyahılar üçün keçərlidir".to_owned());
        },
    };

    let type_code = match inner_type {
        Type::Integer => "usize",
        Type::LowInteger => "u8",
        Type::BigInteger => "i128",
        _ => {
            return Err("sum() yalnız rəqəm siyahıları üçün keçərlidir".to_owned());
        },
    };

    ctx.used_sum_fn = true;
    proof {
        crate::transpiler::context::lemma_evolves_trans(*old(ctx), c1, *ctx);
    }
    let n = list_code.as_str().unicode_len();
    let bracketed = n >= 2 && list_code.as_str().get_char(0) == '[' && list_code.as_str().get_char(
        n - 1,
    ) == ']';
    if bracketed {
        let stripped = list_code.as_str().substring_char(1, n - 1);
        let mut s = "sum(".to_owned();
        s.push_str(type_code);
        s.push_str(", &[_]");
        s.push_str(type_code);
        s.push_str("{ ");
        s.push_str(stripped);
        s.push_str(" })");
        Ok(s)
    } else {
        let mut s = "sum(".to_owned();
        s.push_str(type_code);
        s.push_str(", ");
        s.push_str(list_code.as_str());
        s.push_str(")");
        Ok(s)
    }
}

} // verus!
