//! Unit tests for the smaller building blocks: string helpers, the type
//! tables, the context, and individual code-generator pieces.

use azlang::ast::{BuiltInFunction, Expr, Type, type_eq};
use azlang::strutil::{escape_string, i64_to_string, replace_all, str_eq, usize_to_string};
use azlang::transpiler::array_methods::transpile_list_method_call;
use azlang::transpiler::builtin::{get_format_str_from_type, match_builtin};
use azlang::transpiler::context::TranspileContext;
use azlang::transpiler::utils::{get_expr_type, map_type};
use azlang::parser::validation::validate_expr;
use azlang::warning::{Warning, warn_unused_mutables, warn_unused_params};

#[test]
fn integer_rendering() {
    assert_eq!(i64_to_string(0), "0");
    assert_eq!(i64_to_string(5), "5");
    assert_eq!(i64_to_string(-42), "-42");
    assert_eq!(i64_to_string(i64::MAX), "9223372036854775807");
    assert_eq!(i64_to_string(i64::MIN), "-9223372036854775808");
    assert_eq!(usize_to_string(100), "100");
}

#[test]
fn string_helpers() {
    assert!(str_eq("abc", "abc"));
    assert!(!str_eq("abc", "abd"));
    assert_eq!(replace_all("eded[i]", "eded", "eded.items"), "eded.items[i]");
    assert_eq!(replace_all("aba", "a", "xx"), "xxbxx");
    assert_eq!(replace_all("abc", "", "x"), "abc");
    assert_eq!(escape_string("a\"b\\c\nd"), "a\\\"b\\\\c\\nd");
}

#[test]
fn type_equality_is_structural() {
    let a = Type::Siyahi(Box::new(Type::Integer));
    let b = Type::Siyahi(Box::new(Type::Integer));
    let c = Type::Siyahi(Box::new(Type::Metn));
    assert!(type_eq(&a, &b));
    assert!(!type_eq(&a, &c));
    assert!(type_eq(
        &Type::Istifadeci("Nov".to_string()),
        &Type::Istifadeci("Nov".to_string())
    ));
}

#[test]
fn builtin_table() {
    assert_eq!(match_builtin("çap"), Some(BuiltInFunction::Print));
    assert_eq!(match_builtin("print"), Some(BuiltInFunction::Print));
    assert_eq!(match_builtin("giriş"), Some(BuiltInFunction::Input));
    assert_eq!(match_builtin("uzunluq"), Some(BuiltInFunction::Len));
    assert_eq!(match_builtin("ədəd"), Some(BuiltInFunction::Number));
    assert_eq!(match_builtin("cəm"), Some(BuiltInFunction::Sum));
    assert_eq!(match_builtin("yoxdur"), None);
}

#[test]
fn format_specifiers() {
    assert_eq!(get_format_str_from_type(&Type::Metn), "{s}");
    assert_eq!(get_format_str_from_type(&Type::Integer), "{}");
    assert_eq!(get_format_str_from_type(&Type::Char), "{c}");
    assert_eq!(get_format_str_from_type(&Type::Any), "{any}");
    assert_eq!(get_format_str_from_type(&Type::Siyahi(Box::new(Type::Integer))), "{any} ");
}

#[test]
fn type_mapping() {
    assert_eq!(map_type(&Type::Integer, false), "usize");
    assert_eq!(map_type(&Type::Metn, true), "[]const u8");
    assert_eq!(map_type(&Type::Metn, false), "[]u8");
    assert_eq!(map_type(&Type::Siyahi(Box::new(Type::Metn)), true), "[]const []const u8");
    assert_eq!(map_type(&Type::BigInteger, true), "const i128");
}

#[test]
fn list_method_rendering() {
    let one = vec!["7".to_string()];
    let none: Vec<String> = vec![];
    assert_eq!(
        transpile_list_method_call("xs", "əlavə_et", &one, true).unwrap(),
        "try xs.append(7);"
    );
    assert_eq!(transpile_list_method_call("xs", "uzunluq", &none, true).unwrap(), "xs.items.len");
    assert_eq!(transpile_list_method_call("xs", "uzunluq", &none, false).unwrap(), "xs.len");
    assert!(transpile_list_method_call("xs", "yoxdur", &none, false).is_err());
}

#[test]
fn import_set_keeps_insertion_order_without_duplicates() {
    let mut ctx = TranspileContext::new();
    assert!(ctx.add_import("const a = 1;").is_some());
    assert!(ctx.add_import("const b = 2;").is_some());
    assert!(ctx.add_import("const a = 1;").is_none());
    assert_eq!(ctx.imports.len(), 2);
    assert_eq!(ctx.imports[0], "const a = 1;");
    assert_eq!(ctx.imports[1], "const b = 2;");
}

#[test]
fn symbol_table_shadows_later_entries() {
    let mut ctx = TranspileContext::new();
    ctx.insert_symbol("x".to_string(), Type::Integer);
    ctx.insert_symbol("x".to_string(), Type::Metn);
    assert_eq!(ctx.symbol_type("x"), Some(Type::Metn));
    assert_eq!(ctx.symbol_type("y"), None);
}

#[test]
fn inference_follows_the_rules() {
    let mut ctx = TranspileContext::new();
    ctx.insert_symbol("xs".to_string(), Type::Siyahi(Box::new(Type::Integer)));
    let idx = Expr::Index {
        target: Box::new(Expr::VariableRef("xs".to_string())),
        index: Box::new(Expr::Number(0)),
    };
    assert_eq!(get_expr_type(&idx, &ctx), Some(Type::Integer));
    let cmp = Expr::BinaryOp {
        left: Box::new(Expr::Number(1)),
        op: "<".to_string(),
        right: Box::new(Expr::Number(2)),
    };
    assert_eq!(get_expr_type(&cmp, &ctx), Some(Type::Bool));
    let mixed = Expr::List(vec![Expr::Number(1), Expr::String("a".to_string())]);
    assert_eq!(get_expr_type(&mixed, &ctx), Some(Type::Siyahi(Box::new(Type::Any))));
    let empty = Expr::List(vec![]);
    assert_eq!(get_expr_type(&empty, &ctx), Some(Type::Siyahi(Box::new(Type::Any))));
}

#[test]
fn validator_rejects_sum_of_text_list() {
    let mut ctx = TranspileContext::new();
    ctx.insert_symbol("xs".to_string(), Type::Siyahi(Box::new(Type::Metn)));
    let call = Expr::BuiltInCall {
        func: BuiltInFunction::Sum,
        args: vec![Expr::VariableRef("xs".to_string())],
    };
    let err = validate_expr(&call, &mut ctx).unwrap_err();
    assert!(err.contains("ədəd tipli siyahı"), "error was: {}", err);
}

#[test]
fn validator_accepts_sum_of_integer_list() {
    let mut ctx = TranspileContext::new();
    ctx.insert_symbol("xs".to_string(), Type::Siyahi(Box::new(Type::Integer)));
    let call = Expr::BuiltInCall {
        func: BuiltInFunction::Sum,
        args: vec![Expr::VariableRef("xs".to_string())],
    };
    assert!(validate_expr(&call, &mut ctx).is_ok());
}

#[test]
fn validator_binds_loop_variable_to_element_type() {
    let mut ctx = TranspileContext::new();
    ctx.insert_symbol("xs".to_string(), Type::Siyahi(Box::new(Type::Metn)));
    let lp = Expr::Loop {
        var_name: "e".to_string(),
        iterable: Box::new(Expr::VariableRef("xs".to_string())),
        body: vec![],
    };
    assert!(validate_expr(&lp, &mut ctx).is_ok());
    assert_eq!(ctx.symbol_type("e"), Some(Type::Metn));
}

#[test]
fn unused_parameter_findings() {
    let params = vec![
        ("a".to_string(), Type::Integer, false),
        ("b".to_string(), Type::Metn, true),
    ];
    let used = vec!["a".to_string()];
    let ws = warn_unused_params(&params, &used);
    assert_eq!(ws, vec![Warning::UnusedParam("b".to_string())]);
    assert_eq!(ws[0].render(), "Parametr 'b' funksiyada istifadə olunmur");
}

#[test]
fn mutable_never_changed_findings() {
    let mutables = vec!["x".to_string(), "y".to_string()];
    let assigned = vec!["y".to_string()];
    let ws = warn_unused_mutables(&mutables, &assigned);
    assert_eq!(ws, vec![Warning::MutableButNeverChanged("x".to_string())]);
}
