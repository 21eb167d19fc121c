//! Statement parsing: declarations and expressions-as-statements.

use vstd::prelude::*;

use crate::ast::{BuiltInFunction, Expr};
use crate::strutil::{concat3, str_eq};
use crate::token::Token;
use super::Parser;
use super::expressions::parse_expression;
use super::grammar::{
    ExprV, expr_view, spec_p_exprstmt, spec_p_stmt, spec_p_vardecl, spec_record_seq, spec_record_v,
};
use super::types::parse_type;
use crate::transpiler::genspec::views_of;

verus! {

/// Parses a variable declaration after its keyword: a name, an optional
/// type annotation, `=`, and the initializer expression.
///
/// Redeclaring an already-declared name is a hard error naming it; `input`
/// may not initialize a constant. `kind` selects between the two
/// declaration forms.
pub fn parse_variable_declaration(parser: &mut Parser, kind: &str) -> (r: Result<
    Option<Expr>,
    String,
>)
    requires
        old(parser).wf(),
        kind@ == "mutable_decl"@ || kind@ == "constant_decl"@,
    ensures
        final(parser).advanced_from(*old(parser)),
        r matches Ok(e) ==> final(parser).position > old(parser).position && e is Some,
        old(parser).position < old(parser).tokens@.len() ==> (old(parser).tokens@[old(
            parser,
        ).position as int] matches Token::Identifier(n) && super::has_name(
            old(parser).declared_variables@,
            n@,
        ) ==> r is Err),
        r matches Ok(e) ==> e matches Some(d) && (if kind@ == "mutable_decl"@ {
            d is MutableDecl
        } else {
            d is ConstantDecl
        }),
        r matches Ok(e) ==> (e matches Some(d) && d matches Expr::ConstantDecl {
            name,
            typ,
            value,
        } ==> !(*value matches Expr::FunctionCall { name: fname, args } && fname@ == "input"@)
            && !(*value matches Expr::BuiltInCall { func, args } && func is Input)),
        r matches Ok(e) ==> (e matches Some(d) ==> spec_p_vardecl(
            old(parser).tokens@,
            old(parser).position as int,
            kind@ == "constant_decl"@,
            views_of(old(parser).declared_variables@),
            views_of(old(parser).used_variables@),
        ) == Some(
            (
                expr_view(d),
                final(parser).position as int,
                views_of(final(parser).declared_variables@),
                views_of(final(parser).used_variables@),
            ),
        )),
        r is Err ==> spec_p_vardecl(
            old(parser).tokens@,
            old(parser).position as int,
            kind@ == "constant_decl"@,
            views_of(old(parser).declared_variables@),
            views_of(old(parser).used_variables@),
        ) is None,
{
    proof {
        reveal_strlit("mutable_decl");
        reveal_strlit("constant_decl");
        assert("mutable_decl"@.len() == 12);
        assert("constant_decl"@.len() == 13);
        assert("mutable_decl"@ != "constant_decl"@);
    }
    let name = match parser.next() {
        Some(Token::Identifier(name)) => name,
        _ => {
            return Err(concat3(kind, " üçün dəyişən adı gözlənilirdi", ""));
        },
    };
    let redeclared = parser.is_declared(name.as_str());
    proof {
        super::lemma_has_name_views(parser.declared_variables@, name@);
    }
    if redeclared {
        return Err(concat3("Dəyişən '", name.as_str(), "' artıq əvvəl təyin olunub"));
    }
    parser.record_declared(name.as_str());
    parser.record_used(name.as_str());

    let has_annotation = match parser.peek() {
        Some(t) => matches!(t, Token::Colon),
        None => false,
    };
    let typ = if has_annotation {
        let _ = parser.next();
        match parse_type(parser) {
            Ok(t) => Some(t),
            Err(e) => {
                return Err(e);
            },
        }
    } else {
        None
    };

    match parser.next() {
        Some(Token::Operator(op)) => {
            if !str_eq(op.as_str(), "=") {
                return Err(concat3(kind, " üçün '=' operatoru gözlənilirdi", ""));
            }
        },
        _ => {
            return Err(concat3(kind, " üçün '=' operatoru gözlənilirdi", ""));
        },
    }

    let value_expr = match parse_expression(parser, false) {
        Ok(e) => e,
        Err(e) => {
            return Err(e);
        },
    };

    let ghost nview = name@;
    let ghost tview = typ;
    let ghost vview = expr_view(value_expr);
    if str_eq(kind, "constant_decl") {
        let is_input_call = match &value_expr {
            Expr::FunctionCall { name: fname, args } => str_eq(fname.as_str(), "input"),
            Expr::BuiltInCall { func, args } => matches!(func, BuiltInFunction::Input),
            _ => false,
        };
        proof {
            assert(is_input_call == ((vview matches ExprV::FunctionCall { name, args } && name
                == "input"@) || (vview matches ExprV::BuiltInCall { func, args }
                && func is Input)));
        }
        if is_input_call {
            return Err(
                "input yalnız dəyişən (mutable) mənimsədilməsində istifadə oluna bilər.".to_owned(),
            );
        }
        let node = Expr::ConstantDecl { name, typ, value: Box::new(value_expr) };
        proof {
            assert(expr_view(node) == ExprV::ConstantDecl {
                name: nview,
                typ: tview,
                value: Box::new(vview),
            });
        }
        Ok(Some(node))
    } else {
        let node = Expr::MutableDecl { name, typ, value: Box::new(value_expr) };
        proof {
            assert(expr_view(node) == ExprV::MutableDecl {
                name: nview,
                typ: tview,
                value: Box::new(vview),
            });
        }
        Ok(Some(node))
    }
}

/// Parses one statement: a declaration keyword dispatches to the
/// declaration parse, anything else is an expression-as-statement.
pub fn parse_statement(parser: &mut Parser) -> (r: Result<Option<Expr>, String>)
    requires
        old(parser).wf(),
    ensures
        final(parser).advanced_from(*old(parser)),
        r matches Ok(e) ==> e is Some,
        r matches Ok(e) && e is Some ==> final(parser).position > old(parser).position,
        r matches Ok(e) ==> (e matches Some(s) ==> spec_p_stmt(
            old(parser).tokens@,
            old(parser).position as int,
            views_of(old(parser).declared_variables@),
            views_of(old(parser).used_variables@),
        ) == Some(
            (
                expr_view(s),
                final(parser).position as int,
                views_of(final(parser).declared_variables@),
                views_of(final(parser).used_variables@),
            ),
        )),
        r is Err ==> spec_p_stmt(
            old(parser).tokens@,
            old(parser).position as int,
            views_of(old(parser).declared_variables@),
            views_of(old(parser).used_variables@),
        ) is None,
{
    let is_mutable_kw = match parser.peek() {
        Some(t) => matches!(t, Token::MutableDecl),
        None => false,
    };
    let is_constant_kw = match parser.peek() {
        Some(t) => matches!(t, Token::ConstantDecl),
        None => false,
    };
    proof {
        reveal_strlit("mutable_decl");
        reveal_strlit("constant_decl");
        assert("mutable_decl"@.len() == 12);
        assert("constant_decl"@.len() == 13);
    }
    if is_mutable_kw {
        let _ = parser.next();
        parse_variable_declaration(parser, "mutable_decl")
    } else if is_constant_kw {
        let _ = parser.next();
        parse_variable_declaration(parser, "constant_decl")
    } else {
        parse_expression_as_statement(parser)
    }
}

/// Parses an expression and treats it as a statement: a bare `input`
/// call is rejected here, and every variable the expression mentions is
/// recorded as used.
pub fn parse_expression_as_statement(parser: &mut Parser) -> (r: Result<Option<Expr>, String>)
    requires
        old(parser).wf(),
    ensures
        final(parser).advanced_from(*old(parser)),
        r matches Ok(e) ==> e is Some,
        r matches Ok(e) && e is Some ==> final(parser).position > old(parser).position,
        r matches Ok(e) ==> (e matches Some(s) ==> !(s matches Expr::FunctionCall { name, args }
            && name@ == "input"@) && !(s matches Expr::BuiltInCall { func, args }
            && func is Input)),
        r matches Ok(e) ==> (e matches Some(s) ==> forall|n: Seq<char>|
            references(s, n) ==> super::has_name(final(parser).used_variables@, n)),
        r matches Ok(e) ==> (e matches Some(s) ==> spec_p_exprstmt(
            old(parser).tokens@,
            old(parser).position as int,
            views_of(old(parser).declared_variables@),
            views_of(old(parser).used_variables@),
        ) == Some(
            (
                expr_view(s),
                final(parser).position as int,
                views_of(final(parser).declared_variables@),
                views_of(final(parser).used_variables@),
            ),
        )),
        r is Err ==> spec_p_exprstmt(
            old(parser).tokens@,
            old(parser).position as int,
            views_of(old(parser).declared_variables@),
            views_of(old(parser).used_variables@),
        ) is None,
{
    let expr = match parse_expression(parser, false) {
        Ok(e) => e,
        Err(e) => {
            return Err(e);
        },
    };

    let is_input_call = match &expr {
        Expr::FunctionCall { name, args } => str_eq(name.as_str(), "input"),
        Expr::BuiltInCall { func, args } => matches!(func, BuiltInFunction::Input),
        _ => false,
    };
    if is_input_call {
        return Err("input yalnız dəyişən mənimsədilməsində istifadə oluna bilər.".to_owned());
    }

    record_variable_usage(&expr, parser);

    Ok(Some(expr))
}

/// Whether the expression mentions a variable of this name anywhere the
/// usage walk looks: a reference itself, call and list arguments, method
/// targets and arguments, returned values, indexing targets and
/// declaration initializers. (An index expression's subscript is not
/// walked, matching the recorder.)
pub open spec fn references(e: Expr, n: Seq<char>) -> bool
    decreases e, 0int,
{
    match e {
        Expr::VariableRef(name) => name@ == n,
        Expr::FunctionCall { name, args } => refs_seq(args@, 0, n),
        Expr::BuiltInCall { func, args } => refs_seq(args@, 0, n),
        Expr::List(args) => refs_seq(args@, 0, n),
        Expr::MethodCall { target, method, args } => references(*target, n) || refs_seq(
            args@,
            0,
            n,
        ),
        Expr::Return(inner) => references(*inner, n),
        Expr::Index { target, index } => references(*target, n),
        Expr::MutableDecl { name, typ, value } => references(*value, n),
        Expr::ConstantDecl { name, typ, value } => references(*value, n),
        _ => false,
    }
}

/// Whether any expression of the sequence, from index `i` on, mentions a
/// variable of this name.
pub open spec fn refs_seq(es: Seq<Expr>, i: int, n: Seq<char>) -> bool
    decreases es, 0int, es.len() - i,
{
    if i < 0 || i >= es.len() {
        false
    } else {
        references(es[i], n) || refs_seq(es, i + 1, n)
    }
}

/// Walks an expression and records every variable reference in the
/// used-variable set: afterwards, every name the expression references
/// is in it, and everything already in it stays.
pub fn record_variable_usage(expr: &Expr, parser: &mut Parser)
    ensures
        final(parser).tokens == old(parser).tokens,
        final(parser).position == old(parser).position,
        final(parser).declared_variables == old(parser).declared_variables,
        forall|n: Seq<char>|
            super::has_name(old(parser).used_variables@, n) ==> super::has_name(
                final(parser).used_variables@,
                n,
            ),
        forall|n: Seq<char>|
            references(*expr, n) ==> super::has_name(final(parser).used_variables@, n),
        views_of(final(parser).used_variables@) == spec_record_v(
            expr_view(*expr),
            views_of(old(parser).used_variables@),
        ),
    decreases *expr, 0int,
{
    match expr {
        Expr::VariableRef(name) => {
            parser.record_used(name.as_str());
            proof {
                assert forall|n: Seq<char>|
                    references(*expr, n) implies super::has_name(
                    parser.used_variables@,
                    n,
                ) by {
                    assert(n == name@);
                }
            }
        },
        Expr::FunctionCall { name, args } => {
            record_usage_seq(args, 0, parser);
            proof {
                assert forall|n: Seq<char>|
                    references(*expr, n) implies super::has_name(
                    parser.used_variables@,
                    n,
                ) by {
                    assert(refs_seq(args@, 0, n));
                }
            }
        },
        Expr::BuiltInCall { func, args } => {
            record_usage_seq(args, 0, parser);
            proof {
                assert forall|n: Seq<char>|
                    references(*expr, n) implies super::has_name(
                    parser.used_variables@,
                    n,
                ) by {
                    assert(refs_seq(args@, 0, n));
                }
            }
        },
        Expr::List(args) => {
            record_usage_seq(args, 0, parser);
            proof {
                assert forall|n: Seq<char>|
                    references(*expr, n) implies super::has_name(
                    parser.used_variables@,
                    n,
                ) by {
                    assert(refs_seq(args@, 0, n));
                }
            }
        },
        Expr::MethodCall { target, method, args } => {
            record_variable_usage(target, parser);
            let ghost mid = parser.used_variables@;
            record_usage_seq(args, 0, parser);
            proof {
                assert forall|n: Seq<char>|
                    references(*expr, n) implies super::has_name(
                    parser.used_variables@,
                    n,
                ) by {
                    if references(**target, n) {
                        assert(super::has_name(mid, n));
                    } else {
                        assert(refs_seq(args@, 0, n));
                    }
                }
            }
        },
        Expr::Return(inner) => {
            record_variable_usage(inner, parser);
            proof {
                assert forall|n: Seq<char>|
                    references(*expr, n) implies super::has_name(
                    parser.used_variables@,
                    n,
                ) by {
                    assert(references(**inner, n));
                }
            }
        },
        Expr::Index { target, index } => {
            record_variable_usage(target, parser);
            proof {
                assert forall|n: Seq<char>|
                    references(*expr, n) implies super::has_name(
                    parser.used_variables@,
                    n,
                ) by {
                    assert(references(**target, n));
                }
            }
        },
        Expr::MutableDecl { name, typ, value } => {
            record_variable_usage(value, parser);
            proof {
                assert forall|n: Seq<char>|
                    references(*expr, n) implies super::has_name(
                    parser.used_variables@,
                    n,
                ) by {
                    assert(references(**value, n));
                }
            }
        },
        Expr::ConstantDecl { name, typ, value } => {
            record_variable_usage(value, parser);
            proof {
                assert forall|n: Seq<char>|
                    references(*expr, n) implies super::has_name(
                    parser.used_variables@,
                    n,
                ) by {
                    assert(references(**value, n));
                }
            }
        },
        _ => {},
    }
}

fn record_usage_seq(es: &Vec<Expr>, i: usize, parser: &mut Parser)
    ensures
        final(parser).tokens == old(parser).tokens,
        final(parser).position == old(parser).position,
        final(parser).declared_variables == old(parser).declared_variables,
        forall|n: Seq<char>|
            super::has_name(old(parser).used_variables@, n) ==> super::has_name(
                final(parser).used_variables@,
                n,
            ),
        forall|n: Seq<char>|
            refs_seq(es@, i as int, n) ==> super::has_name(final(parser).used_variables@, n),
        views_of(final(parser).used_variables@) == spec_record_seq(
            super::grammar::exprs_view_from(es@, i as int),
            0,
            views_of(old(parser).used_variables@),
        ),
    decreases es@, 0int, es@.len() - i,
{
    if i < es.len() {
        record_variable_usage(&es[i], parser);
        let ghost mid = parser.used_variables@;
        record_usage_seq(es, i + 1, parser);
        proof {
            super::grammar::lemma_record_seq_insert0(
                super::grammar::exprs_view_from(es@, i + 1),
                expr_view(es@[i as int]),
                views_of(old(parser).used_variables@),
            );
            assert(super::grammar::exprs_view_from(es@, i as int)
                == super::grammar::exprs_view_from(es@, i + 1).insert(
                0,
                expr_view(es@[i as int]),
            ));
            assert forall|n: Seq<char>|
                refs_seq(es@, i as int, n) implies super::has_name(
                parser.used_variables@,
                n,
            ) by {
                if references(es@[i as int], n) {
                    assert(super::has_name(mid, n));
                } else {
                    assert(refs_seq(es@, i + 1, n));
                }
            }
        }
    }
}

} // verus!
