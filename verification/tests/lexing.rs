//! Lexer behavior, including the documented quirks of template scanning
//! and silent truncation.

use azlang::ast::Type;
use azlang::lexer::Lexer;
use azlang::syntax::Syntax;
use azlang::token::Token;

fn tokens(src: &str) -> Vec<Token> {
    let syntax = Syntax::default();
    let mut lexer = Lexer::new(src, &syntax);
    lexer.tokenize()
}

#[test]
fn punctuation_and_identifiers() {
    let ts = tokens("çap(\"salam\");");
    assert_eq!(
        ts,
        vec![
            Token::Identifier("çap".to_string()),
            Token::LParen,
            Token::StringLiteral("salam".to_string()),
            Token::RParen,
            Token::Semicolon,
        ]
    );
}

#[test]
fn keywords_resolve_through_the_syntax_table() {
    let ts = tokens("dəyişən sabit funksiya əgər yoxsa gəz qaytar siyahı");
    assert_eq!(
        ts,
        vec![
            Token::MutableDecl,
            Token::ConstantDecl,
            Token::FunctionDef,
            Token::Conditional,
            Token::Else,
            Token::Loop,
            Token::Return,
            Token::SiyahiKeyword,
        ]
    );
}

#[test]
fn type_keywords_carry_their_type() {
    let ts = tokens("ədəd mətn bool");
    assert_eq!(
        ts,
        vec![
            Token::TypeName(Type::Integer),
            Token::TypeName(Type::Metn),
            Token::TypeName(Type::Bool),
        ]
    );
}

#[test]
fn numbers_scan_maximal_digit_runs() {
    let ts = tokens("12 345");
    assert_eq!(ts, vec![Token::Number(12), Token::Number(345)]);
}

#[test]
fn number_overflow_silently_ends_the_stream() {
    let ts = tokens("99999999999999999999 sonra");
    assert_eq!(ts, vec![]);
}

#[test]
fn unterminated_string_silently_ends_the_stream() {
    let ts = tokens("\"yarım");
    assert_eq!(ts, vec![]);
}

#[test]
fn compound_operators_scan_greedily() {
    let ts = tokens("== != <= >= && || < + -");
    assert_eq!(
        ts,
        vec![
            Token::Operator("==".to_string()),
            Token::Operator("!=".to_string()),
            Token::Operator("<=".to_string()),
            Token::Operator(">=".to_string()),
            Token::Operator("&&".to_string()),
            Token::Operator("||".to_string()),
            Token::Operator("<".to_string()),
            Token::Operator("+".to_string()),
            Token::Operator("-".to_string()),
        ]
    );
}

#[test]
fn template_interpolation_uses_the_pushback_buffer() {
    let ts = tokens("`a${x}b`");
    assert_eq!(
        ts,
        vec![
            Token::TemplatePart("a".to_string()),
            Token::InterpolationStart,
            Token::Identifier("x".to_string()),
            Token::RBrace,
            Token::Identifier("b".to_string()),
        ]
    );
}

#[test]
fn empty_backtick_pair_yields_a_backtick_token() {
    let ts = tokens("``");
    assert_eq!(ts, vec![Token::Backtick]);
}

#[test]
fn bare_dollar_enters_template_scanning() {
    // a bare `$` outside a template starts template scanning exactly like
    // a backtick, which can swallow ordinary code: a preserved quirk
    let ts = tokens("${x}");
    assert_eq!(
        ts,
        vec![Token::InterpolationStart, Token::Identifier("x".to_string()), Token::RBrace]
    );
}

#[test]
fn bare_closing_brace_is_a_generic_brace() {
    let ts = tokens("} }");
    assert_eq!(ts, vec![Token::RBrace, Token::RBrace]);
}

#[test]
fn pushed_back_token_comes_out_first() {
    let syntax = Syntax::default();
    let mut lexer = Lexer::new("x", &syntax);
    lexer.push_back_token(Token::Comma);
    assert_eq!(lexer.next_token(), Some(Token::Comma));
    assert_eq!(lexer.next_token(), Some(Token::Identifier("x".to_string())));
    assert_eq!(lexer.next_token(), None);
}

#[test]
fn dollar_without_brace_stays_in_the_template_text() {
    let ts = tokens("`a$b`");
    assert_eq!(ts, vec![Token::TemplatePart("a$b".to_string())]);
}

#[test]
fn unterminated_template_yields_its_text() {
    let ts = tokens("`ab");
    assert_eq!(ts, vec![Token::TemplatePart("ab".to_string())]);
}

#[test]
fn whitespace_is_skipped() {
    let ts = tokens("  \t\n ; ");
    assert_eq!(ts, vec![Token::Semicolon]);
}
