//! A small source-to-source compiler for a configurable, keyword-driven
//! scripting language. The pipeline has four stages: a lexer that turns
//! source text into tokens, a recursive-descent parser that builds an
//! abstract syntax tree, a validator that performs type inference and
//! checking, and a code generator that emits target-language source text.
//! A syntax table maps keyword roles to the literal keyword strings the
//! lexer recognizes, so the surface language is configurable.
//!
//! The driver around the core — reading files, invoking the external
//! toolchain on the generated text, presenting errors — is not part of
//! this crate; the core takes source text and a syntax table and returns
//! generated text or an error message.

pub mod ast;
pub mod lexer;
pub mod parser;
pub mod strutil;
pub mod syntax;
pub mod token;
pub mod warning;
pub mod transpiler;

use vstd::prelude::*;

use crate::ast::Expr;
use crate::parser::grammar::{exprs_view_from, spec_p_program};
use crate::parser::validation::{VState, spec_validate_seq};
use crate::token::Token;
use crate::transpiler::genspec::{GState, spec_gen_main};

verus! {

/// The validator state a compilation starts from: no symbols, no mutable
/// names.
pub open spec fn initial_vstate() -> VState {
    VState { syms: Seq::empty(), mutables: Seq::empty() }
}

/// The generator state a compilation reaches code generation with: the
/// validator's symbol table and mutable set, and everything the
/// generator owns still empty and off.
pub open spec fn initial_gstate(st: VState) -> GState {
    GState {
        imports: Seq::empty(),
        syms: st.syms,
        mutables: st.mutables,
        cleanups: Seq::empty(),
        needs_allocator: false,
        uses_stdout: false,
        used_input_fn: false,
        used_sum_fn: false,
        used_split_n_fn: false,
        used_split_auto_fn: false,
    }
}

/// The core entry point: compiles source text under a syntax table into a
/// single, self-contained string of target-language source text, or
/// fails fast with the first error of the pipeline.
///
/// On success the result is exactly the finalization of a program whose
/// token stream the lexing relation admits for this source, whose parse
/// the grammar admits for those tokens (semicolon-terminated statements,
/// every declared name used), whose statements the typing judgment
/// accepts from the empty state, and whose generated text is
/// `spec_gen_main` under the state the validator produced.
pub fn compile(source: &str, syntax: &syntax::Syntax) -> (r: Result<String, String>)
    ensures
        r matches Ok(s) ==> exists|ts: Seq<Token>, p: Seq<Expr>|
            #![trigger lexer::tokenizes_to(source@, 0, Seq::empty(), *syntax, ts), spec_validate_seq(p, 0, initial_vstate())]
            lexer::tokenizes_to(source@, 0, Seq::empty(), *syntax, ts) && (spec_p_program(
                ts,
                0,
                Seq::empty(),
                Seq::empty(),
                Seq::empty(),
            ) matches Some(pr) && pr.0 == exprs_view_from(p, 0)) && (spec_validate_seq(
                p,
                0,
                initial_vstate(),
            ) matches Some(st) && (spec_gen_main(p, initial_gstate(st)) matches Some(out)
                && out.0 == s@)),
{
    let mut lex = lexer::Lexer::new(source, syntax);
    let tokens = lex.tokenize();
    let ghost ts = tokens@;
    let mut p = parser::Parser::new(tokens);
    let mut ctx = transpiler::context::TranspileContext::new();
    proof {
        assert(parser::validation::ctx_vstate(ctx) == initial_vstate());
    }
    let program = match p.parse(&mut ctx) {
        Ok(program) => program,
        Err(e) => {
            return Err(e);
        },
    };
    let ghost st = parser::validation::ctx_vstate(ctx);
    proof {
        assert(transpiler::genspec::gstate(ctx) == initial_gstate(st));
    }
    let r = transpiler::transpile(&program, &mut ctx);
    proof {
        if r is Ok {
            assert(spec_validate_seq(program.expressions@, 0, initial_vstate()) matches Some(
                st2,
            ) && st2 == st);
            assert(lexer::tokenizes_to(source@, 0, Seq::empty(), *syntax, ts));
            assert(spec_p_program(ts, 0, Seq::empty(), Seq::empty(), Seq::empty()) matches Some(
                pr,
            ) && pr.0 == exprs_view_from(program.expressions@, 0));
        }
    }
    r
}

} // verus!
