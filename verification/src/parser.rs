//! The parser: a recursive-descent, precedence-climbing consumer of the
//! token list, producing the abstract syntax tree.
//!
//! Parsing is fail-fast: the first syntax error aborts the pass, and there
//! is no error recovery or partial tree. The parser also carries the
//! declared-variable and used-variable sets for the whole-program
//! "declared but never used" check performed after parsing completes.

pub mod call;
pub mod expressions;
pub mod function;
pub mod grammar;
pub mod list;
pub mod returnn;
pub mod statements;
pub mod types;
pub mod validation;

use vstd::prelude::*;

use crate::ast::{Expr, Program, Type};
use crate::token::Token;
use crate::transpiler::context::TranspileContext;
use self::grammar::{expr_view, exprs_view_from, lemma_exprs_view_push, spec_p_program};
use self::validation::{ctx_vstate, spec_validate_seq, validate_expr};
use crate::transpiler::context::contains_name;
use crate::transpiler::genspec::views_of;

verus! {

/// Whether a name (as characters) occurs in a vector of names.
pub open spec fn has_name(v: Seq<String>, name: Seq<char>) -> bool {
    exists|i: int| 0 <= i < v.len() && v[i]@ == name
}

/// Occurrence in a name vector and in its view sequence coincide.
pub proof fn lemma_has_name_views(v: Seq<String>, name: Seq<char>)
    ensures
        has_name(v, name) == contains_name(views_of(v), name),
{
    if has_name(v, name) {
        let i = choose|i: int| 0 <= i < v.len() && v[i]@ == name;
        assert(views_of(v)[i] == name);
    }
    if contains_name(views_of(v), name) {
        let i = choose|i: int| 0 <= i < views_of(v).len() && views_of(v)[i] == name;
        assert(v[i]@ == name);
    }
}

/// The parser state: the token list with an integer cursor, and the two
/// name sets of the unused-variable check.
pub struct Parser {
    pub tokens: Vec<Token>,
    pub position: usize,
    pub declared_variables: Vec<String>,
    pub used_variables: Vec<String>,
}

impl Parser {
    /// The cursor never leaves the token list.
    pub open spec fn wf(self) -> bool {
        self.position <= self.tokens@.len()
    }

    /// The token list is unchanged and the cursor has not moved
    /// backwards.
    pub open spec fn advanced_from(self, pre: Parser) -> bool {
        &&& self.tokens == pre.tokens
        &&& pre.position <= self.position
        &&& self.wf()
    }

    /// A fresh parser over a token list.
    pub fn new(tokens: Vec<Token>) -> (res: Parser)
        ensures
            res.tokens == tokens,
            res.position == 0,
            res.declared_variables@ == Seq::<String>::empty(),
            res.used_variables@ == Seq::<String>::empty(),
            res.wf(),
    {
        Parser {
            tokens,
            position: 0,
            declared_variables: Vec::new(),
            used_variables: Vec::new(),
        }
    }

    /// The token under the cursor, if any.
    pub fn peek(&self) -> (r: Option<&Token>)
        requires
            self.wf(),
        ensures
            self.position < self.tokens@.len() ==> r == Some(&self.tokens@[self.position as int]),
            self.position >= self.tokens@.len() ==> r is None,
    {
        if self.position < self.tokens.len() {
            Some(&self.tokens[self.position])
        } else {
            None
        }
    }

    /// Consumes and returns the token under the cursor, if any.
    pub fn next(&mut self) -> (r: Option<Token>)
        requires
            old(self).wf(),
        ensures
            final(self).tokens == old(self).tokens,
            final(self).declared_variables == old(self).declared_variables,
            final(self).used_variables == old(self).used_variables,
            final(self).wf(),
            old(self).position < old(self).tokens@.len() ==> {
                &&& r == Some(old(self).tokens@[old(self).position as int])
                &&& final(self).position == old(self).position + 1
            },
            old(self).position >= old(self).tokens@.len() ==> {
                &&& r is None
                &&& final(self).position == old(self).position
            },
    {
        if self.position < self.tokens.len() {
            let t = self.tokens[self.position].clone();
            self.position = self.position + 1;
            Some(t)
        } else {
            None
        }
    }

    /// Records a declared name.
    pub fn record_declared(&mut self, name: &str)
        ensures
            final(self).tokens == old(self).tokens,
            final(self).position == old(self).position,
            final(self).used_variables == old(self).used_variables,
            views_of(final(self).declared_variables@) == views_of(
                old(self).declared_variables@,
            ).push(name@),
            has_name(final(self).declared_variables@, name@),
            forall|n: Seq<char>|
                has_name(old(self).declared_variables@, n) ==> has_name(
                    final(self).declared_variables@,
                    n,
                ),
    {
        let ghost pre = self.declared_variables@;
        self.declared_variables.push(name.to_owned());
        proof {
            assert(views_of(final(self).declared_variables@) =~= views_of(pre).push(name@));
            assert(final(self).declared_variables@.last()@ == name@);
            assert forall|n: Seq<char>| has_name(pre, n) implies has_name(
                final(self).declared_variables@,
                n,
            ) by {
                let i = choose|i: int| 0 <= i < pre.len() && pre[i]@ == n;
                assert(final(self).declared_variables@[i]@ == n);
            }
        }
    }

    /// Records a used name.
    pub fn record_used(&mut self, name: &str)
        ensures
            final(self).tokens == old(self).tokens,
            final(self).position == old(self).position,
            final(self).declared_variables == old(self).declared_variables,
            views_of(final(self).used_variables@) == views_of(old(self).used_variables@).push(
                name@,
            ),
            has_name(final(self).used_variables@, name@),
            forall|n: Seq<char>|
                has_name(old(self).used_variables@, n) ==> has_name(
                    final(self).used_variables@,
                    n,
                ),
    {
        let ghost pre = self.used_variables@;
        self.used_variables.push(name.to_owned());
        proof {
            assert(views_of(final(self).used_variables@) =~= views_of(pre).push(name@));
            assert(final(self).used_variables@.last()@ == name@);
            assert forall|n: Seq<char>| has_name(pre, n) implies has_name(
                final(self).used_variables@,
                n,
            ) by {
                let i = choose|i: int| 0 <= i < pre.len() && pre[i]@ == n;
                assert(final(self).used_variables@[i]@ == n);
            }
        }
    }

    /// Whether a name was declared earlier in this parse.
    pub fn is_declared(&self, name: &str) -> (r: bool)
        ensures
            r == has_name(self.declared_variables@, name@),
    {
        let n = self.declared_variables.len();
        let mut i: usize = 0;
        while i < n
            invariant
                n == self.declared_variables@.len(),
                i <= n,
                forall|j: int| 0 <= j < i ==> self.declared_variables@[j]@ != name@,
            decreases n - i,
        {
            if crate::strutil::str_eq(self.declared_variables[i].as_str(), name) {
                return true;
            }
            i += 1;
        }
        false
    }

    fn is_used(&self, name: &str) -> (r: bool)
        ensures
            r == has_name(self.used_variables@, name@),
    {
        let n = self.used_variables.len();
        let mut i: usize = 0;
        while i < n
            invariant
                n == self.used_variables@.len(),
                i <= n,
                forall|j: int| 0 <= j < i ==> self.used_variables@[j]@ != name@,
            decreases n - i,
        {
            if crate::strutil::str_eq(self.used_variables[i].as_str(), name) {
                return true;
            }
            i += 1;
        }
        false
    }

    /// Parses a whole program and wraps it; only `parse_program` does the
    /// work.
    pub fn parse(&mut self, ctx: &mut TranspileContext) -> (r: Result<Program, String>)
        requires
            old(self).wf(),
        ensures
            final(self).advanced_from(*old(self)),
            final(ctx).gen_state_eq(*old(ctx)),
            r matches Ok(p) ==> spec_validate_seq(p.expressions@, 0, ctx_vstate(*old(ctx)))
                == Some(ctx_vstate(*final(ctx))),
            r matches Ok(p) ==> spec_p_program(
                old(self).tokens@,
                old(self).position as int,
                views_of(old(self).declared_variables@),
                views_of(old(self).used_variables@),
                Seq::empty(),
            ) == Some(
                (
                    exprs_view_from(p.expressions@, 0),
                    views_of(final(self).declared_variables@),
                    views_of(final(self).used_variables@),
                ),
            ),
    {
        match self.parse_program(ctx) {
            Ok(expressions) => Ok(Program { expressions }),
            Err(e) => Err(e),
        }
    }

    /// Parses statements until the tokens run out: every statement must
    /// be followed by a semicolon, each is validated as soon as it is
    /// parsed, and at the end every declared name must have been used.
    ///
    /// On success the returned expressions validate exactly from the
    /// incoming context to the final one.
    pub fn parse_program(&mut self, ctx: &mut TranspileContext) -> (r: Result<Vec<Expr>, String>)
        requires
            old(self).wf(),
        ensures
            final(self).advanced_from(*old(self)),
            final(ctx).gen_state_eq(*old(ctx)),
            r matches Ok(es) ==> spec_validate_seq(es@, 0, ctx_vstate(*old(ctx))) == Some(
                ctx_vstate(*final(ctx)),
            ),
            r is Ok ==> final(self).position == final(self).tokens@.len(),
            r matches Ok(es) ==> spec_p_program(
                old(self).tokens@,
                old(self).position as int,
                views_of(old(self).declared_variables@),
                views_of(old(self).used_variables@),
                Seq::empty(),
            ) == Some(
                (
                    exprs_view_from(es@, 0),
                    views_of(final(self).declared_variables@),
                    views_of(final(self).used_variables@),
                ),
            ),
            r matches Ok(es) ==> forall|i: int|
                0 <= i < final(self).declared_variables@.len() ==> has_name(
                    final(self).used_variables@,
                    #[trigger] final(self).declared_variables@[i]@,
                ),
    {
        let ghost ptarget = spec_p_program(
            old(self).tokens@,
            old(self).position as int,
            views_of(old(self).declared_variables@),
            views_of(old(self).used_variables@),
            Seq::empty(),
        );
        let mut statements: Vec<Expr> = Vec::new();
        proof {
            assert(spec_validate_seq(statements@, 0, ctx_vstate(*ctx)) == Some(ctx_vstate(*ctx)));
        }
        loop
            invariant
                self.wf(),
                self.advanced_from(*old(self)),
                ctx.gen_state_eq(*old(ctx)),
                spec_validate_seq(statements@, 0, ctx_vstate(*old(ctx))) == Some(
                    ctx_vstate(*ctx),
                ),
                ptarget == spec_p_program(
                    self.tokens@,
                    self.position as int,
                    views_of(self.declared_variables@),
                    views_of(self.used_variables@),
                    exprs_view_from(statements@, 0),
                ),
            ensures
                self.wf(),
                self.advanced_from(*old(self)),
                ctx.gen_state_eq(*old(ctx)),
                spec_validate_seq(statements@, 0, ctx_vstate(*old(ctx))) == Some(
                    ctx_vstate(*ctx),
                ),
                ptarget == spec_p_program(
                    self.tokens@,
                    self.position as int,
                    views_of(self.declared_variables@),
                    views_of(self.used_variables@),
                    exprs_view_from(statements@, 0),
                ),
                self.position == self.tokens@.len(),
            decreases self.tokens@.len() - self.position,
        {
            if self.position >= self.tokens.len() {
                break;
            }
            let stmt_opt = match statements::parse_statement(self) {
                Ok(s) => s,
                Err(e) => {
                    return Err(e);
                },
            };
            let stmt = match stmt_opt {
                Some(s) => s,
                None => {
                    break;
                },
            };
            let ghost pre_vstate = ctx_vstate(*ctx);
            match validate_expr(&stmt, ctx) {
                Ok(()) => {},
                Err(e) => {
                    return Err(e);
                },
            }
            let ghost stmts_pre = statements@;
            let ghost stmt_v = expr_view(stmt);
            statements.push(stmt);
            proof {
                lemma_validate_seq_snoc(stmts_pre, statements@, ctx_vstate(*old(ctx)), pre_vstate, ctx_vstate(*ctx));
                lemma_exprs_view_push(stmts_pre, statements@.last());
            }
            match self.peek() {
                Some(t) => {
                    if matches!(t, Token::Semicolon) {
                        let _ = self.next();
                    } else {
                        return Err("İfadə nöqtəli vergüllə bitməlidir".to_owned());
                    }
                },
                None => {
                    return Err("Faylın sonunda `;` gözlənilirdi".to_owned());
                },
            }
        }
        let n = self.declared_variables.len();
        let mut i: usize = 0;
        while i < n
            invariant
                n == self.declared_variables@.len(),
                i <= n,
                self.wf(),
                self.advanced_from(*old(self)),
                ctx.gen_state_eq(*old(ctx)),
                spec_validate_seq(statements@, 0, ctx_vstate(*old(ctx))) == Some(
                    ctx_vstate(*ctx),
                ),
                forall|j: int|
                    0 <= j < i ==> has_name(
                        self.used_variables@,
                        #[trigger] self.declared_variables@[j]@,
                    ),
            decreases n - i,
        {
            let declared = self.declared_variables[i].clone();
            if !self.is_used(declared.as_str()) {
                return Err(crate::strutil::concat3(
                    "Dəyişən '",
                    declared.as_str(),
                    "' heç vaxt istifadə olunmayıb",
                ));
            }
            proof {
                assert(self.declared_variables@[i as int]@ == declared@);
                lemma_has_name_views(self.used_variables@, declared@);
            }
            i += 1;
        }
        proof {
            assert forall|k: int|
                0 <= k < views_of(self.declared_variables@).len() implies contains_name(
                views_of(self.used_variables@),
                #[trigger] views_of(self.declared_variables@)[k],
            ) by {
                assert(views_of(self.declared_variables@)[k] == self.declared_variables@[k]@);
                assert(has_name(self.used_variables@, self.declared_variables@[k]@));
                lemma_has_name_views(self.used_variables@, self.declared_variables@[k]@);
            }
        }
        Ok(statements)
    }

    /// Parses one statement, exactly as `spec_p_stmt` states it.
    pub fn parse_statement(&mut self) -> (r: Result<Option<Expr>, String>)
        requires
            old(self).wf(),
        ensures
            final(self).advanced_from(*old(self)),
            r matches Ok(e) ==> (e matches Some(s) ==> grammar::spec_p_stmt(
                old(self).tokens@,
                old(self).position as int,
                views_of(old(self).declared_variables@),
                views_of(old(self).used_variables@),
            ) == Some(
                (
                    expr_view(s),
                    final(self).position as int,
                    views_of(final(self).declared_variables@),
                    views_of(final(self).used_variables@),
                ),
            )),
            r is Err ==> grammar::spec_p_stmt(
                old(self).tokens@,
                old(self).position as int,
                views_of(old(self).declared_variables@),
                views_of(old(self).used_variables@),
            ) is None,
    {
        statements::parse_statement(self)
    }

    /// Parses one expression outside any function body, exactly as
    /// `spec_p_expression` states it.
    pub fn parse_expression(&mut self) -> (r: Result<Expr, String>)
        requires
            old(self).wf(),
        ensures
            final(self).advanced_from(*old(self)),
            r matches Ok(e) ==> grammar::spec_p_expression(
                old(self).tokens@,
                old(self).position as int,
                false,
            ) == Some((expr_view(e), final(self).position as int)),
            r is Err ==> grammar::spec_p_expression(
                old(self).tokens@,
                old(self).position as int,
                false,
            ) is None,
    {
        expressions::parse_expression(self, false)
    }

    /// Parses one type, exactly as `spec_parse_type` states it.
    pub fn parse_type(&mut self) -> (r: Result<Type, String>)
        requires
            old(self).wf(),
        ensures
            final(self).advanced_from(*old(self)),
            r matches Ok(t) ==> types::spec_parse_type(
                old(self).tokens@,
                old(self).position as int,
            ) == Some((t, final(self).position as int)),
            r is Err ==> types::spec_parse_type(
                old(self).tokens@,
                old(self).position as int,
            ) is None,
    {
        types::parse_type(self)
    }
}

/// Extending a validated statement sequence by one validated statement
/// extends the validation chain.
proof fn lemma_validate_seq_snoc(
    pre: Seq<Expr>,
    post: Seq<Expr>,
    st0: validation::VState,
    st1: validation::VState,
    st2: validation::VState,
)
    requires
        post == pre.push(post.last()),
        post.len() == pre.len() + 1,
        spec_validate_seq(pre, 0, st0) == Some(st1),
        validation::spec_validate(post.last(), st1) == Some(st2),
    ensures
        spec_validate_seq(post, 0, st0) == Some(st2),
{
    lemma_validate_seq_snoc_from(pre, post, 0, st0, st1, st2);
}

proof fn lemma_validate_seq_snoc_from(
    pre: Seq<Expr>,
    post: Seq<Expr>,
    i: int,
    st0: validation::VState,
    st1: validation::VState,
    st2: validation::VState,
)
    requires
        0 <= i <= pre.len(),
        post == pre.push(post.last()),
        post.len() == pre.len() + 1,
        spec_validate_seq(pre, i, st0) == Some(st1),
        validation::spec_validate(post.last(), st1) == Some(st2),
    ensures
        spec_validate_seq(post, i, st0) == Some(st2),
    decreases pre.len() - i,
{
    if i < pre.len() {
        assert(post[i] == pre[i]);
        match validation::spec_validate(pre[i], st0) {
            Some(stx) => {
                lemma_validate_seq_snoc_from(pre, post, i + 1, stx, st1, st2);
            },
            None => {},
        }
    } else {
        assert(post[i] == post.last());
        assert(st1 == st0);
        assert(spec_validate_seq(post, i + 1, st2) == Some(st2));
    }
}

} // verus!
