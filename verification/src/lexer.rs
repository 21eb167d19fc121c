//! The lexer: converts source text into a token stream, one token at a
//! time, using the syntax table to classify words as keywords or
//! identifiers.
//!
//! The scanner for template literals can produce two tokens from one scan
//! step; the one-slot token pushback buffer exists exactly for that.
//! Every scanning step is pinned to a spec relation, so the token stream
//! is exactly determined by the input text and the syntax table.

pub mod utils;

use vstd::prelude::*;

use crate::ast::Type;
use crate::strutil::{str_eq, str_to_chars};
use crate::syntax::Syntax;
use crate::token::Token;
use self::utils::{alpha_char, dec_digit, is_alpha, is_dec_digit, skip_whitespace, skip_ws};

verus! {

/// The scan of a plain string literal, after its opening quote: the
/// copied characters and the position after the closing quote, or
/// nothing when the text ends first.
pub open spec fn scan_string(chars: Seq<char>, pos: int) -> Option<(Seq<char>, int)>
    decreases chars.len() - pos,
{
    if pos < 0 || pos >= chars.len() {
        None
    } else if chars[pos] == '"' {
        Some((Seq::empty(), pos + 1))
    } else {
        match scan_string(chars, pos + 1) {
            None => None,
            Some((s, p2)) => Some((seq![chars[pos]] + s, p2)),
        }
    }
}

/// The end of the maximal digit run starting at `pos`.
pub open spec fn scan_digits_end(chars: Seq<char>, pos: int) -> int
    decreases chars.len() - pos,
{
    if pos < 0 || pos >= chars.len() {
        pos
    } else if dec_digit(chars[pos]) {
        scan_digits_end(chars, pos + 1)
    } else {
        pos
    }
}

/// The numeric value of a digit run.
pub open spec fn digits_val(s: Seq<char>) -> int
    decreases s.len(),
{
    if s.len() == 0 {
        0
    } else {
        digits_val(s.drop_last()) * 10 + (s.last() as int - '0' as int)
    }
}

/// The end of the maximal identifier-shaped run (alphabetic characters
/// and underscores) starting at `pos`.
pub open spec fn scan_word_end(chars: Seq<char>, pos: int) -> int
    decreases chars.len() - pos,
{
    if pos < 0 || pos >= chars.len() {
        pos
    } else if alpha_char(chars[pos]) || chars[pos] == '_' {
        scan_word_end(chars, pos + 1)
    } else {
        pos
    }
}

/// A successful string scan ends after its starting position, within the
/// text.
pub proof fn lemma_scan_string_bounds(chars: Seq<char>, pos: int)
    requires
        0 <= pos <= chars.len(),
    ensures
        scan_string(chars, pos) matches Some((s, q)) ==> pos < q <= chars.len(),
    decreases chars.len() - pos,
{
    if pos < chars.len() && chars[pos] != '"' {
        lemma_scan_string_bounds(chars, pos + 1);
    }
}

/// A digit scan never moves backwards and never leaves the text.
pub proof fn lemma_scan_digits_end_bounds(chars: Seq<char>, pos: int)
    requires
        0 <= pos <= chars.len(),
    ensures
        pos <= scan_digits_end(chars, pos) <= chars.len(),
    decreases chars.len() - pos,
{
    if pos < chars.len() && dec_digit(chars[pos]) {
        lemma_scan_digits_end_bounds(chars, pos + 1);
    }
}

/// A word scan never moves backwards and never leaves the text.
pub proof fn lemma_scan_word_end_bounds(chars: Seq<char>, pos: int)
    requires
        0 <= pos <= chars.len(),
    ensures
        pos <= scan_word_end(chars, pos) <= chars.len(),
    decreases chars.len() - pos,
{
    if pos < chars.len() && (alpha_char(chars[pos]) || chars[pos] == '_') {
        lemma_scan_word_end_bounds(chars, pos + 1);
    }
}

/// How a scanned word is classified, in the priority order of the syntax
/// table; a word that matches nothing becomes an identifier.
pub open spec fn word_token_rel(word: Seq<char>, syn: Syntax, t: Token) -> bool {
    if word == syn.return_name@ {
        t == Token::Return
    } else if word == syn.mutable_decl@ {
        t == Token::MutableDecl
    } else if word == syn.constant_decl@ {
        t == Token::ConstantDecl
    } else if word == syn.function_def@ {
        t == Token::FunctionDef
    } else if word == syn.conditional@ {
        t == Token::Conditional
    } else if word == syn._else@ {
        t == Token::Else
    } else if word == syn._loop@ {
        t == Token::Loop
    } else if word == syn.bool_name@ {
        t == Token::TypeName(Type::Bool)
    } else if word == syn.listtype@ {
        t == Token::SiyahiKeyword
    } else if word == syn.biginteger@ {
        t == Token::TypeName(Type::BigInteger)
    } else if word == syn.lowinteger@ {
        t == Token::TypeName(Type::LowInteger)
    } else if word == syn.string@ {
        t == Token::TypeName(Type::Metn)
    } else if word == syn.integer@ {
        t == Token::TypeName(Type::Integer)
    } else if syn.spec_is_type_str(word) {
        t matches Token::TypeName(ty) && ty matches Type::Istifadeci(w) && w@ == word
    } else {
        t matches Token::Identifier(w) && w@ == word
    }
}

/// Whether two characters form one of the fixed compound operators.
pub open spec fn two_char_op(a: char, b: char) -> bool {
    ||| (a == '=' && b == '=')
    ||| (a == '!' && b == '=')
    ||| (a == '<' && b == '=')
    ||| (a == '>' && b == '=')
    ||| (a == '+' && b == '=')
    ||| (a == '-' && b == '=')
    ||| (a == '*' && b == '=')
    ||| (a == '/' && b == '=')
    ||| (a == '&' && b == '&')
    ||| (a == '|' && b == '|')
}

/// One step of the template sub-scanner, with `acc` the text buffered so
/// far: relates the input to the returned token, the new position and
/// the tokens pushed back for later.
///
/// A closing backtick yields the buffered text, or a bare backtick token
/// if none; `${` yields the buffered text and pushes back an
/// interpolation-start token, or yields interpolation-start directly; a
/// bare `}` always yields a generic closing-brace token; input that ends
/// first yields the buffered text if any.
pub open spec fn tpl_rel(
    chars: Seq<char>,
    pos: int,
    acc: Seq<char>,
    r: Option<Token>,
    pos2: int,
    pushed: Seq<Token>,
) -> bool
    decreases chars.len() - pos,
{
    if pos < 0 || pos >= chars.len() {
        &&& pos2 == pos
        &&& pushed == Seq::<Token>::empty()
        &&& if acc.len() > 0 {
            r matches Some(t) && t matches Token::TemplatePart(s) && s@ == acc
        } else {
            r is None
        }
    } else if chars[pos] == '`' {
        &&& pos2 == pos + 1
        &&& pushed == Seq::<Token>::empty()
        &&& if acc.len() > 0 {
            r matches Some(t) && t matches Token::TemplatePart(s) && s@ == acc
        } else {
            r == Some(Token::Backtick)
        }
    } else if chars[pos] == '$' && pos + 1 < chars.len() && chars[pos + 1] == '{' {
        if acc.len() > 0 {
            &&& pos2 == pos + 2
            &&& pushed == seq![Token::InterpolationStart]
            &&& r matches Some(t) && t matches Token::TemplatePart(s) && s@ == acc
        } else {
            &&& pos2 == pos + 2
            &&& pushed == Seq::<Token>::empty()
            &&& r == Some(Token::InterpolationStart)
        }
    } else if chars[pos] == '$' {
        tpl_rel(chars, pos + 1, acc.push('$'), r, pos2, pushed)
    } else if chars[pos] == '}' {
        &&& pos2 == pos + 1
        &&& pushed == Seq::<Token>::empty()
        &&& r == Some(Token::RBrace)
    } else {
        tpl_rel(chars, pos + 1, acc.push(chars[pos]), r, pos2, pushed)
    }
}

/// The template scanner always makes progress and pushes back at most
/// one token.
pub proof fn lemma_tpl_rel_progress(
    chars: Seq<char>,
    pos: int,
    acc: Seq<char>,
    r: Option<Token>,
    pos2: int,
    pushed: Seq<Token>,
)
    requires
        0 <= pos <= chars.len(),
        tpl_rel(chars, pos, acc, r, pos2, pushed),
    ensures
        pos <= pos2 <= chars.len(),
        pushed.len() <= 1,
        r is Some ==> pos2 > pos || pos == chars.len(),
    decreases chars.len() - pos,
{
    if pos < chars.len() {
        if chars[pos] == '$' && !(pos + 1 < chars.len() && chars[pos + 1] == '{') {
            lemma_tpl_rel_progress(chars, pos + 1, acc.push('$'), r, pos2, pushed);
        } else if chars[pos] != '`' && chars[pos] != '$' && chars[pos] != '}' {
            lemma_tpl_rel_progress(chars, pos + 1, acc.push(chars[pos]), r, pos2, pushed);
        }
    }
}

/// The full scanning relation of `next_token`: a buffered token is
/// handed out first; otherwise whitespace is skipped and the next
/// character decides the scan.
pub open spec fn next_rel(
    chars: Seq<char>,
    pos: int,
    buffer: Seq<Token>,
    syn: Syntax,
    r: Option<Token>,
    pos2: int,
    buf2: Seq<Token>,
) -> bool {
    if buffer.len() > 0 {
        &&& r == Some(buffer.last())
        &&& pos2 == pos
        &&& buf2 == buffer.drop_last()
    } else {
        let p = skip_ws(chars, pos);
        if p >= chars.len() {
            &&& r is None
            &&& pos2 == p
            &&& buf2 == buffer
        } else {
            let c = chars[p];
            if c == '(' {
                r == Some(Token::LParen) && pos2 == p + 1 && buf2 == buffer
            } else if c == ')' {
                r == Some(Token::RParen) && pos2 == p + 1 && buf2 == buffer
            } else if c == '{' {
                r == Some(Token::LBrace) && pos2 == p + 1 && buf2 == buffer
            } else if c == ';' {
                r == Some(Token::Semicolon) && pos2 == p + 1 && buf2 == buffer
            } else if c == ':' {
                r == Some(Token::Colon) && pos2 == p + 1 && buf2 == buffer
            } else if c == ',' {
                r == Some(Token::Comma) && pos2 == p + 1 && buf2 == buffer
            } else if c == '[' {
                r == Some(Token::ListStart) && pos2 == p + 1 && buf2 == buffer
            } else if c == ']' {
                r == Some(Token::ListEnd) && pos2 == p + 1 && buf2 == buffer
            } else if c == '`' {
                tpl_rel(chars, p + 1, Seq::empty(), r, pos2, buf2)
            } else if c == '$' {
                tpl_rel(chars, p, Seq::empty(), r, pos2, buf2)
            } else if c == '}' {
                r == Some(Token::RBrace) && pos2 == p + 1 && buf2 == buffer
            } else if c == '"' {
                match scan_string(chars, p + 1) {
                    None => r is None && pos2 == chars.len() && buf2 == buffer,
                    Some((s, q)) => {
                        &&& r matches Some(t) && t matches Token::StringLiteral(lit) && lit@ == s
                        &&& pos2 == q
                        &&& buf2 == buffer
                    },
                }
            } else if dec_digit(c) {
                let e = scan_digits_end(chars, p);
                let v = digits_val(chars.subrange(p, e));
                &&& pos2 == e
                &&& buf2 == buffer
                &&& if v <= i64::MAX {
                    r matches Some(t) && t matches Token::Number(n) && n == v
                } else {
                    r is None
                }
            } else if alpha_char(c) {
                let e = scan_word_end(chars, p);
                &&& pos2 == e
                &&& buf2 == buffer
                &&& r matches Some(t) && word_token_rel(chars.subrange(p, e), syn, t)
            } else {
                let two = p + 1 < chars.len() && two_char_op(c, chars[p + 1]);
                &&& pos2 == (if two {
                    p + 2
                } else {
                    p + 1
                })
                &&& buf2 == buffer
                &&& r matches Some(t) && t matches Token::Operator(op) && op@ == (if two {
                    seq![c, chars[p + 1]]
                } else {
                    seq![c]
                })
            }
        }
    }
}

/// The lexer: a character cursor, the syntax table it classifies words
/// against, and the one-slot token pushback buffer.
pub struct Lexer<'a> {
    /// The source text as characters, with the cursor position.
    pub chars: Vec<char>,
    /// The cursor: the index of the next unread character.
    pub pos: usize,
    /// The syntax table consulted for keyword classification.
    pub syntax: &'a Syntax,
    /// The pushback buffer; never holds more than one token.
    pub token_buffer: Vec<Token>,
}

impl<'a> Lexer<'a> {
    /// The lexer is well formed: the cursor is inside the text and at
    /// most one token is buffered.
    pub open spec fn wf(self) -> bool {
        &&& self.pos <= self.chars@.len()
        &&& self.token_buffer@.len() <= 1
    }

    /// A fresh lexer over the given source text.
    pub fn new(input: &str, syntax: &'a Syntax) -> (res: Lexer<'a>)
        ensures
            res.chars@ == input@,
            res.pos == 0,
            res.syntax == syntax,
            res.token_buffer@ == Seq::<Token>::empty(),
            res.wf(),
    {
        Lexer { chars: str_to_chars(input), pos: 0, syntax, token_buffer: Vec::new() }
    }

    /// Pushes one token back; the next call to `next_token` returns it
    /// first.
    pub fn push_back_token(&mut self, token: Token)
        ensures
            final(self).token_buffer@ == old(self).token_buffer@.push(token),
            final(self).chars == old(self).chars,
            final(self).pos == old(self).pos,
            final(self).syntax == old(self).syntax,
    {
        self.token_buffer.push(token);
    }

    fn read_string_scan(&mut self) -> (r: Option<String>)
        requires
            old(self).wf(),
        ensures
            final(self).chars == old(self).chars,
            final(self).syntax == old(self).syntax,
            final(self).token_buffer == old(self).token_buffer,
            final(self).wf(),
            match scan_string(old(self).chars@, old(self).pos as int) {
                None => r is None && final(self).pos == old(self).chars@.len(),
                Some((s, q)) => {
                    &&& r matches Some(lit) && lit@ == s
                    &&& final(self).pos as int == q
                },
            },
        decreases old(self).chars@.len() - old(self).pos,
    {
        proof {
            lemma_scan_string_bounds(self.chars@, self.pos as int);
        }
        if self.pos >= self.chars.len() {
            return None;
        }
        let c = self.chars[self.pos];
        self.pos = self.pos + 1;
        if c == '"' {
            Some(String::new())
        } else {
            match self.read_string_scan() {
                None => None,
                Some(rest) => {
                    let mut s = String::new();
                    s.push(c);
                    s.push_str(rest.as_str());
                    proof {
                        assert(s@ =~= seq![c] + rest@);
                    }
                    Some(s)
                },
            }
        }
    }

    fn read_number_scan(&mut self) -> (r: Option<Token>)
        requires
            old(self).wf(),
            old(self).pos < old(self).chars@.len(),
            dec_digit(old(self).chars@[old(self).pos as int]),
        ensures
            final(self).chars == old(self).chars,
            final(self).syntax == old(self).syntax,
            final(self).token_buffer == old(self).token_buffer,
            final(self).wf(),
            final(self).pos as int == scan_digits_end(old(self).chars@, old(self).pos as int),
            ({
                let v = digits_val(
                    old(self).chars@.subrange(
                        old(self).pos as int,
                        scan_digits_end(old(self).chars@, old(self).pos as int),
                    ),
                );
                if v <= i64::MAX {
                    r matches Some(t) && t matches Token::Number(n) && n == v
                } else {
                    r is None
                }
            }),
    {
        let ghost start = self.pos as int;
        let ghost chars = self.chars@;
        let mut acc: i64 = 0;
        let mut overflow: bool = false;
        proof {
            assert(chars.subrange(start, start) =~= Seq::<char>::empty());
        }
        while self.pos < self.chars.len() && is_dec_digit(self.chars[self.pos])
            invariant
                self.chars == old(self).chars,
                chars == self.chars@,
                self.syntax == old(self).syntax,
                self.token_buffer == old(self).token_buffer,
                0 <= start,
                start == old(self).pos as int,
                start <= self.pos as int <= chars.len(),
                scan_digits_end(chars, start) == scan_digits_end(chars, self.pos as int),
                !overflow ==> acc == digits_val(chars.subrange(start, self.pos as int)),
                overflow ==> digits_val(chars.subrange(start, self.pos as int)) > i64::MAX,
                acc >= 0,
            decreases chars.len() - self.pos,
        {
            let c = self.chars[self.pos];
            let d: i64 = (c as u32 as i64) - ('0' as u32 as i64);
            proof {
                assert(chars.subrange(start, self.pos as int + 1).drop_last() =~= chars.subrange(
                    start,
                    self.pos as int,
                ));
                assert(chars.subrange(start, self.pos as int + 1).last() == chars[self.pos as int]);
            }
            if !overflow {
                if acc > (i64::MAX - d) / 10 {
                    overflow = true;
                    proof {
                        let s1 = chars.subrange(start, self.pos as int);
                        let s2 = chars.subrange(start, self.pos as int + 1);
                        assert(digits_val(s2) == digits_val(s1) * 10 + d);
                    }
                } else {
                    acc = acc * 10 + d;
                }
            } else {
                proof {
                    let s1 = chars.subrange(start, self.pos as int);
                    let s2 = chars.subrange(start, self.pos as int + 1);
                    assert(digits_val(s2) == digits_val(s1) * 10 + d);
                    assert(digits_val(s1) > i64::MAX);
                    assert(d >= 0);
                    assert(digits_val(s2) > i64::MAX);
                }
            }
            self.pos = self.pos + 1;
        }
        if overflow {
            None
        } else {
            Some(Token::Number(acc))
        }
    }

    fn read_word_scan(&mut self) -> (r: String)
        requires
            old(self).wf(),
        ensures
            final(self).chars == old(self).chars,
            final(self).syntax == old(self).syntax,
            final(self).token_buffer == old(self).token_buffer,
            final(self).wf(),
            final(self).pos as int == scan_word_end(old(self).chars@, old(self).pos as int),
            r@ == old(self).chars@.subrange(old(self).pos as int, final(self).pos as int),
        decreases old(self).chars@.len() - old(self).pos,
    {
        if self.pos >= self.chars.len() {
            proof {
                assert(self.chars@.subrange(self.pos as int, self.pos as int) =~= Seq::<
                    char,
                >::empty());
            }
            return String::new();
        }
        let c = self.chars[self.pos];
        if is_alpha(c) || c == '_' {
            self.pos = self.pos + 1;
            proof {
                lemma_scan_word_end_bounds(self.chars@, self.pos as int);
            }
            let rest = self.read_word_scan();
            let mut s = String::new();
            s.push(c);
            s.push_str(rest.as_str());
            proof {
                assert(s@ =~= old(self).chars@.subrange(old(self).pos as int, self.pos as int));
            }
            s
        } else {
            proof {
                assert(self.chars@.subrange(self.pos as int, self.pos as int) =~= Seq::<
                    char,
                >::empty());
            }
            String::new()
        }
    }

    fn classify_word(&self, word: String) -> (r: Token)
        ensures
            word_token_rel(word@, *self.syntax, r),
    {
        let w = word.as_str();
        if str_eq(w, self.syntax.return_name.as_str()) {
            Token::Return
        } else if str_eq(w, self.syntax.mutable_decl.as_str()) {
            Token::MutableDecl
        } else if str_eq(w, self.syntax.constant_decl.as_str()) {
            Token::ConstantDecl
        } else if str_eq(w, self.syntax.function_def.as_str()) {
            Token::FunctionDef
        } else if str_eq(w, self.syntax.conditional.as_str()) {
            Token::Conditional
        } else if str_eq(w, self.syntax._else.as_str()) {
            Token::Else
        } else if str_eq(w, self.syntax._loop.as_str()) {
            Token::Loop
        } else if str_eq(w, self.syntax.bool_name.as_str()) {
            Token::TypeName(Type::Bool)
        } else if str_eq(w, self.syntax.listtype.as_str()) {
            Token::SiyahiKeyword
        } else if str_eq(w, self.syntax.biginteger.as_str()) {
            Token::TypeName(Type::BigInteger)
        } else if str_eq(w, self.syntax.lowinteger.as_str()) {
            Token::TypeName(Type::LowInteger)
        } else if str_eq(w, self.syntax.string.as_str()) {
            Token::TypeName(Type::Metn)
        } else if str_eq(w, self.syntax.integer.as_str()) {
            Token::TypeName(Type::Integer)
        } else if self.syntax.is_type_str(w) {
            Token::TypeName(Type::Istifadeci(word))
        } else {
            Token::Identifier(word)
        }
    }

    fn read_operator_scan(&mut self) -> (r: Token)
        requires
            old(self).wf(),
            old(self).pos < old(self).chars@.len(),
        ensures
            final(self).chars == old(self).chars,
            final(self).syntax == old(self).syntax,
            final(self).token_buffer == old(self).token_buffer,
            final(self).wf(),
            ({
                let chars = old(self).chars@;
                let p = old(self).pos as int;
                let two = p + 1 < chars.len() && two_char_op(chars[p], chars[p + 1]);
                &&& final(self).pos as int == (if two {
                    p + 2
                } else {
                    p + 1
                })
                &&& r matches Token::Operator(op) && op@ == (if two {
                    seq![chars[p], chars[p + 1]]
                } else {
                    seq![chars[p]]
                })
            }),
    {
        let n = self.chars.len();
        let c = self.chars[self.pos];
        self.pos = self.pos + 1;
        let mut op = String::new();
        op.push(c);
        if self.pos < n {
            let c2 = self.chars[self.pos];
            let two = match (c, c2) {
                ('=', '=') => true,
                ('!', '=') => true,
                ('<', '=') => true,
                ('>', '=') => true,
                ('+', '=') => true,
                ('-', '=') => true,
                ('*', '=') => true,
                ('/', '=') => true,
                ('&', '&') => true,
                ('|', '|') => true,
                _ => false,
            };
            if two {
                op.push(c2);
                self.pos = self.pos + 1;
                proof {
                    assert(op@ =~= seq![c, c2]);
                }
                return Token::Operator(op);
            }
        }
        proof {
            assert(op@ =~= seq![c]);
        }
        Token::Operator(op)
    }

    fn tpl_scan(&mut self, content: String) -> (r: Option<Token>)
        requires
            old(self).wf(),
            old(self).token_buffer@.len() == 0,
        ensures
            final(self).chars == old(self).chars,
            final(self).syntax == old(self).syntax,
            final(self).wf(),
            tpl_rel(
                old(self).chars@,
                old(self).pos as int,
                content@,
                r,
                final(self).pos as int,
                final(self).token_buffer@,
            ),
        decreases old(self).chars@.len() - old(self).pos,
    {
        proof {
            assert(self.token_buffer@ =~= Seq::<Token>::empty());
        }
        if self.pos >= self.chars.len() {
            if !content.as_str().is_empty() {
                return Some(Token::TemplatePart(content));
            }
            return None;
        }
        let c = self.chars[self.pos];
        if c == '`' {
            self.pos = self.pos + 1;
            if !content.as_str().is_empty() {
                Some(Token::TemplatePart(content))
            } else {
                Some(Token::Backtick)
            }
        } else if c == '$' && self.pos + 1 < self.chars.len() && self.chars[self.pos + 1] == '{' {
            self.pos = self.pos + 2;
            if !content.as_str().is_empty() {
                self.push_back_token(Token::InterpolationStart);
                proof {
                    assert(self.token_buffer@ =~= seq![Token::InterpolationStart]);
                }
                Some(Token::TemplatePart(content))
            } else {
                Some(Token::InterpolationStart)
            }
        } else if c == '$' {
            self.pos = self.pos + 1;
            let mut content2 = content;
            content2.push('$');
            self.tpl_scan(content2)
        } else if c == '}' {
            self.pos = self.pos + 1;
            Some(Token::RBrace)
        } else {
            self.pos = self.pos + 1;
            let mut content2 = content;
            content2.push(c);
            self.tpl_scan(content2)
        }
    }

    fn read_template_string(&mut self) -> (r: Option<Token>)
        requires
            old(self).wf(),
            old(self).token_buffer@.len() == 0,
        ensures
            final(self).chars == old(self).chars,
            final(self).syntax == old(self).syntax,
            final(self).wf(),
            tpl_rel(
                old(self).chars@,
                old(self).pos as int,
                Seq::empty(),
                r,
                final(self).pos as int,
                final(self).token_buffer@,
            ),
    {
        self.tpl_scan(String::new())
    }

    /// Produces the next token: a buffered token first, otherwise the
    /// scan of the text at the cursor, exactly as `next_rel` states.
    /// `None` means the end of the stream (or an unterminated or
    /// overflowing literal, which ends the stream silently).
    pub fn next_token(&mut self) -> (r: Option<Token>)
        requires
            old(self).wf(),
        ensures
            final(self).chars == old(self).chars,
            final(self).syntax == old(self).syntax,
            final(self).wf(),
            next_rel(
                old(self).chars@,
                old(self).pos as int,
                old(self).token_buffer@,
                *old(self).syntax,
                r,
                final(self).pos as int,
                final(self).token_buffer@,
            ),
            r is Some ==> 2 * (final(self).chars@.len() - final(self).pos)
                + final(self).token_buffer@.len() < 2 * (old(self).chars@.len() - old(self).pos)
                + old(self).token_buffer@.len(),
    {
        if self.token_buffer.len() > 0 {
            let t = self.token_buffer.pop().unwrap();
            return Some(t);
        }
        let mut p = self.pos;
        skip_whitespace(&self.chars, &mut p);
        self.pos = p;
        if self.pos >= self.chars.len() {
            return None;
        }
        let c = self.chars[self.pos];
        if c == '(' {
            self.pos = self.pos + 1;
            Some(Token::LParen)
        } else if c == ')' {
            self.pos = self.pos + 1;
            Some(Token::RParen)
        } else if c == '{' {
            self.pos = self.pos + 1;
            Some(Token::LBrace)
        } else if c == ';' {
            self.pos = self.pos + 1;
            Some(Token::Semicolon)
        } else if c == ':' {
            self.pos = self.pos + 1;
            Some(Token::Colon)
        } else if c == ',' {
            self.pos = self.pos + 1;
            Some(Token::Comma)
        } else if c == '[' {
            self.pos = self.pos + 1;
            Some(Token::ListStart)
        } else if c == ']' {
            self.pos = self.pos + 1;
            Some(Token::ListEnd)
        } else if c == '`' {
            self.pos = self.pos + 1;
            let r = self.read_template_string();
            proof {
                lemma_tpl_rel_progress(
                    self.chars@,
                    skip_ws(old(self).chars@, old(self).pos as int) + 1,
                    Seq::empty(),
                    r,
                    self.pos as int,
                    self.token_buffer@,
                );
            }
            r
        } else if c == '$' {
            let r = self.read_template_string();
            proof {
                lemma_tpl_rel_progress(
                    self.chars@,
                    skip_ws(old(self).chars@, old(self).pos as int),
                    Seq::empty(),
                    r,
                    self.pos as int,
                    self.token_buffer@,
                );
            }
            r
        } else if c == '}' {
            self.pos = self.pos + 1;
            Some(Token::RBrace)
        } else if c == '"' {
            self.pos = self.pos + 1;
            proof {
                lemma_scan_string_bounds(self.chars@, self.pos as int);
            }
            match self.read_string_scan() {
                None => None,
                Some(s) => Some(Token::StringLiteral(s)),
            }
        } else if is_dec_digit(c) {
            proof {
                lemma_scan_digits_end_bounds(self.chars@, self.pos as int + 1);
            }
            self.read_number_scan()
        } else if is_alpha(c) {
            proof {
                lemma_scan_word_end_bounds(self.chars@, self.pos as int + 1);
                assert(alpha_char(self.chars@[skip_ws(old(self).chars@, old(self).pos as int)]));
            }
            let w = self.read_word_scan();
            Some(self.classify_word(w))
        } else {
            Some(self.read_operator_scan())
        }
    }

    /// Scans the whole remaining input into a token list, stopping at the
    /// end of the stream.
    pub fn tokenize(&mut self) -> (r: Vec<Token>)
        requires
            old(self).wf(),
        ensures
            final(self).chars == old(self).chars,
            final(self).syntax == old(self).syntax,
            final(self).wf(),
            tokenizes_to(
                old(self).chars@,
                old(self).pos as int,
                old(self).token_buffer@,
                *old(self).syntax,
                r@,
            ),
        decreases 2 * (old(self).chars@.len() - old(self).pos) + old(self).token_buffer@.len(),
    {
        let ghost chars0 = old(self).chars@;
        let ghost pos0 = old(self).pos as int;
        let ghost buf0 = old(self).token_buffer@;
        let ghost syn = *old(self).syntax;
        match self.next_token() {
            None => {
                let empty: Vec<Token> = Vec::new();
                proof {
                    let r0: Option<Token> = None;
                    assert(next_rel(
                        chars0,
                        pos0,
                        buf0,
                        syn,
                        r0,
                        self.pos as int,
                        self.token_buffer@,
                    ));
                    assert(tokenizes_to(chars0, pos0, buf0, syn, empty@));
                }
                empty
            },
            Some(t) => {
                let ghost midpos = self.pos as int;
                let ghost midbuf = self.token_buffer@;
                if matches!(t, Token::EOF) {
                    let empty: Vec<Token> = Vec::new();
                    proof {
                        assert(next_rel(chars0, pos0, buf0, syn, Some(t), midpos, midbuf));
                        assert(tokenizes_to(chars0, pos0, buf0, syn, empty@));
                    }
                    return empty;
                }
                let mut rest = self.tokenize();
                let ghost restv = rest@;
                rest.insert(0, t);
                proof {
                    assert(rest@[0] == t);
                    assert(rest@.drop_first() =~= restv);
                    assert(next_rel(chars0, pos0, buf0, syn, Some(rest@[0]), midpos, midbuf));
                    assert(tokenizes_to(chars0, midpos, midbuf, syn, rest@.drop_first()));
                    lemma_tokenizes_cons(chars0, pos0, buf0, syn, midpos, midbuf, rest@);
                }
                rest
            },
        }
    }
}

/// A non-final scanning step extends the token stream by one token.
pub proof fn lemma_tokenizes_cons(
    chars: Seq<char>,
    pos: int,
    buffer: Seq<Token>,
    syn: Syntax,
    pos2: int,
    buf2: Seq<Token>,
    tokens: Seq<Token>,
)
    requires
        tokens.len() > 0,
        !(tokens[0] is EOF),
        next_rel(chars, pos, buffer, syn, Some(tokens[0]), pos2, buf2),
        tokenizes_to(chars, pos2, buf2, syn, tokens.drop_first()),
    ensures
        tokenizes_to(chars, pos, buffer, syn, tokens),
{
}

/// Two tokens are alike when they have the same variant and their
/// payloads hold the same characters (or, for a type keyword, equal
/// types). Distinct runs of the lexer may allocate distinct strings, so
/// this is the right sense in which its output is unique.
pub open spec fn token_like(a: Token, b: Token) -> bool {
    match (a, b) {
        (Token::TemplatePart(x), Token::TemplatePart(y)) => x@ == y@,
        (Token::TypeName(x), Token::TypeName(y)) => crate::ast::type_eqv(x, y),
        (Token::Identifier(x), Token::Identifier(y)) => x@ == y@,
        (Token::Number(x), Token::Number(y)) => x == y,
        (Token::StringLiteral(x), Token::StringLiteral(y)) => x@ == y@,
        (Token::Operator(x), Token::Operator(y)) => x@ == y@,
        _ => a == b,
    }
}

/// Likeness of optional tokens: both absent, or both present and alike.
pub open spec fn opt_token_like(a: Option<Token>, b: Option<Token>) -> bool {
    match (a, b) {
        (None, None) => true,
        (Some(x), Some(y)) => token_like(x, y),
        _ => false,
    }
}

/// Every token is like itself.
pub proof fn lemma_token_like_refl(t: Token)
    ensures
        token_like(t, t),
{
    match t {
        Token::TypeName(x) => crate::ast::lemma_type_eqv_refl(x),
        _ => {},
    }
}

/// The template scanner admits one outcome per input state.
proof fn lemma_tpl_rel_functional(
    chars: Seq<char>,
    pos: int,
    acc: Seq<char>,
    r1: Option<Token>,
    pos1: int,
    push1: Seq<Token>,
    r2: Option<Token>,
    pos2: int,
    push2: Seq<Token>,
)
    requires
        tpl_rel(chars, pos, acc, r1, pos1, push1),
        tpl_rel(chars, pos, acc, r2, pos2, push2),
    ensures
        opt_token_like(r1, r2),
        pos1 == pos2,
        push1 == push2,
    decreases chars.len() - pos,
{
    if 0 <= pos < chars.len() {
        if chars[pos] == '$' && !(pos + 1 < chars.len() && chars[pos + 1] == '{') {
            lemma_tpl_rel_functional(
                chars,
                pos + 1,
                acc.push('$'),
                r1,
                pos1,
                push1,
                r2,
                pos2,
                push2,
            );
        } else if chars[pos] != '`' && chars[pos] != '$' && chars[pos] != '}' {
            lemma_tpl_rel_functional(
                chars,
                pos + 1,
                acc.push(chars[pos]),
                r1,
                pos1,
                push1,
                r2,
                pos2,
                push2,
            );
        }
    }
}

/// One scanning step admits one outcome per lexer state: the lexer is a
/// function of the source text and the syntax table.
pub proof fn lemma_next_rel_functional(
    chars: Seq<char>,
    pos: int,
    buffer: Seq<Token>,
    syn: Syntax,
    r1: Option<Token>,
    pos1: int,
    buf1: Seq<Token>,
    r2: Option<Token>,
    pos2: int,
    buf2: Seq<Token>,
)
    requires
        next_rel(chars, pos, buffer, syn, r1, pos1, buf1),
        next_rel(chars, pos, buffer, syn, r2, pos2, buf2),
    ensures
        opt_token_like(r1, r2),
        pos1 == pos2,
        buf1 == buf2,
{
    if buffer.len() > 0 {
        lemma_token_like_refl(buffer.last());
    } else {
        let p = skip_ws(chars, pos);
        if p < chars.len() {
            let c = chars[p];
            if c == '`' {
                lemma_tpl_rel_functional(
                    chars,
                    p + 1,
                    Seq::empty(),
                    r1,
                    pos1,
                    buf1,
                    r2,
                    pos2,
                    buf2,
                );
            } else if c == '$' {
                lemma_tpl_rel_functional(chars, p, Seq::empty(), r1, pos1, buf1, r2, pos2, buf2);
            } else if !(c == '(' || c == ')' || c == '{' || c == ';' || c == ':' || c == ','
                || c == '[' || c == ']' || c == '}' || c == '"' || dec_digit(c)) && alpha_char(c) {
                let e = scan_word_end(chars, p);
                let word = chars.subrange(p, e);
                if word == syn.listtype@ || syn.spec_is_type_str(word) {
                    assert(opt_token_like(r1, r2));
                }
            }
        }
    }
}

/// The lexer's output stream is unique: any two token streams scanned
/// from the same source text under the same syntax table are alike,
/// token for token. Together with the exact contracts of the later
/// stages, identical input therefore yields identical output.
pub proof fn lemma_tokenize_deterministic(
    chars: Seq<char>,
    pos: int,
    buffer: Seq<Token>,
    syn: Syntax,
    ts1: Seq<Token>,
    ts2: Seq<Token>,
)
    requires
        tokenizes_to(chars, pos, buffer, syn, ts1),
        tokenizes_to(chars, pos, buffer, syn, ts2),
    ensures
        ts1.len() == ts2.len(),
        forall|i: int| 0 <= i < ts1.len() ==> token_like(ts1[i], #[trigger] ts2[i]),
    decreases ts1.len(),
{
    if ts1.len() == 0 && ts2.len() == 0 {
    } else if ts1.len() == 0 {
        let (re, pe, be) = choose|re: Option<Token>, pe: int, be: Seq<Token>|
            #![trigger next_rel(chars, pos, buffer, syn, re, pe, be)]
            next_rel(chars, pos, buffer, syn, re, pe, be) && (re is None || re == Some(
                Token::EOF,
            ));
        let (p2, b2) = choose|p2: int, b2: Seq<Token>|
            #![trigger next_rel(chars, pos, buffer, syn, Some(ts2[0]), p2, b2)]
            next_rel(chars, pos, buffer, syn, Some(ts2[0]), p2, b2) && !(ts2[0] is EOF)
                && tokenizes_to(chars, p2, b2, syn, ts2.drop_first());
        lemma_next_rel_functional(chars, pos, buffer, syn, re, pe, be, Some(ts2[0]), p2, b2);
    } else if ts2.len() == 0 {
        let (re, pe, be) = choose|re: Option<Token>, pe: int, be: Seq<Token>|
            #![trigger next_rel(chars, pos, buffer, syn, re, pe, be)]
            next_rel(chars, pos, buffer, syn, re, pe, be) && (re is None || re == Some(
                Token::EOF,
            ));
        let (p1, b1) = choose|p1: int, b1: Seq<Token>|
            #![trigger next_rel(chars, pos, buffer, syn, Some(ts1[0]), p1, b1)]
            next_rel(chars, pos, buffer, syn, Some(ts1[0]), p1, b1) && !(ts1[0] is EOF)
                && tokenizes_to(chars, p1, b1, syn, ts1.drop_first());
        lemma_next_rel_functional(chars, pos, buffer, syn, re, pe, be, Some(ts1[0]), p1, b1);
    } else {
        let (p1, b1) = choose|p1: int, b1: Seq<Token>|
            #![trigger next_rel(chars, pos, buffer, syn, Some(ts1[0]), p1, b1)]
            next_rel(chars, pos, buffer, syn, Some(ts1[0]), p1, b1) && !(ts1[0] is EOF)
                && tokenizes_to(chars, p1, b1, syn, ts1.drop_first());
        let (p2, b2) = choose|p2: int, b2: Seq<Token>|
            #![trigger next_rel(chars, pos, buffer, syn, Some(ts2[0]), p2, b2)]
            next_rel(chars, pos, buffer, syn, Some(ts2[0]), p2, b2) && !(ts2[0] is EOF)
                && tokenizes_to(chars, p2, b2, syn, ts2.drop_first());
        lemma_next_rel_functional(
            chars,
            pos,
            buffer,
            syn,
            Some(ts1[0]),
            p1,
            b1,
            Some(ts2[0]),
            p2,
            b2,
        );
        lemma_tokenize_deterministic(chars, p1, b1, syn, ts1.drop_first(), ts2.drop_first());
        assert forall|i: int| 0 <= i < ts1.len() implies token_like(
            ts1[i],
            #[trigger] ts2[i],
        ) by {
            if i > 0 {
                assert(ts1.drop_first()[i - 1] == ts1[i]);
                assert(ts2.drop_first()[i - 1] == ts2[i]);
            }
        }
    }
}

/// The whole token stream from a lexer state: each token is one
/// `next_rel` step, and the stream ends where the scanner yields nothing
/// or the end-of-stream marker.
pub open spec fn tokenizes_to(
    chars: Seq<char>,
    pos: int,
    buffer: Seq<Token>,
    syn: Syntax,
    tokens: Seq<Token>,
) -> bool
    decreases tokens.len(),
{
    if tokens.len() == 0 {
        exists|r: Option<Token>, pos2: int, buf2: Seq<Token>|
            #![trigger next_rel(chars, pos, buffer, syn, r, pos2, buf2)]
            next_rel(chars, pos, buffer, syn, r, pos2, buf2) && (r is None || r == Some(Token::EOF))
    } else {
        exists|pos2: int, buf2: Seq<Token>|
            #![trigger next_rel(chars, pos, buffer, syn, Some(tokens[0]), pos2, buf2)]
            next_rel(chars, pos, buffer, syn, Some(tokens[0]), pos2, buf2) && !(tokens[0]
                is EOF) && tokenizes_to(chars, pos2, buf2, syn, tokens.drop_first())
    }
}

} // verus!
