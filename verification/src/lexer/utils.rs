//! Character classification and whitespace skipping for the lexer.

use vstd::prelude::*;

verus! {

/// Whether a character counts as whitespace; the name for what
/// `char::is_whitespace` returns.
pub uninterp spec fn ws_char(c: char) -> bool;

/// Whether a character counts as alphabetic; the name for what
/// `char::is_alphabetic` returns.
pub uninterp spec fn alpha_char(c: char) -> bool;

/// Relies on `char::is_whitespace`: the result depends on the character
/// alone.
#[verifier::external_body]
pub fn is_ws(c: char) -> (r: bool)
    ensures
        r == ws_char(c),
{
    c.is_whitespace()
}

/// Relies on `char::is_alphabetic`: the result depends on the character
/// alone.
#[verifier::external_body]
pub fn is_alpha(c: char) -> (r: bool)
    ensures
        r == alpha_char(c),
{
    c.is_alphabetic()
}

/// Whether a character is an ASCII decimal digit.
pub open spec fn dec_digit(c: char) -> bool {
    '0' <= c && c <= '9'
}

/// Decides whether a character is an ASCII decimal digit.
pub fn is_dec_digit(c: char) -> (r: bool)
    ensures
        r == dec_digit(c),
{
    '0' <= c && c <= '9'
}

/// The position of the first non-whitespace character at or after `pos`.
pub open spec fn skip_ws(chars: Seq<char>, pos: int) -> int
    decreases chars.len() - pos,
{
    if pos < 0 || pos >= chars.len() {
        pos
    } else if ws_char(chars[pos]) {
        skip_ws(chars, pos + 1)
    } else {
        pos
    }
}

/// `skip_ws` never moves backwards and never leaves the text.
pub proof fn lemma_skip_ws_bounds(chars: Seq<char>, pos: int)
    requires
        0 <= pos <= chars.len(),
    ensures
        pos <= skip_ws(chars, pos) <= chars.len(),
    decreases chars.len() - pos,
{
    if pos < chars.len() && ws_char(chars[pos]) {
        lemma_skip_ws_bounds(chars, pos + 1);
    }
}

/// Advances the cursor past leading whitespace.
pub fn skip_whitespace(chars: &Vec<char>, pos: &mut usize)
    requires
        *old(pos) <= chars@.len(),
    ensures
        *final(pos) as int == skip_ws(chars@, *old(pos) as int),
        *old(pos) <= *final(pos) <= chars@.len(),
{
    proof {
        lemma_skip_ws_bounds(chars@, *pos as int);
    }
    while *pos < chars.len() && is_ws(chars[*pos])
        invariant
            *pos <= chars@.len(),
            skip_ws(chars@, *old(pos) as int) == skip_ws(chars@, *pos as int),
            *old(pos) <= *pos,
        decreases chars@.len() - *pos,
    {
        *pos += 1;
    }
    proof {
        lemma_skip_ws_bounds(chars@, *pos as int);
    }
}

} // verus!
