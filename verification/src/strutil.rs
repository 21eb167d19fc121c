//! String helpers shared by the lexer and the code generator.
//!
//! The only facts taken on trust here are the contracts of two `String`
//! methods from the standard library that vstd does not specify; everything
//! else is verified code built on top of them.

use vstd::prelude::*;

verus! {

/// Relies on `String::push`: appends the given character to the end of
/// the string.
pub assume_specification[ std::string::String::push ](s: &mut String, ch: char)
    ensures
        final(s)@ == old(s)@.push(ch),
;

/// Relies on `String::push_str`: appends the given string slice onto the
/// end of the string.
pub assume_specification[ std::string::String::push_str ](s: &mut String, other: &str)
    ensures
        final(s)@ == old(s)@ + other@,
;

/// Decides whether two string slices hold the same characters.
pub fn str_eq(a: &str, b: &str) -> (r: bool)
    ensures
        r == (a@ == b@),
{
    let alen = a.unicode_len();
    let blen = b.unicode_len();
    if alen != blen {
        return false;
    }
    let mut i: usize = 0;
    while i < alen
        invariant
            alen == a@.len(),
            alen == b@.len(),
            i <= alen,
            forall|j: int| 0 <= j < i ==> a@[j] == b@[j],
        decreases alen - i,
    {
        if a.get_char(i) != b.get_char(i) {
            return false;
        }
        i += 1;
    }
    proof {
        assert(a@ =~= b@);
    }
    true
}

/// Collects the characters of a string slice into a vector.
pub fn str_to_chars(s: &str) -> (r: Vec<char>)
    ensures
        r@ == s@,
{
    let n = s.unicode_len();
    let mut v: Vec<char> = Vec::new();
    let mut i: usize = 0;
    while i < n
        invariant
            n == s@.len(),
            i <= n,
            v@ == s@.subrange(0, i as int),
        decreases n - i,
    {
        v.push(s.get_char(i));
        proof {
            assert(v@ =~= s@.subrange(0, i + 1 as int));
        }
        i += 1;
    }
    proof {
        assert(v@ =~= s@);
    }
    v
}

/// Concatenates three string slices into a fresh string; used to build
/// messages that name the offending item.
pub fn concat3(a: &str, b: &str, c: &str) -> (r: String)
    ensures
        r@ == a@ + b@ + c@,
{
    let mut s = a.to_owned();
    s.push_str(b);
    s.push_str(c);
    s
}

/// The result of replacing every occurrence of `from` in `s` by `to`,
/// scanning left to right; an empty pattern replaces nothing.
pub open spec fn replace_seq(s: Seq<char>, from: Seq<char>, to: Seq<char>) -> Seq<char>
    decreases s.len(),
{
    if from.len() == 0 || s.len() < from.len() {
        s
    } else if s.subrange(0, from.len() as int) == from {
        to + replace_seq(s.subrange(from.len() as int, s.len() as int), from, to)
    } else {
        seq![s[0]] + replace_seq(s.subrange(1, s.len() as int), from, to)
    }
}

fn tail_string(sv: &Vec<char>, i: usize) -> (r: String)
    requires
        i <= sv@.len(),
    ensures
        r@ == sv@.subrange(i as int, sv@.len() as int),
{
    let mut out = String::new();
    let mut k: usize = i;
    while k < sv.len()
        invariant
            i <= k <= sv@.len(),
            out@ == sv@.subrange(i as int, k as int),
        decreases sv@.len() - k,
    {
        out.push(sv[k]);
        proof {
            assert(out@ =~= sv@.subrange(i as int, k + 1 as int));
        }
        k += 1;
    }
    proof {
        assert(out@ =~= sv@.subrange(i as int, sv@.len() as int));
    }
    out
}

fn replace_from(sv: &Vec<char>, i: usize, fv: &Vec<char>, to: &str) -> (r: String)
    requires
        i <= sv@.len(),
    ensures
        r@ == replace_seq(sv@.subrange(i as int, sv@.len() as int), fv@, to@),
    decreases sv@.len() - i,
{
    let ghost rem = sv@.subrange(i as int, sv@.len() as int);
    if fv.len() == 0 || sv.len() - i < fv.len() {
        return tail_string(sv, i);
    }
    let mut k: usize = 0;
    let mut matches_here = true;
    proof {
        assert(sv@.subrange(i as int, i as int) =~= fv@.subrange(0, 0));
    }
    while k < fv.len()
        invariant
            k <= fv@.len(),
            i + fv@.len() <= sv@.len(),
            sv@.len() <= usize::MAX,
            matches_here == (sv@.subrange(i as int, i + k as int) == fv@.subrange(0, k as int)),
        decreases fv@.len() - k,
    {
        let ghost pre = matches_here;
        if sv[i + k] != fv[k] {
            matches_here = false;
            proof {
                if sv@.subrange(i as int, i + k + 1 as int) == fv@.subrange(0, k + 1 as int) {
                    assert(sv@.subrange(i as int, i + k + 1 as int)[k as int] == fv@.subrange(
                        0,
                        k + 1 as int,
                    )[k as int]);
                }
            }
        } else {
            proof {
                if pre {
                    assert(sv@.subrange(i as int, i + k + 1 as int) =~= fv@.subrange(
                        0,
                        k + 1 as int,
                    ));
                } else {
                    let old_s = sv@.subrange(i as int, i + k as int);
                    let old_f = fv@.subrange(0, k as int);
                    assert(old_s != old_f);
                    if sv@.subrange(i as int, i + k + 1 as int) == fv@.subrange(0, k + 1 as int) {
                        assert forall|j: int| 0 <= j < k implies old_s[j] == old_f[j] by {
                            assert(sv@.subrange(i as int, i + k + 1 as int)[j] == fv@.subrange(
                                0,
                                k + 1 as int,
                            )[j]);
                        }
                        assert(old_s =~= old_f);
                    }
                }
            }
        }
        k += 1;
    }
    proof {
        assert(fv@.subrange(0, fv@.len() as int) =~= fv@);
        assert(rem.subrange(0, fv@.len() as int) =~= sv@.subrange(i as int, i + fv@.len()));
        assert(rem.len() >= fv@.len());
    }
    if matches_here {
        let rest = replace_from(sv, i + fv.len(), fv, to);
        let mut out = to.to_owned();
        out.push_str(rest.as_str());
        proof {
            assert(rem.subrange(fv@.len() as int, rem.len() as int) =~= sv@.subrange(
                i + fv@.len(),
                sv@.len() as int,
            ));
        }
        out
    } else {
        let rest = replace_from(sv, i + 1, fv, to);
        let mut out = String::new();
        out.push(sv[i]);
        out.push_str(rest.as_str());
        proof {
            assert(rem.subrange(1, rem.len() as int) =~= sv@.subrange(
                i + 1 as int,
                sv@.len() as int,
            ));
            assert(seq![rem[0]] =~= Seq::<char>::empty().push(sv@[i as int]));
            assert(out@ =~= seq![rem[0]] + replace_seq(
                rem.subrange(1, rem.len() as int),
                fv@,
                to@,
            ));
        }
        out
    }
}

/// Replaces every occurrence of `from` in `s` by `to`, scanning left to
/// right; an empty pattern replaces nothing.
pub fn replace_all(s: &str, from: &str, to: &str) -> (r: String)
    ensures
        r@ == replace_seq(s@, from@, to@),
{
    let sv = str_to_chars(s);
    let fv = str_to_chars(from);
    let r = replace_from(&sv, 0, &fv, to);
    proof {
        assert(sv@.subrange(0, sv@.len() as int) =~= s@);
    }
    r
}

/// The escape of one character inside a generated string literal:
/// quotes, backslashes and the common control characters get a backslash
/// form; every other character, non-ASCII text included, deliberately
/// stands for itself, so the generated literal holds it verbatim.
pub open spec fn esc_char(c: char) -> Seq<char> {
    if c == '"' {
        seq!['\\', '"']
    } else if c == '\\' {
        seq!['\\', '\\']
    } else if c == '\n' {
        seq!['\\', 'n']
    } else if c == '\t' {
        seq!['\\', 't']
    } else if c == '\r' {
        seq!['\\', 'r']
    } else {
        seq![c]
    }
}

/// The escape of a whole string.
pub open spec fn esc_seq(s: Seq<char>) -> Seq<char>
    decreases s.len(),
{
    if s.len() == 0 {
        Seq::empty()
    } else {
        esc_char(s[0]) + esc_seq(s.subrange(1, s.len() as int))
    }
}

fn push_esc_char(out: &mut String, c: char)
    ensures
        final(out)@ == old(out)@ + esc_char(c),
{
    if c == '"' {
        out.push_str("\\\"");
        proof {
            reveal_strlit("\\\"");
            assert(final(out)@ =~= old(out)@ + esc_char(c));
        }
    } else if c == '\\' {
        out.push_str("\\\\");
        proof {
            reveal_strlit("\\\\");
            assert(final(out)@ =~= old(out)@ + esc_char(c));
        }
    } else if c == '\n' {
        out.push_str("\\n");
        proof {
            reveal_strlit("\\n");
            assert(final(out)@ =~= old(out)@ + esc_char(c));
        }
    } else if c == '\t' {
        out.push_str("\\t");
        proof {
            reveal_strlit("\\t");
            assert(final(out)@ =~= old(out)@ + esc_char(c));
        }
    } else if c == '\r' {
        out.push_str("\\r");
        proof {
            reveal_strlit("\\r");
            assert(final(out)@ =~= old(out)@ + esc_char(c));
        }
    } else {
        out.push(c);
        proof {
            assert(final(out)@ =~= old(out)@ + esc_char(c));
        }
    }
}

fn escape_from(sv: &Vec<char>, i: usize) -> (r: String)
    requires
        i <= sv@.len(),
    ensures
        r@ == esc_seq(sv@.subrange(i as int, sv@.len() as int)),
    decreases sv@.len() - i,
{
    if i >= sv.len() {
        proof {
            assert(sv@.subrange(i as int, sv@.len() as int) =~= Seq::<char>::empty());
        }
        String::new()
    } else {
        let rest = escape_from(sv, i + 1);
        let mut out = String::new();
        push_esc_char(&mut out, sv[i]);
        out.push_str(rest.as_str());
        proof {
            let rem = sv@.subrange(i as int, sv@.len() as int);
            assert(rem[0] == sv@[i as int]);
            assert(rem.subrange(1, rem.len() as int) =~= sv@.subrange(
                i + 1 as int,
                sv@.len() as int,
            ));
            assert(out@ =~= esc_char(rem[0]) + esc_seq(rem.subrange(1, rem.len() as int)));
        }
        out
    }
}

/// Escapes a string for inclusion inside a generated string literal.
pub fn escape_string(s: &str) -> (r: String)
    ensures
        r@ == esc_seq(s@),
{
    let sv = str_to_chars(s);
    let r = escape_from(&sv, 0);
    proof {
        assert(sv@.subrange(0, sv@.len() as int) =~= s@);
    }
    r
}

/// The decimal digit character for a value below ten.
pub open spec fn digit_char(d: int) -> char {
    if d == 0 {
        '0'
    } else if d == 1 {
        '1'
    } else if d == 2 {
        '2'
    } else if d == 3 {
        '3'
    } else if d == 4 {
        '4'
    } else if d == 5 {
        '5'
    } else if d == 6 {
        '6'
    } else if d == 7 {
        '7'
    } else if d == 8 {
        '8'
    } else {
        '9'
    }
}

/// The decimal digit sequence of a non-negative integer, most significant
/// digit first.
pub open spec fn dec_digits(n: int) -> Seq<char>
    decreases n,
{
    if n < 10 {
        seq![digit_char(n)]
    } else {
        dec_digits(n / 10).push(digit_char(n % 10))
    }
}

/// The decimal rendering of a signed integer: a minus sign for negative
/// values, then the digits of the magnitude.
pub open spec fn i64_dec(n: int) -> Seq<char> {
    if n < 0 {
        seq!['-'] + dec_digits(-n)
    } else {
        dec_digits(n)
    }
}

fn digit_to_char(d: u64) -> (r: char)
    requires
        d < 10,
    ensures
        r == digit_char(d as int),
{
    match d {
        0 => '0',
        1 => '1',
        2 => '2',
        3 => '3',
        4 => '4',
        5 => '5',
        6 => '6',
        7 => '7',
        8 => '8',
        _ => '9',
    }
}

fn push_dec_u64(s: &mut String, n: u64)
    ensures
        final(s)@ == old(s)@ + dec_digits(n as int),
    decreases n,
{
    if n < 10 {
        s.push(digit_to_char(n));
        proof {
            assert(final(s)@ =~= old(s)@ + dec_digits(n as int));
        }
    } else {
        push_dec_u64(s, n / 10);
        s.push(digit_to_char(n % 10));
        proof {
            assert(final(s)@ =~= old(s)@ + dec_digits(n as int));
        }
    }
}

/// Appends the decimal rendering of a signed integer to a string.
pub fn push_i64(s: &mut String, n: i64)
    ensures
        final(s)@ == old(s)@ + i64_dec(n as int),
{
    if n < 0 {
        s.push('-');
        let m: u64 = (-(n as i128)) as u64;
        proof {
            assert(m as int == -(n as int));
        }
        push_dec_u64(s, m);
        proof {
            assert(final(s)@ =~= old(s)@ + i64_dec(n as int));
        }
    } else {
        push_dec_u64(s, n as u64);
    }
}

/// The decimal rendering of an unsigned size as a fresh string.
pub fn usize_to_string(n: usize) -> (r: String)
    ensures
        r@ == dec_digits(n as int),
{
    let mut s = String::new();
    push_dec_u64(&mut s, n as u64);
    proof {
        assert(s@ =~= dec_digits(n as int));
    }
    s
}

/// The decimal rendering of a signed integer as a fresh string.
pub fn i64_to_string(n: i64) -> (r: String)
    ensures
        r@ == i64_dec(n as int),
{
    let mut s = String::new();
    push_i64(&mut s, n);
    proof {
        assert(s@ =~= i64_dec(n as int));
    }
    s
}

} // verus!
