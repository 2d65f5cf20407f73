//! Escaping of user-provided text before it is embedded somewhere: into a
//! JSON string literal of a request, into a backtick template literal of a
//! script shipped to the browser, or into a double-quoted script string.
//! Identifiers that end up inside single quotes are validated instead of
//! escaped.

use vstd::prelude::*;

verus! {

/// ASCII codes of the characters the escapers care about.
pub const BACKSLASH: u8 = 92;

pub const DQUOTE: u8 = 34;

pub const SQUOTE: u8 = 39;

pub const BACKTICK: u8 = 96;

pub const DOLLAR: u8 = 36;

/// The lowercase hex digit of a value below 16.
pub open spec fn hex_digit(v: u8) -> u8 {
    if v < 10 {
        (48 + v) as u8
    } else {
        (87 + v) as u8
    }
}

/// How one byte appears inside a JSON string literal: quote and backslash are
/// escaped, control bytes become `\u00XX`, everything else stands as itself.
pub open spec fn json_escape_byte(b: u8) -> Seq<u8> {
    if b == DQUOTE {
        seq![BACKSLASH, DQUOTE]
    } else if b == BACKSLASH {
        seq![BACKSLASH, BACKSLASH]
    } else if b < 32 {
        seq![BACKSLASH, 117u8, 48u8, 48u8, hex_digit(b / 16), hex_digit(b % 16)]
    } else {
        seq![b]
    }
}

/// The JSON string-literal form of `s` (without the surrounding quotes).
pub open spec fn json_escaped(s: Seq<u8>) -> Seq<u8>
    decreases s.len(),
{
    if s.len() == 0 {
        Seq::empty()
    } else {
        json_escaped(s.drop_last()) + json_escape_byte(s.last())
    }
}

/// How one byte appears inside a backtick template literal: backslash,
/// backtick and dollar are neutralised so that no embedded text can close the
/// literal or open a `${...}` substitution.
pub open spec fn template_escape_byte(b: u8) -> Seq<u8> {
    if b == BACKSLASH || b == BACKTICK || b == DOLLAR {
        seq![BACKSLASH, b]
    } else {
        seq![b]
    }
}

/// The template-literal form of `s` (without the surrounding backticks).
pub open spec fn template_escaped(s: Seq<u8>) -> Seq<u8>
    decreases s.len(),
{
    if s.len() == 0 {
        Seq::empty()
    } else {
        template_escaped(s.drop_last()) + template_escape_byte(s.last())
    }
}

/// How one byte appears inside a double-quoted script string: backslash and
/// double quote are escaped, everything else stands as itself.
pub open spec fn dquote_escape_byte(b: u8) -> Seq<u8> {
    if b == BACKSLASH || b == DQUOTE {
        seq![BACKSLASH, b]
    } else {
        seq![b]
    }
}

/// The double-quoted form of `s` (without the surrounding quotes).
pub open spec fn dquote_escaped(s: Seq<u8>) -> Seq<u8>
    decreases s.len(),
{
    if s.len() == 0 {
        Seq::empty()
    } else {
        dquote_escaped(s.drop_last()) + dquote_escape_byte(s.last())
    }
}

/// Whether `s` may stand verbatim between single quotes in a script: no
/// single quote, no backslash, no control byte.
pub open spec fn single_quote_safe(s: Seq<u8>) -> bool {
    forall|i: int| 0 <= i < s.len() ==> s[i] != SQUOTE && s[i] != BACKSLASH && s[i] >= 32
}

/// Append the JSON string-literal form of `s` to `out`.
pub fn push_json_escaped(out: &mut Vec<u8>, s: &[u8])
    ensures
        final(out)@ == old(out)@ + json_escaped(s@),
{
    let mut i: usize = 0;
    while i < s.len()
        invariant
            i <= s@.len(),
            out@ == old(out)@ + json_escaped(s@.subrange(0, i as int)),
        decreases s@.len() - i,
    {
        proof {
            let t = s@.subrange(0, i + 1 as int);
            assert(t.drop_last() =~= s@.subrange(0, i as int));
            assert(t.last() == s@[i as int]);
        }
        let b = s[i];
        if b == DQUOTE || b == BACKSLASH {
            out.push(BACKSLASH);
            out.push(b);
        } else if b < 32 {
            out.push(BACKSLASH);
            out.push(117);
            out.push(48);
            out.push(48);
            let hi = b / 16;
            let lo = b % 16;
            out.push(if hi < 10 { 48 + hi } else { 87 + hi });
            out.push(if lo < 10 { 48 + lo } else { 87 + lo });
        } else {
            out.push(b);
        }
        i = i + 1;
        assert(out@ =~= old(out)@ + json_escaped(s@.subrange(0, i as int)));
    }
    assert(s@.subrange(0, s@.len() as int) =~= s@);
}

/// Append the template-literal form of `s` to `out`.
pub fn push_template_escaped(out: &mut Vec<u8>, s: &[u8])
    ensures
        final(out)@ == old(out)@ + template_escaped(s@),
{
    let mut i: usize = 0;
    while i < s.len()
        invariant
            i <= s@.len(),
            out@ == old(out)@ + template_escaped(s@.subrange(0, i as int)),
        decreases s@.len() - i,
    {
        proof {
            let t = s@.subrange(0, i + 1 as int);
            assert(t.drop_last() =~= s@.subrange(0, i as int));
            assert(t.last() == s@[i as int]);
        }
        let b = s[i];
        if b == BACKSLASH || b == BACKTICK || b == DOLLAR {
            out.push(BACKSLASH);
            out.push(b);
        } else {
            out.push(b);
        }
        i = i + 1;
        assert(out@ =~= old(out)@ + template_escaped(s@.subrange(0, i as int)));
    }
    assert(s@.subrange(0, s@.len() as int) =~= s@);
}

/// Append the double-quoted script-string form of `s` to `out`.
pub fn push_dquote_escaped(out: &mut Vec<u8>, s: &[u8])
    ensures
        final(out)@ == old(out)@ + dquote_escaped(s@),
{
    let mut i: usize = 0;
    while i < s.len()
        invariant
            i <= s@.len(),
            out@ == old(out)@ + dquote_escaped(s@.subrange(0, i as int)),
        decreases s@.len() - i,
    {
        proof {
            let t = s@.subrange(0, i + 1 as int);
            assert(t.drop_last() =~= s@.subrange(0, i as int));
            assert(t.last() == s@[i as int]);
        }
        let b = s[i];
        if b == BACKSLASH || b == DQUOTE {
            out.push(BACKSLASH);
            out.push(b);
        } else {
            out.push(b);
        }
        i = i + 1;
        assert(out@ =~= old(out)@ + dquote_escaped(s@.subrange(0, i as int)));
    }
    assert(s@.subrange(0, s@.len() as int) =~= s@);
}

/// Decide whether `s` may stand verbatim between single quotes.
pub fn check_single_quote_safe(s: &[u8]) -> (r: bool)
    ensures
        r == single_quote_safe(s@),
{
    let mut i: usize = 0;
    while i < s.len()
        invariant
            i <= s@.len(),
            forall|j: int| 0 <= j < i ==> s@[j] != SQUOTE && s@[j] != BACKSLASH && s@[j] >= 32,
        decreases s@.len() - i,
    {
        let b = s[i];
        if b == SQUOTE || b == BACKSLASH || b < 32 {
            return false;
        }
        i = i + 1;
    }
    true
}

} // verus!
