//! Flat textual resolution of CSS `@import` lines: telling an import line
//! apart from ordinary text, and pulling the quoted path out of it. The
//! caller walks the files; nothing here touches a filesystem.

use vstd::prelude::*;

use crate::escape::DQUOTE;
use crate::escape::SQUOTE;
use crate::search::byte_index;
use crate::search::copy_range;
use crate::search::find_byte;
use crate::search::lemma_byte_index;

verus! {

/// The bytes of `@import`.
pub open spec fn import_keyword() -> Seq<u8> {
    seq![64u8, 105u8, 109u8, 112u8, 111u8, 114u8, 116u8]
}

/// ASCII whitespace: space, tab, line feed, vertical tab, form feed,
/// carriage return.
pub open spec fn is_ascii_ws(b: u8) -> bool {
    b == 32 || 9 <= b <= 13
}

/// `s` without its leading whitespace.
pub open spec fn skip_ws(s: Seq<u8>) -> Seq<u8>
    decreases s.len(),
{
    if s.len() > 0 && is_ascii_ws(s[0]) {
        skip_ws(s.drop_first())
    } else {
        s
    }
}

/// Whether a line is an import line: after leading whitespace it starts with
/// `@import`.
pub open spec fn import_line(s: Seq<u8>) -> bool {
    skip_ws(s).len() >= 7 && skip_ws(s).subrange(0, 7) == import_keyword()
}

/// What stands between the first `q` of `s` and the next one, if both exist.
pub open spec fn quoted_span(s: Seq<u8>, q: u8) -> Option<Seq<u8>> {
    match byte_index(s, q) {
        None => None,
        Some(i) => {
            let rest = s.subrange(i + 1, s.len() as int);
            match byte_index(rest, q) {
                None => None,
                Some(j) => Some(rest.subrange(0, j)),
            }
        },
    }
}

/// The path of an import line: the span between the first pair of double
/// quotes, or, when there is none, between the first pair of single quotes.
pub open spec fn import_path_of(s: Seq<u8>) -> Option<Seq<u8>> {
    match quoted_span(s, DQUOTE) {
        Some(p) => Some(p),
        None => quoted_span(s, SQUOTE),
    }
}

/// Decide whether a line is an import line.
pub fn is_import_line(line: &[u8]) -> (r: bool)
    ensures
        r == import_line(line@),
{
    let n = line.len();
    proof {
        assert(line@.subrange(0, n as int) =~= line@);
    }
    let mut i: usize = 0;
    while i < n && (line[i] == 32 || (9 <= line[i] && line[i] <= 13))
        invariant
            n == line@.len(),
            i <= n,
            skip_ws(line@) == skip_ws(line@.subrange(i as int, n as int)),
        decreases n - i,
    {
        proof {
            assert(line@.subrange(i as int, n as int).drop_first() =~= line@.subrange(
                i + 1 as int,
                n as int,
            ));
        }
        i = i + 1;
    }
    proof {
        assert(skip_ws(line@.subrange(i as int, n as int)) == line@.subrange(i as int, n as int));
    }
    let ghost t = line@.subrange(i as int, n as int);
    if n - i < 7 {
        return false;
    }
    let r = line[i] == 64 && line[i + 1] == 105 && line[i + 2] == 109 && line[i + 3] == 112
        && line[i + 4] == 111 && line[i + 5] == 114 && line[i + 6] == 116;
    proof {
        if r {
            assert(t.subrange(0, 7) =~= import_keyword());
        } else {
            assert(t.subrange(0, 7) != import_keyword()) by {
                if t.subrange(0, 7) == import_keyword() {
                    assert(t.subrange(0, 7)[0] == 64u8);
                    assert(t.subrange(0, 7)[1] == 105u8);
                    assert(t.subrange(0, 7)[2] == 109u8);
                    assert(t.subrange(0, 7)[3] == 112u8);
                    assert(t.subrange(0, 7)[4] == 111u8);
                    assert(t.subrange(0, 7)[5] == 114u8);
                    assert(t.subrange(0, 7)[6] == 116u8);
                }
            }
        }
    }
    r
}

/// Pull the span between the first pair of `q` bytes out of `line`.
fn quoted_span_exec(line: &[u8], q: u8) -> (r: Option<Vec<u8>>)
    ensures
        match r {
            Some(p) => quoted_span(line@, q) == Some(p@),
            None => quoted_span(line@, q) is None,
        },
{
    let n = line.len();
    match find_byte(line, q) {
        None => None,
        Some(i) => {
            proof {
                lemma_byte_index(line@, q);
            }
            let rest = copy_range(line, i + 1, n);
            match find_byte(rest.as_slice(), q) {
                None => None,
                Some(j) => {
                    proof {
                        lemma_byte_index(rest@, q);
                    }
                    Some(copy_range(rest.as_slice(), 0, j))
                },
            }
        },
    }
}

/// The quoted path of an import line: the bytes between the first
/// pair of double quotes (or, failing that, single quotes).
pub fn extract_import_path(line: &[u8]) -> (r: Option<Vec<u8>>)
    ensures
        match r {
            Some(p) => import_path_of(line@) == Some(p@),
            None => import_path_of(line@) is None,
        },
{
    match quoted_span_exec(line, DQUOTE) {
        Some(p) => Some(p),
        None => quoted_span_exec(line, SQUOTE),
    }
}

} // verus!
