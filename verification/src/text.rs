//! Comparison of header names and assembly of message texts.

use vstd::prelude::*;
use vstd::std_specs::iter::IteratorSpec;
use vstd::string::StringExecFns;

verus! {

broadcast use {vstd::string::axiom_spec_iter, vstd::string::next_postcondition};

/// An ASCII capital letter.
pub open spec fn is_ascii_upper(c: char) -> bool {
    'A' <= c && c <= 'Z'
}

/// Two characters are the same letter once ASCII case is set aside.
pub open spec fn chars_match(c: char, d: char) -> bool {
    ||| c == d
    ||| (is_ascii_upper(c) && c as u32 + 32 == d as u32)
    ||| (is_ascii_upper(d) && d as u32 + 32 == c as u32)
}

/// Two header names denote the same header: equal length and, position by
/// position, the same character up to ASCII case.
pub open spec fn names_match(a: Seq<char>, b: Seq<char>) -> bool {
    &&& a.len() == b.len()
    &&& forall|i: int| 0 <= i < a.len() ==> chars_match(#[trigger] a[i], b[i])
}

/// Matching of names is reflexive.
pub proof fn lemma_names_match_reflexive(a: Seq<char>)
    ensures
        names_match(a, a),
{
}

/// Matching of names is symmetric.
pub proof fn lemma_names_match_symmetric(a: Seq<char>, b: Seq<char>)
    requires
        names_match(a, b),
    ensures
        names_match(b, a),
{
    assert forall|i: int| 0 <= i < b.len() implies chars_match(#[trigger] b[i], a[i]) by {
        assert(chars_match(a[i], b[i]));
    }
}

/// Matching of names is transitive.
pub proof fn lemma_names_match_transitive(a: Seq<char>, b: Seq<char>, c: Seq<char>)
    requires
        names_match(a, b),
        names_match(b, c),
    ensures
        names_match(a, c),
{
    assert forall|i: int| 0 <= i < a.len() implies chars_match(#[trigger] a[i], c[i]) by {
        assert(chars_match(a[i], b[i]));
        assert(chars_match(b[i], c[i]));
        vstd::utf8::char_u32_cast(a[i], a[i] as u32);
        vstd::utf8::char_u32_cast(c[i], c[i] as u32);
    }
}

/// Decides `chars_match`.
pub fn same_char(c: char, d: char) -> (r: bool)
    ensures
        r == chars_match(c, d),
{
    if c == d {
        true
    } else if 'A' <= c && c <= 'Z' {
        c as u32 + 32 == d as u32
    } else if 'A' <= d && d <= 'Z' {
        d as u32 + 32 == c as u32
    } else {
        false
    }
}

/// Decides `names_match` in one pass over both names.
pub fn same_name(a: &str, b: &str) -> (r: bool)
    ensures
        r == names_match(a@, b@),
{
    let mut left = a.chars();
    let mut right = b.chars();
    let ghost mut seen: int = 0;
    loop
        invariant
            0 <= seen <= a@.len(),
            seen <= b@.len(),
            left.remaining() == a@.skip(seen),
            right.remaining() == b@.skip(seen),
            forall|i: int| 0 <= i < seen ==> chars_match(#[trigger] a@[i], b@[i]),
        decreases a@.len() - seen,
    {
        let x = left.next();
        let y = right.next();
        match (x, y) {
            (None, None) => {
                return true;
            },
            (Some(c), Some(d)) => {
                if !same_char(c, d) {
                    return false;
                }
                proof {
                    assert(a@.skip(seen)[0] == a@[seen]);
                    assert(b@.skip(seen)[0] == b@[seen]);
                    assert(a@.skip(seen).drop_first() == a@.skip(seen + 1));
                    assert(b@.skip(seen).drop_first() == b@.skip(seen + 1));
                    seen = seen + 1;
                }
            },
            _ => {
                return false;
            },
        }
    }
}

/// Decides whether two texts are equal, in one pass over both.
pub fn same_text(a: &str, b: &str) -> (r: bool)
    ensures
        r == (a@ == b@),
{
    let mut left = a.chars();
    let mut right = b.chars();
    let ghost mut seen: int = 0;
    loop
        invariant
            0 <= seen <= a@.len(),
            seen <= b@.len(),
            left.remaining() == a@.skip(seen),
            right.remaining() == b@.skip(seen),
            forall|i: int| 0 <= i < seen ==> a@[i] == b@[i],
        decreases a@.len() - seen,
    {
        let x = left.next();
        let y = right.next();
        match (x, y) {
            (None, None) => {
                assert(a@ =~= b@);
                return true;
            },
            (Some(c), Some(d)) => {
                proof {
                    assert(a@.skip(seen)[0] == a@[seen]);
                    assert(b@.skip(seen)[0] == b@[seen]);
                    assert(a@.skip(seen).drop_first() == a@.skip(seen + 1));
                    assert(b@.skip(seen).drop_first() == b@.skip(seen + 1));
                }
                if c != d {
                    return false;
                }
                proof {
                    seen = seen + 1;
                }
            },
            _ => {
                return false;
            },
        }
    }
}

/// The text made of `prefix` followed by `detail`.
pub fn joined(prefix: &str, detail: &str) -> (s: String)
    ensures
        s@ == prefix@ + detail@,
{
    String::from_str(prefix).concat(detail)
}

} // verus!
