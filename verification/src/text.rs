//! Text predicates the domain rules are stated over: what counts as blank,
//! and equality of two string slices.

use vstd::prelude::*;
use vstd::std_specs::iter::IteratorSpec;

verus! {

/// The Unicode `White_Space` property, which is what `char::is_whitespace`
/// and `str::trim` go by.
pub open spec fn is_white_space(c: char) -> bool {
    let v = c as u32;
    ||| 0x09 <= v <= 0x0d
    ||| v == 0x20
    ||| v == 0x85
    ||| v == 0xa0
    ||| v == 0x1680
    ||| 0x2000 <= v <= 0x200a
    ||| v == 0x2028
    ||| v == 0x2029
    ||| v == 0x202f
    ||| v == 0x205f
    ||| v == 0x3000
}

/// A text is blank when trimming it leaves nothing: every character is
/// white space (the empty text included).
pub open spec fn is_blank(s: Seq<char>) -> bool {
    forall|i: int| 0 <= i < s.len() ==> #[trigger] is_white_space(s[i])
}

/// Whether `c` is white space in the sense of [`is_white_space`].
pub fn char_is_white_space(c: char) -> (r: bool)
    ensures
        r == is_white_space(c),
{
    let v = c as u32;
    (0x09 <= v && v <= 0x0d) || v == 0x20 || v == 0x85 || v == 0xa0 || v == 0x1680 || (0x2000
        <= v && v <= 0x200a) || v == 0x2028 || v == 0x2029 || v == 0x202f || v == 0x205f || v
        == 0x3000
}

/// Whether `s.trim().is_empty()` holds: `s` has no character outside white
/// space.
pub fn str_is_blank(s: &str) -> (r: bool)
    ensures
        r == is_blank(s@),
{
    broadcast use vstd::string::group_string_axioms;
    for c in it: s.chars()
        invariant
            it.seq() == s@,
            forall|j: int| 0 <= j < it.index() ==> #[trigger] is_white_space(s@[j]),
    {
        if !char_is_white_space(c) {
            return false;
        }
    }
    true
}

/// Whether two string slices hold the same characters.
pub fn str_eq(a: &str, b: &str) -> (r: bool)
    ensures
        r == (a@ == b@),
{
    broadcast use vstd::string::group_string_axioms;
    let mut rest = b.chars();
    for c in it: a.chars()
        invariant
            it.seq() == a@,
            it.index() <= b@.len() ==> rest.remaining() == b@.skip(it.index() as int),
            it.index() <= b@.len(),
            forall|j: int| 0 <= j < it.index() ==> a@[j] == b@[j],
    {
        assert(b@.skip(it.index() as int).len() == b@.len() - it.index());
        match rest.next() {
            Some(d) => {
                if c != d {
                    assert(a@[it.index() as int] != b@[it.index() as int]);
                    return false;
                }
                assert(b@.skip(it.index() as int).drop_first() =~= b@.skip(it.index() + 1));
            },
            None => {
                assert(a@.len() != b@.len());
                return false;
            },
        }
    }
    match rest.next() {
        Some(_) => {
            assert(a@.len() != b@.len());
            false
        },
        None => {
            assert(a@ =~= b@);
            true
        },
    }
}

} // verus!
