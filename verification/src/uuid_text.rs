//! UUIDs as 128-bit values, and their text form. Minting, formatting and
//! parsing are done by the `uuid` crate.

use vstd::prelude::*;

verus! {

/// `uuid::Error`, the error `uuid::Uuid::parse_str` reports; carried as is.
#[verifier::external_type_specification]
#[verifier::external_body]
pub struct ExUuidError(uuid::Error);

/// The lowercase hexadecimal digit for `n` (meant for `n < 16`).
pub open spec fn hex_digit(n: u128) -> char {
    if n < 10 {
        (48 + n) as char
    } else {
        (87 + n) as char
    }
}

/// The `k`-th four-bit group of `v`, counted from the most significant.
pub open spec fn nibble(v: u128, k: int) -> u128 {
    (v >> ((124 - 4 * k) as u128)) & 0xf
}

/// Which of the 32 hex digits sits at position `p` of the hyphenated form.
pub open spec fn digit_index(p: int) -> int {
    if p < 8 {
        p
    } else if p < 13 {
        p - 1
    } else if p < 18 {
        p - 2
    } else if p < 23 {
        p - 3
    } else {
        p - 4
    }
}

/// Whether position `p` of the hyphenated form holds a hyphen.
pub open spec fn is_hyphen_position(p: int) -> bool {
    p == 8 || p == 13 || p == 18 || p == 23
}

/// The hyphenated lowercase form of a UUID, such as
/// `67e55044-10b1-426f-9247-bb680e5fe0c8`: 32 hex digits, most significant
/// first, in groups of 8-4-4-4-12.
pub open spec fn hyphenated_text(v: u128) -> Seq<char> {
    Seq::new(
        36,
        |p: int|
            if is_hyphen_position(p) {
                '-'
            } else {
                hex_digit(nibble(v, digit_index(p)))
            },
    )
}

/// What `uuid::Uuid::parse_str` gives for a text, as the 128-bit value of
/// the UUID, or `None` where it reports an error.
pub uninterp spec fn uuid_parsed(s: Seq<char>) -> Option<u128>;

/// Whether `v` carries the version-7 and RFC 4122 variant bits.
pub open spec fn is_v7(v: u128) -> bool {
    &&& (v >> 76u128) & 0xf == 7
    &&& (v >> 62u128) & 0x3 == 2
}

/// Mints a UUID with `uuid::Uuid::now_v7` (time-ordered, random below the
/// millisecond timestamp) and gives its 128-bit value. Claimed: the value
/// carries the version-7 and variant bits; the rest depends on the clock
/// and on chance and is not stated.
#[verifier::external_body]
pub(crate) fn mint_v7() -> (v: u128)
    ensures
        is_v7(v),
{
    uuid::Uuid::now_v7().as_u128()
}

/// Formats `v` with `uuid::Uuid`'s `Display`, which writes the hyphenated
/// lowercase form. Claimed: the text is exactly [`hyphenated_text`].
#[verifier::external_body]
pub(crate) fn format_hyphenated(v: u128) -> (s: String)
    ensures
        s@ == hyphenated_text(v),
{
    uuid::Uuid::from_u128(v).to_string()
}

/// Parses a UUID with `uuid::Uuid::parse_str` and gives its 128-bit value.
/// Claimed: the outcome is the named [`uuid_parsed`] of the text, and the
/// hyphenated form that `format_hyphenated` writes parses back to its value.
/// Which other formats are accepted, and which error is reported, is not
/// stated.
#[verifier::external_body]
pub(crate) fn parse_uuid(s: &str) -> (r: Result<u128, uuid::Error>)
    ensures
        r is Ok <==> uuid_parsed(s@) is Some,
        r matches Ok(v) ==> uuid_parsed(s@) == Some(v),
        forall|v: u128| #[trigger] hyphenated_text(v) == s@ ==> r is Ok && r->Ok_0 == v,
{
    match uuid::Uuid::parse_str(s) {
        Ok(u) => Ok(u.as_u128()),
        Err(e) => Err(e),
    }
}

} // verus!
