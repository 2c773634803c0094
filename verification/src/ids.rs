//! Identifiers: 128-bit ids as plain numbers and their canonical text.

use vstd::prelude::*;
use vstd::string::*;

verus! {

/// The lower-case hexadecimal digit for `n`, for `n` below sixteen.
pub open spec fn hex_digit(n: int) -> char
    recommends
        0 <= n < 16,
{
    if n < 10 {
        (48 + n) as char
    } else {
        (87 + n) as char
    }
}

/// The `k`-th hexadecimal digit of `v`, counted from the most significant
/// (`k` from 0 to 31).
pub open spec fn id_nibble(v: u128, k: int) -> int {
    ((v as int) / pow16(31 - k)) % 16
}

/// Sixteen to the power `e`.
pub open spec fn pow16(e: int) -> int
    decreases e,
{
    if e <= 0 {
        1
    } else {
        16 * pow16(e - 1)
    }
}

/// How many hyphens stand before position `i` of the hyphenated form.
pub open spec fn hyphens_before(i: int) -> int {
    if i < 8 {
        0
    } else if i < 13 {
        1
    } else if i < 18 {
        2
    } else if i < 23 {
        3
    } else {
        4
    }
}

/// The canonical text of a 128-bit id: 32 lower-case hexadecimal digits, most
/// significant first, in groups of 8, 4, 4, 4 and 12 with hyphens between.
pub open spec fn id_text(v: u128) -> Seq<char> {
    Seq::new(
        36,
        |i: int|
            if i == 8 || i == 13 || i == 18 || i == 23 {
                '-'
            } else {
                hex_digit(id_nibble(v, i - hyphens_before(i)))
            },
    )
}

/// Whether `v` carries the version and variant marks of a random (version 4)
/// id.
pub open spec fn is_random_id(v: u128) -> bool {
    id_nibble(v, 12) == 4 && 8 <= id_nibble(v, 16) < 12
}

/// Trusted: `uuid::Uuid::from_u128` followed by the `Display` of the id, which
/// is the lower-case hyphenated form of the sixteen big-endian bytes of `v`.
#[verifier::external_body]
fn uuid_hyphenated(v: u128) -> (r: String)
    ensures
        r@ == id_text(v),
{
    uuid::Uuid::from_u128(v).to_string()
}

/// Trusted: `uuid::Uuid::new_v4` draws 128 random bits and stamps version 4
/// and the RFC variant onto them; the value handed back is `as_u128` of it.
#[verifier::external_body]
fn uuid_random() -> (r: u128)
    ensures
        is_random_id(r),
{
    uuid::Uuid::new_v4().as_u128()
}

/// The canonical hyphenated text of `id`.
pub fn id_to_string(id: u128) -> (r: String)
    ensures
        r@ == id_text(id),
        r@.len() == 36,
{
    uuid_hyphenated(id)
}

/// A fresh random id.
pub fn new_random_id() -> (r: u128)
    ensures
        is_random_id(r),
{
    uuid_random()
}

} // verus!
