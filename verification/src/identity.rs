//! Task identities: 128-bit values and their canonical text.

use vstd::prelude::*;
use vstd::arithmetic::power::pow;

verus! {

/// The lower-case hexadecimal digit for `n`, where `0 <= n < 16`.
pub open spec fn hex_digit(n: int) -> char {
    seq!['0', '1', '2', '3', '4', '5', '6', '7', '8', '9', 'a', 'b', 'c', 'd', 'e', 'f'][n]
}

/// Whether position `i` of the canonical text holds a hyphen.
pub open spec fn is_separator(i: int) -> bool {
    i == 8 || i == 13 || i == 18 || i == 23
}

/// How many hexadecimal digits stand before position `i` of the canonical
/// text.
pub open spec fn digits_before(i: int) -> int {
    if i < 8 {
        i
    } else if i < 13 {
        i - 1
    } else if i < 18 {
        i - 2
    } else if i < 23 {
        i - 3
    } else {
        i - 4
    }
}

/// The canonical text of an identity: its 32 hexadecimal digits, most
/// significant first, in lower case, in groups of 8, 4, 4, 4 and 12 with a
/// hyphen between groups.
pub open spec fn canonical_text(id: u128) -> Seq<char> {
    Seq::new(
        36,
        |i: int|
            if is_separator(i) {
                '-'
            } else {
                hex_digit((id as int / pow(16, (31 - digits_before(i)) as nat)) % 16)
            },
    )
}

/// A fresh random identity, from `uuid::Uuid::new_v4`, as its 128-bit value.
/// Nothing is claimed of the value: it is random.
#[verifier::external_body]
pub(crate) fn fresh_id() -> u128 {
    uuid::Uuid::new_v4().as_u128()
}

/// The text that `uuid::Uuid` displays for the identity with the value `id`
/// (`Uuid::from_u128`, then `to_string`): the hyphenated lower-case form,
/// which is `canonical_text`.
#[verifier::external_body]
pub(crate) fn id_text(id: u128) -> (s: String)
    ensures
        s@ == canonical_text(id),
{
    uuid::Uuid::from_u128(id).to_string()
}

} // verus!
