//! Random identifiers.

use vstd::prelude::*;

verus! {

/// The text that `Uuid`'s `Display` yields for the identifier with the bits
/// `id`: lower-case hexadecimal digits in groups, joined by hyphens.
pub uninterp spec fn hyphenated_text(id: u128) -> Seq<char>;

/// Draws a random version-4 identifier with `uuid::Uuid::new_v4` and hands
/// out its bits (`Uuid::as_u128`). Nothing is claimed of the result: it is
/// random.
#[verifier::external_body]
pub(crate) fn fresh() -> u128 {
    uuid::Uuid::new_v4().as_u128()
}

/// Formats the identifier with the bits `id` through `uuid::Uuid::from_u128`
/// and `Uuid`'s `Display`. The contract only names the result: it depends on
/// the bits alone.
#[verifier::external_body]
pub(crate) fn hyphenated(id: u128) -> (r: String)
    ensures
        r@ == hyphenated_text(id),
{
    uuid::Uuid::from_u128(id).to_string()
}

} // verus!
