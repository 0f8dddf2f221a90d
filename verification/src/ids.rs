//! Fresh identifiers and key pairs, which come from outside crates.

use vstd::prelude::*;

use crate::activities::strings_view;

verus! {

/// A lower-case hexadecimal digit.
pub open spec fn is_lower_hex(c: char) -> bool {
    ('0' <= c && c <= '9') || ('a' <= c && c <= 'f')
}

/// The hyphenated text of a UUID: 36 characters, hyphens at positions 8, 13,
/// 18 and 23, lower-case hexadecimal digits elsewhere.
pub open spec fn is_uuid_text(s: Seq<char>) -> bool {
    &&& s.len() == 36
    &&& forall|i: int| 0 <= i < 36 ==>
        if i == 8 || i == 13 || i == 18 || i == 23 { s[i] == '-' } else { is_lower_hex(#[trigger] s[i]) }
}

/// Calls `uuid::Uuid::now_v7` and formats the result with its `Display`
/// impl, which writes the hyphenated lower-case form. The value depends on the
/// time and on chance; only its shape is stated.
#[verifier::external_body]
pub(crate) fn new_uuid_v7() -> (res: String)
    ensures
        is_uuid_text(res@),
{
    uuid::Uuid::now_v7().to_string()
}

/// Calls `activitypub_federation::http_signatures::generate_actor_keypair`
/// and hands back `(private key PEM, public key PEM)`, or `None` where key
/// generation fails. The keys are random: nothing is stated of them.
#[verifier::external_body]
pub(crate) fn generate_actor_keypair() -> (res: Option<(String, String)>)
{
    match activitypub_federation::http_signatures::generate_actor_keypair() {
        Ok(kp) => Some((kp.private_key, kp.public_key)),
        Err(_) => None,
    }
}

/// Calls `rand::seq::SliceRandom::shuffle` with `rand::rng()`. The order is
/// random; the shuffle only swaps elements, so the list keeps its elements.
#[verifier::external_body]
pub(crate) fn shuffle_strings(v: &mut Vec<String>)
    ensures
        strings_view(final(v)@).to_multiset() == strings_view(old(v)@).to_multiset(),
        final(v)@.len() == old(v)@.len(),
{
    rand::seq::SliceRandom::shuffle(v.as_mut_slice(), &mut rand::rng());
}

} // verus!
