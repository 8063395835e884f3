//! Fresh per-user salts.

use base64::Engine;
use rand::{RngCore, SeedableRng};
use vstd::prelude::*;

verus! {

/// How many random bytes go into a salt.
pub const SALT_BYTES: usize = 40;

/// The standard, padded base64 text of `bytes`.
pub uninterp spec fn base64_text(bytes: Seq<u8>) -> Seq<char>;

/// `rand::rngs::StdRng::from_entropy` and `fill_bytes` on a buffer of `count`
/// bytes: the buffer comes back with that many bytes, whatever they are. The
/// call panics where the operating system has no entropy to give.
#[verifier::external_body]
fn random_bytes(count: usize) -> (bytes: Vec<u8>)
    ensures
        bytes@.len() == count,
{
    let mut rng = rand::rngs::StdRng::from_entropy();
    let mut bytes = vec![0u8; count];
    rng.fill_bytes(&mut bytes);
    bytes
}

/// `encode` of `base64::engine::general_purpose::STANDARD`: the text depends
/// on the bytes alone. The text has four characters for every three bytes
/// begun; the call panics where a buffer of that length cannot be had, which
/// the bound leaves out.
#[verifier::external_body]
fn base64_encode(bytes: &[u8]) -> (text: String)
    requires
        (bytes@.len() / 3 + 1) * 4 <= isize::MAX,
    ensures
        text@ == base64_text(bytes@),
{
    base64::engine::general_purpose::STANDARD.encode(bytes)
}

/// Whether `text` is the base64 text of `SALT_BYTES` bytes.
pub open spec fn is_salt(text: Seq<char>) -> bool {
    exists|bytes: Seq<u8>| bytes.len() == SALT_BYTES && text == #[trigger] base64_text(bytes)
}

/// A fresh salt: `SALT_BYTES` random bytes as base64 text.
pub fn salt() -> (text: String)
    ensures
        is_salt(text@),
{
    let bytes = random_bytes(SALT_BYTES);
    base64_encode(bytes.as_slice())
}

} // verus!
