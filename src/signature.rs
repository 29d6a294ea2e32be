//! Detached Ed25519 signature checks on staged artifacts.
use vstd::prelude::*;

verus! {

/// Length in bytes of a raw Ed25519 public key.
pub const ED25519_KEY_LEN: usize = 32;

/// Whether `signature` is a valid detached Ed25519 signature of `message`
/// under the raw public key `key`.
pub uninterp spec fn ed25519_accepts(key: Seq<u8>, message: Seq<u8>, signature: Seq<u8>) -> bool;

/// Relies on ring's `UnparsedPublicKey::verify` with the `ED25519` algorithm:
/// it returns `Ok` exactly when the signature checks, and depends on the three
/// byte strings alone.
#[verifier::external_body]
fn ring_ed25519_verify(key: &[u8], message: &[u8], signature: &[u8]) -> (r: bool)
    ensures
        r == ed25519_accepts(key@, message@, signature@),
{
    ring::signature::UnparsedPublicKey::new(&ring::signature::ED25519, key).verify(message, signature).is_ok()
}

/// Checks that `signature` authenticates `message` under `key`; a key of any
/// length other than 32 bytes is refused without attempting verification.
pub fn verify_detached(key: &[u8], message: &[u8], signature: &[u8]) -> (r: bool)
    ensures
        r == (key@.len() == ED25519_KEY_LEN && ed25519_accepts(key@, message@, signature@)),
{
    if key.len() != ED25519_KEY_LEN {
        return false;
    }
    ring_ed25519_verify(key, message, signature)
}

} // verus!
