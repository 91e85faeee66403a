use vstd::prelude::*;

use ed25519_dalek::Signer;

verus! {

/// What `ed25519_dalek::SigningKey::from_bytes(seed).sign(msg)` returns as 64 bytes:
/// the deterministic Ed25519 signature (RFC 8032) of `msg` under the secret key `seed`.
pub uninterp spec fn spec_ed25519_sign(seed: Seq<u8>, msg: Seq<u8>) -> Seq<u8>;

/// Calls `ed25519_dalek::SigningKey::from_bytes` and `Signer::sign`.
///
/// Trusted: the result is the named value `spec_ed25519_sign(seed, msg)`.
/// Signing with this crate cannot fail.
#[verifier::external_body]
fn ed25519_sign(seed: &[u8; 32], msg: &[u8]) -> (signature: [u8; 64])
    ensures
        signature@ == spec_ed25519_sign(seed@, msg@),
{
    ed25519_dalek::SigningKey::from_bytes(seed).sign(msg).to_bytes()
}

/// Signs the public half of a pre-key with an identity's Ed25519 secret key.
pub fn sign_prekey(signing_key: &[u8; 32], prekey_public: &[u8; 32]) -> (signature: [u8; 64])
    ensures
        signature@ == spec_ed25519_sign(signing_key@, prekey_public@),
{
    ed25519_sign(signing_key, prekey_public.as_slice())
}

} // verus!
