use vstd::prelude::*;

use crate::crypt::crypto_utils::dh::{public_key, spec_public_key, spec_x25519};
use crate::crypt::crypto_utils::random::random_secret;
use crate::crypt::crypto_utils::sign::{sign_prekey, spec_ed25519_sign};

verus! {

/// A medium-term X25519 pre-key pair that a user publishes, with the identity's
/// Ed25519 signature over its public half.
pub struct SignedPreKey {
    pub private_key: [u8; 32],
    pub public: [u8; 32],
    pub signature: [u8; 64],
}

impl SignedPreKey {
    /// The secret scalar of this key pair.
    pub open spec fn secret(&self) -> Seq<u8> {
        self.private_key@
    }

    /// The public half is the X25519 public key of the secret.
    pub open spec fn well_formed(&self) -> bool {
        self.public@ == spec_public_key(self.secret())
    }

    /// The signature is the Ed25519 signature of the public half under `signing_key`.
    pub open spec fn signed_by(&self, signing_key: Seq<u8>) -> bool {
        self.signature@ == spec_ed25519_sign(signing_key, self.public@)
    }

    /// Builds the pre-key of a given secret, signed with `signing_key`.
    pub fn from_secret(secret: [u8; 32], signing_key: &[u8; 32]) -> (key: Self)
        ensures
            key.secret() == secret@,
            key.private_key == secret,
            key.public@ == spec_x25519(secret@, seq![9u8] + Seq::new(31, |i: int| 0u8)),
            key.well_formed(),
            key.signed_by(signing_key@),
            key.signature@ == spec_ed25519_sign(signing_key@, key.public@),
    {
        let public = public_key(&secret);
        let signature = sign_prekey(signing_key, &public);
        SignedPreKey { private_key: secret, public, signature }
    }

    /// Generates a fresh pre-key from random bytes, signed with `signing_key`.
    pub fn new(signing_key: &[u8; 32]) -> (key: Self)
        ensures
            key.well_formed(),
            key.public@ == spec_x25519(key.private_key@, seq![9u8] + Seq::new(31, |i: int| 0u8)),
            key.signature@ == spec_ed25519_sign(signing_key@, key.public@),
            key.signed_by(signing_key@),
    {
        Self::from_secret(random_secret(), signing_key)
    }

    /// The secret scalar.
    pub fn get_private(&self) -> (secret: [u8; 32])
        ensures
            secret@ == self.secret(),
            secret == self.private_key,
    {
        self.private_key
    }
}

} // verus!
