use vstd::prelude::*;

use crate::crypt::crypto_utils::dh::{public_key, spec_public_key, spec_x25519};
use crate::crypt::crypto_utils::random::random_secret;

verus! {

/// A long-term identity: an X25519 key pair for the key agreement and an
/// Ed25519 secret key that signs the user's pre-keys.
pub struct IdentityKey {
    pub private_key: [u8; 32],
    pub dh_public: [u8; 32],
    pub signing_secret: [u8; 32],
}

impl IdentityKey {
    /// The secret X25519 scalar of this identity.
    pub open spec fn secret(&self) -> Seq<u8> {
        self.private_key@
    }

    /// The public X25519 half is the public key of the secret.
    pub open spec fn well_formed(&self) -> bool {
        self.dh_public@ == spec_public_key(self.secret())
    }

    /// Builds the identity of an X25519 secret and an Ed25519 secret key.
    pub fn from_secret(secret: [u8; 32], signing_secret: [u8; 32]) -> (key: Self)
        ensures
            key.secret() == secret@,
            key.private_key == secret,
            key.dh_public@ == spec_x25519(secret@, seq![9u8] + Seq::new(31, |i: int| 0u8)),
            key.signing_secret == signing_secret,
            key.well_formed(),
    {
        let dh_public = public_key(&secret);
        IdentityKey { private_key: secret, dh_public, signing_secret }
    }

    /// Generates a fresh identity from random bytes.
    pub fn new() -> (key: Self)
        ensures
            key.well_formed(),
            key.dh_public@ == spec_x25519(key.private_key@, seq![9u8] + Seq::new(31, |i: int| 0u8)),
    {
        let secret = random_secret();
        let signing_secret = random_secret();
        Self::from_secret(secret, signing_secret)
    }

    /// The secret X25519 scalar.
    pub fn get_private(&self) -> (secret: [u8; 32])
        ensures
            secret@ == self.secret(),
            secret == self.private_key,
    {
        self.private_key
    }

    /// The Ed25519 secret key that signs pre-keys.
    pub fn signing_key(&self) -> (key: [u8; 32])
        ensures
            key == self.signing_secret,
    {
        self.signing_secret
    }
}

} // verus!
