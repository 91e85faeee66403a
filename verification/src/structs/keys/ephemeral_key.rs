use vstd::prelude::*;

use crate::crypt::crypto_utils::dh::{public_key, spec_public_key, spec_x25519};
use crate::crypt::crypto_utils::random::random_secret;

verus! {

/// A single-use X25519 key pair that an initiator generates for one X3DH run.
pub struct EphemeralKey {
    pub private_key: [u8; 32],
    pub public: [u8; 32],
}

impl EphemeralKey {
    /// The secret scalar of this key pair.
    pub open spec fn secret(&self) -> Seq<u8> {
        self.private_key@
    }

    /// The public half is the X25519 public key of the secret.
    pub open spec fn well_formed(&self) -> bool {
        self.public@ == spec_public_key(self.secret())
    }

    /// Builds the key pair of a given secret.
    pub fn from_secret(secret: [u8; 32]) -> (key: Self)
        ensures
            key.secret() == secret@,
            key.private_key == secret,
            key.public@ == spec_x25519(secret@, seq![9u8] + Seq::new(31, |i: int| 0u8)),
            key.well_formed(),
    {
        let public = public_key(&secret);
        EphemeralKey { private_key: secret, public }
    }

    /// Generates a fresh key pair from random bytes.
    pub fn new() -> (key: Self)
        ensures
            key.well_formed(),
            key.public@ == spec_x25519(key.private_key@, seq![9u8] + Seq::new(31, |i: int| 0u8)),
    {
        Self::from_secret(random_secret())
    }

    /// The secret scalar.
    pub fn get_private(&self) -> (secret: [u8; 32])
        ensures
            secret@ == self.secret(),
            secret == self.private_key,
    {
        self.private_key
    }
}

} // verus!
