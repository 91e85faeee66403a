use vstd::prelude::*;

use crate::crypt::crypto_utils::dh::{public_key, spec_public_key, spec_x25519};
use crate::crypt::crypto_utils::random::random_secret;

verus! {

/// A one-time X25519 pre-key pair; its public half is consumed by one X3DH run.
pub struct OneTimePreKey {
    pub private_key: [u8; 32],
    pub public: [u8; 32],
}

impl OneTimePreKey {
    /// The secret scalar of this key pair.
    pub open spec fn secret(&self) -> Seq<u8> {
        self.private_key@
    }

    /// The public half is the X25519 public key of the secret.
    pub open spec fn well_formed(&self) -> bool {
        self.public@ == spec_public_key(self.secret())
    }

    /// Builds the key pair of a given secret.
    pub fn from_secret(secret: [u8; 32]) -> (key: Self)
        ensures
            key.secret() == secret@,
            key.private_key == secret,
            key.public@ == spec_x25519(secret@, seq![9u8] + Seq::new(31, |i: int| 0u8)),
            key.well_formed(),
    {
        let public = public_key(&secret);
        OneTimePreKey { private_key: secret, public }
    }

    /// Generates a fresh key pair from random bytes.
    pub fn new() -> (key: Self)
        ensures
            key.well_formed(),
            key.public@ == spec_x25519(key.private_key@, seq![9u8] + Seq::new(31, |i: int| 0u8)),
    {
        Self::from_secret(random_secret())
    }

    /// The secret scalar.
    pub fn get_private(&self) -> (secret: [u8; 32])
        ensures
            secret@ == self.secret(),
            secret == self.private_key,
    {
        self.private_key
    }
}

} // verus!

verus! {

/// The public half of a one-time pre-key, as published on the server.
#[derive(Clone, Copy, Debug)]
pub struct OneTimePreKeyPublic {
    pub key: [u8; 32],
}

/// The one-time pre-key pairs a user holds.
pub struct OneTimePreKeyGroup {
    pub keys: Vec<OneTimePreKey>,
}

/// The public halves of a group of one-time pre-keys.
pub struct OneTimePreKeyGroupPublic {
    pub keys: Vec<OneTimePreKeyPublic>,
}

impl OneTimePreKeyGroup {
    /// Every key pair of the group is well formed.
    pub open spec fn well_formed(&self) -> bool {
        forall|i: int| 0 <= i < self.keys@.len() ==> (#[trigger] self.keys@[i]).well_formed()
    }

    /// Generates `count` fresh one-time pre-key pairs.
    pub fn new(count: usize) -> (group: Self)
        ensures
            group.keys@.len() == count,
            group.well_formed(),
            forall|i: int|
                0 <= i < count ==> (#[trigger] group.keys@[i]).public@ == spec_x25519(
                    group.keys@[i].private_key@,
                    seq![9u8] + Seq::new(31, |j: int| 0u8),
                ),
    {
        let mut keys: Vec<OneTimePreKey> = Vec::new();
        let mut i: usize = 0;
        while i < count
            invariant
                i <= count,
                keys@.len() == i,
                forall|j: int| 0 <= j < keys@.len() ==> (#[trigger] keys@[j]).well_formed(),
            decreases count - i,
        {
            keys.push(OneTimePreKey::new());
            i = i + 1;
        }
        OneTimePreKeyGroup { keys }
    }

    /// The public halves of the group, in the same order.
    pub fn public_group(&self) -> (public: OneTimePreKeyGroupPublic)
        ensures
            public.keys@.len() == self.keys@.len(),
            forall|i: int|
                0 <= i < self.keys@.len() ==> (#[trigger] public.keys@[i]).key == self.keys@[i].public,
    {
        let mut keys: Vec<OneTimePreKeyPublic> = Vec::new();
        let mut i: usize = 0;
        while i < self.keys.len()
            invariant
                i <= self.keys@.len(),
                keys@.len() == i,
                forall|j: int| 0 <= j < i ==> (#[trigger] keys@[j]).key == self.keys@[j].public,
            decreases self.keys@.len() - i,
        {
            keys.push(OneTimePreKeyPublic { key: self.keys[i].public });
            i = i + 1;
        }
        OneTimePreKeyGroupPublic { keys }
    }
}

} // verus!
