use vstd::prelude::*;

use crate::structs::keys::identity::IdentityKey;
use crate::structs::keys::one_time_prekey::{OneTimePreKeyGroup, OneTimePreKeyPublic};
use crate::structs::keys::signed_prekey::SignedPreKey;

verus! {

/// The credentials a new user chooses.
pub struct RegisterRequest {
    pub username: String,
    pub password: String,
}

/// The registration sent to the server: the credentials and the public keys.
pub struct RegisterPayload {
    pub username: String,
    pub password: String,
    pub ik_pub: [u8; 32],
    pub spk_pub: [u8; 32],
    pub opks_pub: Vec<OneTimePreKeyPublic>,
}

impl RegisterPayload {
    /// The registration of `request` with the public halves of the new keys.
    pub fn new(
        request: &RegisterRequest,
        ik: &IdentityKey,
        spk: &SignedPreKey,
        opk: &OneTimePreKeyGroup,
    ) -> (payload: Self)
        ensures
            payload.username@ == request.username@,
            payload.password@ == request.password@,
            payload.ik_pub == ik.dh_public,
            payload.spk_pub == spk.public,
            payload.opks_pub@.len() == opk.keys@.len(),
            forall|i: int|
                0 <= i < opk.keys@.len() ==> (#[trigger] payload.opks_pub@[i]).key
                    == opk.keys@[i].public,
    {
        RegisterPayload {
            username: request.username.clone(),
            password: request.password.clone(),
            ik_pub: ik.dh_public,
            spk_pub: spk.public,
            opks_pub: opk.public_group().keys,
        }
    }
}

} // verus!
