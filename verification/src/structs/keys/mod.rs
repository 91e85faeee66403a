use vstd::prelude::*;

pub mod ephemeral_key;
pub mod identity;
pub mod one_time_prekey;
pub mod session_key;
pub mod signed_prekey;

verus! {

/// The private key material a user keeps on the device.
pub struct PrivateKeys {
    pub ik: identity::IdentityKey,
    pub spk: signed_prekey::SignedPreKey,
    pub opk: one_time_prekey::OneTimePreKeyGroup,
}

} // verus!
