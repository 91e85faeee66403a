use vstd::prelude::*;

use crate::crypt::crypto_utils::dh::spec_x25519;
use crate::crypt::crypto_utils::hkdf::{spec_derive_session_key, spec_hkdf_sha256};
use crate::crypt::x3dh::session::{Session, spec_initiator_ikm};
use crate::structs::keys::ephemeral_key::EphemeralKey;
use crate::structs::keys::identity::IdentityKey;
use crate::structs::keys::one_time_prekey::OneTimePreKeyPublic;
use crate::structs::keys::session_key::SessionKey;
use crate::structs::message::Message;
use crate::structs::user::UserPublicFriend;

verus! {

/// A request of the user interface to send `plaintext` to the user `uuid_to`.
pub struct SendMessageRequest {
    pub jwt_access: String,
    pub uuid_to: String,
    pub plaintext: String,
}

/// The body posted to the server for one message.
pub struct SendMessagePayload {
    pub uuid: String,
    pub sender: String,
    pub receiver: String,
    pub nonce: [u8; 12],
    pub ciphertext: Vec<u8>,
    pub ratchet_pub: [u8; 32],
    pub message_index: u32,
    pub opk_used: Option<OneTimePreKeyPublic>,
    pub ek_used: Option<[u8; 32]>,
    pub created_at: i64,
}

/// The one-time pre-key bytes a payload names.
pub open spec fn spec_payload_opk(opk: Option<OneTimePreKeyPublic>) -> Option<[u8; 32]> {
    match opk {
        Some(o) => Some(o.key),
        None => None,
    }
}

impl SendMessagePayload {
    /// The payload that carries `message`, field for field.
    pub fn from_message(message: Message) -> (payload: Self)
        ensures
            payload.uuid@ == message.uuid@,
            payload.sender@ == message.sender@,
            payload.receiver@ == message.receiver@,
            payload.nonce == message.nonce,
            payload.ciphertext@ == message.ciphertext@,
            payload.ratchet_pub == message.ratchet_pub,
            payload.message_index == message.message_index,
            spec_payload_opk(payload.opk_used) == message.opk_used,
            message.opk_used is None <==> payload.opk_used is None,
            payload.opk_used matches Some(o) ==> message.opk_used == Some(o.key),
            payload.ek_used == message.ek_used,
            payload.created_at == message.created_at,
    {
        let opk_used = match message.opk_used {
            Some(key) => Some(OneTimePreKeyPublic { key }),
            None => None,
        };
        SendMessagePayload {
            uuid: message.uuid,
            sender: message.sender,
            receiver: message.receiver,
            nonce: message.nonce,
            ciphertext: message.ciphertext,
            ratchet_pub: message.ratchet_pub,
            message_index: message.message_index,
            opk_used,
            ek_used: message.ek_used,
            created_at: message.created_at,
        }
    }
}

/// A session opened with a friend, and the keys the friend needs to open it too.
pub struct SessionStart {
    pub session_key: SessionKey,
    pub opk_used: Option<OneTimePreKeyPublic>,
    pub ek_used: [u8; 32],
}

/// The one-time pre-key chosen from a friend's published list: the first one, if any.
pub open spec fn spec_chosen_opk(opks: Seq<OneTimePreKeyPublic>) -> Option<OneTimePreKeyPublic> {
    if opks.len() > 0 {
        Some(opks[0])
    } else {
        None
    }
}

/// The bytes of a chosen one-time pre-key.
pub open spec fn spec_chosen_opk_bytes(opks: Seq<OneTimePreKeyPublic>) -> Option<Seq<u8>> {
    match spec_chosen_opk(opks) {
        Some(o) => Some(o.key@),
        None => None,
    }
}

/// Law: the chosen one-time pre-key is the first one of a non-empty list, and there is
/// none only for an empty list.
pub proof fn law_chosen_opk(opks: Seq<OneTimePreKeyPublic>)
    ensures
        opks.len() > 0 ==> spec_chosen_opk(opks) == Some(opks[0]),
        opks.len() > 0 ==> spec_chosen_opk_bytes(opks) == Some(opks[0].key@),
        opks.len() == 0 ==> spec_chosen_opk(opks) is None,
        opks.len() == 0 ==> spec_chosen_opk_bytes(opks) is None,
{
}

/// Opens a session with `to` when none exists yet: X3DH with the friend's signed
/// pre-key, identity key and first published one-time pre-key (if any), from
/// `sender_uuid` to the friend's uuid.
pub fn initiate_session(
    sender_uuid: String,
    to: &UserPublicFriend,
    ik: &IdentityKey,
    ek: &EphemeralKey,
) -> (start: SessionStart)
    ensures
        start.opk_used == spec_chosen_opk(to.keys.opks_pub@),
        start.ek_used == ek.public,
        start.session_key.spec_bytes() == spec_derive_session_key(
            spec_initiator_ikm(
                ik.secret(),
                ek.secret(),
                to.keys.spk_pub@,
                to.keys.ik_pub@,
                spec_chosen_opk_bytes(to.keys.opks_pub@),
            ),
        ),
        start.session_key.spec_sender() == sender_uuid@,
        start.session_key.spec_receiver() == to.uuid@,
        // The friend's first published one-time pre-key is used whenever there is one.
        to.keys.opks_pub@.len() > 0 ==> start.opk_used == Some(to.keys.opks_pub@[0]),
        to.keys.opks_pub@.len() == 0 ==> start.opk_used is None,
        to.keys.opks_pub@.len() > 0 ==> start.session_key.spec_bytes() == spec_hkdf_sha256(
            Seq::new(32, |i: int| 0u8),
            spec_x25519(ik.private_key@, to.keys.spk_pub@) + spec_x25519(
                ek.private_key@,
                to.keys.ik_pub@,
            ) + spec_x25519(ek.private_key@, to.keys.spk_pub@) + spec_x25519(
                ek.private_key@,
                to.keys.opks_pub@[0].key@,
            ),
            seq![0x58u8, 0x33u8, 0x44u8, 0x48u8],
        ),
        to.keys.opks_pub@.len() == 0 ==> start.session_key.spec_bytes() == spec_hkdf_sha256(
            Seq::new(32, |i: int| 0u8),
            spec_x25519(ik.private_key@, to.keys.spk_pub@) + spec_x25519(
                ek.private_key@,
                to.keys.ik_pub@,
            ) + spec_x25519(ek.private_key@, to.keys.spk_pub@),
            seq![0x58u8, 0x33u8, 0x44u8, 0x48u8],
        ),
{
    let opk: Option<&OneTimePreKeyPublic> = if to.keys.opks_pub.len() > 0 {
        Some(&to.keys.opks_pub[0])
    } else {
        None
    };
    let session_key = Session::create_session_key(
        sender_uuid,
        to.uuid.clone(),
        ik,
        ek,
        to.keys.spk_pub,
        to.keys.ik_pub,
        opk,
    );
    let opk_used = match opk {
        Some(o) => Some(*o),
        None => None,
    };
    SessionStart { session_key, opk_used, ek_used: ek.public }
}

} // verus!
