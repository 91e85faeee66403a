use vstd::prelude::*;

use crate::crypt::crypto_utils::dh::{diffie_hellman, spec_public_key, spec_x25519};
use crate::crypt::crypto_utils::hkdf::{derive_session_key, spec_derive_session_key, spec_hkdf_sha256};
use crate::structs::keys::ephemeral_key::EphemeralKey;
use crate::structs::keys::identity::IdentityKey;
use crate::structs::keys::one_time_prekey::{OneTimePreKey, OneTimePreKeyPublic};
use crate::structs::keys::session_key::SessionKey;
use crate::structs::keys::signed_prekey::SignedPreKey;

verus! {

/// The X3DH key agreement and the names of the files that hold a user's sessions.
pub struct Session;

/// The bytes of an optional one-time pre-key.
pub open spec fn spec_opk_bytes(opk: Option<&OneTimePreKeyPublic>) -> Option<Seq<u8>> {
    match opk {
        Some(o) => Some(o.key@),
        None => None,
    }
}

/// The initiator's input keying material:
/// DH(IK_A, SPK_B) || DH(EK_A, IK_B) || DH(EK_A, SPK_B) [|| DH(EK_A, OPK_B)].
pub open spec fn spec_initiator_ikm(
    ik_initiator: Seq<u8>,
    ek_initiator: Seq<u8>,
    spk_receiver: Seq<u8>,
    ik_receiver: Seq<u8>,
    opk_receiver: Option<Seq<u8>>,
) -> Seq<u8> {
    let first = spec_x25519(ik_initiator, spk_receiver) + spec_x25519(ek_initiator, ik_receiver)
        + spec_x25519(ek_initiator, spk_receiver);
    match opk_receiver {
        Some(opk) => first + spec_x25519(ek_initiator, opk),
        None => first,
    }
}

/// The responder's input keying material:
/// DH(SPK_B, IK_A) || DH(IK_B, EK_A) || DH(SPK_B, EK_A) || DH(OPK_B, EK_A).
pub open spec fn spec_responder_ikm(
    receiver_ik: Seq<u8>,
    receiver_spk: Seq<u8>,
    receiver_opk: Seq<u8>,
    sender_ik_public: Seq<u8>,
    sender_ek_public: Seq<u8>,
) -> Seq<u8> {
    spec_x25519(receiver_spk, sender_ik_public) + spec_x25519(receiver_ik, sender_ek_public)
        + spec_x25519(receiver_spk, sender_ek_public) + spec_x25519(receiver_opk, sender_ek_public)
}

/// Law: the initiator's input keying material always starts with DH1 || DH2 || DH3, is
/// exactly those three without a one-time pre-key, and with one only appends DH4.
pub proof fn law_initiator_ikm(
    ik_initiator: Seq<u8>,
    ek_initiator: Seq<u8>,
    spk_receiver: Seq<u8>,
    ik_receiver: Seq<u8>,
    opk_receiver: Seq<u8>,
)
    ensures
        spec_initiator_ikm(ik_initiator, ek_initiator, spk_receiver, ik_receiver, None)
            == spec_x25519(ik_initiator, spk_receiver) + spec_x25519(ek_initiator, ik_receiver)
            + spec_x25519(ek_initiator, spk_receiver),
        spec_initiator_ikm(
            ik_initiator,
            ek_initiator,
            spk_receiver,
            ik_receiver,
            Some(opk_receiver),
        ) == spec_initiator_ikm(ik_initiator, ek_initiator, spk_receiver, ik_receiver, None)
            + spec_x25519(ek_initiator, opk_receiver),
{
}

/// Law: when every DH output has 32 bytes, the initiator's input keying material is
/// 96 bytes without a one-time pre-key and 128 with one, and the one without is the
/// first 96 bytes of the one with.
pub proof fn law_initiator_ikm_layout(
    ik_initiator: Seq<u8>,
    ek_initiator: Seq<u8>,
    spk_receiver: Seq<u8>,
    ik_receiver: Seq<u8>,
    opk_receiver: Seq<u8>,
)
    requires
        spec_x25519(ik_initiator, spk_receiver).len() == 32,
        spec_x25519(ek_initiator, ik_receiver).len() == 32,
        spec_x25519(ek_initiator, spk_receiver).len() == 32,
        spec_x25519(ek_initiator, opk_receiver).len() == 32,
    ensures
        ({
            let without = spec_initiator_ikm(ik_initiator, ek_initiator, spk_receiver, ik_receiver, None);
            let with = spec_initiator_ikm(
                ik_initiator,
                ek_initiator,
                spk_receiver,
                ik_receiver,
                Some(opk_receiver),
            );
            &&& without.len() == 96
            &&& with.len() == 128
            &&& with.subrange(0, 96) == without
            &&& with.subrange(0, 32) == spec_x25519(ik_initiator, spk_receiver)
            &&& with.subrange(32, 64) == spec_x25519(ek_initiator, ik_receiver)
            &&& with.subrange(64, 96) == spec_x25519(ek_initiator, spk_receiver)
            &&& with.subrange(96, 128) == spec_x25519(ek_initiator, opk_receiver)
        }),
{
    let d1 = spec_x25519(ik_initiator, spk_receiver);
    let d2 = spec_x25519(ek_initiator, ik_receiver);
    let d3 = spec_x25519(ek_initiator, spk_receiver);
    let d4 = spec_x25519(ek_initiator, opk_receiver);
    let with = spec_initiator_ikm(ik_initiator, ek_initiator, spk_receiver, ik_receiver, Some(opk_receiver));
    assert(with.subrange(0, 96) =~= d1 + d2 + d3);
    assert(with.subrange(0, 32) =~= d1);
    assert(with.subrange(32, 64) =~= d2);
    assert(with.subrange(64, 96) =~= d3);
    assert(with.subrange(96, 128) =~= d4);
}

/// Law: the responder's input keying material is DH1 || DH2 || DH3 || DH4, where
/// DH3 is the signed pre-key with the sender's ephemeral key.
pub proof fn law_responder_ikm(
    receiver_ik: Seq<u8>,
    receiver_spk: Seq<u8>,
    receiver_opk: Seq<u8>,
    sender_ik_public: Seq<u8>,
    sender_ek_public: Seq<u8>,
)
    ensures
        spec_responder_ikm(receiver_ik, receiver_spk, receiver_opk, sender_ik_public, sender_ek_public)
            == spec_x25519(receiver_spk, sender_ik_public) + spec_x25519(receiver_ik, sender_ek_public)
            + spec_x25519(receiver_spk, sender_ek_public) + spec_x25519(receiver_opk, sender_ek_public),
{
}

/// Law: when every DH output has 32 bytes, the responder's input keying material has
/// 128 bytes, with DH1, DH2, DH3 and DH4 at offsets 0, 32, 64 and 96.
pub proof fn law_responder_ikm_layout(
    receiver_ik: Seq<u8>,
    receiver_spk: Seq<u8>,
    receiver_opk: Seq<u8>,
    sender_ik_public: Seq<u8>,
    sender_ek_public: Seq<u8>,
)
    requires
        spec_x25519(receiver_spk, sender_ik_public).len() == 32,
        spec_x25519(receiver_ik, sender_ek_public).len() == 32,
        spec_x25519(receiver_spk, sender_ek_public).len() == 32,
        spec_x25519(receiver_opk, sender_ek_public).len() == 32,
    ensures
        ({
            let ikm = spec_responder_ikm(
                receiver_ik,
                receiver_spk,
                receiver_opk,
                sender_ik_public,
                sender_ek_public,
            );
            &&& ikm.len() == 128
            &&& ikm.subrange(0, 32) == spec_x25519(receiver_spk, sender_ik_public)
            &&& ikm.subrange(32, 64) == spec_x25519(receiver_ik, sender_ek_public)
            &&& ikm.subrange(64, 96) == spec_x25519(receiver_spk, sender_ek_public)
            &&& ikm.subrange(96, 128) == spec_x25519(receiver_opk, sender_ek_public)
        }),
{
    let d1 = spec_x25519(receiver_spk, sender_ik_public);
    let d2 = spec_x25519(receiver_ik, sender_ek_public);
    let d3 = spec_x25519(receiver_spk, sender_ek_public);
    let d4 = spec_x25519(receiver_opk, sender_ek_public);
    let ikm = spec_responder_ikm(receiver_ik, receiver_spk, receiver_opk, sender_ik_public, sender_ek_public);
    assert(ikm.subrange(0, 32) =~= d1);
    assert(ikm.subrange(32, 64) =~= d2);
    assert(ikm.subrange(64, 96) =~= d3);
    assert(ikm.subrange(96, 128) =~= d4);
}

/// Law: the sessions file name is the whole username followed by `_sessions.json`,
/// so distinct usernames never share a sessions file.
pub proof fn law_sessions_file_name(username: Seq<char>, other: Seq<char>)
    ensures
        spec_sessions_file_name(username).len() == username.len() + "_sessions.json"@.len(),
        spec_sessions_file_name(username).subrange(0, username.len() as int) == username,
        spec_sessions_file_name(username) == spec_sessions_file_name(other) ==> username == other,
{
    let a = spec_sessions_file_name(username);
    assert(a.subrange(0, username.len() as int) =~= username);
    if a == spec_sessions_file_name(other) {
        let b = spec_sessions_file_name(other);
        assert(a.len() == username.len() + "_sessions.json"@.len());
        assert(b.len() == other.len() + "_sessions.json"@.len());
        assert(username.len() == other.len());
        assert(b.subrange(0, other.len() as int) =~= other);
    }
}

/// Appends the 32 bytes of `bytes` to `v`.
fn append_bytes(v: &mut Vec<u8>, bytes: &[u8; 32])
    ensures
        final(v)@ == old(v)@ + bytes@,
{
    let mut i: usize = 0;
    let ghost start = v@;
    while i < 32
        invariant
            i <= 32,
            v@ == start + bytes@.subrange(0, i as int),
        decreases 32 - i,
    {
        v.push(bytes[i]);
        i = i + 1;
        assert(v@ =~= start + bytes@.subrange(0, i as int));
    }
    assert(bytes@.subrange(0, 32) =~= bytes@);
}

/// The name of the file that holds a user's sessions: `{username}_sessions.json`.
pub open spec fn spec_sessions_file_name(username: Seq<char>) -> Seq<char> {
    username + "_sessions.json"@
}

impl Session {
    /// The name of the file that holds the sessions of `username`.
    pub fn sessions_file_name(username: &str) -> (name: String)
        ensures
            name@ == spec_sessions_file_name(username@),
            name@ == username@ + "_sessions.json"@,
    {
        let mut name = String::from_str(username);
        name.append("_sessions.json");
        name
    }

    /// Creates a new session key for the initiator (sender) in the X3DH protocol.
    ///
    /// DH1 = IK_initiator with SPK_receiver, DH2 = EK_initiator with IK_receiver,
    /// DH3 = EK_initiator with SPK_receiver, and DH4 = EK_initiator with OPK_receiver
    /// when a one-time pre-key is given; the key is derived from their concatenation.
    pub fn create_session_key(
        sender_name: String,
        receiver_name: String,
        ik_initiator: &IdentityKey,
        ek_initiator: &EphemeralKey,
        spk_receiver: [u8; 32],
        ik_receiver: [u8; 32],
        opk_receiver: Option<&OneTimePreKeyPublic>,
    ) -> (key: SessionKey)
        ensures
            key.spec_bytes() == spec_derive_session_key(
                spec_initiator_ikm(
                    ik_initiator.secret(),
                    ek_initiator.secret(),
                    spk_receiver@,
                    ik_receiver@,
                    spec_opk_bytes(opk_receiver),
                ),
            ),
            key.spec_sender() == sender_name@,
            key.spec_receiver() == receiver_name@,
            // DH1 || DH2 || DH3 always, then DH4 with the one-time pre-key when one is given.
            opk_receiver is None ==> key.spec_bytes() == spec_hkdf_sha256(
                Seq::new(32, |i: int| 0u8),
                spec_x25519(ik_initiator.private_key@, spk_receiver@) + spec_x25519(
                    ek_initiator.private_key@,
                    ik_receiver@,
                ) + spec_x25519(ek_initiator.private_key@, spk_receiver@),
                seq![0x58u8, 0x33u8, 0x44u8, 0x48u8],
            ),
            opk_receiver matches Some(opk) ==> key.spec_bytes() == spec_hkdf_sha256(
                Seq::new(32, |i: int| 0u8),
                spec_x25519(ik_initiator.private_key@, spk_receiver@) + spec_x25519(
                    ek_initiator.private_key@,
                    ik_receiver@,
                ) + spec_x25519(ek_initiator.private_key@, spk_receiver@) + spec_x25519(
                    ek_initiator.private_key@,
                    opk.key@,
                ),
                seq![0x58u8, 0x33u8, 0x44u8, 0x48u8],
            ),
            // The receiver who owns the secrets behind the published keys derives the same key.
            forall|b_ik: Seq<u8>, b_spk: Seq<u8>, b_opk: Seq<u8>|
                b_ik.len() == 32 && b_spk.len() == 32 && b_opk.len() == 32 && ik_receiver@
                    == spec_public_key(b_ik) && spk_receiver@ == spec_public_key(b_spk)
                    && spec_opk_bytes(opk_receiver) == Some(spec_public_key(b_opk))
                    ==> key.spec_bytes() == spec_derive_session_key(
                    #[trigger] spec_responder_ikm(
                        b_ik,
                        b_spk,
                        b_opk,
                        spec_public_key(ik_initiator.secret()),
                        spec_public_key(ek_initiator.secret()),
                    ),
                ),
    {
        let ik_private = ik_initiator.get_private();
        let ek_private = ek_initiator.get_private();
        let dh1 = diffie_hellman(&ik_private, &spk_receiver);
        let dh2 = diffie_hellman(&ek_private, &ik_receiver);
        let dh3 = diffie_hellman(&ek_private, &spk_receiver);

        let mut ikm: Vec<u8> = Vec::new();
        append_bytes(&mut ikm, &dh1);
        append_bytes(&mut ikm, &dh2);
        append_bytes(&mut ikm, &dh3);
        let ghost first = ikm@;
        assert(first =~= dh1@ + dh2@ + dh3@);

        let ghost mut dh4_view: Seq<u8> = Seq::empty();
        if let Some(opk) = opk_receiver {
            let dh4 = diffie_hellman(&ek_private, &opk.key);
            append_bytes(&mut ikm, &dh4);
            proof {
                dh4_view = dh4@;
            }
        }
        let sk_bytes = derive_session_key(ikm.as_slice());

        proof {
            assert forall|b_ik: Seq<u8>, b_spk: Seq<u8>, b_opk: Seq<u8>|
                b_ik.len() == 32 && b_spk.len() == 32 && b_opk.len() == 32 && ik_receiver@
                    == spec_public_key(b_ik) && spk_receiver@ == spec_public_key(b_spk)
                    && spec_opk_bytes(opk_receiver) == Some(spec_public_key(b_opk)) implies ikm@
                == #[trigger] spec_responder_ikm(
                b_ik,
                b_spk,
                b_opk,
                spec_public_key(ik_initiator.secret()),
                spec_public_key(ek_initiator.secret()),
            ) by {
                assert(dh1@ == spec_x25519(b_spk, spec_public_key(ik_private@)));
                assert(dh2@ == spec_x25519(b_ik, spec_public_key(ek_private@)));
                assert(dh3@ == spec_x25519(b_spk, spec_public_key(ek_private@)));
                assert(dh4_view == spec_x25519(b_opk, spec_public_key(ek_private@)));
            }
        }
        SessionKey::new(sk_bytes, sender_name, receiver_name)
    }

    /// Derives the session key for the receiver (responder) in the X3DH protocol.
    ///
    /// DH1 = SPK_receiver with IK_sender, DH2 = IK_receiver with EK_sender,
    /// DH3 = SPK_receiver with EK_sender, DH4 = OPK_receiver with EK_sender.
    pub fn receive_session_key(
        receiver_name: String,
        sender_name: String,
        receiver_ik: &IdentityKey,
        receiver_spk: &SignedPreKey,
        receiver_opk: OneTimePreKey,
        sender_ik_public: [u8; 32],
        sender_ek_public: [u8; 32],
    ) -> (key: SessionKey)
        ensures
            key.spec_bytes() == spec_derive_session_key(
                spec_responder_ikm(
                    receiver_ik.secret(),
                    receiver_spk.secret(),
                    receiver_opk.secret(),
                    sender_ik_public@,
                    sender_ek_public@,
                ),
            ),
            key.spec_sender() == sender_name@,
            key.spec_receiver() == receiver_name@,
            // DH1 || DH2 || DH3 || DH4, always all four.
            key.spec_bytes() == spec_hkdf_sha256(
                Seq::new(32, |i: int| 0u8),
                spec_x25519(receiver_spk.private_key@, sender_ik_public@) + spec_x25519(
                    receiver_ik.private_key@,
                    sender_ek_public@,
                ) + spec_x25519(receiver_spk.private_key@, sender_ek_public@) + spec_x25519(
                    receiver_opk.private_key@,
                    sender_ek_public@,
                ),
                seq![0x58u8, 0x33u8, 0x44u8, 0x48u8],
            ),
            // The sender who owns the secrets behind the given public keys, and who used
            // this receiver's public keys and one-time pre-key, derived the same key.
            forall|a_ik: Seq<u8>, a_ek: Seq<u8>|
                a_ik.len() == 32 && a_ek.len() == 32 && sender_ik_public@ == spec_public_key(a_ik)
                    && sender_ek_public@ == spec_public_key(a_ek) ==> key.spec_bytes()
                    == spec_derive_session_key(
                    #[trigger] spec_initiator_ikm(
                        a_ik,
                        a_ek,
                        spec_public_key(receiver_spk.secret()),
                        spec_public_key(receiver_ik.secret()),
                        Some(spec_public_key(receiver_opk.secret())),
                    ),
                ),
    {
        let spk_private = receiver_spk.get_private();
        let ik_private = receiver_ik.get_private();
        let opk_private = receiver_opk.get_private();
        let dh1 = diffie_hellman(&spk_private, &sender_ik_public);
        let dh2 = diffie_hellman(&ik_private, &sender_ek_public);
        let dh3 = diffie_hellman(&spk_private, &sender_ek_public);
        let dh4 = diffie_hellman(&opk_private, &sender_ek_public);

        let mut ikm: Vec<u8> = Vec::new();
        append_bytes(&mut ikm, &dh1);
        append_bytes(&mut ikm, &dh2);
        append_bytes(&mut ikm, &dh3);
        append_bytes(&mut ikm, &dh4);
        let sk_bytes = derive_session_key(ikm.as_slice());

        proof {
            assert(ikm@ =~= dh1@ + dh2@ + dh3@ + dh4@);
            assert forall|a_ik: Seq<u8>, a_ek: Seq<u8>|
                a_ik.len() == 32 && a_ek.len() == 32 && sender_ik_public@ == spec_public_key(a_ik)
                    && sender_ek_public@ == spec_public_key(a_ek) implies ikm@
                == #[trigger] spec_initiator_ikm(
                a_ik,
                a_ek,
                spec_public_key(receiver_spk.secret()),
                spec_public_key(receiver_ik.secret()),
                Some(spec_public_key(receiver_opk.secret())),
            ) by {
                assert(dh1@ == spec_x25519(a_ik, spec_public_key(spk_private@)));
                assert(dh2@ == spec_x25519(a_ek, spec_public_key(ik_private@)));
                assert(dh3@ == spec_x25519(a_ek, spec_public_key(spk_private@)));
                assert(dh4@ == spec_x25519(a_ek, spec_public_key(opk_private@)));
            }
        }
        SessionKey::new(sk_bytes, sender_name, receiver_name)
    }
}

} // verus!
