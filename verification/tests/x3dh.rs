use lucchat::commands::message::send_message::initiate_session;
use lucchat::crypt::crypto_utils::dh::{diffie_hellman, public_key};
use lucchat::crypt::crypto_utils::hkdf::derive_session_key;
use lucchat::crypt::x3dh::session::Session;
use lucchat::structs::keys::ephemeral_key::EphemeralKey;
use lucchat::structs::keys::identity::IdentityKey;
use lucchat::structs::keys::one_time_prekey::{OneTimePreKey, OneTimePreKeyGroup, OneTimePreKeyPublic};
use lucchat::structs::keys::signed_prekey::SignedPreKey;
use lucchat::structs::user::{Key, UserPublicFriend};

fn hex32(s: &str) -> [u8; 32] {
    let mut out = [0u8; 32];
    for i in 0..32 {
        out[i] = u8::from_str_radix(&s[2 * i..2 * i + 2], 16).unwrap();
    }
    out
}

const SESSION_WITH_OPK: [u8; 32] = [
    62, 48, 247, 70, 107, 229, 162, 35, 203, 7, 193, 237, 135, 236, 7, 87, 6, 149, 30, 69, 102,
    200, 131, 151, 231, 166, 175, 89, 100, 158, 58, 104,
];
const SESSION_WITHOUT_OPK: [u8; 32] = [
    90, 173, 78, 211, 246, 234, 215, 126, 160, 121, 69, 139, 195, 3, 143, 96, 69, 1, 156, 66, 127,
    68, 3, 1, 131, 103, 252, 90, 177, 176, 254, 143,
];

#[test]
fn public_key_matches_rfc7748() {
    let alice = hex32("77076d0a7318a57d3c16c17251b26645df4c2f87ebc0992ab177fba51db92c2a");
    let bob = hex32("5dab087e624a8a4b79e17f8b83800ee66f3bb1292618b6fd1c2f8b27ff88e0eb");
    assert_eq!(public_key(&alice), hex32("8520f0098930a754748b7ddcb43ef75a0dbf3a0d26381af4eba4a98eaa9b4e6a"));
    assert_eq!(public_key(&bob), hex32("de9edb7d7b7dc1b4d35b61c2ece435373f8343c85b78674dadfc7e146f882b4f"));
}

#[test]
fn diffie_hellman_matches_rfc7748_and_agrees() {
    let alice = hex32("77076d0a7318a57d3c16c17251b26645df4c2f87ebc0992ab177fba51db92c2a");
    let bob = hex32("5dab087e624a8a4b79e17f8b83800ee66f3bb1292618b6fd1c2f8b27ff88e0eb");
    let shared = hex32("4a5d9d5ba4ce2de1728e3bf480350f25e07e21c947d19e3376f09b3c1e161742");
    assert_eq!(diffie_hellman(&alice, &public_key(&bob)), shared);
    assert_eq!(diffie_hellman(&bob, &public_key(&alice)), shared);
}

#[test]
fn derive_session_key_is_hkdf_sha256() {
    let ikm: Vec<u8> = (0u8..96).collect();
    let expected: [u8; 32] = [
        65, 127, 1, 253, 94, 221, 251, 196, 16, 169, 202, 81, 234, 102, 37, 178, 247, 65, 240, 97,
        96, 139, 92, 79, 115, 117, 148, 181, 166, 252, 172, 221,
    ];
    assert_eq!(derive_session_key(&ikm), expected);
}

#[test]
fn create_session_key_exact_value() {
    let ik_a = IdentityKey::from_secret([1u8; 32], [1u8; 32]);
    let ek_a = EphemeralKey::from_secret([2u8; 32]);
    let ik_b = IdentityKey::from_secret([3u8; 32], [3u8; 32]);
    let spk_b = SignedPreKey::from_secret([4u8; 32], &[1u8; 32]);
    let opk_b = OneTimePreKey::from_secret([5u8; 32]);
    let opk_pub = OneTimePreKeyPublic { key: opk_b.public };

    let with = Session::create_session_key(
        "alice".to_string(), "bob".to_string(), &ik_a, &ek_a, spk_b.public, ik_b.dh_public, Some(&opk_pub),
    );
    assert_eq!(with.get_bytes(), SESSION_WITH_OPK);
    assert_eq!(with.sender(), "alice");
    assert_eq!(with.receiver(), "bob");

    let without = Session::create_session_key(
        "alice".to_string(), "bob".to_string(), &ik_a, &ek_a, spk_b.public, ik_b.dh_public, None,
    );
    assert_eq!(without.get_bytes(), SESSION_WITHOUT_OPK);
}

#[test]
fn receive_session_key_exact_value() {
    let ik_a = IdentityKey::from_secret([1u8; 32], [1u8; 32]);
    let ek_a = EphemeralKey::from_secret([2u8; 32]);
    let ik_b = IdentityKey::from_secret([3u8; 32], [3u8; 32]);
    let spk_b = SignedPreKey::from_secret([4u8; 32], &[1u8; 32]);
    let opk_b = OneTimePreKey::from_secret([5u8; 32]);
    let key = Session::receive_session_key(
        "bob".to_string(), "alice".to_string(), &ik_b, &spk_b, opk_b, ik_a.dh_public, ek_a.public,
    );
    assert_eq!(key.get_bytes(), SESSION_WITH_OPK);
    assert_eq!(key.sender(), "alice");
    assert_eq!(key.receiver(), "bob");
}

#[test]
fn initiator_and_responder_agree_on_fresh_keys() {
    let ik_a = IdentityKey::new();
    let ek_a = EphemeralKey::new();
    let ik_b = IdentityKey::new();
    let spk_b = SignedPreKey::new(&[1u8; 32]);
    let opk_b = OneTimePreKey::new();
    let opk_pub = OneTimePreKeyPublic { key: opk_b.public };
    let sent = Session::create_session_key(
        "a".to_string(), "b".to_string(), &ik_a, &ek_a, spk_b.public, ik_b.dh_public, Some(&opk_pub),
    );
    let received = Session::receive_session_key(
        "b".to_string(), "a".to_string(), &ik_b, &spk_b, opk_b, ik_a.dh_public, ek_a.public,
    );
    assert_eq!(sent.get_bytes(), received.get_bytes());
}

#[test]
fn responder_differs_when_initiator_used_no_one_time_prekey() {
    let ik_a = IdentityKey::from_secret([1u8; 32], [1u8; 32]);
    let ek_a = EphemeralKey::from_secret([2u8; 32]);
    let ik_b = IdentityKey::from_secret([3u8; 32], [3u8; 32]);
    let spk_b = SignedPreKey::from_secret([4u8; 32], &[1u8; 32]);
    let opk_b = OneTimePreKey::from_secret([5u8; 32]);
    let sent = Session::create_session_key(
        "a".to_string(), "b".to_string(), &ik_a, &ek_a, spk_b.public, ik_b.dh_public, None,
    );
    let received = Session::receive_session_key(
        "b".to_string(), "a".to_string(), &ik_b, &spk_b, opk_b, ik_a.dh_public, ek_a.public,
    );
    assert_ne!(sent.get_bytes(), received.get_bytes());
}

#[test]
fn key_pairs_are_well_formed() {
    let ik = IdentityKey::from_secret([7u8; 32], [7u8; 32]);
    assert_eq!(ik.get_private(), [7u8; 32]);
    assert_eq!(ik.dh_public, public_key(&[7u8; 32]));
    let fresh = SignedPreKey::new(&[1u8; 32]);
    assert_eq!(fresh.public, public_key(&fresh.get_private()));
}

#[test]
fn one_time_prekey_group_has_requested_size() {
    let group = OneTimePreKeyGroup::new(100);
    assert_eq!(group.keys.len(), 100);
    let public = group.public_group();
    assert_eq!(public.keys.len(), 100);
    for (pair, published) in group.keys.iter().zip(public.keys.iter()) {
        assert_eq!(pair.public, public_key(&pair.get_private()));
        assert_eq!(published.key, pair.public);
    }
    assert_eq!(OneTimePreKeyGroup::new(0).keys.len(), 0);
}

fn friend(opks: Vec<OneTimePreKeyPublic>, ik_pub: [u8; 32], spk_pub: [u8; 32]) -> UserPublicFriend {
    UserPublicFriend {
        uuid: "bob-uuid".to_string(),
        username: "bob".to_string(),
        description: None,
        profile_picture: None,
        keys: Key { ik_pub, spk_pub, opks_pub: opks },
    }
}

#[test]
fn initiate_session_uses_first_one_time_prekey() {
    let ik_a = IdentityKey::from_secret([1u8; 32], [1u8; 32]);
    let ek_a = EphemeralKey::from_secret([2u8; 32]);
    let ik_b = IdentityKey::from_secret([3u8; 32], [3u8; 32]);
    let spk_b = SignedPreKey::from_secret([4u8; 32], &[1u8; 32]);
    let first = OneTimePreKeyPublic { key: OneTimePreKey::from_secret([5u8; 32]).public };
    let second = OneTimePreKeyPublic { key: OneTimePreKey::from_secret([6u8; 32]).public };
    let to = friend(vec![first, second], ik_b.dh_public, spk_b.public);
    let start = initiate_session("alice-uuid".to_string(), &to, &ik_a, &ek_a);
    assert_eq!(start.opk_used.map(|o| o.key), Some(first.key));
    assert_eq!(start.ek_used, ek_a.public);
    assert_eq!(start.session_key.get_bytes(), SESSION_WITH_OPK);
    assert_eq!(start.session_key.sender(), "alice-uuid");
    assert_eq!(start.session_key.receiver(), "bob-uuid");
}

#[test]
fn initiate_session_without_one_time_prekeys() {
    let ik_a = IdentityKey::from_secret([1u8; 32], [1u8; 32]);
    let ek_a = EphemeralKey::from_secret([2u8; 32]);
    let ik_b = IdentityKey::from_secret([3u8; 32], [3u8; 32]);
    let spk_b = SignedPreKey::from_secret([4u8; 32], &[1u8; 32]);
    let to = friend(vec![], ik_b.dh_public, spk_b.public);
    let start = initiate_session("alice-uuid".to_string(), &to, &ik_a, &ek_a);
    assert!(start.opk_used.is_none());
    assert_eq!(start.session_key.get_bytes(), SESSION_WITHOUT_OPK);
}

#[test]
fn signed_prekey_is_signed_by_the_identity() {
    let ik = IdentityKey::from_secret([3u8; 32], [1u8; 32]);
    assert_eq!(ik.signing_key(), [1u8; 32]);
    let spk = SignedPreKey::from_secret([4u8; 32], &ik.signing_key());
    let expected: [u8; 64] = [
        208, 241, 196, 75, 1, 186, 3, 201, 173, 48, 190, 47, 196, 152, 178, 72, 182, 101, 191, 141,
        171, 118, 244, 115, 157, 129, 104, 74, 178, 167, 100, 176, 77, 206, 118, 174, 27, 40, 98, 8,
        52, 207, 99, 219, 3, 39, 153, 21, 193, 29, 87, 15, 126, 249, 187, 51, 45, 151, 157, 80, 161,
        110, 192, 13,
    ];
    assert_eq!(spk.public, public_key(&[4u8; 32]));
    assert_eq!(spk.signature, expected);
    let fresh = SignedPreKey::new(&ik.signing_key());
    assert_eq!(fresh.public, public_key(&fresh.get_private()));
    let again = SignedPreKey::from_secret(fresh.get_private(), &ik.signing_key());
    assert_eq!(again.signature, fresh.signature);
}
