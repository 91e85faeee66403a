use lucchat::commands::auth::register::{RegisterPayload, RegisterRequest};
use lucchat::commands::message::send_message::SendMessagePayload;
use lucchat::crypt::x3dh::session::Session;
use lucchat::logger::format_log_line;
use lucchat::logger::syslog::{debug, error, info, warn};
use lucchat::structs::keys::identity::IdentityKey;
use lucchat::structs::keys::one_time_prekey::OneTimePreKeyGroup;
use lucchat::structs::keys::signed_prekey::SignedPreKey;
use lucchat::structs::message::Message;
use lucchat::structs::user::{Key, User};

#[test]
fn log_lines_have_time_level_and_message() {
    let now = "2024-05-01 12:00:00.123";
    assert_eq!(format_log_line(now, "X", "m"), "[2024-05-01 12:00:00.123] [X] m");
    assert_eq!(info(now, "hello"), "[2024-05-01 12:00:00.123] [INFO] hello");
    assert_eq!(warn(now, "careful"), "[2024-05-01 12:00:00.123] [WARN] careful");
    assert_eq!(error(now, "broken"), "[2024-05-01 12:00:00.123] [ERROR] broken");
    assert_eq!(debug(now, ""), "[2024-05-01 12:00:00.123] [DEBUG] ");
}

fn user(name: &str) -> User {
    User {
        uuid: "u-1".to_string(),
        username: name.to_string(),
        description: None,
        profile_picture: None,
        pending_friend_requests: vec![],
        friends_requests: vec![],
        friends: vec![],
        keys: Key { ik_pub: [0u8; 32], spk_pub: [0u8; 32], opks_pub: vec![] },
    }
}

#[test]
fn file_names_follow_the_username() {
    let u = user("luc");
    assert_eq!(u.keys_file_name(), "luc_keys.json");
    assert_eq!(u.sessions_file_name(), "luc_sessions.json");
    assert_eq!(Session::sessions_file_name("ana"), "ana_sessions.json");
    assert_eq!(Session::sessions_file_name(""), "_sessions.json");
}

#[test]
fn register_payload_carries_the_public_keys() {
    let request = RegisterRequest { username: "luc".to_string(), password: "pw".to_string() };
    let ik = IdentityKey::from_secret([8u8; 32], [8u8; 32]);
    let spk = SignedPreKey::from_secret([9u8; 32], &[1u8; 32]);
    let opk = OneTimePreKeyGroup::new(3);
    let payload = RegisterPayload::new(&request, &ik, &spk, &opk);
    assert_eq!(payload.username, "luc");
    assert_eq!(payload.password, "pw");
    assert_eq!(payload.ik_pub, ik.dh_public);
    assert_eq!(payload.spk_pub, spk.public);
    assert_eq!(payload.opks_pub.len(), 3);
    for i in 0..3 {
        assert_eq!(payload.opks_pub[i].key, opk.keys[i].public);
    }
}

#[test]
fn send_message_payload_copies_the_message() {
    let message = Message {
        uuid: "m-1".to_string(),
        sender: "a".to_string(),
        receiver: "b".to_string(),
        nonce: [3u8; 12],
        ciphertext: vec![1, 2, 3],
        ratchet_pub: [4u8; 32],
        message_index: 7,
        opk_used: Some([5u8; 32]),
        ek_used: Some([6u8; 32]),
        created_at: -12,
    };
    let payload = SendMessagePayload::from_message(message);
    assert_eq!(payload.uuid, "m-1");
    assert_eq!(payload.sender, "a");
    assert_eq!(payload.receiver, "b");
    assert_eq!(payload.nonce, [3u8; 12]);
    assert_eq!(payload.ciphertext, vec![1, 2, 3]);
    assert_eq!(payload.ratchet_pub, [4u8; 32]);
    assert_eq!(payload.message_index, 7);
    assert_eq!(payload.opk_used.map(|o| o.key), Some([5u8; 32]));
    assert_eq!(payload.ek_used, Some([6u8; 32]));
    assert_eq!(payload.created_at, -12);

    let bare = Message {
        uuid: String::new(),
        sender: String::new(),
        receiver: String::new(),
        nonce: [0u8; 12],
        ciphertext: vec![],
        ratchet_pub: [0u8; 32],
        message_index: 0,
        opk_used: None,
        ek_used: None,
        created_at: 0,
    };
    assert!(SendMessagePayload::from_message(bare).opk_used.is_none());
}
