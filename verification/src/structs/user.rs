use vstd::prelude::*;

use crate::crypt::x3dh::session::{Session, spec_sessions_file_name};
use crate::structs::keys::one_time_prekey::OneTimePreKeyPublic;

verus! {

/// The public keys a user publishes for X3DH.
pub struct Key {
    pub ik_pub: [u8; 32],
    pub spk_pub: [u8; 32],
    pub opks_pub: Vec<OneTimePreKeyPublic>,
}

/// A user as the server describes the logged-in account.
pub struct User {
    pub uuid: String,
    pub username: String,
    pub description: Option<String>,
    pub profile_picture: Option<String>,
    pub pending_friend_requests: Vec<String>,
    pub friends_requests: Vec<String>,
    pub friends: Vec<String>,
    pub keys: Key,
}

/// The name of the file that holds a user's private keys: `{username}_keys.json`.
pub open spec fn spec_keys_file_name(username: Seq<char>) -> Seq<char> {
    username + "_keys.json"@
}

/// Law: the keys file name is the whole username followed by `_keys.json`, so distinct
/// usernames never share a keys file.
pub proof fn law_keys_file_name(username: Seq<char>, other: Seq<char>)
    ensures
        spec_keys_file_name(username).len() == username.len() + "_keys.json"@.len(),
        spec_keys_file_name(username).subrange(0, username.len() as int) == username,
        spec_keys_file_name(username) == spec_keys_file_name(other) ==> username == other,
{
    let a = spec_keys_file_name(username);
    assert(a.subrange(0, username.len() as int) =~= username);
    if a == spec_keys_file_name(other) {
        let b = spec_keys_file_name(other);
        assert(a.len() == username.len() + "_keys.json"@.len());
        assert(b.len() == other.len() + "_keys.json"@.len());
        assert(b.subrange(0, other.len() as int) =~= other);
    }
}

impl User {
    /// The name of the file that holds this user's private keys.
    pub fn keys_file_name(&self) -> (name: String)
        ensures
            name@ == spec_keys_file_name(self.username@),
            name@ == self.username@ + "_keys.json"@,
    {
        let mut name = self.username.clone();
        name.append("_keys.json");
        name
    }

    /// The name of the file that holds this user's X3DH sessions.
    pub fn sessions_file_name(&self) -> (name: String)
        ensures
            name@ == spec_sessions_file_name(self.username@),
            name@ == self.username@ + "_sessions.json"@,
    {
        Session::sessions_file_name(self.username.as_str())
    }
}

/// What the server answers about another user.
pub enum UserResponse {
    Public(UserPublic),
    PublicFriend(UserPublicFriend),
}

/// The public profile of a user.
pub struct UserPublic {
    pub uuid: String,
    pub username: String,
    pub description: Option<String>,
    pub profile_picture: Option<String>,
}

/// The public profile of a friend, with the keys needed to open a session.
pub struct UserPublicFriend {
    pub uuid: String,
    pub username: String,
    pub description: Option<String>,
    pub profile_picture: Option<String>,
    pub keys: Key,
}

} // verus!
