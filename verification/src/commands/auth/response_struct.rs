use vstd::prelude::*;

use crate::structs::user::User;

verus! {

/// What the server answers to a successful login or registration.
pub struct LoginResponse {
    pub user: User,
    pub token: Tokens,
}

/// The access and refresh tokens of a session with the server.
pub struct Tokens {
    pub access: String,
    pub refresh: String,
}

} // verus!
