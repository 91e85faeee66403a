use vstd::prelude::*;

verus! {

/// The credentials sent to log in.
pub struct LoginPayload {
    pub username: String,
    pub password: String,
}

} // verus!
