use vstd::prelude::*;

verus! {

/// Calls `rand::random` for 32 bytes from the thread-local generator.
///
/// Trusted for nothing: the bytes are random, so no clause is stated of them.
#[verifier::external_body]
pub(crate) fn random_secret() -> (bytes: [u8; 32]) {
    rand::random::<[u8; 32]>()
}

} // verus!
