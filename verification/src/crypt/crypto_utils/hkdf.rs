use vstd::prelude::*;

verus! {

/// What HKDF-SHA256 (RFC 5869, `hkdf::Hkdf::<sha2::Sha256>`) produces as
/// 32 bytes of output keying material for a salt, input keying material and info.
pub uninterp spec fn spec_hkdf_sha256(salt: Seq<u8>, ikm: Seq<u8>, info: Seq<u8>) -> Seq<u8>;

/// Calls `hkdf::Hkdf::<sha2::Sha256>::new` and `expand` into 32 bytes.
///
/// Trusted: the result is the named value `spec_hkdf_sha256(salt, ikm, info)`.
/// `expand` fails only for outputs longer than 255 hash blocks, never for 32 bytes.
#[verifier::external_body]
fn hkdf_sha256(salt: &[u8], ikm: &[u8], info: &[u8]) -> (okm: [u8; 32])
    ensures
        okm@ == spec_hkdf_sha256(salt@, ikm@, info@),
{
    let mut okm = [0u8; 32];
    let _ = ::hkdf::Hkdf::<sha2::Sha256>::new(Some(salt), ikm).expand(info, &mut okm);
    okm
}

/// The salt of the session-key derivation: 32 zero bytes.
pub open spec fn spec_session_salt() -> Seq<u8> {
    Seq::new(32, |i: int| 0u8)
}

/// The info string of the session-key derivation: the ASCII bytes of "X3DH".
pub open spec fn spec_session_info() -> Seq<u8> {
    seq![0x58u8, 0x33u8, 0x44u8, 0x48u8]
}

/// The session key derived from X3DH input keying material.
pub open spec fn spec_derive_session_key(ikm: Seq<u8>) -> Seq<u8> {
    spec_hkdf_sha256(spec_session_salt(), ikm, spec_session_info())
}

/// Derives the 32-byte session key from the concatenated DH outputs.
pub fn derive_session_key(ikm: &[u8]) -> (key: [u8; 32])
    ensures
        key@ == spec_derive_session_key(ikm@),
        key@ == spec_hkdf_sha256(Seq::new(32, |i: int| 0u8), ikm@, seq![0x58u8, 0x33u8, 0x44u8, 0x48u8]),
{
    let salt = [0u8; 32];
    let info = [0x58u8, 0x33u8, 0x44u8, 0x48u8];
    assert(salt@ =~= spec_session_salt());
    assert(info@ =~= spec_session_info());
    hkdf_sha256(salt.as_slice(), ikm, info.as_slice())
}

} // verus!
