use vstd::prelude::*;

verus! {

/// The u-coordinate of the Curve25519 base point, as 32 little-endian bytes.
pub open spec fn spec_basepoint() -> Seq<u8> {
    seq![9u8] + Seq::new(31, |i: int| 0u8)
}

/// What `x25519_dalek::x25519` returns for a scalar and a u-coordinate.
pub uninterp spec fn spec_x25519(scalar: Seq<u8>, u: Seq<u8>) -> Seq<u8>;

/// The X25519 public key that belongs to a 32-byte secret.
pub open spec fn spec_public_key(secret: Seq<u8>) -> Seq<u8> {
    spec_x25519(secret, spec_basepoint())
}

/// Calls `x25519_dalek::x25519`, the byte-oriented X25519 function.
///
/// Trusted: the result is the named value `spec_x25519(k, u)`; and, as the
/// crate documents for this function, when `u` is the public key of another
/// secret `peer`, the result equals what `peer` computes against the public
/// key of `k` (the Diffie-Hellman agreement).
#[verifier::external_body]
fn x25519(k: [u8; 32], u: [u8; 32]) -> (r: [u8; 32])
    ensures
        r@ == spec_x25519(k@, u@),
        forall|peer: Seq<u8>|
            peer.len() == 32 && u@ == spec_public_key(peer) ==> r@ == #[trigger] spec_x25519(
                peer,
                spec_public_key(k@),
            ),
{
    x25519_dalek::x25519(k, u)
}

/// The Curve25519 base point `u = 9`.
pub fn basepoint() -> (b: [u8; 32])
    ensures
        b@ == spec_basepoint(),
        b@.len() == 32,
        b@[0] == 9u8,
        forall|i: int| 1 <= i < 32 ==> b@[i] == 0u8,
{
    let mut b = [0u8; 32];
    b[0] = 9u8;
    assert(b@ =~= spec_basepoint());
    b
}

/// Derives the X25519 public key of a secret.
pub fn public_key(secret: &[u8; 32]) -> (p: [u8; 32])
    ensures
        p@ == spec_public_key(secret@),
        p@ == spec_x25519(secret@, seq![9u8] + Seq::new(31, |i: int| 0u8)),
{
    x25519(*secret, basepoint())
}

/// Diffie-Hellman between a private key and a peer's public key.
pub fn diffie_hellman(private: &[u8; 32], public: &[u8; 32]) -> (shared: [u8; 32])
    ensures
        shared@ == spec_x25519(private@, public@),
        forall|peer: Seq<u8>|
            peer.len() == 32 && public@ == spec_public_key(peer) ==> shared@
                == #[trigger] spec_x25519(peer, spec_public_key(private@)),
{
    x25519(*private, *public)
}

} // verus!
