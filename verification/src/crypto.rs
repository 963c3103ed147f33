//! Trusted bindings to the cryptographic primitives the handshake and
//! the post-handshake cipher states use: SHA-256, HKDF-SHA-256, X25519
//! and AES-256-GCM. Each primitive's output is named by an
//! uninterpreted function of its inputs; everything proved about the
//! handshake holds relative to those names.

use aes_gcm::aead::Aead;
use aes_gcm::aead::KeyInit;
use sha2::Digest;
use vstd::prelude::*;

verus! {

/// The SHA-256 digest of a byte string.
pub uninterp spec fn sha256_of(data: Seq<u8>) -> Seq<u8>;

/// 64 bytes of HKDF-SHA-256 output (empty info) for a salt and input
/// key material.
pub uninterp spec fn hkdf_sha256_64_of(salt: Seq<u8>, ikm: Seq<u8>) -> Seq<u8>;

/// X25519 scalar multiplication of a 32-byte scalar and a 32-byte
/// curve point.
pub uninterp spec fn x25519_of(scalar: Seq<u8>, point: Seq<u8>) -> Seq<u8>;

/// An AES-256-GCM ciphertext: the encrypted plaintext with the 16-byte
/// authentication tag appended.
pub uninterp spec fn aes256_gcm_seal_of(
    key: Seq<u8>,
    nonce: Seq<u8>,
    aad: Seq<u8>,
    plaintext: Seq<u8>,
) -> Seq<u8>;

/// What AES-256-GCM opening yields: the plaintext, or nothing when the
/// tag does not verify.
pub uninterp spec fn aes256_gcm_open_of(
    key: Seq<u8>,
    nonce: Seq<u8>,
    aad: Seq<u8>,
    ciphertext: Seq<u8>,
) -> Option<Seq<u8>>;

/// The X25519 base point, for deriving a public key from a secret.
pub open spec fn x25519_basepoint() -> Seq<u8> {
    Seq::new(32, |i: int| if i == 0 { 9u8 } else { 0u8 })
}

/// The curve's base point as bytes.
pub fn x25519_basepoint_bytes() -> (r: Vec<u8>)
    ensures
        r@ == x25519_basepoint(),
{
    let mut v: Vec<u8> = Vec::new();
    v.push(9);
    let mut i: usize = 1;
    while i < 32
        invariant
            1 <= i <= 32,
            v@.len() == i,
            forall|j: int| 0 <= j < i ==> v@[j] == x25519_basepoint()[j],
        decreases 32 - i,
    {
        v.push(0);
        i += 1;
    }
    proof {
        assert(v@ =~= x25519_basepoint());
    }
    v
}

/// Relies on sha2's `Sha256` through `Digest::digest`: a 32-byte digest
/// that depends on the input bytes alone.
#[verifier::external_body]
pub fn sha256(data: &[u8]) -> (r: Vec<u8>)
    ensures
        r@ == sha256_of(data@),
        r@.len() == 32,
{
    sha2::Sha256::digest(data).to_vec()
}

/// Relies on hkdf's `Hkdf::<Sha256>::new` and `expand` (RFC 5869 with
/// empty info): 64 output bytes that depend on the salt and the input
/// key material alone. `expand` fails only for outputs longer than 255
/// hash blocks, so 64 bytes always succeed.
#[verifier::external_body]
pub fn hkdf_sha256_64(salt: &[u8], ikm: &[u8]) -> (r: Vec<u8>)
    ensures
        r@ == hkdf_sha256_64_of(salt@, ikm@),
        r@.len() == 64,
{
    let hk = hkdf::Hkdf::<sha2::Sha256>::new(Some(salt), ikm);
    let mut okm = [0u8; 64];
    let _ = hk.expand(&[], &mut okm);
    okm.to_vec()
}

/// Relies on `x25519_dalek::x25519`: scalar multiplication on
/// Curve25519, a function of the two 32-byte inputs alone.
#[verifier::external_body]
pub fn x25519_dh(scalar: &[u8], point: &[u8]) -> (r: Vec<u8>)
    requires
        scalar@.len() == 32,
        point@.len() == 32,
    ensures
        r@ == x25519_of(scalar@, point@),
        r@.len() == 32,
{
    let mut k = [0u8; 32];
    k.copy_from_slice(scalar);
    let mut u = [0u8; 32];
    u.copy_from_slice(point);
    x25519_dalek::x25519(k, u).to_vec()
}

/// Relies on aes_gcm's `Aes256Gcm` (`KeyInit::new_from_slice`,
/// `Aead::encrypt`): AES-256-GCM sealing with the 16-byte tag appended,
/// a function of key, nonce, associated data and plaintext alone.
#[verifier::external_body]
pub fn aes256_gcm_seal(key: &[u8], nonce: &[u8], aad: &[u8], plaintext: &[u8]) -> (r: Vec<u8>)
    requires
        key@.len() == 32,
        nonce@.len() == 12,
        plaintext@.len() < 0x100000000,
    ensures
        r@ == aes256_gcm_seal_of(key@, nonce@, aad@, plaintext@),
        r@.len() == plaintext@.len() + 16,
{
    let cipher = aes_gcm::Aes256Gcm::new_from_slice(key).unwrap();
    let n = aes_gcm::Nonce::<aes_gcm::aead::consts::U12>::try_from(nonce).unwrap();
    cipher.encrypt(&n, aes_gcm::aead::Payload { msg: plaintext, aad }).unwrap()
}

/// Relies on aes_gcm's `Aes256Gcm` (`Aead::decrypt`): opening returns a
/// plaintext or rejects; opening a message sealed with the same key,
/// nonce and associated data returns that message.
#[verifier::external_body]
pub fn aes256_gcm_open(key: &[u8], nonce: &[u8], aad: &[u8], ciphertext: &[u8]) -> (r: Option<
    Vec<u8>,
>)
    requires
        key@.len() == 32,
        nonce@.len() == 12,
    ensures
        match r {
            Option::Some(p) => aes256_gcm_open_of(key@, nonce@, aad@, ciphertext@) == Some(p@),
            Option::None => aes256_gcm_open_of(key@, nonce@, aad@, ciphertext@) is None,
        },
        r matches Some(pp) ==> (forall|p: Seq<u8>|
            ciphertext@ == aes256_gcm_seal_of(key@, nonce@, aad@, p) ==> pp@ == p),
        r is None ==> (forall|p: Seq<u8>|
            ciphertext@ != aes256_gcm_seal_of(key@, nonce@, aad@, p)),
{
    let cipher = aes_gcm::Aes256Gcm::new_from_slice(key).unwrap();
    let n = aes_gcm::Nonce::<aes_gcm::aead::consts::U12>::try_from(nonce).unwrap();
    cipher.decrypt(&n, aes_gcm::aead::Payload { msg: ciphertext, aad }).ok()
}

} // verus!
