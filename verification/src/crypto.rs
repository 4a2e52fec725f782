//! The cryptographic core: X25519 key agreement and AES-256-GCM
//! authenticated encryption over raw byte buffers.
//!
//! Keys, shared secrets and nonces are plain byte vectors of fixed length
//! (32, 32 and 12 bytes). The curve and cipher arithmetic is done by the
//! `x25519_dalek` and `aes_gcm` crates behind a handful of trusted
//! wrappers; everything around those calls — length validation, error
//! mapping, and the contracts binding encryption to decryption — is
//! verified.

use vstd::prelude::*;
use rand::RngCore;
use aes_gcm::aead::{Aead, KeyInit};

verus! {

/// Failures of the cryptographic core.
#[derive(Clone, Copy, Debug, PartialEq, Eq, Structural)]
pub enum CryptoError {
    /// An input to key derivation was not exactly 32 bytes.
    InvalidKeyLength,
    /// The cipher refused the plaintext; an internal invariant was violated.
    EncryptionFailure,
    /// The authentication tag did not verify, or the ciphertext was malformed.
    AuthenticationFailure,
}

/// The X25519 function: the shared-secret bytes computed from a 32-byte
/// secret scalar and a 32-byte peer public point.
pub uninterp spec fn x25519(scalar: Seq<u8>, point: Seq<u8>) -> Seq<u8>;

/// The X25519 public key derived from a 32-byte secret scalar: the scalar
/// multiplied onto the curve's base point.
pub uninterp spec fn x25519_base(scalar: Seq<u8>) -> Seq<u8>;

/// The AES-256-GCM sealing of a plaintext under a 32-byte key and a 12-byte
/// nonce, with no associated data: the encrypted payload followed by the
/// 16-byte authentication tag.
pub uninterp spec fn aes_gcm_seal(key: Seq<u8>, nonce: Seq<u8>, plaintext: Seq<u8>) -> Seq<u8>;

/// Whether a plaintext of `len` bytes is within AES-GCM's size limit of
/// 2^36 bytes for a single message.
pub open spec fn fits_aead(len: nat) -> bool {
    len <= 0x1000000000
}

/// Declares `aes_gcm::Error`, the opaque failure value of the AEAD crate,
/// so that the trusted wrappers below can return it; verified code only
/// maps it to [`CryptoError`].
#[verifier::external_type_specification]
#[verifier::external_body]
pub struct ExAeadError(aes_gcm::Error);

/// Relies on `x25519_dalek::StaticSecret::random_from_rng` with the
/// operating system's secure random source: 32 fresh secret-key bytes.
/// Nothing is promised of their value.
#[verifier::external_body]
fn random_secret_bytes() -> (r: Vec<u8>)
    ensures
        r@.len() == 32,
{
    x25519_dalek::StaticSecret::random_from_rng(rand_core::OsRng).to_bytes().to_vec()
}

/// Relies on `x25519_dalek::PublicKey::from(&StaticSecret)`: the public key
/// is 32 bytes and a deterministic function (base-point scalar
/// multiplication) of the 32 secret bytes alone.
#[verifier::external_body]
fn public_key_bytes(secret: &[u8]) -> (r: Vec<u8>)
    requires
        secret@.len() == 32,
    ensures
        r@.len() == 32,
        r@ == x25519_base(secret@),
{
    let bytes: [u8; 32] = secret.try_into().unwrap();
    let sk = x25519_dalek::StaticSecret::from(bytes);
    x25519_dalek::PublicKey::from(&sk).to_bytes().to_vec()
}

/// Relies on `x25519_dalek::StaticSecret::diffie_hellman`: the result is 32
/// bytes, a deterministic function of the secret scalar and the peer point;
/// and — the documented Diffie-Hellman agreement property of X25519 — when
/// the peer point is the public key of any scalar, the result equals what
/// that scalar's owner computes from our public key.
#[verifier::external_body]
fn dh_bytes(secret: &[u8], peer_public: &[u8]) -> (r: Vec<u8>)
    requires
        secret@.len() == 32,
        peer_public@.len() == 32,
    ensures
        r@.len() == 32,
        r@ == x25519(secret@, peer_public@),
        forall|other: Seq<u8>|
            peer_public@ == #[trigger] x25519_base(other) ==> r@ == x25519(
                other,
                x25519_base(secret@),
            ),
{
    let secret_arr: [u8; 32] = secret.try_into().unwrap();
    let public_arr: [u8; 32] = peer_public.try_into().unwrap();
    let sk = x25519_dalek::StaticSecret::from(secret_arr);
    let pk = x25519_dalek::PublicKey::from(public_arr);
    sk.diffie_hellman(&pk).to_bytes().to_vec()
}

/// Relies on `rand::thread_rng().fill_bytes`: 12 fresh nonce bytes from a
/// cryptographically secure random source. Nothing is promised of their
/// value.
#[verifier::external_body]
fn random_nonce_bytes() -> (r: Vec<u8>)
    ensures
        r@.len() == 12,
{
    let mut nonce = [0u8; 12];
    rand::thread_rng().fill_bytes(&mut nonce);
    nonce.to_vec()
}

/// Relies on `aes_gcm::Aes256Gcm::encrypt` (16-byte tag, no associated
/// data): the ciphertext is a deterministic function of key, nonce and
/// plaintext, 16 bytes longer than the plaintext, and the call fails
/// exactly when the plaintext exceeds the construction's size limit.
#[verifier::external_body]
fn aead_encrypt(key: &[u8], nonce: &[u8], plaintext: &[u8]) -> (r: Result<Vec<u8>, aes_gcm::Error>)
    requires
        key@.len() == 32,
        nonce@.len() == 12,
    ensures
        r is Ok <==> fits_aead(plaintext@.len()),
        r is Ok ==> r->Ok_0@ == aes_gcm_seal(key@, nonce@, plaintext@) && r->Ok_0@.len()
            == plaintext@.len() + 16,
{
    let cipher = aes_gcm::Aes256Gcm::new(aes_gcm::Key::<aes_gcm::Aes256Gcm>::from_slice(key));
    cipher.encrypt(aes_gcm::Nonce::from_slice(nonce), plaintext)
}

/// Relies on `aes_gcm::Aes256Gcm::decrypt`: it succeeds exactly on the
/// ciphertexts the cipher produces. When the ciphertext is the sealing of
/// some plaintext under this key and nonce, that plaintext comes back; and
/// whatever comes back seals to the given ciphertext.
#[verifier::external_body]
fn aead_decrypt(key: &[u8], nonce: &[u8], ciphertext: &[u8]) -> (r: Result<Vec<u8>, aes_gcm::Error>)
    requires
        key@.len() == 32,
        nonce@.len() == 12,
    ensures
        r is Ok ==> ciphertext@ == aes_gcm_seal(key@, nonce@, r->Ok_0@) && r->Ok_0@.len() + 16
            == ciphertext@.len(),
        forall|p: Seq<u8>|
            ciphertext@ == #[trigger] aes_gcm_seal(key@, nonce@, p) && p.len() + 16
                == ciphertext@.len() && fits_aead(p.len()) ==> r is Ok && r->Ok_0@ == p,
{
    let cipher = aes_gcm::Aes256Gcm::new(aes_gcm::Key::<aes_gcm::Aes256Gcm>::from_slice(key));
    cipher.decrypt(aes_gcm::Nonce::from_slice(nonce), ciphertext)
}

/// Generates a fresh key pair: 32 secret bytes drawn from the system's
/// secure random source, and the corresponding Curve25519 public key.
pub fn generate_keypair() -> (r: (Vec<u8>, Vec<u8>))
    ensures
        r.0@.len() == 32,
        r.1@.len() == 32,
        r.1@ == x25519_base(r.0@),
{
    let secret = random_secret_bytes();
    let public = public_key_bytes(secret.as_slice());
    (secret, public)
}

/// Derives the X25519 shared secret from one party's private key and the
/// other party's public key. Both inputs must be exactly 32 bytes; any
/// other length is rejected with `InvalidKeyLength`.
///
/// The final clause states key agreement: whenever the peer bytes are the
/// public key of some secret, the derived bytes equal what the peer derives
/// from this party's public key — both sides of the exchange agree.
pub fn derive_shared_secret(secret_bytes: &[u8], peer_public_bytes: &[u8]) -> (r: Result<
    Vec<u8>,
    CryptoError,
>)
    ensures
        r is Ok <==> secret_bytes@.len() == 32 && peer_public_bytes@.len() == 32,
        r is Err ==> r->Err_0 == CryptoError::InvalidKeyLength,
        r is Ok ==> r->Ok_0@.len() == 32 && r->Ok_0@ == x25519(secret_bytes@, peer_public_bytes@),
        r is Ok ==> forall|other: Seq<u8>|
            peer_public_bytes@ == #[trigger] x25519_base(other) ==> r->Ok_0@ == x25519(
                other,
                x25519_base(secret_bytes@),
            ),
{
    if secret_bytes.len() != 32 || peer_public_bytes.len() != 32 {
        return Err(CryptoError::InvalidKeyLength);
    }
    Ok(dh_bytes(secret_bytes, peer_public_bytes))
}

/// Encrypts a plaintext under a 32-byte shared secret with AES-256-GCM and
/// a freshly drawn 12-byte random nonce. Returns the ciphertext (payload
/// followed by the 16-byte authentication tag) together with the nonce; the
/// nonce is not secret and must accompany the ciphertext to the decryptor.
pub fn encrypt(shared_secret: &[u8], plaintext: &[u8]) -> (r: Result<
    (Vec<u8>, Vec<u8>),
    CryptoError,
>)
    requires
        shared_secret@.len() == 32,
    ensures
        r is Ok <==> fits_aead(plaintext@.len()),
        r is Err ==> r->Err_0 == CryptoError::EncryptionFailure,
        r is Ok ==> (r->Ok_0).1@.len() == 12 && (r->Ok_0).0@ == aes_gcm_seal(
            shared_secret@,
            (r->Ok_0).1@,
            plaintext@,
        ) && (r->Ok_0).0@.len() == plaintext@.len() + 16,
{
    let nonce = random_nonce_bytes();
    match aead_encrypt(shared_secret, nonce.as_slice(), plaintext) {
        Ok(ciphertext) => Ok((ciphertext, nonce)),
        Err(_) => Err(CryptoError::EncryptionFailure),
    }
}

/// Decrypts an AES-256-GCM ciphertext under a 32-byte shared secret and the
/// 12-byte nonce it was sealed with, verifying the authentication tag.
///
/// The two middle clauses bind decryption to encryption. Whatever comes
/// back seals to the given ciphertext — a tampered ciphertext can never
/// yield the plaintext that the untampered one seals. And when the
/// ciphertext is the sealing of a plaintext under this key and nonce, that
/// plaintext is returned: decrypting what `encrypt` produced, with the same
/// secret and nonce, gives the original plaintext back.
///
/// Every failure — tag mismatch, wrong key, wrong nonce, or a ciphertext
/// too short to hold a tag — collapses to the single
/// `AuthenticationFailure`, so the error reveals nothing of its cause.
pub fn decrypt(shared_secret: &[u8], ciphertext: &[u8], nonce_bytes: &[u8]) -> (r: Result<
    Vec<u8>,
    CryptoError,
>)
    requires
        shared_secret@.len() == 32,
        nonce_bytes@.len() == 12,
    ensures
        r is Err ==> r->Err_0 == CryptoError::AuthenticationFailure,
        r is Ok ==> ciphertext@ == aes_gcm_seal(shared_secret@, nonce_bytes@, r->Ok_0@)
            && r->Ok_0@.len() + 16 == ciphertext@.len(),
        forall|p: Seq<u8>|
            ciphertext@ == #[trigger] aes_gcm_seal(shared_secret@, nonce_bytes@, p) && p.len() + 16
                == ciphertext@.len() && fits_aead(p.len()) ==> r is Ok && r->Ok_0@ == p,
{
    match aead_decrypt(shared_secret, nonce_bytes, ciphertext) {
        Ok(plaintext) => Ok(plaintext),
        Err(_) => Err(CryptoError::AuthenticationFailure),
    }
}

/// Law (tamper detection, the provable half): a ciphertext that differs
/// from the sealing of a plaintext `p` can never decrypt to `p`, because
/// whatever `decrypt` returns seals back to the ciphertext it was given.
/// That the cipher moreover rejects every tampered ciphertext outright
/// rests on the authentication tag and is checked by test, not proof.
pub proof fn lemma_tampered_ciphertext_never_yields_plaintext(
    key: Seq<u8>,
    nonce: Seq<u8>,
    p: Seq<u8>,
    q: Seq<u8>,
    tampered: Seq<u8>,
)
    requires
        tampered != aes_gcm_seal(key, nonce, p),
        tampered == aes_gcm_seal(key, nonce, q),
    ensures
        q != p,
{
}

} // verus!
