//! A minimal secure-channel primitive: X25519 Diffie-Hellman key agreement
//! followed by authenticated encryption of arbitrary payloads with
//! AES-256-GCM.
//!
//! The cryptographic core lives in [`crypto`] and works over raw byte
//! buffers. The functions at the crate root marshal the same four
//! operations to and from hexadecimal text, for callers that exchange keys
//! and messages as strings; [`utils`] holds the hexadecimal codec they
//! share.

use vstd::prelude::*;
use vstd::string::StringSliceAdditionalSpecFns;

pub mod crypto;
pub mod utils;

verus! {

/// Failures of the text-marshaling layer, covering the core's error kinds
/// and the marshaling's own.
#[derive(Clone, Copy, Debug, PartialEq, Eq, Structural)]
pub enum ChannelError {
    /// An input string was not well-formed hexadecimal.
    InvalidHex,
    /// A key string did not denote exactly 32 bytes.
    InvalidKeyLength,
    /// A nonce string did not denote exactly 12 bytes.
    InvalidNonceLength,
    /// The cipher refused the plaintext; an internal invariant was violated.
    EncryptionFailure,
    /// The authentication tag did not verify, or the ciphertext was malformed.
    AuthenticationFailure,
    /// The decrypted bytes were not valid UTF-8.
    InvalidUtf8,
}

/// Whether `s` is a hexadecimal string denoting a 32-byte key.
pub open spec fn is_hex_key(s: Seq<char>) -> bool {
    utils::is_hex_seq(s) && s.len() == 64
}

/// Whether `s` is a hexadecimal string denoting a 12-byte nonce.
pub open spec fn is_hex_nonce(s: Seq<char>) -> bool {
    utils::is_hex_seq(s) && s.len() == 24
}

/// The characters a byte sequence decodes to as UTF-8, when it is valid.
pub uninterp spec fn utf8_decoding(bytes: Seq<u8>) -> Option<Seq<char>>;

/// Relies on `String::from_utf8`: whether the bytes are accepted, and the
/// characters returned, are a deterministic function of the bytes alone.
#[verifier::external_body]
fn utf8_to_string(bytes: Vec<u8>) -> (r: Option<String>)
    ensures
        r is Some <==> utf8_decoding(bytes@) is Some,
        r is Some ==> Some(r->0@) == utf8_decoding(bytes@),
{
    String::from_utf8(bytes).ok()
}

/// Generates a fresh key pair and returns it as two hexadecimal strings:
/// the 32 secret bytes, then the corresponding Curve25519 public key.
pub fn generate_keypair() -> (r: (String, String))
    ensures
        is_hex_key(r.0@),
        is_hex_key(r.1@),
        r.1@ == utils::hex_of(crypto::x25519_base(utils::bytes_of_hex(r.0@))),
{
    let (secret, public) = crypto::generate_keypair();
    let secret_hex = utils::to_hex(secret.as_slice());
    let public_hex = utils::to_hex(public.as_slice());
    proof {
        utils::lemma_hex_round_trip(secret@);
        utils::lemma_hex_round_trip(public@);
    }
    (secret_hex, public_hex)
}

/// Derives the X25519 shared secret from a private key and a peer public
/// key, both given and returned as hexadecimal strings.
pub fn derive_shared_secret(secret_hex: &str, peer_public_hex: &str) -> (r: Result<String, ChannelError>)
    ensures
        r is Ok <==> is_hex_key(secret_hex@) && is_hex_key(peer_public_hex@),
        r is Ok ==> r->Ok_0@ == utils::hex_of(
            crypto::x25519(utils::bytes_of_hex(secret_hex@), utils::bytes_of_hex(peer_public_hex@)),
        ),
        !(utils::is_hex_seq(secret_hex@) && utils::is_hex_seq(peer_public_hex@)) ==> r == Err::<
            String,
            ChannelError,
        >(ChannelError::InvalidHex),
        utils::is_hex_seq(secret_hex@) && utils::is_hex_seq(peer_public_hex@) && !(is_hex_key(
            secret_hex@,
        ) && is_hex_key(peer_public_hex@)) ==> r == Err::<String, ChannelError>(ChannelError::InvalidKeyLength),
{
    let secret = match utils::from_hex(secret_hex) {
        Ok(v) => v,
        Err(_) => {
            return Err(ChannelError::InvalidHex);
        },
    };
    let peer = match utils::from_hex(peer_public_hex) {
        Ok(v) => v,
        Err(_) => {
            return Err(ChannelError::InvalidHex);
        },
    };
    match crypto::derive_shared_secret(secret.as_slice(), peer.as_slice()) {
        Ok(shared) => Ok(utils::to_hex(shared.as_slice())),
        Err(_) => Err(ChannelError::InvalidKeyLength),
    }
}

/// Encrypts a plaintext string under a shared secret given as hexadecimal;
/// returns the ciphertext and the fresh nonce, both as hexadecimal.
pub fn encrypt(shared_secret_hex: &str, plaintext: &str) -> (r: Result<(String, String), ChannelError>)
    ensures
        r is Ok <==> is_hex_key(shared_secret_hex@) && crypto::fits_aead(
            plaintext.spec_bytes().len(),
        ),
        !utils::is_hex_seq(shared_secret_hex@) ==> r == Err::<(String, String), ChannelError>(
            ChannelError::InvalidHex,
        ),
        utils::is_hex_seq(shared_secret_hex@) && !is_hex_key(shared_secret_hex@) ==> r == Err::<
            (String, String),
            ChannelError,
        >(ChannelError::InvalidKeyLength),
        is_hex_key(shared_secret_hex@) && !crypto::fits_aead(plaintext.spec_bytes().len()) ==> r
            == Err::<(String, String), ChannelError>(ChannelError::EncryptionFailure),
        r is Ok ==> is_hex_nonce((r->Ok_0).1@) && (r->Ok_0).0@ == utils::hex_of(
            crypto::aes_gcm_seal(
                utils::bytes_of_hex(shared_secret_hex@),
                utils::bytes_of_hex((r->Ok_0).1@),
                plaintext.spec_bytes(),
            ),
        ) && utils::is_hex_seq((r->Ok_0).0@) && utils::bytes_of_hex((r->Ok_0).0@).len()
            == plaintext.spec_bytes().len() + 16,
{
    let secret = match utils::from_hex(shared_secret_hex) {
        Ok(v) => v,
        Err(_) => {
            return Err(ChannelError::InvalidHex);
        },
    };
    if secret.len() != 32 {
        return Err(ChannelError::InvalidKeyLength);
    }
    match crypto::encrypt(secret.as_slice(), plaintext.as_bytes()) {
        Ok((ciphertext, nonce)) => {
            proof {
                utils::lemma_hex_round_trip(nonce@);
                utils::lemma_hex_round_trip(ciphertext@);
            }
            Ok((utils::to_hex(ciphertext.as_slice()), utils::to_hex(nonce.as_slice())))
        },
        Err(_) => Err(ChannelError::EncryptionFailure),
    }
}

/// Decrypts a hexadecimal ciphertext under a shared secret and nonce given
/// as hexadecimal, and returns the plaintext as a UTF-8 string.
///
/// The last two clauses bind this function to `encrypt`: for any plaintext
/// whose sealing under this key and nonce is the given ciphertext, the call
/// succeeds exactly when those bytes are valid UTF-8 and then returns their
/// decoding — so decrypting what `encrypt` produced gives the original
/// string back.
pub fn decrypt(shared_secret_hex: &str, ciphertext_hex: &str, nonce_hex: &str) -> (r: Result<
    String,
    ChannelError,
>)
    ensures
        !(utils::is_hex_seq(shared_secret_hex@) && utils::is_hex_seq(ciphertext_hex@)
            && utils::is_hex_seq(nonce_hex@)) ==> r == Err::<String, ChannelError>(ChannelError::InvalidHex),
        utils::is_hex_seq(shared_secret_hex@) && utils::is_hex_seq(ciphertext_hex@)
            && utils::is_hex_seq(nonce_hex@) && !is_hex_key(shared_secret_hex@) ==> r == Err::<
            String,
            ChannelError,
        >(ChannelError::InvalidKeyLength),
        is_hex_key(shared_secret_hex@) && utils::is_hex_seq(ciphertext_hex@) && utils::is_hex_seq(
            nonce_hex@,
        ) && !is_hex_nonce(nonce_hex@) ==> r == Err::<String, ChannelError>(ChannelError::InvalidNonceLength),
        is_hex_key(shared_secret_hex@) && utils::is_hex_seq(ciphertext_hex@) && is_hex_nonce(
            nonce_hex@,
        ) && r is Err ==> r->Err_0 == ChannelError::AuthenticationFailure || r->Err_0
            == ChannelError::InvalidUtf8,
        r is Ok ==> is_hex_key(shared_secret_hex@) && utils::is_hex_seq(ciphertext_hex@)
            && is_hex_nonce(nonce_hex@) && exists|p: Seq<u8>|
            utils::bytes_of_hex(ciphertext_hex@) == #[trigger] crypto::aes_gcm_seal(
                utils::bytes_of_hex(shared_secret_hex@),
                utils::bytes_of_hex(nonce_hex@),
                p,
            ) && Some(r->Ok_0@) == utf8_decoding(p),
        forall|p: Seq<u8>|
            is_hex_key(shared_secret_hex@) && utils::is_hex_seq(ciphertext_hex@) && is_hex_nonce(
                nonce_hex@,
            ) && utils::bytes_of_hex(ciphertext_hex@) == #[trigger] crypto::aes_gcm_seal(
                utils::bytes_of_hex(shared_secret_hex@),
                utils::bytes_of_hex(nonce_hex@),
                p,
            ) && p.len() + 16 == utils::bytes_of_hex(ciphertext_hex@).len() && crypto::fits_aead(
                p.len(),
            ) ==> (match r {
                Ok(s) => Some(s@) == utf8_decoding(p),
                Err(e) => e == ChannelError::InvalidUtf8 && utf8_decoding(p) is None,
            }),
{
    let secret = match utils::from_hex(shared_secret_hex) {
        Ok(v) => v,
        Err(_) => {
            return Err(ChannelError::InvalidHex);
        },
    };
    let ciphertext = match utils::from_hex(ciphertext_hex) {
        Ok(v) => v,
        Err(_) => {
            return Err(ChannelError::InvalidHex);
        },
    };
    let nonce = match utils::from_hex(nonce_hex) {
        Ok(v) => v,
        Err(_) => {
            return Err(ChannelError::InvalidHex);
        },
    };
    if secret.len() != 32 {
        return Err(ChannelError::InvalidKeyLength);
    }
    if nonce.len() != 12 {
        return Err(ChannelError::InvalidNonceLength);
    }
    let plaintext = match crypto::decrypt(secret.as_slice(), ciphertext.as_slice(), nonce.as_slice()) {
        Ok(v) => v,
        Err(_) => {
            return Err(ChannelError::AuthenticationFailure);
        },
    };
    match utf8_to_string(plaintext) {
        Some(s) => Ok(s),
        None => Err(ChannelError::InvalidUtf8),
    }
}

} // verus!
