//! The calls into the cryptography, encoding and randomness crates.
//!
//! Nothing in this file is proved: each function hands its arguments to one
//! outside function and claims of the result what its doc comment says.

use aes_gcm::aead::Aead;
use aes_gcm::{Aes256Gcm, KeyInit, Nonce};
use bip39::rand::rngs::OsRng;
use bip39::rand::RngCore;
use hkdf::Hkdf;
use hmac::{Hmac, Mac};
use sha2::{Digest, Sha256};
use vstd::prelude::*;

verus! {

/// The opaque error of the AEAD crate.
#[verifier::external_type_specification]
#[verifier::external_body]
pub struct ExAeadError(aes_gcm::Error);

/// The encoder's error.
#[verifier::external_type_specification]
#[verifier::external_body]
pub struct ExEncodeError(bincode::error::EncodeError);

/// The decoder's error.
#[verifier::external_type_specification]
#[verifier::external_body]
pub struct ExDecodeError(bincode::error::DecodeError);

/// AES-256-GCM of `msg` under `key` and `nonce` with no associated data:
/// ciphertext, then tag.
pub uninterp spec fn aes_gcm_sealed(key: Seq<u8>, nonce: Seq<u8>, msg: Seq<u8>) -> Seq<u8>;

/// What AES-256-GCM opens to, if its tag verifies.
pub uninterp spec fn aes_gcm_opened(key: Seq<u8>, nonce: Seq<u8>, sealed: Seq<u8>) -> Option<
    Seq<u8>,
>;

/// HKDF-SHA256 without salt, expanded to 32 bytes.
pub uninterp spec fn hkdf_sha256(ikm: Seq<u8>, info: Seq<u8>) -> Seq<u8>;

/// HMAC-SHA256.
pub uninterp spec fn hmac_sha256(key: Seq<u8>, data: Seq<u8>) -> Seq<u8>;

/// SHA-256.
pub uninterp spec fn sha256(data: Seq<u8>) -> Seq<u8>;

/// The longest plaintext that AES-GCM takes here, in bytes.
pub const MAX_SEALED_PLAINTEXT: u64 = 0x10_0000_0000;

/// Whether a plaintext of this length can be sealed: within the cipher's limit,
/// and with room in memory for nonce and tag.
pub open spec fn sealable(len: nat) -> bool {
    len <= MAX_SEALED_PLAINTEXT && len + 28 <= isize::MAX
}

/// `Aes256Gcm::encrypt`. Within the length limit it succeeds, adds a 16-byte
/// tag, and what it returns opens to `msg` again.
#[verifier::external_body]
pub(crate) fn aes_gcm_encrypt(key: &[u8; 32], nonce: &[u8; 12], msg: &[u8]) -> (sealed: Result<
    Vec<u8>,
    aes_gcm::Error,
>)
    requires
        sealable(msg@.len()),
    ensures
        sealed is Ok,
        sealed->Ok_0@ == aes_gcm_sealed(key@, nonce@, msg@),
        sealed->Ok_0@.len() == msg@.len() + 16,
        aes_gcm_opened(key@, nonce@, sealed->Ok_0@) == Some(msg@),
{
    let cipher = Aes256Gcm::new(key.into());
    cipher.encrypt(Nonce::from_slice(nonce), msg)
}

/// `Aes256Gcm::decrypt`. It fails exactly where the named result is `None`; a
/// plaintext is 16 bytes shorter than what it was opened from.
#[verifier::external_body]
pub(crate) fn aes_gcm_decrypt(key: &[u8; 32], nonce: &[u8; 12], sealed: &[u8]) -> (msg: Result<
    Vec<u8>,
    aes_gcm::Error,
>)
    ensures
        match msg {
            Ok(m) => aes_gcm_opened(key@, nonce@, sealed@) == Some(m@) && m@.len() + 16
                == sealed@.len(),
            Err(_) => aes_gcm_opened(key@, nonce@, sealed@) is None,
        },
{
    let cipher = Aes256Gcm::new(key.into());
    cipher.decrypt(Nonce::from_slice(nonce), sealed)
}

/// `OsRng::fill_bytes` of an array. Nothing is claimed of random bytes.
#[verifier::external_body]
pub(crate) fn random_bytes<const N: usize>() -> (bytes: [u8; N]) {
    let mut bytes = [0u8; N];
    OsRng.fill_bytes(&mut bytes);
    bytes
}

/// `Hkdf::<Sha256>::new` without salt, then `expand` to 32 bytes.
#[verifier::external_body]
pub(crate) fn hkdf_sha256_expand(ikm: &[u8; 32], info: &[u8]) -> (okm: [u8; 32])
    ensures
        okm@ == hkdf_sha256(ikm@, info@),
{
    let mut okm = [0u8; 32];
    Hkdf::<Sha256>::new(None, ikm).expand(info, &mut okm).expect("32 is a valid output length");
    okm
}

/// `Hmac::<Sha256>` over `data`.
#[verifier::external_body]
pub(crate) fn hmac_sha256_tag(key: &[u8; 32], data: &[u8]) -> (tag: [u8; 32])
    ensures
        tag@ == hmac_sha256(key@, data@),
{
    let mut mac = <Hmac<Sha256> as Mac>::new_from_slice(key).expect("any key length is valid");
    mac.update(data);
    mac.finalize().into_bytes().into()
}

/// `Sha256::digest`.
#[verifier::external_body]
pub(crate) fn sha256_digest(data: &[u8]) -> (digest: [u8; 32])
    ensures
        digest@ == sha256(data@),
{
    Sha256::digest(data).into()
}

/// The lower-case hexadecimal digit of a value below 16.
pub open spec fn hex_digit(value: int) -> char {
    if value < 10 {
        (value + '0' as int) as char
    } else {
        (value - 10 + 'a' as int) as char
    }
}

/// Two lower-case digits per byte, the high half first.
pub open spec fn hex_text(bytes: Seq<u8>) -> Seq<char> {
    Seq::new(
        2 * bytes.len(),
        |i: int|
            if i % 2 == 0 {
                hex_digit(bytes[i / 2] as int / 16)
            } else {
                hex_digit(bytes[i / 2] as int % 16)
            },
    )
}

/// `hex::encode`.
#[verifier::external_body]
pub(crate) fn hex_encode(bytes: &[u8]) -> (text: String)
    requires
        2 * bytes@.len() <= isize::MAX,
    ensures
        text@ == hex_text(bytes@),
{
    hex::encode(bytes)
}

/// The digits of a byte, the high one first, are those of the base sixteen.
pub proof fn bytes_are_spelled_by_two_digits(bytes: Seq<u8>, i: int)
    requires
        0 <= i < bytes.len(),
    ensures
        hex_text(bytes).len() == 2 * bytes.len(),
        hex_text(bytes)[2 * i] == "0123456789abcdef"@[bytes[i] as int / 16],
        hex_text(bytes)[2 * i + 1] == "0123456789abcdef"@[bytes[i] as int % 16],
{
    reveal_strlit("0123456789abcdef");
    let byte = bytes[i] as int;
    assert((2 * i) % 2 == 0 && (2 * i) / 2 == i);
    assert((2 * i + 1) % 2 == 1 && (2 * i + 1) / 2 == i);
    assert(0 <= byte / 16 < 16 && 0 <= byte % 16 < 16);
}

/// What can be sealed has at most 64 gibibytes, and leaves room for nonce and tag.
pub proof fn sealed_lengths_are_bounded(len: nat)
    ensures
        sealable(len) <==> len <= 68719476736 && len <= isize::MAX - 28,
{
}

} // verus!
