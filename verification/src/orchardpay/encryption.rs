//! Sealing of contact anchors, anchor records and message contents.
//!
//! A payload that two parties read is sealed under the secret they share; an
//! anchor record, which only its owner reads, under a key of the owner's
//! wallet. The sealing is the same for all of them.

use vstd::prelude::*;

use crate::codec;
use crate::primitives;
use crate::sizes;

verus! {

/// Length of the nonce in front of every sealed payload.
pub const NONCE_SIZE: usize = 12;

/// What encrypting or decrypting a payload can fail with.
#[derive(Debug, Clone, Copy, PartialEq, Eq, Structural)]
pub enum OrchardPayCryptoError {
    /// The cipher did not take the plaintext.
    Encryption,
    /// The tag did not verify, or the data is too short to hold a nonce.
    Decryption,
    /// The tag verified, but the plaintext does not decode.
    Malformed,
    /// The plaintext exceeds [`MAX_MESSAGE_PLAINTEXT_LEN`].
    PayloadTooLarge,
}

impl OrchardPayCryptoError {
    /// What the user is told.
    pub open spec fn spec_message(self) -> Seq<char> {
        match self {
            OrchardPayCryptoError::Encryption =>
                "The contact request could not be encrypted. Please try again."@,
            OrchardPayCryptoError::Decryption =>
                "This contact request could not be read. It may not have been intended for this identity."@,
            OrchardPayCryptoError::Malformed =>
                "This contact request appears to be damaged and could not be read."@,
            OrchardPayCryptoError::PayloadTooLarge => "This message is too large to send."@,
        }
    }

    /// What the user is told.
    pub fn message(self) -> (text: &'static str)
        ensures
            text@ == self.spec_message(),
    {
        match self {
            OrchardPayCryptoError::Encryption =>
                "The contact request could not be encrypted. Please try again.",
            OrchardPayCryptoError::Decryption =>
                "This contact request could not be read. It may not have been intended for this identity.",
            OrchardPayCryptoError::Malformed =>
                "This contact request appears to be damaged and could not be read.",
            OrchardPayCryptoError::PayloadTooLarge => "This message is too large to send.",
        }
    }
}

/// What sealed data opens to: the first 12 bytes are the nonce.
pub open spec fn opened(key: Seq<u8>, data: Seq<u8>) -> Option<Seq<u8>> {
    if data.len() < 12 {
        None
    } else {
        primitives::aes_gcm_opened(key, data.take(12), data.skip(12))
    }
}

/// `data` is a 12-byte nonce followed by the sealing of `plaintext` under it.
pub open spec fn seals(key: Seq<u8>, plaintext: Seq<u8>, data: Seq<u8>) -> bool {
    &&& data.len() == 12 + plaintext.len() + 16
    &&& data.skip(12) == primitives::aes_gcm_sealed(key, data.take(12), plaintext)
    &&& opened(key, data) == Some(plaintext)
}

/// A copy of a slice at the end of `out`.
fn append(out: &mut Vec<u8>, bytes: &[u8])
    ensures
        final(out)@ == old(out)@ + bytes@,
{
    let mut i: usize = 0;
    while i < bytes.len()
        invariant
            i <= bytes@.len(),
            out@ == old(out)@ + bytes@.take(i as int),
        decreases bytes@.len() - i,
    {
        assert(bytes@.take(i + 1) =~= bytes@.take(i as int).push(bytes@[i as int]));
        out.push(bytes[i]);
        i = i + 1;
    }
    assert(bytes@.take(i as int) =~= bytes@);
}

/// The nonce, then the ciphertext with its tag.
pub fn frame_sealed(nonce: &[u8; 12], ciphertext: &[u8]) -> (data: Vec<u8>)
    ensures
        data@ == nonce@ + ciphertext@,
{
    let mut data: Vec<u8> = Vec::new();
    append(&mut data, nonce);
    append(&mut data, ciphertext);
    assert(data@ =~= nonce@ + ciphertext@);
    data
}

/// The nonce and the ciphertext of sealed data that is long enough for both.
pub fn split_sealed(data: &[u8]) -> (parts: Option<([u8; 12], Vec<u8>)>)
    ensures
        match parts {
            None => data@.len() < 12,
            Some((nonce, ciphertext)) => {
                &&& data@.len() >= 12
                &&& nonce@ == data@.take(12)
                &&& ciphertext@ == data@.skip(12)
            },
        },
{
    if data.len() < NONCE_SIZE {
        return None;
    }
    let mut nonce: [u8; 12] = [0u8; 12];
    let mut i: usize = 0;
    while i < 12
        invariant
            i <= 12 <= data@.len(),
            forall|j: int| 0 <= j < i ==> #[trigger] nonce@[j] == data@[j],
        decreases 12 - i,
    {
        nonce[i] = data[i];
        i = i + 1;
    }
    assert(nonce@ =~= data@.take(12));
    let mut ciphertext: Vec<u8> = Vec::new();
    while i < data.len()
        invariant
            12 <= i <= data@.len(),
            ciphertext@ == data@.subrange(12, i as int),
        decreases data@.len() - i,
    {
        ciphertext.push(data[i]);
        i = i + 1;
    }
    assert(ciphertext@ =~= data@.skip(12));
    Some((nonce, ciphertext))
}

/// Encrypts `plaintext` under a 32-byte key: a fresh nonce, then the ciphertext
/// with its tag. What it returns opens to `plaintext` again under that key.
pub fn encrypt(shared_key: &[u8; 32], plaintext: &[u8]) -> (data: Result<
    Vec<u8>,
    OrchardPayCryptoError,
>)
    ensures
        match data {
            Ok(d) => primitives::sealable(plaintext@.len()) && seals(
                shared_key@,
                plaintext@,
                d@,
            ),
            Err(e) => !primitives::sealable(plaintext@.len()) && e
                == OrchardPayCryptoError::Encryption,
        },
{
    let nonce: [u8; 12] = primitives::random_bytes::<12>();
    encrypt_with_nonce(shared_key, &nonce, plaintext)
}

/// [`encrypt`] under a nonce that is given.
pub fn encrypt_with_nonce(
    shared_key: &[u8; 32],
    nonce: &[u8; 12],
    plaintext: &[u8],
) -> (data: Result<Vec<u8>, OrchardPayCryptoError>)
    ensures
        match data {
            Ok(d) => {
                &&& primitives::sealable(plaintext@.len())
                &&& d@ == nonce@ + primitives::aes_gcm_sealed(shared_key@, nonce@, plaintext@)
                &&& seals(shared_key@, plaintext@, d@)
            },
            Err(e) => !primitives::sealable(plaintext@.len()) && e
                == OrchardPayCryptoError::Encryption,
        },
{
    let len: usize = plaintext.len();
    if len as u64 > primitives::MAX_SEALED_PLAINTEXT || len > isize::MAX as usize - 28 {
        return Err(OrchardPayCryptoError::Encryption);
    }
    match primitives::aes_gcm_encrypt(shared_key, nonce, plaintext) {
        Ok(ciphertext) => {
            let data: Vec<u8> = frame_sealed(nonce, ciphertext.as_slice());
            assert(data@.take(12) =~= nonce@);
            assert(data@.skip(12) =~= ciphertext@);
            Ok(data)
        },
        Err(_) => Err(OrchardPayCryptoError::Encryption),
    }
}

/// Decrypts what [`encrypt`] returned, under the same key.
pub fn decrypt(shared_key: &[u8; 32], data: &[u8]) -> (plaintext: Result<
    Vec<u8>,
    OrchardPayCryptoError,
>)
    ensures
        match plaintext {
            Ok(p) => opened(shared_key@, data@) == Some(p@),
            Err(e) => opened(shared_key@, data@) is None && e
                == OrchardPayCryptoError::Decryption,
        },
{
    match split_sealed(data) {
        None => Err(OrchardPayCryptoError::Decryption),
        Some((nonce, ciphertext)) => match primitives::aes_gcm_decrypt(
            shared_key,
            &nonce,
            ciphertext.as_slice(),
        ) {
            Ok(plaintext) => Ok(plaintext),
            Err(_) => Err(OrchardPayCryptoError::Decryption),
        },
    }
}

/// Context of the key that authenticates silent-payment memos; it keeps that key
/// apart from the one that messages are sealed under.
pub const OPP2_MAC_KEY_INFO: &'static str = "orchardpay-opp2-mac-v1";

/// Length of the truncated tag in a silent-payment memo.
pub const OPP2_MAC_LEN: usize = 28;

/// The four bytes of a number, the most significant first.
pub open spec fn be_bytes(value: u32) -> Seq<u8> {
    seq![
        (value / 0x100_0000) as u8,
        (value / 0x1_0000 % 0x100) as u8,
        (value / 0x100 % 0x100) as u8,
        (value % 0x100) as u8,
    ]
}

/// The four bytes of a number, the most significant first.
pub fn to_be_bytes(value: u32) -> (bytes: [u8; 4])
    ensures
        bytes@ == be_bytes(value),
{
    let bytes: [u8; 4] = [
        (value / 0x100_0000) as u8,
        (value / 0x1_0000 % 0x100) as u8,
        (value / 0x100 % 0x100) as u8,
        (value % 0x100) as u8,
    ];
    assert(bytes@ =~= be_bytes(value));
    bytes
}

/// The number that four bytes spell, the most significant first.
pub open spec fn spelled_by(bytes: Seq<u8>) -> int {
    bytes[0] * 0x100_0000 + bytes[1] * 0x1_0000 + bytes[2] * 0x100 + bytes[3]
}

/// Reading the four bytes of a number gives the number back.
pub proof fn be_bytes_round_trip(value: u32)
    ensures
        spelled_by(be_bytes(value)) == value,
{
    let a = value / 0x100_0000;
    let b = value / 0x1_0000 % 0x100;
    let c = value / 0x100 % 0x100;
    let d = value % 0x100;
    assert(a < 0x100 && b < 0x100 && c < 0x100 && d < 0x100);
    assert(be_bytes(value)[0] == a && be_bytes(value)[1] == b);
    assert(be_bytes(value)[2] == c && be_bytes(value)[3] == d);
}

/// The key for silent-payment memos that comes of a shared secret.
pub open spec fn opp2_mac_key(secret: Seq<u8>) -> Seq<u8> {
    primitives::hkdf_sha256(secret, vstd::utf8::encode_utf8(OPP2_MAC_KEY_INFO@))
}

/// The key that authenticates the silent-payment memos of one relationship,
/// derived from the secret its two parties share: the same on either side.
pub fn derive_opp2_mac_key(shared_key: &[u8; 32]) -> (mac_key: [u8; 32])
    ensures
        mac_key@ == opp2_mac_key(shared_key@),
{
    primitives::hkdf_sha256_expand(shared_key, OPP2_MAC_KEY_INFO.as_bytes())
}

/// The first 28 bytes of a 32-byte tag.
pub fn truncate_opp2_mac(full: &[u8; 32]) -> (mac: [u8; 28])
    ensures
        mac@ == full@.take(28),
{
    let mut mac: [u8; 28] = [0u8; 28];
    let mut i: usize = 0;
    while i < 28
        invariant
            i <= 28,
            forall|j: int| 0 <= j < i ==> #[trigger] mac@[j] == full@[j],
        decreases 28 - i,
    {
        mac[i] = full[i];
        i = i + 1;
    }
    assert(mac@ =~= full@.take(28));
    mac
}

/// The tag of a memo with this timestamp under this key.
pub open spec fn opp2_mac(mac_key: Seq<u8>, timestamp: u32) -> Seq<u8> {
    primitives::hmac_sha256(mac_key, be_bytes(timestamp)).take(28)
}

/// The truncated tag over a silent-payment memo's timestamp.
pub fn compute_opp2_mac(mac_key: &[u8; 32], timestamp: u32) -> (mac: [u8; 28])
    ensures
        mac@ == opp2_mac(mac_key@, timestamp),
{
    let full: [u8; 32] = primitives::hmac_sha256_tag(mac_key, &to_be_bytes(timestamp));
    truncate_opp2_mac(&full)
}

/// The first six bytes of a digest in hexadecimal.
pub fn fingerprint_text(digest: &[u8; 32]) -> (text: String)
    ensures
        text@ == primitives::hex_text(digest@.take(6)),
        text@.len() == 12,
{
    let mut head: Vec<u8> = Vec::new();
    let mut i: usize = 0;
    while i < 6
        invariant
            i <= 6,
            head@ == digest@.take(i as int),
        decreases 6 - i,
    {
        assert(digest@.take(i + 1) =~= digest@.take(i as int).push(digest@[i as int]));
        head.push(digest[i]);
        i = i + 1;
    }
    primitives::hex_encode(head.as_slice())
}

/// The fingerprint of a memo with this timestamp and tag.
pub open spec fn opp2_fingerprint(timestamp: u32, mac: Seq<u8>) -> Seq<char> {
    primitives::hex_text(primitives::sha256(be_bytes(timestamp) + mac).take(6))
}

/// A short name for one silent-payment memo: twelve hexadecimal digits over its
/// timestamp and tag.
pub fn opp2_memo_fingerprint(timestamp: u32, mac: &[u8; 28]) -> (text: String)
    ensures
        text@ == opp2_fingerprint(timestamp, mac@),
        text@.len() == 12,
{
    let mut data: Vec<u8> = Vec::new();
    append(&mut data, &to_be_bytes(timestamp));
    append(&mut data, mac);
    assert(data@ =~= be_bytes(timestamp) + mac@);
    fingerprint_text(&primitives::sha256_digest(data.as_slice()))
}

/// What a contact anchor says to the counterparty. Only `reference_id` is
/// mandatory.
#[derive(Debug, Clone, PartialEq)]
pub struct ContactAnchorPayload {
    pub reference_id: [u8; 32],
    /// The extended public key for core payments, already encrypted.
    pub core_payment_xpub: Option<Vec<u8>>,
    pub dedicated_shielded_address: Option<Vec<u8>>,
    pub initial_message: Option<Vec<u8>>,
}

/// The contents of a [`ContactAnchorPayload`].
pub ghost struct AnchorPayloadView {
    pub reference_id: Seq<u8>,
    pub core_payment_xpub: Option<Seq<u8>>,
    pub dedicated_shielded_address: Option<Seq<u8>>,
    pub initial_message: Option<Seq<u8>>,
}

impl AnchorPayloadView {
    /// Its encoding.
    pub open spec fn encoded(self) -> Seq<u8> {
        codec::encoded_payload(
            self.reference_id,
            self.core_payment_xpub,
            self.dedicated_shielded_address,
            self.initial_message,
        )
    }

    /// The length of its encoding.
    pub open spec fn encoded_len(self) -> nat {
        32 + codec::optional_bytes_len(self.core_payment_xpub) + codec::optional_bytes_len(
            self.dedicated_shielded_address,
        ) + codec::optional_bytes_len(self.initial_message)
    }

    /// The payload that `bytes` begin with.
    pub open spec fn decoded(bytes: Seq<u8>) -> Option<AnchorPayloadView> {
        match codec::decoded_payload(bytes) {
            None => None,
            Some((reference_id, a, b, c)) => Some(
                AnchorPayloadView {
                    reference_id,
                    core_payment_xpub: a,
                    dedicated_shielded_address: b,
                    initial_message: c,
                },
            ),
        }
    }

    /// What sealed data holds.
    pub open spec fn decrypted(key: Seq<u8>, data: Seq<u8>) -> Result<
        AnchorPayloadView,
        OrchardPayCryptoError,
    > {
        match opened(key, data) {
            None => Err(OrchardPayCryptoError::Decryption),
            Some(plaintext) => match AnchorPayloadView::decoded(plaintext) {
                None => Err(OrchardPayCryptoError::Malformed),
                Some(payload) => Ok(payload),
            },
        }
    }
}

impl View for ContactAnchorPayload {
    type V = AnchorPayloadView;

    open spec fn view(&self) -> AnchorPayloadView {
        AnchorPayloadView {
            reference_id: self.reference_id@,
            core_payment_xpub: codec::view_bytes(self.core_payment_xpub),
            dedicated_shielded_address: codec::view_bytes(self.dedicated_shielded_address),
            initial_message: codec::view_bytes(self.initial_message),
        }
    }
}

impl ContactAnchorPayload {
    /// Encodes the payload and encrypts it under `shared_key`. Whoever has that
    /// key reads the same payload back.
    pub fn encrypt(&self, shared_key: &[u8; 32]) -> (data: Result<Vec<u8>, OrchardPayCryptoError>)
        ensures
            match data {
                Ok(d) => {
                    &&& primitives::sealable(self@.encoded_len())
                    &&& seals(shared_key@, self@.encoded(), d@)
                    &&& d@.len() == 28 + self@.encoded_len()
                    &&& AnchorPayloadView::decrypted(shared_key@, d@) == Ok::<
                        AnchorPayloadView,
                        OrchardPayCryptoError,
                    >(self@)
                },
                Err(e) => !primitives::sealable(self@.encoded_len()) && e
                    == OrchardPayCryptoError::Encryption,
            },
    {
        let size: u128 = 32 + sizes::optional_bytes_size(&self.core_payment_xpub)
            + sizes::optional_bytes_size(&self.dedicated_shielded_address)
            + sizes::optional_bytes_size(&self.initial_message);
        if size > isize::MAX as u128 {
            return Err(OrchardPayCryptoError::Encryption);
        }
        match codec::encode_payload(
            &self.reference_id,
            &self.core_payment_xpub,
            &self.dedicated_shielded_address,
            &self.initial_message,
        ) {
            Err(_) => Err(OrchardPayCryptoError::Malformed),
            Ok(plaintext) => {
                assert(plaintext@ + Seq::<u8>::empty() =~= plaintext@);
                assert(AnchorPayloadView::decoded(plaintext@ + Seq::<u8>::empty()) == Some(self@));
                encrypt(shared_key, plaintext.as_slice())
            },
        }
    }

    /// Decrypts and decodes what [`Self::encrypt`] returned.
    pub fn decrypt(shared_key: &[u8; 32], data: &[u8]) -> (payload: Result<
        Self,
        OrchardPayCryptoError,
    >)
        ensures
            match payload {
                Ok(p) => AnchorPayloadView::decrypted(shared_key@, data@) == Ok::<
                    AnchorPayloadView,
                    OrchardPayCryptoError,
                >(p@),
                Err(e) => AnchorPayloadView::decrypted(shared_key@, data@) == Err::<
                    AnchorPayloadView,
                    OrchardPayCryptoError,
                >(e),
            },
    {
        match decrypt(shared_key, data) {
            Err(e) => Err(e),
            Ok(plaintext) => match codec::decode_payload(plaintext.as_slice()) {
                Err(_) => Err(OrchardPayCryptoError::Malformed),
                Ok((reference_id, a, b, c)) => Ok(
                    ContactAnchorPayload {
                        reference_id,
                        core_payment_xpub: a,
                        dedicated_shielded_address: b,
                        initial_message: c,
                    },
                ),
            },
        }
    }
}

/// What the owner of an anchor notes for themself about the relationship.
#[derive(Debug, Clone, PartialEq)]
pub struct AnchorDataRecord {
    pub counterparty_identity_id: [u8; 32],
    /// The counterparty's name when contact was established.
    pub counterparty_name_snapshot: Option<String>,
    pub my_reference_id: [u8; 32],
    /// `None` until the counterparty's return signal has been read.
    pub their_reference_id: Option<[u8; 32]>,
    pub my_initial_message: Option<Vec<u8>>,
    pub my_core_payment_xpub: Option<Vec<u8>>,
    pub my_dedicated_shielded_address: Option<Vec<u8>>,
    /// The counterparty's public key for what they send.
    pub counterparty_encryption_pubkey: Option<Vec<u8>>,
    /// The counterparty's public key for what is sent to them.
    pub counterparty_decryption_pubkey: Option<Vec<u8>>,
}

/// The contents of an [`AnchorDataRecord`].
pub ghost struct AnchorRecordView {
    pub counterparty_identity_id: Seq<u8>,
    pub counterparty_name_snapshot: Option<Seq<char>>,
    pub my_reference_id: Seq<u8>,
    pub their_reference_id: Option<Seq<u8>>,
    pub my_initial_message: Option<Seq<u8>>,
    pub my_core_payment_xpub: Option<Seq<u8>>,
    pub my_dedicated_shielded_address: Option<Seq<u8>>,
    pub counterparty_encryption_pubkey: Option<Seq<u8>>,
    pub counterparty_decryption_pubkey: Option<Seq<u8>>,
}

impl AnchorRecordView {
    /// Its encoding.
    pub open spec fn encoded(self) -> Seq<u8> {
        codec::encoded_record(
            self.counterparty_identity_id,
            self.counterparty_name_snapshot,
            self.my_reference_id,
            self.their_reference_id,
            self.my_initial_message,
            self.my_core_payment_xpub,
            self.my_dedicated_shielded_address,
            self.counterparty_encryption_pubkey,
            self.counterparty_decryption_pubkey,
        )
    }

    /// The length of its encoding.
    pub open spec fn encoded_len(self) -> nat {
        64 + codec::optional_text_len(self.counterparty_name_snapshot) + codec::optional_id_len(
            self.their_reference_id,
        ) + codec::optional_bytes_len(self.my_initial_message) + codec::optional_bytes_len(
            self.my_core_payment_xpub,
        ) + codec::optional_bytes_len(self.my_dedicated_shielded_address)
            + codec::optional_bytes_len(self.counterparty_encryption_pubkey)
            + codec::optional_bytes_len(self.counterparty_decryption_pubkey)
    }

    /// The record that `bytes` begin with.
    pub open spec fn decoded(bytes: Seq<u8>) -> Option<AnchorRecordView> {
        match codec::decoded_record(bytes) {
            None => None,
            Some((counterparty, name, mine, theirs, a, b, c, d, e)) => Some(
                AnchorRecordView {
                    counterparty_identity_id: counterparty,
                    counterparty_name_snapshot: name,
                    my_reference_id: mine,
                    their_reference_id: theirs,
                    my_initial_message: a,
                    my_core_payment_xpub: b,
                    my_dedicated_shielded_address: c,
                    counterparty_encryption_pubkey: d,
                    counterparty_decryption_pubkey: e,
                },
            ),
        }
    }

    /// What sealed data holds.
    pub open spec fn decrypted(key: Seq<u8>, data: Seq<u8>) -> Result<
        AnchorRecordView,
        OrchardPayCryptoError,
    > {
        match opened(key, data) {
            None => Err(OrchardPayCryptoError::Decryption),
            Some(plaintext) => match AnchorRecordView::decoded(plaintext) {
                None => Err(OrchardPayCryptoError::Malformed),
                Some(record) => Ok(record),
            },
        }
    }
}

impl View for AnchorDataRecord {
    type V = AnchorRecordView;

    open spec fn view(&self) -> AnchorRecordView {
        AnchorRecordView {
            counterparty_identity_id: self.counterparty_identity_id@,
            counterparty_name_snapshot: codec::view_text(self.counterparty_name_snapshot),
            my_reference_id: self.my_reference_id@,
            their_reference_id: codec::view_id(self.their_reference_id),
            my_initial_message: codec::view_bytes(self.my_initial_message),
            my_core_payment_xpub: codec::view_bytes(self.my_core_payment_xpub),
            my_dedicated_shielded_address: codec::view_bytes(self.my_dedicated_shielded_address),
            counterparty_encryption_pubkey: codec::view_bytes(self.counterparty_encryption_pubkey),
            counterparty_decryption_pubkey: codec::view_bytes(self.counterparty_decryption_pubkey),
        }
    }
}

impl AnchorDataRecord {
    /// Encodes the record and encrypts it under the wallet's own key for such
    /// records, with which it can be read back.
    pub fn encrypt(&self, anchor_data_key: &[u8; 32]) -> (data: Result<
        Vec<u8>,
        OrchardPayCryptoError,
    >)
        ensures
            match data {
                Ok(d) => {
                    &&& primitives::sealable(self@.encoded_len())
                    &&& seals(anchor_data_key@, self@.encoded(), d@)
                    &&& d@.len() == 28 + self@.encoded_len()
                    &&& AnchorRecordView::decrypted(anchor_data_key@, d@) == Ok::<
                        AnchorRecordView,
                        OrchardPayCryptoError,
                    >(self@)
                },
                Err(e) => !primitives::sealable(self@.encoded_len()) && e
                    == OrchardPayCryptoError::Encryption,
            },
    {
        let size: u128 = 64 + sizes::optional_text_size(&self.counterparty_name_snapshot)
            + sizes::optional_id_size(&self.their_reference_id) + sizes::optional_bytes_size(
            &self.my_initial_message,
        ) + sizes::optional_bytes_size(&self.my_core_payment_xpub) + sizes::optional_bytes_size(
            &self.my_dedicated_shielded_address,
        ) + sizes::optional_bytes_size(&self.counterparty_encryption_pubkey)
            + sizes::optional_bytes_size(&self.counterparty_decryption_pubkey);
        if size > isize::MAX as u128 {
            return Err(OrchardPayCryptoError::Encryption);
        }
        match codec::encode_record(
            &self.counterparty_identity_id,
            &self.counterparty_name_snapshot,
            &self.my_reference_id,
            &self.their_reference_id,
            &self.my_initial_message,
            &self.my_core_payment_xpub,
            &self.my_dedicated_shielded_address,
            &self.counterparty_encryption_pubkey,
            &self.counterparty_decryption_pubkey,
        ) {
            Err(_) => Err(OrchardPayCryptoError::Malformed),
            Ok(plaintext) => {
                assert(plaintext@ + Seq::<u8>::empty() =~= plaintext@);
                assert(AnchorRecordView::decoded(plaintext@ + Seq::<u8>::empty()) == Some(self@));
                encrypt(anchor_data_key, plaintext.as_slice())
            },
        }
    }

    /// Decrypts and decodes what [`Self::encrypt`] returned.
    pub fn decrypt(anchor_data_key: &[u8; 32], data: &[u8]) -> (record: Result<
        Self,
        OrchardPayCryptoError,
    >)
        ensures
            match record {
                Ok(r) => AnchorRecordView::decrypted(anchor_data_key@, data@) == Ok::<
                    AnchorRecordView,
                    OrchardPayCryptoError,
                >(r@),
                Err(e) => AnchorRecordView::decrypted(anchor_data_key@, data@) == Err::<
                    AnchorRecordView,
                    OrchardPayCryptoError,
                >(e),
            },
    {
        match decrypt(anchor_data_key, data) {
            Err(e) => Err(e),
            Ok(plaintext) => match codec::decode_record(plaintext.as_slice()) {
                Err(_) => Err(OrchardPayCryptoError::Malformed),
                Ok((counterparty, name, mine, theirs, a, b, c, d, e)) => Ok(
                    AnchorDataRecord {
                        counterparty_identity_id: counterparty,
                        counterparty_name_snapshot: name,
                        my_reference_id: mine,
                        their_reference_id: theirs,
                        my_initial_message: a,
                        my_core_payment_xpub: b,
                        my_dedicated_shielded_address: c,
                        counterparty_encryption_pubkey: d,
                        counterparty_decryption_pubkey: e,
                    },
                ),
            },
        }
    }
}

/// What an encrypted message says. The variant is the only type tag there is.
#[derive(Debug, Clone, PartialEq)]
pub enum MessageContent {
    /// A plain text message.
    Message { data: String },
    /// A transfer of value, with the amount in credits that the sender claims.
    Payment { amount: u64, memo: Option<String> },
    /// A standing request for payment.
    PaymentRequest { amount: u64, memo: Option<String> },
    /// The payer's own record of a request they paid. It is never shown as a
    /// message; it serves to notice when the request changes afterwards.
    PaymentRequestReceipt {
        /// The document of the request.
        original_document_id: [u8; 32],
        amount: u64,
        memo: Option<String>,
        /// When the request was created.
        original_created_at: Option<u64>,
    },
}

/// The contents of a [`MessageContent`].
pub ghost enum ContentView {
    Message { data: Seq<char> },
    Payment { amount: u64, memo: Option<Seq<char>> },
    PaymentRequest { amount: u64, memo: Option<Seq<char>> },
    PaymentRequestReceipt {
        original_document_id: Seq<u8>,
        amount: u64,
        memo: Option<Seq<char>>,
        original_created_at: Option<u64>,
    },
}

/// The longest encoding of a message content that is encrypted.
pub const MAX_MESSAGE_PLAINTEXT_LEN: usize = 5000;

/// Shorter encodings are padded with zeros to this length, so that the length of
/// a ciphertext does not tell the short kinds apart.
pub const MESSAGE_PADDING_FLOOR: usize = 64;

impl ContentView {
    /// Its encoding: the variant's index, then the variant's fields.
    pub open spec fn encoded(self) -> Seq<u8> {
        match self {
            ContentView::Message { data } => codec::encoded_text(0, data),
            ContentView::Payment { amount, memo } => codec::encoded_amount(1, amount, memo),
            ContentView::PaymentRequest { amount, memo } => codec::encoded_amount(2, amount, memo),
            ContentView::PaymentRequestReceipt {
                original_document_id,
                amount,
                memo,
                original_created_at,
            } => codec::encoded_receipt(3, original_document_id, amount, memo, original_created_at),
        }
    }

    /// The length of its encoding.
    pub open spec fn encoded_len(self) -> nat {
        match self {
            ContentView::Message { data } => 1 + codec::text_len(data),
            ContentView::Payment { amount, memo } => 1 + codec::varint_len(amount as nat)
                + codec::optional_text_len(memo),
            ContentView::PaymentRequest { amount, memo } => 1 + codec::varint_len(amount as nat)
                + codec::optional_text_len(memo),
            ContentView::PaymentRequestReceipt { amount, memo, original_created_at, .. } => 33
                + codec::varint_len(amount as nat) + codec::optional_text_len(memo)
                + codec::optional_integer_len(original_created_at),
        }
    }

    /// The content that `bytes` begin with.
    pub open spec fn decoded(bytes: Seq<u8>) -> Option<ContentView> {
        match codec::decoded_tag(bytes) {
            None => None,
            Some(tag) => if tag == 0 {
                match codec::decoded_text(bytes) {
                    None => None,
                    Some((_, data)) => Some(ContentView::Message { data }),
                }
            } else if tag == 1 {
                match codec::decoded_amount(bytes) {
                    None => None,
                    Some((_, amount, memo)) => Some(ContentView::Payment { amount, memo }),
                }
            } else if tag == 2 {
                match codec::decoded_amount(bytes) {
                    None => None,
                    Some((_, amount, memo)) => Some(ContentView::PaymentRequest { amount, memo }),
                }
            } else if tag == 3 {
                match codec::decoded_receipt(bytes) {
                    None => None,
                    Some((_, original_document_id, amount, memo, original_created_at)) => Some(
                        ContentView::PaymentRequestReceipt {
                            original_document_id,
                            amount,
                            memo,
                            original_created_at,
                        },
                    ),
                }
            } else {
                None
            },
        }
    }

    /// What sealed data holds.
    pub open spec fn decrypted(key: Seq<u8>, data: Seq<u8>) -> Result<
        ContentView,
        OrchardPayCryptoError,
    > {
        match opened(key, data) {
            None => Err(OrchardPayCryptoError::Decryption),
            Some(plaintext) => match ContentView::decoded(plaintext) {
                None => Err(OrchardPayCryptoError::Malformed),
                Some(content) => Ok(content),
            },
        }
    }

    /// A content that carries no memo, or a text of at most 62 bytes.
    pub open spec fn is_short(self) -> bool {
        match self {
            ContentView::Message { data } => vstd::utf8::encode_utf8(data).len() <= 62,
            ContentView::Payment { memo, .. } => memo is None,
            ContentView::PaymentRequest { memo, .. } => memo is None,
            ContentView::PaymentRequestReceipt { memo, .. } => memo is None,
        }
    }
}

impl View for MessageContent {
    type V = ContentView;

    open spec fn view(&self) -> ContentView {
        match *self {
            MessageContent::Message { data } => ContentView::Message { data: data@ },
            MessageContent::Payment { amount, memo } => ContentView::Payment {
                amount,
                memo: codec::view_text(memo),
            },
            MessageContent::PaymentRequest { amount, memo } => ContentView::PaymentRequest {
                amount,
                memo: codec::view_text(memo),
            },
            MessageContent::PaymentRequestReceipt {
                original_document_id,
                amount,
                memo,
                original_created_at,
            } => ContentView::PaymentRequestReceipt {
                original_document_id: original_document_id@,
                amount,
                memo: codec::view_text(memo),
                original_created_at,
            },
        }
    }
}

/// `bytes` with zeros up to the padding floor.
pub open spec fn padded(bytes: Seq<u8>) -> Seq<u8> {
    if bytes.len() >= MESSAGE_PADDING_FLOOR {
        bytes
    } else {
        bytes + Seq::new((MESSAGE_PADDING_FLOOR - bytes.len()) as nat, |i: int| 0u8)
    }
}

/// The length of an encrypted content whose encoding has length `len`.
pub open spec fn encrypted_len(len: nat) -> nat {
    12 + (if len >= MESSAGE_PADDING_FLOOR {
        len
    } else {
        MESSAGE_PADDING_FLOOR as nat
    }) + 16
}

/// Rejects an encoding over the size limit and pads a short one.
pub fn pad_message(encoded: Vec<u8>) -> (plaintext: Result<Vec<u8>, OrchardPayCryptoError>)
    ensures
        match plaintext {
            Ok(p) => encoded@.len() <= MAX_MESSAGE_PLAINTEXT_LEN && p@ == padded(encoded@),
            Err(e) => encoded@.len() > MAX_MESSAGE_PLAINTEXT_LEN && e
                == OrchardPayCryptoError::PayloadTooLarge,
        },
{
    if encoded.len() > MAX_MESSAGE_PLAINTEXT_LEN {
        return Err(OrchardPayCryptoError::PayloadTooLarge);
    }
    let ghost start = encoded@;
    let mut plaintext: Vec<u8> = encoded;
    while plaintext.len() < MESSAGE_PADDING_FLOOR
        invariant
            start.len() <= plaintext@.len(),
            plaintext@.len() <= MESSAGE_PADDING_FLOOR || plaintext@ == start,
            plaintext@ == start + Seq::new((plaintext@.len() - start.len()) as nat, |i: int| 0u8),
        decreases MESSAGE_PADDING_FLOOR - plaintext@.len(),
    {
        plaintext.push(0);
    }
    assert(plaintext@ =~= padded(start));
    Ok(plaintext)
}

impl MessageContent {
    /// The length of its encoding.
    pub fn encoded_size(&self) -> (size: u128)
        ensures
            size == self@.encoded_len(),
    {
        match self {
            MessageContent::Message { data } => 1 + sizes::text_size(data.as_str()),
            MessageContent::Payment { amount, memo } => 1 + sizes::integer_size(*amount)
                + sizes::optional_text_size(memo),
            MessageContent::PaymentRequest { amount, memo } => 1 + sizes::integer_size(*amount)
                + sizes::optional_text_size(memo),
            MessageContent::PaymentRequestReceipt { amount, memo, original_created_at, .. } => 33
                + sizes::integer_size(*amount) + sizes::optional_text_size(memo)
                + sizes::optional_integer_size(*original_created_at),
        }
    }

    /// Encodes the content, pads it and encrypts it under the secret that the
    /// two parties share, with which either reads the same content back.
    pub fn encrypt(&self, shared_key: &[u8; 32]) -> (data: Result<Vec<u8>, OrchardPayCryptoError>)
        ensures
            match data {
                Ok(d) => {
                    &&& self@.encoded_len() <= MAX_MESSAGE_PLAINTEXT_LEN
                    &&& seals(shared_key@, padded(self@.encoded()), d@)
                    &&& d@.len() == encrypted_len(self@.encoded_len())
                    &&& ContentView::decrypted(shared_key@, d@) == Ok::<
                        ContentView,
                        OrchardPayCryptoError,
                    >(self@)
                },
                Err(e) => self@.encoded_len() > MAX_MESSAGE_PLAINTEXT_LEN && e
                    == OrchardPayCryptoError::PayloadTooLarge,
            },
    {
        if self.encoded_size() > MAX_MESSAGE_PLAINTEXT_LEN as u128 {
            return Err(OrchardPayCryptoError::PayloadTooLarge);
        }
        let encoded: Result<Vec<u8>, bincode::error::EncodeError> = match self {
            MessageContent::Message { data } => codec::encode_text(0, data),
            MessageContent::Payment { amount, memo } => codec::encode_amount(1, *amount, memo),
            MessageContent::PaymentRequest { amount, memo } => codec::encode_amount(
                2,
                *amount,
                memo,
            ),
            MessageContent::PaymentRequestReceipt {
                original_document_id,
                amount,
                memo,
                original_created_at,
            } => codec::encode_receipt(
                3,
                original_document_id,
                *amount,
                memo,
                *original_created_at,
            ),
        };
        match encoded {
            Err(_) => Err(OrchardPayCryptoError::Malformed),
            Ok(bytes) => {
                let ghost start = bytes@;
                match pad_message(bytes) {
                    Err(e) => Err(e),
                    Ok(plaintext) => {
                        proof {
                            let rest = plaintext@.skip(start.len() as int);
                            assert(start + rest =~= plaintext@);
                            assert(ContentView::decoded(start + rest) == Some(self@));
                        }
                        encrypt(shared_key, plaintext.as_slice())
                    },
                }
            },
        }
    }

    /// Decrypts and decodes what [`Self::encrypt`] returned. Padding behind the
    /// content is not looked at.
    pub fn decrypt(shared_key: &[u8; 32], data: &[u8]) -> (content: Result<
        Self,
        OrchardPayCryptoError,
    >)
        ensures
            match content {
                Ok(c) => ContentView::decrypted(shared_key@, data@) == Ok::<
                    ContentView,
                    OrchardPayCryptoError,
                >(c@),
                Err(e) => ContentView::decrypted(shared_key@, data@) == Err::<
                    ContentView,
                    OrchardPayCryptoError,
                >(e),
            },
    {
        match decrypt(shared_key, data) {
            Err(e) => Err(e),
            Ok(plaintext) => match decode_content(plaintext.as_slice()) {
                None => Err(OrchardPayCryptoError::Malformed),
                Some(content) => Ok(content),
            },
        }
    }
}

/// The content that a plaintext begins with.
pub fn decode_content(plaintext: &[u8]) -> (content: Option<MessageContent>)
    ensures
        match content {
            Some(c) => ContentView::decoded(plaintext@) == Some(c@),
            None => ContentView::decoded(plaintext@) is None,
        },
{
    match codec::decode_tag(plaintext) {
        Err(_) => None,
        Ok(tag) => if tag == 0 {
            match codec::decode_text(plaintext) {
                Err(_) => None,
                Ok((_, data)) => Some(MessageContent::Message { data }),
            }
        } else if tag == 1 {
            match codec::decode_amount(plaintext) {
                Err(_) => None,
                Ok((_, amount, memo)) => Some(MessageContent::Payment { amount, memo }),
            }
        } else if tag == 2 {
            match codec::decode_amount(plaintext) {
                Err(_) => None,
                Ok((_, amount, memo)) => Some(MessageContent::PaymentRequest { amount, memo }),
            }
        } else if tag == 3 {
            match codec::decode_receipt(plaintext) {
                Err(_) => None,
                Ok((_, original_document_id, amount, memo, original_created_at)) => Some(
                    MessageContent::PaymentRequestReceipt {
                        original_document_id,
                        amount,
                        memo,
                        original_created_at,
                    },
                ),
            }
        } else {
            None
        },
    }
}

/// Contents without a memo and short texts all have ciphertexts of one length,
/// whatever their kind.
pub proof fn short_contents_share_a_length(a: ContentView, b: ContentView)
    requires
        a.is_short(),
        b.is_short(),
    ensures
        encrypted_len(a.encoded_len()) == 92,
        encrypted_len(a.encoded_len()) == encrypted_len(b.encoded_len()),
{
}

/// Padding only adds to an encoding: what was there stays in front.
pub proof fn padding_keeps_the_encoding(bytes: Seq<u8>)
    ensures
        padded(bytes).len() >= MESSAGE_PADDING_FLOOR,
        padded(bytes).len() >= bytes.len(),
        padded(bytes).take(bytes.len() as int) == bytes,
        bytes.len() >= MESSAGE_PADDING_FLOOR ==> padded(bytes) == bytes,
{
    assert(padded(bytes).take(bytes.len() as int) =~= bytes);
}

/// A number is spelled with its most significant byte first, in four bytes.
pub proof fn numbers_are_spelled_from_the_top(value: u32)
    ensures
        be_bytes(value).len() == 4,
        be_bytes(value)[0] * 0x100_0000 + be_bytes(value)[1] * 0x1_0000 + be_bytes(value)[2]
            * 0x100 + be_bytes(value)[3] == value,
{
    be_bytes_round_trip(value);
    assert(be_bytes(value)[0] == value / 0x100_0000);
    assert(be_bytes(value)[1] == value / 0x1_0000 % 0x100);
    assert(be_bytes(value)[2] == value / 0x100 % 0x100);
    assert(be_bytes(value)[3] == value % 0x100);
}

/// Sealed data begins with its nonce, twelve bytes of it; data too short for that
/// opens to nothing, and other data to what the cipher makes of the rest.
pub proof fn nonces_come_first(key: Seq<u8>, nonce: Seq<u8>, rest: Seq<u8>, short: Seq<u8>)
    requires
        nonce.len() == 12,
        short.len() < 12,
    ensures
        opened(key, nonce + rest) == primitives::aes_gcm_opened(key, nonce, rest),
        opened(key, short) is None,
{
    assert((nonce + rest).take(12) =~= nonce);
    assert((nonce + rest).skip(12) =~= rest);
}

/// What seals a plaintext is 28 bytes longer than it, opens to it, and to nothing
/// else.
pub proof fn sealing_is_undone_by_opening(key: Seq<u8>, plaintext: Seq<u8>, data: Seq<u8>)
    requires
        seals(key, plaintext, data),
    ensures
        data.len() == plaintext.len() + 28,
        primitives::aes_gcm_opened(key, data.take(12), data.skip(12)) == Some(plaintext),
        data == data.take(12) + primitives::aes_gcm_sealed(key, data.take(12), plaintext),
{
    assert(data =~= data.take(12) + data.skip(12));
}

/// The key for silent-payment memos is derived under a context of its own; a tag is
/// the first 28 bytes of what the timestamp is authenticated with, most significant
/// byte first.
pub proof fn memo_tags_authenticate_the_time(secret: Seq<u8>, mac_key: Seq<u8>, timestamp: u32)
    ensures
        opp2_mac_key(secret) == primitives::hkdf_sha256(
            secret,
            vstd::utf8::encode_utf8("orchardpay-opp2-mac-v1"@),
        ),
        opp2_mac(mac_key, timestamp) == primitives::hmac_sha256(
            mac_key,
            seq![
                (timestamp / 0x100_0000) as u8,
                (timestamp / 0x1_0000 % 0x100) as u8,
                (timestamp / 0x100 % 0x100) as u8,
                (timestamp % 0x100) as u8,
            ],
        ).subrange(0, 28),
{
}

/// A fingerprint spells the first six bytes of the digest over the timestamp and the
/// tag: each byte by its two hexadecimal digits, the high one first.
pub proof fn fingerprints_spell_a_digest(timestamp: u32, mac: Seq<u8>, i: int)
    requires
        0 <= i < 6,
        primitives::sha256(be_bytes(timestamp) + mac).len() == 32,
    ensures
        opp2_fingerprint(timestamp, mac).len() == 12,
        ({
            let byte = primitives::sha256(be_bytes(timestamp) + mac)[i] as int;
            let high = opp2_fingerprint(timestamp, mac)[2 * i];
            let low = opp2_fingerprint(timestamp, mac)[2 * i + 1];
            &&& "0123456789abcdef"@[byte / 16] == high
            &&& "0123456789abcdef"@[byte % 16] == low
        }),
{
    reveal_strlit("0123456789abcdef");
    let byte = primitives::sha256(be_bytes(timestamp) + mac)[i] as int;
    assert((2 * i) % 2 == 0 && (2 * i) / 2 == i);
    assert((2 * i + 1) % 2 == 1 && (2 * i + 1) / 2 == i);
    assert(0 <= byte / 16 < 16 && 0 <= byte % 16 < 16);
}

/// Sealed data that does not open is a failure of decryption, and what opens but
/// does not decode is malformed; everything else is read as it was encoded.
pub proof fn failures_to_read_are_told_apart(key: Seq<u8>, data: Seq<u8>)
    ensures
        opened(key, data) is None <==> (ContentView::decrypted(key, data) == Err::<
            ContentView,
            OrchardPayCryptoError,
        >(OrchardPayCryptoError::Decryption)),
        opened(key, data) is None <==> (AnchorPayloadView::decrypted(key, data) == Err::<
            AnchorPayloadView,
            OrchardPayCryptoError,
        >(OrchardPayCryptoError::Decryption)),
        opened(key, data) is None <==> (AnchorRecordView::decrypted(key, data) == Err::<
            AnchorRecordView,
            OrchardPayCryptoError,
        >(OrchardPayCryptoError::Decryption)),
        opened(key, data) matches Some(plaintext) ==> {
            &&& ContentView::decrypted(key, data) is Ok <==> ContentView::decoded(plaintext) is Some
            &&& ContentView::decrypted(key, data) matches Ok(content)
                ==> ContentView::decoded(plaintext) == Some(content)
            &&& ContentView::decrypted(key, data) matches Err(e) ==> e
                == OrchardPayCryptoError::Malformed
            &&& AnchorPayloadView::decrypted(key, data) is Ok <==> codec::decoded_payload(
                plaintext,
            ) is Some
            &&& AnchorPayloadView::decrypted(key, data) matches Ok(payload)
                ==> codec::decoded_payload(plaintext) == Some(
                (
                    payload.reference_id,
                    payload.core_payment_xpub,
                    payload.dedicated_shielded_address,
                    payload.initial_message,
                ),
            )
            &&& AnchorPayloadView::decrypted(key, data) matches Err(e) ==> e
                == OrchardPayCryptoError::Malformed
            &&& AnchorRecordView::decrypted(key, data) is Ok <==> codec::decoded_record(
                plaintext,
            ) is Some
            &&& AnchorRecordView::decrypted(key, data) matches Ok(record)
                ==> codec::decoded_record(plaintext) == Some(
                (
                    record.counterparty_identity_id,
                    record.counterparty_name_snapshot,
                    record.my_reference_id,
                    record.their_reference_id,
                    record.my_initial_message,
                    record.my_core_payment_xpub,
                    record.my_dedicated_shielded_address,
                    record.counterparty_encryption_pubkey,
                    record.counterparty_decryption_pubkey,
                ),
            )
            &&& AnchorRecordView::decrypted(key, data) matches Err(e) ==> e
                == OrchardPayCryptoError::Malformed
        },
{
}

/// Each kind of content has an index of its own in front of its fields, by which it
/// is read again; under any other index nothing is read.
pub proof fn kinds_are_told_by_their_index(bytes: Seq<u8>)
    ensures
        ContentView::decoded(bytes) matches Some(content) ==> {
            let tag = codec::decoded_tag(bytes);
            match content {
                ContentView::Message { data } => tag == Some(0u32) && codec::decoded_text(
                    bytes,
                ) is Some && codec::decoded_text(bytes).unwrap().1 == data,
                ContentView::Payment { amount, memo } => tag == Some(1u32)
                    && codec::decoded_amount(bytes) is Some && codec::decoded_amount(
                    bytes,
                ).unwrap().1 == amount && codec::decoded_amount(bytes).unwrap().2 == memo,
                ContentView::PaymentRequest { amount, memo } => tag == Some(2u32)
                    && codec::decoded_amount(bytes) is Some && codec::decoded_amount(
                    bytes,
                ).unwrap().1 == amount && codec::decoded_amount(bytes).unwrap().2 == memo,
                ContentView::PaymentRequestReceipt {
                    original_document_id,
                    amount,
                    memo,
                    original_created_at,
                } => tag == Some(3u32) && codec::decoded_receipt(bytes) is Some
                    && codec::decoded_receipt(bytes).unwrap().1 == original_document_id
                    && codec::decoded_receipt(bytes).unwrap().2 == amount
                    && codec::decoded_receipt(bytes).unwrap().3 == memo
                    && codec::decoded_receipt(bytes).unwrap().4 == original_created_at,
            }
        },
        codec::decoded_tag(bytes) == Some(0u32) && codec::decoded_text(bytes) is Some
            ==> ContentView::decoded(bytes) is Some,
        codec::decoded_tag(bytes) == Some(1u32) && codec::decoded_amount(bytes) is Some
            ==> ContentView::decoded(bytes) is Some,
        codec::decoded_tag(bytes) == Some(2u32) && codec::decoded_amount(bytes) is Some
            ==> ContentView::decoded(bytes) is Some,
        codec::decoded_tag(bytes) == Some(3u32) && codec::decoded_receipt(bytes) is Some
            ==> ContentView::decoded(bytes) is Some,
{
}

/// An encoding names the kind by its index and carries every field.
pub proof fn encodings_carry_every_field(
    text: Seq<char>,
    amount: u64,
    memo: Option<Seq<char>>,
    document: Seq<u8>,
    created_at: Option<u64>,
)
    ensures
        (ContentView::Message { data: text }).encoded() == codec::encoded_text(0, text),
        (ContentView::Payment { amount, memo }).encoded() == codec::encoded_amount(1, amount, memo),
        (ContentView::PaymentRequest { amount, memo }).encoded() == codec::encoded_amount(
            2,
            amount,
            memo,
        ),
        (ContentView::PaymentRequestReceipt {
            original_document_id: document,
            amount,
            memo,
            original_created_at: created_at,
        }).encoded() == codec::encoded_receipt(3, document, amount, memo, created_at),
{
}

/// A content is what its fields say.
pub proof fn contents_are_what_they_hold(content: MessageContent)
    ensures
        match content {
            MessageContent::Message { data } => content@ == (ContentView::Message { data: data@ }),
            MessageContent::Payment { amount, memo } => content@ matches ContentView::Payment {
                amount: a,
                memo: m,
            } && a == amount && (m is Some) == (memo is Some) && (memo matches Some(t) ==> m
                == Some(t@)),
            MessageContent::PaymentRequest { amount, memo } =>
                content@ matches ContentView::PaymentRequest { amount: a, memo: m } && a == amount
                && (m is Some) == (memo is Some) && (memo matches Some(t) ==> m == Some(t@)),
            MessageContent::PaymentRequestReceipt {
                original_document_id,
                amount,
                memo,
                original_created_at,
            } => content@ matches ContentView::PaymentRequestReceipt {
                original_document_id: d,
                amount: a,
                memo: m,
                original_created_at: c,
            } && d == original_document_id@ && a == amount && c == original_created_at && (
            m is Some) == (memo is Some) && (memo matches Some(t) ==> m == Some(t@)),
        },
{
}

/// Encodings of less than 64 bytes are filled up with zeros to that length, and
/// longer ones are left as they are.
pub proof fn short_encodings_are_filled_with_zeros(bytes: Seq<u8>, i: int)
    requires
        0 <= i < padded(bytes).len(),
    ensures
        padded(bytes).len() == if bytes.len() < 64 {
            64
        } else {
            bytes.len()
        },
        padded(bytes)[i] == if i < bytes.len() {
            bytes[i]
        } else {
            0u8
        },
        encrypted_len(bytes.len()) == 28 + padded(bytes).len(),
{
}

/// What could not be encrypted, read or decoded is told apart, and a message that is
/// too large is told as that.
pub proof fn sealing_failures_are_told_by_their_cause()
    ensures
        OrchardPayCryptoError::Encryption.spec_message()
            == "The contact request could not be encrypted. Please try again."@,
        OrchardPayCryptoError::Decryption.spec_message()
            == "This contact request could not be read. It may not have been intended for this identity."@,
        OrchardPayCryptoError::Malformed.spec_message()
            == "This contact request appears to be damaged and could not be read."@,
        OrchardPayCryptoError::PayloadTooLarge.spec_message()
            == "This message is too large to send."@,
{
}

} // verus!
