use orchardpay::orchardpay::encryption::{
    compute_opp2_mac, derive_opp2_mac_key, opp2_memo_fingerprint, AnchorDataRecord,
    ContactAnchorPayload, MessageContent, OrchardPayCryptoError, MAX_MESSAGE_PLAINTEXT_LEN,
    MESSAGE_PADDING_FLOOR, NONCE_SIZE, OPP2_MAC_LEN,
};

#[test]
fn payload_round_trips_through_encrypt_decrypt() {
    let shared_key = [7u8; 32];
    let payload = ContactAnchorPayload {
        reference_id: [1u8; 32],
        core_payment_xpub: Some(vec![2u8; 96]),
        dedicated_shielded_address: None,
        initial_message: Some(b"hi".to_vec()),
    };

    let encrypted = payload.encrypt(&shared_key).expect("encrypt succeeds");
    let decrypted =
        ContactAnchorPayload::decrypt(&shared_key, &encrypted).expect("decrypt succeeds");

    assert_eq!(payload, decrypted);
}

#[test]
fn decrypt_fails_under_wrong_key() {
    let payload = ContactAnchorPayload {
        reference_id: [1u8; 32],
        core_payment_xpub: None,
        dedicated_shielded_address: None,
        initial_message: None,
    };
    let encrypted = payload.encrypt(&[7u8; 32]).expect("encrypt succeeds");

    let result = ContactAnchorPayload::decrypt(&[8u8; 32], &encrypted);
    assert_eq!(result, Err(OrchardPayCryptoError::Decryption));
}

#[test]
fn decrypt_rejects_too_short_input() {
    let result = ContactAnchorPayload::decrypt(&[7u8; 32], &[0u8; 4]);
    assert_eq!(result, Err(OrchardPayCryptoError::Decryption));
}

#[test]
fn anchor_data_record_round_trips_through_encrypt_decrypt() {
    let anchor_data_key = [9u8; 32];
    let record = AnchorDataRecord {
        counterparty_identity_id: [3u8; 32],
        counterparty_name_snapshot: Some("bob.dash".to_string()),
        my_reference_id: [1u8; 32],
        their_reference_id: Some([2u8; 32]),
        my_initial_message: Some(b"hi".to_vec()),
        my_core_payment_xpub: Some(vec![4u8; 96]),
        my_dedicated_shielded_address: None,
        counterparty_encryption_pubkey: Some(vec![5u8; 33]),
        counterparty_decryption_pubkey: Some(vec![6u8; 33]),
    };

    let encrypted = record.encrypt(&anchor_data_key).expect("encrypt succeeds");
    let decrypted =
        AnchorDataRecord::decrypt(&anchor_data_key, &encrypted).expect("decrypt succeeds");

    assert_eq!(record, decrypted);
}

#[test]
fn anchor_data_record_decrypt_fails_under_wrong_key() {
    let record = AnchorDataRecord {
        counterparty_identity_id: [3u8; 32],
        counterparty_name_snapshot: None,
        my_reference_id: [1u8; 32],
        their_reference_id: None,
        my_initial_message: None,
        my_core_payment_xpub: None,
        my_dedicated_shielded_address: None,
        counterparty_encryption_pubkey: None,
        counterparty_decryption_pubkey: None,
    };
    let encrypted = record.encrypt(&[9u8; 32]).expect("encrypt succeeds");

    let result = AnchorDataRecord::decrypt(&[10u8; 32], &encrypted);
    assert_eq!(result, Err(OrchardPayCryptoError::Decryption));
}

#[test]
fn message_content_message_round_trips() {
    let shared_key = [11u8; 32];
    let content = MessageContent::Message {
        data: "hi there".to_string(),
    };

    let encrypted = content.encrypt(&shared_key).expect("encrypt succeeds");
    let decrypted = MessageContent::decrypt(&shared_key, &encrypted).expect("decrypt succeeds");

    assert_eq!(content, decrypted);
}

#[test]
fn message_content_payment_round_trips() {
    let shared_key = [12u8; 32];
    let content = MessageContent::Payment {
        amount: 100_000,
        memo: Some("for dinner".to_string()),
    };

    let encrypted = content.encrypt(&shared_key).expect("encrypt succeeds");
    let decrypted = MessageContent::decrypt(&shared_key, &encrypted).expect("decrypt succeeds");

    assert_eq!(content, decrypted);
}

#[test]
fn message_content_payment_request_round_trips() {
    let shared_key = [13u8; 32];
    let content = MessageContent::PaymentRequest {
        amount: 250_000,
        memo: None,
    };

    let encrypted = content.encrypt(&shared_key).expect("encrypt succeeds");
    let decrypted = MessageContent::decrypt(&shared_key, &encrypted).expect("decrypt succeeds");

    assert_eq!(content, decrypted);
}

#[test]
fn message_content_payment_request_receipt_round_trips() {
    let shared_key = [16u8; 32];
    let content = MessageContent::PaymentRequestReceipt {
        original_document_id: [7u8; 32],
        amount: 250_000,
        memo: Some("for dinner".to_string()),
        original_created_at: Some(1_700_000_000_000),
    };

    let encrypted = content.encrypt(&shared_key).expect("encrypt succeeds");
    let decrypted = MessageContent::decrypt(&shared_key, &encrypted).expect("decrypt succeeds");

    assert_eq!(content, decrypted);
}

#[test]
fn message_content_decrypt_fails_under_wrong_key() {
    let content = MessageContent::Message {
        data: "secret".to_string(),
    };
    let encrypted = content.encrypt(&[14u8; 32]).expect("encrypt succeeds");

    let result = MessageContent::decrypt(&[15u8; 32], &encrypted);
    assert_eq!(result, Err(OrchardPayCryptoError::Decryption));
}

/// Ciphertext = nonce (12) + plaintext + AEAD tag (16). Padding every
/// short variant up to the same floor means their ciphertexts land at
/// the same length regardless of kind.
#[test]
fn short_payloads_of_every_kind_pad_to_the_same_ciphertext_length() {
    let shared_key = [20u8; 32];
    let expected_len = NONCE_SIZE + MESSAGE_PADDING_FLOOR + 16;

    let message = MessageContent::Message {
        data: "hi".to_string(),
    };
    let payment = MessageContent::Payment {
        amount: 100_000,
        memo: None,
    };
    let payment_request = MessageContent::PaymentRequest {
        amount: 100_000,
        memo: None,
    };
    let receipt = MessageContent::PaymentRequestReceipt {
        original_document_id: [1u8; 32],
        amount: 100_000,
        memo: None,
        original_created_at: Some(1_700_000_000_000),
    };

    for content in [message, payment, payment_request, receipt] {
        let encrypted = content.encrypt(&shared_key).expect("encrypt succeeds");
        assert_eq!(
            encrypted.len(),
            expected_len,
            "{content:?} did not pad to the shared floor"
        );
        let decrypted =
            MessageContent::decrypt(&shared_key, &encrypted).expect("decrypt succeeds");
        assert_eq!(content, decrypted, "padding corrupted the round trip");
    }
}

#[test]
fn long_payload_is_not_truncated_by_padding_logic() {
    let shared_key = [21u8; 32];
    let content = MessageContent::Message {
        data: "m".repeat(1000),
    };

    let encrypted = content.encrypt(&shared_key).expect("encrypt succeeds");
    assert!(
        encrypted.len() > NONCE_SIZE + MESSAGE_PADDING_FLOOR + 16,
        "a long message should exceed the padding floor, not be cut down to it"
    );
    let decrypted = MessageContent::decrypt(&shared_key, &encrypted).expect("decrypt succeeds");
    assert_eq!(content, decrypted);
}

#[test]
fn oversized_payload_is_rejected_before_encryption() {
    let shared_key = [22u8; 32];
    let content = MessageContent::Message {
        data: "m".repeat(MAX_MESSAGE_PLAINTEXT_LEN),
    };

    let result = content.encrypt(&shared_key);
    assert_eq!(result, Err(OrchardPayCryptoError::PayloadTooLarge));
}

/// The ECDH shared secret is symmetric — both established parties must
/// derive the identical `OPP2` MAC key from it regardless of which side
/// computes it, and the same key + timestamp must always produce the
/// same tag (deterministic, no nonce/randomness involved).
#[test]
fn opp2_mac_key_and_tag_are_deterministic() {
    let shared_key = [30u8; 32];
    let mac_key_a = derive_opp2_mac_key(&shared_key);
    let mac_key_b = derive_opp2_mac_key(&shared_key);
    assert_eq!(
        mac_key_a, mac_key_b,
        "same shared secret must derive the same MAC key every time"
    );

    let tag_a = compute_opp2_mac(&mac_key_a, 1_700_000_000);
    let tag_b = compute_opp2_mac(&mac_key_b, 1_700_000_000);
    assert_eq!(
        tag_a, tag_b,
        "same MAC key + timestamp must always produce the same tag"
    );
}

/// The MAC key must not equal the raw shared secret it was derived
/// from — domain separation is the entire point of the HKDF step.
#[test]
fn opp2_mac_key_differs_from_raw_shared_secret() {
    let shared_key = [31u8; 32];
    let mac_key = derive_opp2_mac_key(&shared_key);
    assert_ne!(
        mac_key, shared_key,
        "the derived MAC key must not equal the raw shared secret"
    );
}

/// A different shared secret (a different relationship) must derive a
/// different MAC key, and a different timestamp must produce a
/// different tag under the same key — both are required for the
/// forgery-resistance this scheme is meant to provide.
#[test]
fn opp2_mac_is_sensitive_to_key_and_timestamp() {
    let mac_key_1 = derive_opp2_mac_key(&[32u8; 32]);
    let mac_key_2 = derive_opp2_mac_key(&[33u8; 32]);
    assert_ne!(
        mac_key_1, mac_key_2,
        "different shared secrets must derive different MAC keys"
    );

    let tag_same_key_diff_time_a = compute_opp2_mac(&mac_key_1, 1_700_000_000);
    let tag_same_key_diff_time_b = compute_opp2_mac(&mac_key_1, 1_700_000_001);
    assert_ne!(
        tag_same_key_diff_time_a, tag_same_key_diff_time_b,
        "different timestamps under the same key must produce different tags"
    );

    let tag_diff_key_same_time = compute_opp2_mac(&mac_key_2, 1_700_000_000);
    assert_ne!(
        tag_same_key_diff_time_a, tag_diff_key_same_time,
        "different keys must produce different tags for the same timestamp"
    );
}

#[test]
fn opp2_memo_fingerprint_is_deterministic_and_sensitive_to_input() {
    let mac = [1u8; OPP2_MAC_LEN];
    let fp_a = opp2_memo_fingerprint(1_700_000_000, &mac);
    let fp_b = opp2_memo_fingerprint(1_700_000_000, &mac);
    assert_eq!(fp_a, fp_b, "same input must fingerprint identically");
    assert_eq!(fp_a.len(), 12, "fingerprint must be 12 hex chars (48 bits)");

    let fp_diff_time = opp2_memo_fingerprint(1_700_000_001, &mac);
    assert_ne!(
        fp_a, fp_diff_time,
        "a different timestamp must change the fingerprint"
    );

    let other_mac = [2u8; OPP2_MAC_LEN];
    let fp_diff_mac = opp2_memo_fingerprint(1_700_000_000, &other_mac);
    assert_ne!(
        fp_a, fp_diff_mac,
        "a different MAC must change the fingerprint"
    );
}
