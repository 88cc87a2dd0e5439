use orchardpay::model::orchardpay::SilentPaymentRecord;
use orchardpay::model::validation::AmountTooLowError;
use orchardpay::orchardpay::contact_search::{
    dpns_name, search_contacts, search_term, SearchHit,
};
use orchardpay::orchardpay::direct_send::send_direct;
use orchardpay::orchardpay::encryption::{
    compute_opp2_mac, decode_content, decrypt, derive_opp2_mac_key, encrypt, encrypt_with_nonce,
    opp2_memo_fingerprint, to_be_bytes, MessageContent, OrchardPayCryptoError,
};
use orchardpay::orchardpay::errors::{OrchardPayError, OrchardPayTaskError};
use orchardpay::orchardpay::memo::{
    document_memo, silent_payment_memo, MEMO_TAG_ANCHOR, MEMO_TAG_PAYMENT,
    MEMO_TAG_SILENT_PAYMENT, OPP2_MAC_OFFSET, OPP2_TIMESTAMP_OFFSET,
};
use orchardpay::orchardpay::memo_scan::{
    attribute_silent_payment, build_silent_payment_candidates, has_silent_payment_signal,
    matching_candidates, try_anchor_against_identities, IncomingMemoSignal, ScanAction, ScanEvent,
    ScanPass, TrialOutcome,
};
use orchardpay::orchardpay::shielded_address::{
    lookup_shielded_address, publish_own_shielded_address, require_address, AddressPublication,
    ShieldedAddressDocument, SHIELDED_ADDRESS_DOCUMENT_TYPE,
};
use orchardpay::orchardpay::silent_payment::{check_silent_payment, send_silent_payment};

const ANN: [u8; 32] = [1u8; 32];
const BOB: [u8; 32] = [2u8; 32];
const CAROL: [u8; 32] = [3u8; 32];

#[test]
fn the_mac_key_and_tag_have_their_exact_values() {
    let key = derive_opp2_mac_key(&[30u8; 32]);
    assert_eq!(
        key,
        [
            60, 197, 157, 65, 126, 251, 101, 11, 125, 220, 119, 170, 163, 231, 10, 224, 64, 198,
            180, 167, 225, 94, 8, 51, 93, 199, 189, 137, 150, 163, 31, 155
        ]
    );
    assert_eq!(
        compute_opp2_mac(&key, 1_700_000_000),
        [
            98, 103, 169, 94, 230, 214, 63, 146, 88, 4, 53, 7, 92, 91, 33, 164, 230, 254, 22, 9,
            241, 88, 131, 100, 163, 46, 47, 198
        ]
    );
    assert_eq!(opp2_memo_fingerprint(1_700_000_000, &[1u8; 28]), "cf48381921f1");
}

#[test]
fn sealing_has_its_exact_value() {
    let sealed = encrypt_with_nonce(&[0u8; 32], &[0u8; 12], &[0u8; 16]).unwrap();
    let mut expected = vec![0u8; 12];
    expected.extend([
        0xce, 0xa7, 0x40, 0x3d, 0x4d, 0x60, 0x6b, 0x6e, 0x07, 0x4e, 0xc5, 0xd3, 0xba, 0xf3, 0x9d,
        0x18, 0xd0, 0xd1, 0xc8, 0xa7, 0x99, 0x99, 0x6b, 0xf0, 0x26, 0x5b, 0x98, 0xb5, 0xd4, 0x8a,
        0xb9, 0x19,
    ]);
    assert_eq!(sealed, expected);
    assert_eq!(decrypt(&[0u8; 32], &sealed), Ok(vec![0u8; 16]));
}

#[test]
fn nonces_are_fresh_and_tampering_is_noticed() {
    let first = encrypt(&[5u8; 32], b"hello").unwrap();
    let second = encrypt(&[5u8; 32], b"hello").unwrap();
    assert_ne!(first, second);
    assert_eq!(first.len(), 12 + 5 + 16);
    assert_eq!(decrypt(&[5u8; 32], &first), Ok(b"hello".to_vec()));
    for i in [0, 12, first.len() - 1] {
        let mut tampered = first.clone();
        tampered[i] ^= 1;
        assert_eq!(decrypt(&[5u8; 32], &tampered), Err(OrchardPayCryptoError::Decryption));
    }
    assert_eq!(decrypt(&[5u8; 32], &[0u8; 11]), Err(OrchardPayCryptoError::Decryption));
}

#[test]
fn contents_are_decoded_by_their_variant() {
    assert_eq!(
        decode_content(&[0, 2, 104, 105]),
        Some(MessageContent::Message { data: "hi".to_string() })
    );
    assert_eq!(
        decode_content(&[1, 252, 160, 134, 1, 0, 0, 99, 99]),
        Some(MessageContent::Payment { amount: 100_000, memo: None })
    );
    assert_eq!(
        decode_content(&[2, 7, 1, 1, 120]),
        Some(MessageContent::PaymentRequest { amount: 7, memo: Some("x".to_string()) })
    );
    assert_eq!(decode_content(&[9]), None);
    assert_eq!(decode_content(&[]), None);
    assert_eq!(decode_content(&[0, 2, 104]), None);
    assert_eq!(decode_content(&[0, 1, 0xff]), None);
}

#[test]
fn a_plaintext_that_does_not_decode_is_malformed() {
    let sealed = encrypt(&[5u8; 32], &[9]).unwrap();
    assert_eq!(
        MessageContent::decrypt(&[5u8; 32], &sealed),
        Err(OrchardPayCryptoError::Malformed)
    );
}

#[test]
fn times_are_spelled_in_four_bytes() {
    assert_eq!(to_be_bytes(0x0102_0304), [1, 2, 3, 4]);
    for value in [0, 1, 255, 256, 1_700_000_000, u32::MAX] {
        assert_eq!(u32::from_be_bytes(to_be_bytes(value)), value);
    }
}

#[test]
fn memos_carry_a_tag_and_what_follows_it() {
    assert_eq!(&MEMO_TAG_ANCHOR, b"OPA1");
    assert_eq!(&MEMO_TAG_PAYMENT, b"OPP1");
    assert_eq!(&MEMO_TAG_SILENT_PAYMENT, b"OPP2");
    let memo = document_memo(MEMO_TAG_PAYMENT, &[9u8; 32]);
    assert_eq!(&memo[..4], b"OPP1");
    assert_eq!(&memo[4..], &[9u8; 32]);
    let memo = silent_payment_memo(0x0102_0304, &[7u8; 28]);
    assert_eq!(&memo[..4], b"OPP2");
    assert_eq!(&memo[OPP2_TIMESTAMP_OFFSET..OPP2_MAC_OFFSET], &[1, 2, 3, 4]);
    assert_eq!(&memo[OPP2_MAC_OFFSET..], &[7u8; 28]);
}

#[test]
fn a_silent_payment_finds_its_contact_and_no_other() {
    let contacts = vec![
        (ANN, BOB, Some([30u8; 32])),
        (ANN, CAROL, None),
        (ANN, CAROL, Some([31u8; 32])),
    ];
    let candidates = build_silent_payment_candidates(&contacts);
    assert_eq!(candidates.len(), 2);
    let payment = send_silent_payment(&[31u8; 32], 1_700_000_000, 55);
    let mut mac = [0u8; 28];
    mac.copy_from_slice(&payment.memo[OPP2_MAC_OFFSET..]);
    assert_eq!(payment.amount, 55);
    assert_eq!(
        payment.record,
        SilentPaymentRecord { amount: 55, timestamp: 1_700_000_000, from_me: true }
    );
    assert_eq!(matching_candidates(&candidates, 1_700_000_000, &mac), vec![candidates[1]]);
    let attributed =
        attribute_silent_payment(&candidates, 1_700_000_000, &mac, 54, 1_600_000_000).unwrap();
    assert_eq!(attributed.counterparty_id, CAROL);
    assert_eq!(attributed.owner_id, ANN);
    assert_eq!(attributed.fingerprint, payment.fingerprint);
    assert_eq!(
        attributed.record,
        SilentPaymentRecord { amount: 54, timestamp: 1_600_000_000, from_me: false }
    );
    assert_eq!(attribute_silent_payment(&candidates, 1_700_000_001, &mac, 54, 1), None);
}

#[test]
fn an_ambiguous_silent_payment_is_left_alone() {
    let contacts = vec![(ANN, BOB, Some([30u8; 32])), (ANN, CAROL, Some([30u8; 32]))];
    let candidates = build_silent_payment_candidates(&contacts);
    let mac = compute_opp2_mac(&candidates[0].mac_key, 9);
    assert_eq!(matching_candidates(&candidates, 9, &mac).len(), 2);
    assert_eq!(attribute_silent_payment(&candidates, 9, &mac, 1, 9), None);
}

#[test]
fn silent_payments_need_the_keys_of_contacts() {
    let anchor = (1u64, IncomingMemoSignal::Anchor(ANN));
    let silent = (
        2u64,
        IncomingMemoSignal::SilentPayment {
            timestamp: 1,
            mac: [0u8; 28],
            received_amount_credits: 1,
        },
    );
    assert!(!has_silent_payment_signal(&vec![]));
    assert!(!has_silent_payment_signal(&vec![anchor]));
    assert!(has_silent_payment_signal(&vec![anchor, silent]));
}

#[test]
fn silent_payments_have_a_minimum() {
    assert_eq!(check_silent_payment(100, 100), Ok(()));
    assert_eq!(
        check_silent_payment(99, 100),
        Err(OrchardPayTaskError::AmountTooLow {
            source: AmountTooLowError { actual: 99, minimum: 100 },
        })
    );
}

#[test]
fn a_direct_payment_says_nothing() {
    let transfer = send_direct(&ANN, &BOB, 100, 100).unwrap();
    assert_eq!(transfer.amount, 100);
    assert_eq!(transfer.memo, [0u8; 36]);
    assert_eq!(
        send_direct(&ANN, &ANN, 100, 100),
        Err(OrchardPayTaskError::OrchardPay(OrchardPayError::CounterpartyKeyMissing))
    );
    assert!(matches!(
        send_direct(&ANN, &BOB, 99, 100),
        Err(OrchardPayTaskError::AmountTooLow { .. })
    ));
}

#[test]
fn trials_are_summed_up() {
    use_trials(&[], (false, false));
    use_trials(&[TrialOutcome::NotMine], (false, false));
    use_trials(&[TrialOutcome::Failed, TrialOutcome::NotMine], (false, true));
    use_trials(&[TrialOutcome::Failed, TrialOutcome::Claimed], (true, true));
}

fn use_trials(outcomes: &[TrialOutcome], expected: (bool, bool)) {
    assert_eq!(try_anchor_against_identities(&outcomes.to_vec()), expected);
}

#[test]
fn a_pass_waits_for_what_failed_up_to_its_cap() {
    let mut pass = ScanPass::new();
    let cap = 3;
    let tried =
        |n: u64, applied, had_error| ScanEvent::AnchorTried { note_index: n, applied, had_error };
    assert_eq!(pass.handle(&tried(10, false, true), cap), ScanAction::CountAttempt);
    assert_eq!(
        pass.handle(&ScanEvent::AttemptCounted { note_index: 10, attempts: 2 }, cap),
        ScanAction::Nothing
    );
    assert_eq!(
        pass.handle(&ScanEvent::PaymentRecorded { note_index: 7, stored: false }, cap),
        ScanAction::CountAttempt
    );
    pass.handle(&ScanEvent::AttemptCounted { note_index: 7, attempts: 1 }, cap);
    assert_eq!(pass.cursor(99), 7);
    assert_eq!(
        pass.handle(&ScanEvent::AttemptCounted { note_index: 5, attempts: 3 }, cap),
        ScanAction::ClearRetryCount
    );
    assert_eq!(pass.cursor(99), 7);
    assert!(!pass.anything_changed);
    assert_eq!(pass.anchor_signals_seen, 1);
    assert_eq!(ScanPass::new().cursor(99), 99);
}

#[test]
fn a_pass_counts_what_was_seen_and_claimed() {
    let mut pass = ScanPass::new();
    assert_eq!(
        pass.handle(&ScanEvent::UnresolvedTried { applied: false }, 3),
        ScanAction::Nothing
    );
    assert!(!pass.anything_changed);
    assert_eq!(
        pass.handle(&ScanEvent::UnresolvedTried { applied: true }, 3),
        ScanAction::ClearUnresolved
    );
    assert_eq!(
        pass.handle(
            &ScanEvent::AnchorTried { note_index: 1, applied: true, had_error: true },
            3
        ),
        ScanAction::ClearRetryCount
    );
    assert_eq!(
        pass.handle(
            &ScanEvent::AnchorTried { note_index: 2, applied: false, had_error: false },
            3
        ),
        ScanAction::RecordUnresolved
    );
    assert_eq!((pass.anchor_signals_seen, pass.anchor_signals_claimed), (4, 2));
    assert!(pass.anything_changed);
    let mut pass = ScanPass::new();
    assert_eq!(
        pass.handle(&ScanEvent::SilentPaymentSeen { note_index: 1, stored: false }, 3),
        ScanAction::ClearRetryCount
    );
    assert!(!pass.anything_changed);
    pass.handle(&ScanEvent::SilentPaymentSeen { note_index: 1, stored: true }, 3);
    assert!(pass.anything_changed);
    let mut pass = ScanPass::new();
    assert_eq!(
        pass.handle(&ScanEvent::PaymentRecorded { note_index: 1, stored: true }, 3),
        ScanAction::ClearRetryCount
    );
    assert!(pass.anything_changed);
}

#[test]
fn an_address_is_published_or_replaced() {
    assert_eq!(SHIELDED_ADDRESS_DOCUMENT_TYPE, "shieldedAddress");
    assert_eq!(
        publish_own_shielded_address(ANN, None, &None),
        Err(OrchardPayTaskError::ShieldedNotBound)
    );
    assert_eq!(
        publish_own_shielded_address(ANN, Some([4u8; 43]), &None),
        Ok(AddressPublication::Create { owner_id: ANN, address: [4u8; 43] })
    );
    let document = ShieldedAddressDocument { id: BOB, owner_id: ANN, address: Some(vec![1]) };
    assert_eq!(
        publish_own_shielded_address(ANN, Some([4u8; 43]), &Some(document)),
        Ok(AddressPublication::Replace { document_id: BOB, address: [4u8; 43] })
    );
}

#[test]
fn an_address_is_looked_up_and_held_to_its_form() {
    let document = |address: Option<Vec<u8>>| {
        Some(ShieldedAddressDocument { id: BOB, owner_id: ANN, address })
    };
    assert_eq!(lookup_shielded_address(&None, None), Ok(None));
    assert_eq!(
        lookup_shielded_address(&document(Some(vec![4u8; 43])), Some([4u8; 43])),
        Ok(Some([4u8; 43]))
    );
    assert_eq!(
        lookup_shielded_address(&document(Some(vec![4u8; 43])), None),
        Err(OrchardPayTaskError::CounterpartyShieldedAddressInvalid)
    );
    assert_eq!(require_address(Some([4u8; 43])), Ok([4u8; 43]));
    assert_eq!(require_address(None), Err(OrchardPayError::CounterpartyKeyMissing));
}

#[test]
fn a_search_is_for_what_is_left_of_the_query() {
    assert_eq!(search_term("  ali "), Some("ali".to_string()));
    assert_eq!(search_term(" \t\n"), None);
    assert_eq!(search_term("\u{3000}x\u{00a0}"), Some("x".to_string()));
    assert_eq!(dpns_name("ali"), "ali.dash");
    let results = search_contacts(vec![
        SearchHit {
            identity_id: ANN,
            label: Some("ann".to_string()),
            identifier_text: "id".to_string(),
            contactable: true,
            existing_relationship: None,
        },
        SearchHit {
            identity_id: BOB,
            label: None,
            identifier_text: "base58".to_string(),
            contactable: false,
            existing_relationship: None,
        },
    ]);
    assert_eq!(results.len(), 2);
    assert_eq!(results[0].username, "ann.dash");
    assert!(results[0].contactable);
    assert_eq!(results[1].username, "base58.dash");
    assert_eq!(results[1].identity_id, BOB);
}
