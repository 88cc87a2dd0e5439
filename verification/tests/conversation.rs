use orchardpay::model::orchardpay::{
    OrchardPayContactState, PendingOperationStep, PendingOrchardPayOperation,
};
use orchardpay::model::validation::{AmountTooLowError, TextLengthError};
use orchardpay::orchardpay::encryption::{MessageContent, OrchardPayCryptoError};
use orchardpay::orchardpay::errors::{OrchardPayError, OrchardPayTaskError};
use orchardpay::orchardpay::keys::{
    ContractBounds, IdentityKey, KeyType, Purpose, SecurityLevel, CONTACT_ANCHOR_DOCUMENT_TYPE,
};
use orchardpay::orchardpay::messages::{
    assemble_thread, decode_thread_message, latest_message_query, load_more_history, load_thread,
    message_page, message_page_query, HistoryCursor, KnownPayments, MessageDocument, MessageQuery,
    ReceiptAlert, ReceiptAlertReason, ThreadMessage, MESSAGE_PAGE_SIZE,
};
use orchardpay::orchardpay::outgoing::{
    cancel_payment_request, delete_message, edit_message, edit_payment_memo, established_state,
    extract_msg_data, inbound_shared_secret, outbound_shared_secret, payment_document,
    prepare_amount, prepare_memo, prepare_text, send_message, send_payment, send_payment_request,
    EstablishedRelationship, FulfilledRequest, OutgoingMessage, PaymentEffect, PaymentOrder,
    SendLimits,
};
use orchardpay::orchardpay::recent_activity::{
    contact_activity, established_contacts, fetch_recent_activity, EstablishedContactRefs,
    RecentContactActivity,
};

const OUT_SECRET: [u8; 32] = [7u8; 32];
const IN_SECRET: [u8; 32] = [9u8; 32];
const CONTRACT: [u8; 32] = [0xC0u8; 32];

fn limits() -> SendLimits {
    SendLimits {
        min_message_chars: 1,
        max_message_chars: 10,
        min_memo_chars: 0,
        max_memo_chars: 5,
        min_amount: 100,
    }
}

fn text(data: &str) -> MessageContent {
    MessageContent::Message {
        data: data.to_string(),
    }
}

fn memo(text: &str) -> Option<String> {
    Some(text.to_string())
}

fn sealed(id: u8, at: Option<u64>, content: &MessageContent, secret: &[u8; 32]) -> MessageDocument {
    MessageDocument {
        id: [id; 32],
        owner_id: [0xAAu8; 32],
        created_at: at,
        updated_at: at,
        msg_data: Some(content.encrypt(secret).unwrap()),
    }
}

fn nothing_known() -> KnownPayments {
    KnownPayments {
        recorded: vec![],
        outgoing: vec![],
        incoming: vec![],
    }
}

fn shown(id: u8, at: u64, content: MessageContent) -> ThreadMessage {
    ThreadMessage {
        document_id: [id; 32],
        from_me: true,
        created_at: Some(at),
        updated_at: Some(at),
        content,
        verified_amount: None,
        synthetic: false,
    }
}

fn receipt_of(id: u8, at: u64, original: u8, amount: u64, text: Option<String>) -> ThreadMessage {
    shown(
        id,
        at,
        MessageContent::PaymentRequestReceipt {
            original_document_id: [original; 32],
            amount,
            memo: text,
            original_created_at: Some(5),
        },
    )
}

const ALL_LOADED: HistoryCursor = HistoryCursor {
    mine_before: None,
    their_before: None,
};

fn key(purpose: Purpose, document_type: &str) -> IdentityKey {
    IdentityKey {
        key_type: KeyType::EcdsaSecp256k1,
        purpose,
        security_level: SecurityLevel::Medium,
        contract_bounds: Some(ContractBounds::SingleContractDocumentType {
            id: CONTRACT,
            document_type_name: document_type.to_string(),
        }),
        data: vec![1, 2, 3],
        disabled: false,
    }
}

fn established() -> OrchardPayContactState {
    OrchardPayContactState::Established {
        my_reference_id: [1u8; 32],
        my_anchor_document_id: [2u8; 32],
        their_reference_id: [3u8; 32],
        counterparty_encryption_pubkey: vec![0xE],
        counterparty_decryption_pubkey: vec![0xD],
        name: memo("alice"),
        created_at: Some(50),
    }
}

fn pending_inbound() -> OrchardPayContactState {
    OrchardPayContactState::PendingInboundUnaccepted {
        their_reference_id: [3u8; 32],
        their_anchor_document_id: [4u8; 32],
        name: None,
        created_at: None,
    }
}

fn order(fulfilling: Option<FulfilledRequest>) -> PaymentOrder {
    PaymentOrder {
        owner_id: [0xAAu8; 32],
        my_reference_id: [1u8; 32],
        amount: 500,
        memo: memo("rent"),
        fulfilling,
    }
}

fn fulfilled(save_receipt: bool) -> FulfilledRequest {
    FulfilledRequest {
        document_id: [0x0Fu8; 32],
        save_receipt,
        original_memo: memo("lunch"),
        original_created_at: Some(33),
    }
}

fn transfer_memo(document: u8) -> [u8; 36] {
    let mut memo = [document; 36];
    memo[..4].copy_from_slice(b"OPP1");
    memo
}

#[test]
fn a_page_is_asked_for_from_the_bound_or_from_now() {
    assert_eq!(MESSAGE_PAGE_SIZE, 100);
    assert_eq!(
        message_page_query([1u8; 32], [2u8; 32], Some(77), 1_000),
        MessageQuery {
            ref_id: [1u8; 32],
            owner_id: [2u8; 32],
            created_before: 77,
            limit: 100,
        }
    );
    let first = message_page_query([1u8; 32], [2u8; 32], None, 1_000);
    assert_eq!(first.created_before, 1_000);
    let latest = latest_message_query([1u8; 32], [2u8; 32], 1_000);
    assert_eq!(latest.limit, 1);
    assert_eq!(latest.created_before, first.created_before);
}

#[test]
fn only_a_full_page_promises_more() {
    let short: Vec<MessageDocument> = (0..3u8)
        .map(|i| sealed(i, Some(100 - i as u64), &text("x"), &OUT_SECRET))
        .collect();
    let page = message_page(short);
    assert_eq!(page.documents.len(), 3);
    assert!(!page.has_more);
    assert!(!page.may_be_incomplete);
    assert_eq!(page.oldest_created_at, Some(98));

    let full: Vec<MessageDocument> = (0..100u8)
        .map(|i| MessageDocument {
            id: [i; 32],
            owner_id: [0xAAu8; 32],
            created_at: Some(1_000 - i as u64),
            updated_at: None,
            msg_data: None,
        })
        .collect();
    let page = message_page(full);
    assert_eq!(page.documents.len(), 99);
    assert!(page.has_more);
    assert_eq!(page.oldest_created_at, Some(902));
}

#[test]
fn confirmed_amounts_come_from_the_first_source_that_has_one() {
    let payment = MessageContent::Payment {
        amount: 10,
        memo: None,
    };
    let document = sealed(1, Some(5), &payment, &OUT_SECRET);
    let mut known = nothing_known();
    let read = |known: &KnownPayments| {
        decode_thread_message(&document, true, &OUT_SECRET, known)
            .unwrap()
            .verified_amount
    };
    assert_eq!(read(&known), None);
    known.incoming.push(([1u8; 32], 30));
    assert_eq!(read(&known), Some(30));
    known.outgoing.push(([1u8; 32], 20));
    assert_eq!(read(&known), Some(20));
    known.recorded.push(([2u8; 32], 99));
    assert_eq!(read(&known), Some(20));
    known.recorded.push(([1u8; 32], 10));
    assert_eq!(read(&known), Some(10));

    let words = sealed(1, Some(5), &text("hi"), &OUT_SECRET);
    let message = decode_thread_message(&words, false, &OUT_SECRET, &known).unwrap();
    assert_eq!(message.verified_amount, None);
    assert_eq!(message.content, text("hi"));
    assert!(!message.from_me);
    assert!(!message.synthetic);
    assert!(decode_thread_message(&words, false, &IN_SECRET, &known).is_none());
    let mut bare = words.clone();
    bare.msg_data = None;
    assert!(decode_thread_message(&bare, false, &OUT_SECRET, &known).is_none());
}

#[test]
fn threads_run_from_old_to_new_without_receipts() {
    let all = vec![
        shown(1, 30, text("c")),
        receipt_of(9, 31, 2, 10, None),
        shown(2, 10, MessageContent::PaymentRequest { amount: 10, memo: None }),
        shown(3, 20, text("b")),
    ];
    let (messages, alerts) = assemble_thread(&all, &ALL_LOADED);
    let ids: Vec<u8> = messages.iter().map(|m| m.document_id[0]).collect();
    assert_eq!(ids, vec![2, 3, 1]);
    assert_eq!(alerts, vec![]);
}

#[test]
fn receipts_whose_request_changed_raise_an_alert() {
    let alert = |reason: ReceiptAlertReason| ReceiptAlert {
        original_document_id: [2u8; 32],
        amount: 10,
        memo: memo("m"),
        original_created_at: Some(5),
        reason,
    };
    let receipt = || receipt_of(9, 31, 2, 10, memo("m"));
    let with = |original: ThreadMessage| assemble_thread(&vec![receipt(), original], &ALL_LOADED).1;
    let request = |amount: u64, note: &str| {
        shown(2, 10, MessageContent::PaymentRequest { amount, memo: memo(note) })
    };

    assert_eq!(with(request(10, "m")), vec![]);
    assert_eq!(
        with(request(11, "m")),
        vec![alert(ReceiptAlertReason::OriginalAmountOrMemoMismatch)]
    );
    assert_eq!(
        with(request(10, "n")),
        vec![alert(ReceiptAlertReason::OriginalAmountOrMemoMismatch)]
    );
    assert_eq!(
        with(shown(2, 10, text("was a request"))),
        vec![alert(ReceiptAlertReason::OriginalChangedKind)]
    );
    let mut cancelled = request(10, "CANCELED: m");
    cancelled.updated_at = Some(11);
    assert_eq!(with(cancelled), vec![]);

    assert_eq!(
        assemble_thread(&vec![receipt()], &ALL_LOADED).1,
        vec![alert(ReceiptAlertReason::OriginalDeleted)]
    );
    let more = HistoryCursor {
        mine_before: None,
        their_before: Some(3),
    };
    assert_eq!(assemble_thread(&vec![receipt()], &more).1, vec![]);
}

#[test]
fn a_thread_is_loaded_from_both_sides() {
    let mine = message_page(vec![
        sealed(1, Some(40), &text("mine"), &OUT_SECRET),
        sealed(2, Some(20), &text("older"), &OUT_SECRET),
    ]);
    let theirs = message_page(vec![sealed(3, Some(30), &text("theirs"), &IN_SECRET)]);
    let thread = load_thread(&mine, &theirs, &OUT_SECRET, &IN_SECRET, &nothing_known());
    let texts: Vec<MessageContent> = thread.messages.iter().map(|m| m.content.clone()).collect();
    assert_eq!(texts, vec![text("older"), text("theirs"), text("mine")]);
    assert_eq!(thread.all_decoded.len(), 3);
    assert!(!thread.may_be_incomplete);
    assert!(!thread.history_cursor.has_more());

    // What cannot be read under its side's secret is left out, and that is told.
    let foreign = message_page(vec![sealed(3, Some(30), &text("theirs"), &OUT_SECRET)]);
    let thread = load_thread(&mine, &foreign, &OUT_SECRET, &IN_SECRET, &nothing_known());
    assert_eq!(thread.messages.len(), 2);
    assert!(thread.may_be_incomplete);
}

#[test]
fn further_history_joins_what_is_held() {
    let held = vec![shown(1, 50, text("newest"))];
    let cursor = HistoryCursor {
        mine_before: Some(50),
        their_before: None,
    };
    let older = message_page(vec![sealed(2, Some(20), &text("older"), &OUT_SECRET)]);
    let thread = load_more_history(
        held,
        cursor,
        false,
        &Some(older),
        &None,
        &OUT_SECRET,
        &IN_SECRET,
        &nothing_known(),
    );
    let ids: Vec<u8> = thread.messages.iter().map(|m| m.document_id[0]).collect();
    assert_eq!(ids, vec![2, 1]);
    assert_eq!(thread.history_cursor, ALL_LOADED);
    assert!(!thread.may_be_incomplete);

    let kept = load_more_history(
        vec![],
        ALL_LOADED,
        true,
        &None,
        &None,
        &OUT_SECRET,
        &IN_SECRET,
        &nothing_known(),
    );
    assert!(kept.may_be_incomplete);
    assert_eq!(kept.messages, vec![]);
}

#[test]
fn only_an_established_contact_can_be_written_to() {
    assert_eq!(
        established_state(&Some(established())),
        Ok(EstablishedRelationship {
            my_reference_id: [1u8; 32],
            their_reference_id: [3u8; 32],
            counterparty_encryption_pubkey: vec![0xE],
            counterparty_decryption_pubkey: vec![0xD],
        })
    );
    assert_eq!(
        established_state(&None),
        Err(OrchardPayError::ContactNotEstablished)
    );
    assert_eq!(
        established_state(&Some(pending_inbound())),
        Err(OrchardPayError::ContactNotEstablished)
    );
}

#[test]
fn each_direction_has_its_pair_of_keys() {
    let relationship = established_state(&Some(established())).unwrap();
    let keys = vec![
        key(Purpose::Encryption, "other"),
        key(Purpose::Decryption, CONTACT_ANCHOR_DOCUMENT_TYPE),
        key(Purpose::Encryption, CONTACT_ANCHOR_DOCUMENT_TYPE),
    ];
    let out = outbound_shared_secret(&keys, CONTRACT, &relationship).unwrap();
    assert_eq!((out.own_key, out.counterparty_pubkey), (2, vec![0xD]));
    let into = inbound_shared_secret(&keys, CONTRACT, &relationship).unwrap();
    assert_eq!((into.own_key, into.counterparty_pubkey), (1, vec![0xE]));
    assert_eq!(
        outbound_shared_secret(&keys, [0u8; 32], &relationship),
        Err(OrchardPayError::OwnKeyMissing)
    );
    assert_eq!(
        inbound_shared_secret(&vec![], CONTRACT, &relationship),
        Err(OrchardPayError::OwnKeyMissing)
    );
}

#[test]
fn texts_and_amounts_are_cleaned_and_bounded() {
    let l = limits();
    assert_eq!(prepare_text("hi\u{202e}\n!", &l), Ok("hi\n!".to_string()));
    assert_eq!(
        prepare_text("", &l),
        Err(OrchardPayTaskError::MessageTooLong {
            source: TextLengthError { actual: 0, min: 1, max: 10 },
        })
    );
    assert_eq!(
        prepare_text("12345678901", &l),
        Err(OrchardPayTaskError::MessageTooLong {
            source: TextLengthError { actual: 11, min: 1, max: 10 },
        })
    );
    assert_eq!(prepare_memo(&None, &l), Ok(None));
    assert_eq!(prepare_memo(&memo("a\u{200b}b"), &l), Ok(memo("ab")));
    assert_eq!(
        prepare_memo(&memo("123456"), &l),
        Err(OrchardPayTaskError::MemoTooLong {
            source: TextLengthError { actual: 6, min: 0, max: 5 },
        })
    );
    assert_eq!(prepare_amount(100, &memo("ok"), &l), Ok(memo("ok")));
    // The amount is judged first.
    assert_eq!(
        prepare_amount(99, &memo("123456"), &l),
        Err(OrchardPayTaskError::AmountTooLow {
            source: AmountTooLowError { actual: 99, minimum: 100 },
        })
    );
}

#[test]
fn what_is_sent_reads_back() {
    let data = send_message("hello", &limits(), &OUT_SECRET).unwrap();
    assert_eq!(MessageContent::decrypt(&OUT_SECRET, &data), Ok(text("hello")));
    let data = send_payment_request(100, &memo("tea"), &limits(), &OUT_SECRET).unwrap();
    assert_eq!(
        MessageContent::decrypt(&OUT_SECRET, &data),
        Ok(MessageContent::PaymentRequest { amount: 100, memo: memo("tea") })
    );
    assert!(send_message("", &limits(), &OUT_SECRET).is_err());
    assert!(send_payment_request(1, &None, &limits(), &OUT_SECRET).is_err());
}

#[test]
fn a_text_within_wide_bounds_can_still_be_too_large_to_seal() {
    let mut wide = limits();
    wide.max_message_chars = 10_000;
    let long = "x".repeat(6_000);
    assert_eq!(
        send_message(&long, &wide, &OUT_SECRET),
        Err(OrchardPayTaskError::OrchardPay(OrchardPayError::Crypto(
            OrchardPayCryptoError::PayloadTooLarge
        )))
    );
}

#[test]
fn only_a_message_can_be_edited_or_deleted() {
    let words = sealed(1, Some(5), &text("hi"), &OUT_SECRET);
    let payment = sealed(
        2,
        Some(5),
        &MessageContent::Payment { amount: 10, memo: memo("a") },
        &OUT_SECRET,
    );
    let data = edit_message(&words, "new", &limits(), &OUT_SECRET).unwrap();
    assert_eq!(MessageContent::decrypt(&OUT_SECRET, &data), Ok(text("new")));
    assert_eq!(
        edit_message(&payment, "new", &limits(), &OUT_SECRET),
        Err(OrchardPayTaskError::EditTargetMismatch)
    );
    assert_eq!(delete_message(&words, &OUT_SECRET), Ok(()));
    assert_eq!(
        delete_message(&payment, &OUT_SECRET),
        Err(OrchardPayTaskError::DeleteTargetMismatch)
    );
    assert_eq!(
        delete_message(&words, &IN_SECRET),
        Err(OrchardPayTaskError::OrchardPay(OrchardPayError::Crypto(
            OrchardPayCryptoError::Decryption
        )))
    );
    let mut bare = words.clone();
    bare.msg_data = None;
    assert_eq!(
        extract_msg_data(&bare),
        Err(OrchardPayError::Crypto(OrchardPayCryptoError::Malformed))
    );
    assert_eq!(extract_msg_data(&words), Ok(words.msg_data.unwrap()));
}

#[test]
fn editing_a_memo_keeps_the_amount() {
    let payment = sealed(
        2,
        Some(5),
        &MessageContent::Payment { amount: 10, memo: memo("a") },
        &OUT_SECRET,
    );
    let data = edit_payment_memo(&payment, &memo("b"), &limits(), &OUT_SECRET).unwrap();
    assert_eq!(
        MessageContent::decrypt(&OUT_SECRET, &data),
        Ok(MessageContent::Payment { amount: 10, memo: memo("b") })
    );
    let data = edit_payment_memo(&payment, &None, &limits(), &OUT_SECRET).unwrap();
    assert_eq!(
        MessageContent::decrypt(&OUT_SECRET, &data),
        Ok(MessageContent::Payment { amount: 10, memo: None })
    );
    let words = sealed(1, Some(5), &text("hi"), &OUT_SECRET);
    assert_eq!(
        edit_payment_memo(&words, &None, &limits(), &OUT_SECRET),
        Err(OrchardPayTaskError::EditTargetMismatch)
    );
}

#[test]
fn a_request_is_cancelled_once() {
    let request = MessageContent::PaymentRequest { amount: 10, memo: memo("tea") };
    let mut document = sealed(1, Some(5), &request, &OUT_SECRET);
    let data = cancel_payment_request(&document, None, &OUT_SECRET).unwrap();
    assert_eq!(
        MessageContent::decrypt(&OUT_SECRET, &data),
        Ok(MessageContent::PaymentRequest { amount: 10, memo: memo("CANCELED: tea") })
    );
    document.msg_data = Some(data);
    document.updated_at = Some(6);
    assert_eq!(
        cancel_payment_request(&document, None, &OUT_SECRET),
        Err(OrchardPayTaskError::RequestAlreadyCancelled)
    );

    let bare = sealed(
        1,
        Some(5),
        &MessageContent::PaymentRequest { amount: 10, memo: None },
        &OUT_SECRET,
    );
    let data = cancel_payment_request(&bare, None, &OUT_SECRET).unwrap();
    assert_eq!(
        MessageContent::decrypt(&OUT_SECRET, &data),
        Ok(MessageContent::PaymentRequest { amount: 10, memo: memo("CANCELED") })
    );
    assert_eq!(
        cancel_payment_request(&sealed(1, Some(5), &text("x"), &OUT_SECRET), None, &OUT_SECRET),
        Err(OrchardPayTaskError::EditTargetMismatch)
    );
}

#[test]
fn a_paid_request_is_not_cancelled() {
    let request = MessageContent::PaymentRequest { amount: 10, memo: memo("tea") };
    let mut document = sealed(1, Some(5), &request, &OUT_SECRET);
    let known = KnownPayments {
        recorded: vec![],
        outgoing: vec![],
        incoming: vec![(document.id, 10)],
    };
    let paid = known.find_confirmed(&document.id);
    assert_eq!(paid, Some(10));
    assert_eq!(known.find_confirmed(&[99u8; 32]), None);
    assert_eq!(
        cancel_payment_request(&document, paid, &OUT_SECRET),
        Err(OrchardPayTaskError::RequestAlreadyPaid)
    );
    assert_eq!(
        cancel_payment_request(&sealed(1, Some(5), &text("x"), &OUT_SECRET), paid, &OUT_SECRET),
        Err(OrchardPayTaskError::EditTargetMismatch)
    );
    document.updated_at = Some(6);
    assert_eq!(
        cancel_payment_request(&document, paid, &OUT_SECRET),
        Err(OrchardPayTaskError::RequestAlreadyCancelled)
    );
}

#[test]
fn a_fresh_payment_is_noted_published_and_paid_in_order() {
    let fresh = order(None);
    assert!(fresh.heeds_earlier());
    assert!(!order(Some(fulfilled(true))).heeds_earlier());
    assert!(fresh.has_document());
    let data = payment_document(&fresh, &OUT_SECRET).unwrap().unwrap();
    assert_eq!(
        MessageContent::decrypt(&OUT_SECRET, &data),
        Ok(MessageContent::Payment { amount: 500, memo: memo("rent") })
    );
    let steps = send_payment(&fresh, &None, [5u8; 32], data.clone()).unwrap();
    assert_eq!(
        steps,
        vec![
            PaymentEffect::SetPending(PendingOrchardPayOperation::Payment {
                document_id: [5u8; 32],
                step: PendingOperationStep::DocumentPublished,
            }),
            PaymentEffect::PublishPayment(OutgoingMessage {
                id: [5u8; 32],
                owner_id: [0xAAu8; 32],
                ref_id: [1u8; 32],
                msg_data: data,
            }),
            PaymentEffect::Transfer { amount: 500, memo: transfer_memo(5) },
            PaymentEffect::ClearPending,
        ]
    );
}

#[test]
fn a_cut_off_payment_is_not_repeated() {
    let pending = Some(PendingOrchardPayOperation::Payment {
        document_id: [8u8; 32],
        step: PendingOperationStep::DocumentPublished,
    });
    let refusal = OrchardPayTaskError::PaymentRecoveryNeeded { document_id: [8u8; 32] };
    assert_eq!(
        order(None).check_unconfirmed(&pending),
        Err(refusal.clone())
    );
    assert_eq!(
        send_payment(&order(None), &pending, [5u8; 32], vec![]),
        Err(refusal)
    );
    // A note about an anchor is no payment, and a request can be answered anyway.
    let anchor = Some(PendingOrchardPayOperation::ContactAnchor {
        my_reference_id: [1u8; 32],
        my_anchor_document_id: [2u8; 32],
        step: PendingOperationStep::TransferSent,
    });
    assert_eq!(order(None).check_unconfirmed(&anchor), Ok(()));
    assert_eq!(order(Some(fulfilled(false))).check_unconfirmed(&pending), Ok(()));
}

#[test]
fn answering_a_request_pays_it_and_notes_it_as_paid() {
    let plain = order(Some(fulfilled(false)));
    assert!(!plain.has_document());
    assert_eq!(payment_document(&plain, &OUT_SECRET), Ok(None));
    let paid = vec![
        PaymentEffect::Transfer { amount: 500, memo: transfer_memo(0x0F) },
        PaymentEffect::ClearPending,
        PaymentEffect::RecordPaid { document_id: [0x0Fu8; 32], amount: 500 },
    ];
    assert_eq!(send_payment(&plain, &None, [5u8; 32], vec![]), Ok(paid.clone()));

    let receipted = order(Some(fulfilled(true)));
    assert!(receipted.has_document());
    let data = payment_document(&receipted, &OUT_SECRET).unwrap().unwrap();
    assert_eq!(
        MessageContent::decrypt(&OUT_SECRET, &data),
        Ok(MessageContent::PaymentRequestReceipt {
            original_document_id: [0x0Fu8; 32],
            amount: 500,
            memo: memo("lunch"),
            original_created_at: Some(33),
        })
    );
    let mut expected = vec![PaymentEffect::PublishReceipt(OutgoingMessage {
        id: [5u8; 32],
        owner_id: [0xAAu8; 32],
        ref_id: [1u8; 32],
        msg_data: data.clone(),
    })];
    expected.extend(paid);
    assert_eq!(send_payment(&receipted, &None, [5u8; 32], data), Ok(expected));
}

#[test]
fn only_established_contacts_have_recent_activity() {
    let refs = established_contacts(&vec![
        ([0x11u8; 32], pending_inbound()),
        ([0x12u8; 32], established()),
    ]);
    assert_eq!(
        refs,
        vec![EstablishedContactRefs {
            identity_id: [0x12u8; 32],
            my_reference_id: [1u8; 32],
            their_reference_id: [3u8; 32],
            anchor_created_at: Some(50),
        }]
    );
    let entry = |last_activity: Option<u64>, has_messages: bool| RecentContactActivity {
        identity_id: [0x12u8; 32],
        last_activity,
        has_messages,
    };
    assert_eq!(contact_activity(&refs[0], Some(70), Some(90)), entry(Some(90), true));
    assert_eq!(contact_activity(&refs[0], Some(70), None), entry(Some(70), true));
    assert_eq!(contact_activity(&refs[0], None, None), entry(Some(50), false));
}

#[test]
fn conversations_come_before_contacts_without_messages() {
    let refs = |id: u8, at: Option<u64>| EstablishedContactRefs {
        identity_id: [id; 32],
        my_reference_id: [0u8; 32],
        their_reference_id: [0u8; 32],
        anchor_created_at: at,
    };
    let entries = fetch_recent_activity(
        &vec![refs(1, Some(900)), refs(2, Some(1)), refs(3, Some(1)), refs(4, None)],
        &vec![(None, None), (Some(10), None), (None, Some(20)), (None, None)],
    );
    let ids: Vec<u8> = entries.iter().map(|e| e.identity_id[0]).collect();
    assert_eq!(ids, vec![3, 2, 1, 4]);
}
