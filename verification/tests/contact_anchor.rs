use orchardpay::model::orchardpay::{
    AnchorRole, OrchardPayContactState, PendingOperationStep, PendingOrchardPayOperation,
    ScheduledAnchorReplace,
};
use orchardpay::model::validation::AmountTooLowError;
use orchardpay::orchardpay::anchor_recovery::{
    next_own_anchor_page, read_own_record, recover_own_anchors, AnchorRecoverySummary, FetchedKey,
    RecoveryStep, MAX_OWN_ANCHOR_PAGES, OWN_ANCHOR_PAGE_SIZE,
};
use orchardpay::orchardpay::anchor_signal::{
    due_replacement, fire_due_scheduled_anchor_replace, handle_incoming_anchor_signal,
    own_noted_pubkey, read_signal, signal_response, signal_sender, AnchorDocument, DueReplacement,
    SignalReadings, SignalResponse,
};
use orchardpay::orchardpay::contact_anchor::{
    accept_contact, anchor_attempt, check_transfer, completing_effects, fresh_anchor,
    initiate_contact, new_anchor, published, publishing_effects, require_untracked, resume,
    AnchorAttempt, AnchorProgress, ContactEffect, ContactRequest, NewAnchor,
};
use orchardpay::orchardpay::encryption::{
    AnchorDataRecord, ContactAnchorPayload, OrchardPayCryptoError,
};
use orchardpay::orchardpay::errors::{OrchardPayError, OrchardPayTaskError};
use orchardpay::orchardpay::keys::Purpose;
use orchardpay::orchardpay::memo::{document_memo, MEMO_TAG_ANCHOR};
use orchardpay::orchardpay::outgoing::SendLimits;

const ANN: [u8; 32] = [1u8; 32];
const BOB: [u8; 32] = [2u8; 32];
const OUT: [u8; 32] = [7u8; 32];
const BACK: [u8; 32] = [8u8; 32];
const ANN_KEY: [u8; 32] = [9u8; 32];
const BOB_KEY: [u8; 32] = [10u8; 32];
const MINIMUM: u64 = 100;

fn limits() -> SendLimits {
    SendLimits {
        min_message_chars: 1,
        max_message_chars: 10,
        min_memo_chars: 0,
        max_memo_chars: 5,
        min_amount: MINIMUM,
    }
}

fn asked() -> ContactRequest {
    initiate_contact(ANN, BOB, "bob.dash".to_string(), 150, MINIMUM).unwrap()
}

fn inbound(reference: [u8; 32]) -> OrchardPayContactState {
    OrchardPayContactState::PendingInboundUnaccepted {
        their_reference_id: reference,
        their_anchor_document_id: [20u8; 32],
        name: None,
        created_at: Some(5),
    }
}

fn outbound(reference: [u8; 32], anchor: [u8; 32]) -> OrchardPayContactState {
    OrchardPayContactState::PendingOutbound {
        my_reference_id: reference,
        my_anchor_document_id: anchor,
        name: Some("bob.dash".to_string()),
        created_at: Some(4),
    }
}

fn established() -> OrchardPayContactState {
    OrchardPayContactState::Established {
        my_reference_id: [30u8; 32],
        my_anchor_document_id: [31u8; 32],
        their_reference_id: [32u8; 32],
        counterparty_encryption_pubkey: vec![1],
        counterparty_decryption_pubkey: vec![2],
        name: None,
        created_at: None,
    }
}

fn note(step: PendingOperationStep) -> PendingOrchardPayOperation {
    PendingOrchardPayOperation::ContactAnchor {
        my_reference_id: [5u8; 32],
        my_anchor_document_id: [6u8; 32],
        step,
    }
}

fn document(anchor: &NewAnchor, created_at: u64) -> AnchorDocument {
    AnchorDocument {
        id: anchor.id,
        owner_id: anchor.owner_id,
        created_at: Some(created_at),
        data: Some(anchor.data.clone()),
        anchor_data: Some(anchor.anchor_data.clone()),
    }
}

#[test]
fn a_request_to_oneself_or_below_the_minimum_is_refused() {
    assert_eq!(
        initiate_contact(ANN, ANN, "ann".to_string(), 150, MINIMUM),
        Err(OrchardPayTaskError::OrchardPay(OrchardPayError::CounterpartyKeyMissing))
    );
    assert_eq!(
        initiate_contact(ANN, BOB, "bob".to_string(), 99, MINIMUM),
        Err(OrchardPayTaskError::AmountTooLow {
            source: AmountTooLowError { actual: 99, minimum: MINIMUM },
        })
    );
    assert_eq!(check_transfer(&ANN, &BOB, 100, MINIMUM), Ok(()));
    let request = asked();
    assert_eq!(request.role, AnchorRole::Initiator);
    assert_eq!(request.their_reference_id, ANN);
    assert_eq!(request.amount_credits, 150);
    assert_eq!(request.pending_created_at, None);
}

#[test]
fn a_relationship_is_not_started_twice() {
    assert_eq!(require_untracked(&None), Ok(()));
    for state in [inbound([1u8; 32]), outbound([1u8; 32], [2u8; 32]), established()] {
        assert_eq!(
            require_untracked(&Some(state)),
            Err(OrchardPayError::RelationshipAlreadyExists)
        );
    }
}

#[test]
fn only_a_received_request_can_be_accepted() {
    let answer = accept_contact(BOB, ANN, &Some(inbound([5u8; 32])), &limits()).unwrap();
    assert_eq!(answer.role, AnchorRole::Acceptor);
    assert_eq!(answer.their_reference_id, [5u8; 32]);
    assert_eq!(answer.counterparty_name, None);
    assert_eq!(answer.pending_created_at, Some(5));
    let answer = answer.named(Some("ann.dash".to_string()));
    assert_eq!(answer.counterparty_name.as_deref(), Some("ann.dash"));
    assert_eq!(answer.amount_credits, MINIMUM);
    assert_eq!(check_transfer(&BOB, &ANN, answer.amount_credits, MINIMUM), Ok(()));
    assert!(check_transfer(&BOB, &ANN, answer.amount_credits - 1, MINIMUM).is_err());
    let refused = Err(OrchardPayTaskError::OrchardPay(OrchardPayError::AnchorNotFound));
    assert_eq!(accept_contact(BOB, ANN, &None, &limits()), refused);
    assert_eq!(accept_contact(BOB, ANN, &Some(established()), &limits()), refused);
}

#[test]
fn a_cut_off_attempt_is_taken_up_where_it_stopped() {
    assert_eq!(anchor_attempt(&None), AnchorAttempt::Fresh);
    let payment = PendingOrchardPayOperation::Payment {
        document_id: [6u8; 32],
        step: PendingOperationStep::DocumentPublished,
    };
    assert_eq!(anchor_attempt(&Some(payment)), AnchorAttempt::Fresh);
    assert_eq!(resume(&AnchorAttempt::Fresh), None);
    for (step, needs_transfer) in [
        (PendingOperationStep::DocumentPublished, true),
        (PendingOperationStep::TransferSent, false),
    ] {
        let progress = resume(&anchor_attempt(&Some(note(step))));
        assert_eq!(
            progress,
            Some(AnchorProgress {
                my_reference_id: [5u8; 32],
                my_anchor_document_id: [6u8; 32],
                needs_transfer,
                created_at: None,
            })
        );
    }
}

#[test]
fn the_steps_of_a_fresh_attempt_come_in_order() {
    let request = asked();
    let anchor = new_anchor(&request, [6u8; 32], [5u8; 32], &OUT, &ANN_KEY, &vec![1], &vec![2])
        .unwrap();
    let progress = published(&anchor, Some(77));
    let effects = publishing_effects(anchor.clone());
    assert_eq!(
        effects,
        vec![
            ContactEffect::SetPending(note(PendingOperationStep::DocumentPublished)),
            ContactEffect::Broadcast(anchor),
        ]
    );
    let effects = completing_effects(&request, &progress, vec![1], vec![2]);
    assert_eq!(
        effects,
        vec![
            ContactEffect::ScheduleReplace(ScheduledAnchorReplace {
                anchor_document_id: [6u8; 32],
                anchor_created_at: 77,
                role: AnchorRole::Initiator,
            }),
            ContactEffect::Transfer {
                amount: 150,
                memo: document_memo(MEMO_TAG_ANCHOR, &[6u8; 32]),
            },
            ContactEffect::SetPending(note(PendingOperationStep::TransferSent)),
            ContactEffect::SetState(OrchardPayContactState::PendingOutbound {
                my_reference_id: [5u8; 32],
                my_anchor_document_id: [6u8; 32],
                name: Some("bob.dash".to_string()),
                created_at: Some(77),
            }),
            ContactEffect::ClearPending,
        ]
    );
}

#[test]
fn a_resumed_attempt_publishes_and_pays_nothing_again() {
    let request = asked();
    let progress =
        resume(&anchor_attempt(&Some(note(PendingOperationStep::TransferSent)))).unwrap();
    let effects = completing_effects(&request, &progress, vec![1], vec![2]);
    assert_eq!(effects.len(), 2);
    assert!(matches!(effects[0], ContactEffect::SetState(_)));
    assert_eq!(effects[1], ContactEffect::ClearPending);
}

#[test]
fn accepting_keeps_when_the_request_was_created() {
    let answer = accept_contact(BOB, ANN, &Some(inbound([5u8; 32])), &limits()).unwrap();
    let anchor = new_anchor(&answer, [6u8; 32], [7u8; 32], &BACK, &BOB_KEY, &vec![1], &vec![2])
        .unwrap();
    let resumed =
        resume(&anchor_attempt(&Some(note(PendingOperationStep::DocumentPublished)))).unwrap();
    for (progress, scheduled) in [(published(&anchor, Some(77)), 1), (resumed, 0)] {
        let effects = completing_effects(&answer, &progress, vec![1], vec![2]);
        let times: Vec<u64> = effects
            .iter()
            .filter_map(|effect| match effect {
                ContactEffect::ScheduleReplace(replace) => Some(replace.anchor_created_at),
                _ => None,
            })
            .collect();
        assert_eq!(times, vec![77; scheduled]);
        let kept = effects.iter().find_map(|effect| match effect {
            ContactEffect::SetState(OrchardPayContactState::Established {
                created_at, ..
            }) => Some(*created_at),
            _ => None,
        });
        assert_eq!(kept, Some(Some(5)));
    }
}

#[test]
fn an_anchor_tells_each_side_what_it_should() {
    let request = asked();
    let anchor = new_anchor(&request, [6u8; 32], [5u8; 32], &OUT, &ANN_KEY, &vec![1], &vec![2])
        .unwrap();
    assert_eq!(
        ContactAnchorPayload::decrypt(&OUT, &anchor.data).unwrap(),
        ContactAnchorPayload {
            reference_id: [5u8; 32],
            core_payment_xpub: None,
            dedicated_shielded_address: None,
            initial_message: None,
        }
    );
    let record = AnchorDataRecord::decrypt(&ANN_KEY, &anchor.anchor_data).unwrap();
    assert_eq!(record.their_reference_id, Some(ANN));
    assert_eq!(record.counterparty_identity_id, BOB);
    assert_eq!(record.counterparty_name_snapshot.as_deref(), Some("bob.dash"));
    assert_eq!(record.counterparty_encryption_pubkey, Some(vec![1]));
    assert_eq!(record.counterparty_decryption_pubkey, Some(vec![2]));
}

#[test]
fn fresh_references_differ() {
    let request = asked();
    let draw = || {
        fresh_anchor(&request, [6u8; 32], &OUT, &ANN_KEY, &vec![1], &vec![2])
            .unwrap()
            .my_reference_id
    };
    assert_ne!(draw(), draw());
}

#[test]
fn a_handshake_leaves_each_side_with_the_others_reference() {
    let request = asked();
    let ann_anchor =
        fresh_anchor(&request, [40u8; 32], &OUT, &ANN_KEY, &vec![1], &vec![2]).unwrap();
    let ann_document = Some(document(&ann_anchor, 1000));
    assert_eq!(signal_sender(&BOB, &ann_document), Some(ANN));

    let readings = SignalReadings {
        sender_name: Some("ann.dash".to_string()),
        own_anchor: None,
        anchor_data_key: BOB_KEY,
        sender_encryption_pubkey: vec![3],
        sender_decryption_pubkey: None,
    };
    let received =
        handle_incoming_anchor_signal(&BOB, &ann_document, &OUT, &None, readings).unwrap();
    assert_eq!(
        received,
        Some(OrchardPayContactState::PendingInboundUnaccepted {
            their_reference_id: ann_anchor.my_reference_id,
            their_anchor_document_id: [40u8; 32],
            name: Some("ann.dash".to_string()),
            created_at: Some(1000),
        })
    );

    let answer = accept_contact(BOB, ANN, &received, &limits()).unwrap();
    let bob_anchor =
        fresh_anchor(&answer, [41u8; 32], &BACK, &BOB_KEY, &vec![3], &vec![4]).unwrap();
    let effects =
        completing_effects(&answer, &published(&bob_anchor, Some(2000)), vec![3], vec![4]);
    let bobs = effects.iter().find_map(|e| match e {
        ContactEffect::SetState(state) => Some(state.clone()),
        _ => None,
    });
    assert_eq!(
        bobs,
        Some(OrchardPayContactState::Established {
            my_reference_id: bob_anchor.my_reference_id,
            my_anchor_document_id: [41u8; 32],
            their_reference_id: ann_anchor.my_reference_id,
            counterparty_encryption_pubkey: vec![3],
            counterparty_decryption_pubkey: vec![4],
            name: None,
            created_at: Some(1000),
        })
    );

    let readings = SignalReadings {
        sender_name: None,
        own_anchor: ann_document,
        anchor_data_key: ANN_KEY,
        sender_encryption_pubkey: vec![5],
        sender_decryption_pubkey: None,
    };
    let anns = handle_incoming_anchor_signal(
        &ANN,
        &Some(document(&bob_anchor, 2000)),
        &BACK,
        &Some(outbound(ann_anchor.my_reference_id, [40u8; 32])),
        readings,
    )
    .unwrap();
    assert_eq!(
        anns,
        Some(OrchardPayContactState::Established {
            my_reference_id: ann_anchor.my_reference_id,
            my_anchor_document_id: [40u8; 32],
            their_reference_id: bob_anchor.my_reference_id,
            counterparty_encryption_pubkey: vec![5],
            counterparty_decryption_pubkey: vec![2],
            name: Some("bob.dash".to_string()),
            created_at: Some(4),
        })
    );
}

fn readings(own_anchor: Option<AnchorDocument>, key: Option<Vec<u8>>) -> SignalReadings {
    SignalReadings {
        sender_name: None,
        own_anchor,
        anchor_data_key: ANN_KEY,
        sender_encryption_pubkey: vec![5],
        sender_decryption_pubkey: key,
    }
}

#[test]
fn signals_that_do_not_concern_an_identity_change_nothing() {
    let anchor = fresh_anchor(&asked(), [40u8; 32], &OUT, &ANN_KEY, &vec![1], &vec![2]).unwrap();
    let own = Some(document(&anchor, 1));
    assert_eq!(signal_sender(&ANN, &own), None);
    assert_eq!(signal_sender(&BOB, &None), None);
    let mut empty = document(&anchor, 1);
    empty.data = None;
    assert_eq!(signal_sender(&BOB, &Some(empty)), None);
    assert_eq!(read_signal(&document(&anchor, 1), &BACK), None);
    assert_eq!(read_signal(&document(&anchor, 1), &OUT), Some(anchor.my_reference_id));
    let none = handle_incoming_anchor_signal(&BOB, &own, &BACK, &None, readings(None, None));
    assert_eq!(none, Ok(None));
    for state in [inbound([5u8; 32]), established()] {
        let outcome =
            handle_incoming_anchor_signal(&BOB, &own, &OUT, &Some(state), readings(None, None));
        assert_eq!(outcome, Ok(None));
    }
}

#[test]
fn completing_needs_ones_own_anchor_and_both_keys() {
    let theirs = fresh_anchor(&asked(), [40u8; 32], &OUT, &ANN_KEY, &vec![1], &vec![2]).unwrap();
    let signal = Some(document(&theirs, 1));
    let waiting = Some(outbound([5u8; 32], [41u8; 32]));
    assert_eq!(
        handle_incoming_anchor_signal(&BOB, &signal, &OUT, &waiting, readings(None, None)),
        Err(OrchardPayError::AnchorNotFound)
    );
    let bare = AnchorDocument {
        id: [41u8; 32],
        owner_id: BOB,
        created_at: None,
        data: None,
        anchor_data: Some(vec![]),
    };
    assert_eq!(own_noted_pubkey(&Some(bare.clone()), &ANN_KEY), Ok(None));
    assert_eq!(
        handle_incoming_anchor_signal(
            &BOB,
            &signal,
            &OUT,
            &waiting,
            readings(Some(bare.clone()), None)
        ),
        Err(OrchardPayError::CounterpartyKeyMissing)
    );
    let outcome = handle_incoming_anchor_signal(
        &BOB,
        &signal,
        &OUT,
        &waiting,
        readings(Some(bare.clone()), Some(vec![6])),
    );
    assert!(matches!(outcome, Ok(Some(OrchardPayContactState::Established { .. }))));
    let mut garbled = bare;
    garbled.anchor_data = Some(vec![0u8; 40]);
    assert_eq!(
        own_noted_pubkey(&Some(garbled), &ANN_KEY),
        Err(OrchardPayError::Crypto(OrchardPayCryptoError::Decryption))
    );
}

#[test]
fn signals_call_for_a_response_by_what_is_recorded() {
    assert_eq!(signal_response(&None), SignalResponse::RecordRequest);
    assert_eq!(
        signal_response(&Some(outbound([5u8; 32], [6u8; 32]))),
        SignalResponse::CompleteRequest { my_anchor_document_id: [6u8; 32] }
    );
    assert_eq!(signal_response(&Some(established())), SignalResponse::Ignore);
    assert_eq!(signal_response(&Some(inbound([5u8; 32]))), SignalResponse::Ignore);
}

#[test]
fn a_replacement_waits_for_its_time_and_for_the_answer() {
    let marker = |role: AnchorRole| {
        Some(ScheduledAnchorReplace {
            anchor_document_id: [6u8; 32],
            anchor_created_at: 1000,
            role,
        })
    };
    assert_eq!(due_replacement(&None, 9000, 500, &None), None);
    assert_eq!(due_replacement(&marker(AnchorRole::Acceptor), 1499, 500, &None), None);
    assert_eq!(due_replacement(&marker(AnchorRole::Acceptor), 10, 500, &None), None);
    assert_eq!(
        due_replacement(&marker(AnchorRole::Acceptor), 1500, 500, &None),
        Some(DueReplacement { anchor_document_id: [6u8; 32], their_reference_id: None })
    );
    assert_eq!(due_replacement(&marker(AnchorRole::Initiator), 1500, 500, &None), None);
    assert_eq!(
        due_replacement(&marker(AnchorRole::Initiator), 1500, 500, &Some(established())),
        Some(DueReplacement {
            anchor_document_id: [6u8; 32],
            their_reference_id: Some([32u8; 32]),
        })
    );
}

#[test]
fn a_replacement_keeps_the_length_and_all_but_the_reference() {
    let anchor = fresh_anchor(&asked(), [40u8; 32], &OUT, &ANN_KEY, &vec![1], &vec![2]).unwrap();
    let before = AnchorDataRecord::decrypt(&ANN_KEY, &anchor.anchor_data).unwrap();
    for reference in [None, Some([50u8; 32])] {
        let due =
            DueReplacement { anchor_document_id: [40u8; 32], their_reference_id: reference };
        let sealed =
            fire_due_scheduled_anchor_replace(&Some(document(&anchor, 1)), &due, &ANN_KEY)
                .unwrap();
        assert_eq!(sealed.len(), anchor.anchor_data.len());
        assert_ne!(sealed, anchor.anchor_data);
        let mut expected = before.clone();
        if reference.is_some() {
            expected.their_reference_id = reference;
        }
        assert_eq!(AnchorDataRecord::decrypt(&ANN_KEY, &sealed).unwrap(), expected);
    }
    let due = DueReplacement { anchor_document_id: [40u8; 32], their_reference_id: None };
    assert_eq!(
        fire_due_scheduled_anchor_replace(&None, &due, &ANN_KEY),
        Err(OrchardPayError::AnchorNotFound)
    );
    let mut bare = document(&anchor, 1);
    bare.anchor_data = None;
    assert_eq!(
        fire_due_scheduled_anchor_replace(&Some(bare), &due, &ANN_KEY),
        Err(OrchardPayError::AnchorNotFound)
    );
    assert_eq!(
        fire_due_scheduled_anchor_replace(&Some(document(&anchor, 1)), &due, &BOB_KEY),
        Err(OrchardPayError::Crypto(OrchardPayCryptoError::Decryption))
    );
}

fn own_document(id: u8, record: &AnchorDataRecord, created_at: u64) -> AnchorDocument {
    AnchorDocument {
        id: [id; 32],
        owner_id: ANN,
        created_at: Some(created_at),
        data: None,
        anchor_data: Some(record.encrypt(&ANN_KEY).unwrap()),
    }
}

fn record(counterparty: u8, theirs: Option<[u8; 32]>) -> AnchorDataRecord {
    AnchorDataRecord {
        counterparty_identity_id: [counterparty; 32],
        counterparty_name_snapshot: Some(format!("{counterparty}.dash")),
        my_reference_id: [70u8; 32],
        their_reference_id: theirs,
        my_initial_message: None,
        my_core_payment_xpub: None,
        my_dedicated_shielded_address: None,
        counterparty_encryption_pubkey: Some(vec![1]),
        counterparty_decryption_pubkey: Some(vec![2]),
    }
}

#[test]
fn recovery_rebuilds_what_was_published() {
    let mut unreadable = own_document(90, &record(60, None), 1);
    unreadable.anchor_data = Some(vec![0u8; 64]);
    let mut empty = own_document(91, &record(60, None), 1);
    empty.anchor_data = Some(vec![]);
    let documents = vec![
        own_document(80, &record(60, Some(ANN)), 10),
        own_document(81, &record(61, Some([71u8; 32])), 11),
        own_document(82, &record(62, None), 12),
        own_document(83, &record(61, Some([72u8; 32])), 13),
        unreadable,
        empty,
    ];
    let mut contacts = vec![([62u8; 32], established())];
    let mut summary =
        AnchorRecoverySummary { anchors_found: documents.len(), ..AnchorRecoverySummary::default() };
    let step = recover_own_anchors(
        &ANN,
        &documents,
        0,
        &ANN_KEY,
        &vec![],
        &mut contacts,
        &mut summary,
    );
    assert_eq!(step, RecoveryStep::Done);
    assert_eq!(
        summary,
        AnchorRecoverySummary {
            anchors_found: 6,
            contacts_recovered: 2,
            already_tracked: 2,
            undecryptable: 2,
        }
    );
    assert_eq!(contacts.len(), 3);
    assert_eq!(contacts[0], ([62u8; 32], established()));
    assert_eq!(
        contacts[1],
        (
            [60u8; 32],
            OrchardPayContactState::PendingOutbound {
                my_reference_id: [70u8; 32],
                my_anchor_document_id: [80u8; 32],
                name: Some("60.dash".to_string()),
                created_at: Some(10),
            }
        )
    );
    assert_eq!(
        contacts[2],
        (
            [61u8; 32],
            OrchardPayContactState::Established {
                my_reference_id: [70u8; 32],
                my_anchor_document_id: [81u8; 32],
                their_reference_id: [71u8; 32],
                counterparty_encryption_pubkey: vec![1],
                counterparty_decryption_pubkey: vec![2],
                name: Some("61.dash".to_string()),
                created_at: Some(11),
            }
        )
    );
}

#[test]
fn recovery_asks_for_keys_that_a_record_does_not_hold() {
    let mut bare = record(61, Some([71u8; 32]));
    bare.counterparty_encryption_pubkey = None;
    bare.counterparty_decryption_pubkey = None;
    let documents = vec![own_document(80, &record(60, None), 1), own_document(81, &bare, 2)];
    let mut contacts = vec![];
    let mut summary =
        AnchorRecoverySummary { anchors_found: 2, ..AnchorRecoverySummary::default() };
    let mut fetched = vec![];
    let mut from = 0;
    for purpose in [Purpose::Encryption, Purpose::Decryption] {
        let step = recover_own_anchors(
            &ANN,
            &documents,
            from,
            &ANN_KEY,
            &fetched,
            &mut contacts,
            &mut summary,
        );
        assert_eq!(
            step,
            RecoveryStep::NeedsKey { position: 1, counterparty_id: [61u8; 32], purpose }
        );
        from = 1;
        fetched.push(FetchedKey {
            counterparty_id: [61u8; 32],
            purpose,
            data: vec![if purpose == Purpose::Encryption { 5 } else { 6 }],
        });
    }
    let step = recover_own_anchors(
        &ANN,
        &documents,
        from,
        &ANN_KEY,
        &fetched,
        &mut contacts,
        &mut summary,
    );
    assert_eq!(step, RecoveryStep::Done);
    assert_eq!(summary.contacts_recovered, 2);
    match &contacts[1].1 {
        OrchardPayContactState::Established {
            counterparty_encryption_pubkey,
            counterparty_decryption_pubkey,
            ..
        } => {
            assert_eq!(counterparty_encryption_pubkey, &vec![5]);
            assert_eq!(counterparty_decryption_pubkey, &vec![6]);
        }
        other => panic!("expected an established contact, got {other:?}"),
    }
}

#[test]
fn own_records_are_read_only_with_the_wallets_key() {
    let document = own_document(80, &record(60, None), 1);
    assert_eq!(read_own_record(&document, &ANN_KEY), Some(record(60, None)));
    assert_eq!(read_own_record(&document, &BOB_KEY), None);
}

#[test]
fn pages_of_own_anchors_end_with_one_that_is_not_full() {
    let page: Vec<AnchorDocument> = (0..OWN_ANCHOR_PAGE_SIZE)
        .map(|i| AnchorDocument {
            id: [i as u8; 32],
            owner_id: ANN,
            created_at: None,
            data: None,
            anchor_data: None,
        })
        .collect();
    assert_eq!(next_own_anchor_page(1, &page), Some([99u8; 32]));
    assert_eq!(next_own_anchor_page(MAX_OWN_ANCHOR_PAGES, &page), None);
    assert_eq!(next_own_anchor_page(1, &page[..99].to_vec()), None);
    assert_eq!(next_own_anchor_page(1, &vec![]), None);
}
