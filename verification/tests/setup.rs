use std::sync::Arc;

use orchardpay::context::bootstrap::{
    bootstrap_wallet_addresses, bootstrap_wallet_addresses_jit, established_contact_pairs,
    next_unlock_step, opens_seed, queue_all_wallets_identity_discovery,
    reconcile_managed_identities,
    update_wallet_platform_address_info_from_sdk, wallet_needs_bootstrap, warm_auth_pubkey_cache,
    AddressInfo, DerivationPathReference, IdentityContacts, StoredContact, UnlockStep, Wallet,
};
use orchardpay::model::text::{decimal_text, is_not_after, is_whitespace, trim};
use orchardpay::model::validation::{
    validate_char_count, validate_min_amount, AmountTooLowError, TextLengthError,
};
use orchardpay::orchardpay::anchor_recovery::AnchorRecoverySummary;
use orchardpay::orchardpay::encryption::OrchardPayCryptoError;
use orchardpay::orchardpay::errors::OrchardPayError;
use orchardpay::orchardpay::keys::{
    compute_shared_secret_from_key, default_orchardpay_key_specs, ensure_own_orchardpay_keys,
    fetch_bounds_verified_counterparty_key, generate_orchardpay_key, own_bounds_verified_key,
    own_signing_key, require_own_key, ContractBounds, IdentityKey, KeyType, OwnKeysPlan,
    PrivateKeySource, Purpose, SecurityLevel,
};
use orchardpay::orchardpay::memo_scan::ScanPass;
use orchardpay::orchardpay::messages::{HistoryCursor, LoadedThread};
use orchardpay::orchardpay::tasks::{
    anchors_scanned, broadcast_document_created_at, contacts_recovered, dispatch_task,
    ensure_orchardpay_contract, keeps_own_address_flag, own_address_status, thread_loaded,
    BackendTask, BackendTaskSuccessResult, ContractSource, OrchardPayTask, PublishedDocument,
};
use orchardpay::ui::actions::{AppAction, MessageType, OrchardPaySubscreen, RootScreen};
use orchardpay::ui::components::onboarding_progress::{
    onboarding_progress, onboarding_step_for_screen, OnboardingStep, Screen, StepStanding,
};
use orchardpay::ui::orchardparty_screen::{OrchardPartyScreen, ORCHARD_PARTY_ANNOUNCEMENT};
use orchardpay::ui::orchardpay::shielded_address_screen::{
    after_publication, setup_breadcrumbs, PublishStatus, SetupView, ShieldedAddressSetupScreen,
};

const CONTRACT: [u8; 32] = [0xC0u8; 32];

fn bounds(document_type: &str) -> Option<ContractBounds> {
    Some(ContractBounds::SingleContractDocumentType {
        id: CONTRACT,
        document_type_name: document_type.to_string(),
    })
}

fn key(purpose: Purpose, contract_bounds: Option<ContractBounds>, byte: u8) -> IdentityKey {
    IdentityKey {
        key_type: KeyType::EcdsaSecp256k1,
        purpose,
        security_level: SecurityLevel::Medium,
        contract_bounds,
        data: vec![byte],
        disabled: false,
    }
}

#[test]
fn two_keys_bound_to_anchors_are_asked_for() {
    let specs = default_orchardpay_key_specs(CONTRACT);
    assert_eq!(specs.len(), 2);
    assert_eq!(specs[0].purpose, Purpose::Encryption);
    assert_eq!(specs[1].purpose, Purpose::Decryption);
    for spec in &specs {
        assert_eq!(spec.key_type, KeyType::EcdsaSecp256k1);
        assert_eq!(spec.security_level, SecurityLevel::Medium);
        assert_eq!(spec.contract_bounds, bounds("contactAnchor"));
    }
}

#[test]
fn only_a_key_bound_to_anchors_counts() {
    let keys = vec![
        key(Purpose::Encryption, None, 1),
        key(Purpose::Encryption, Some(ContractBounds::SingleContract { id: CONTRACT }), 2),
        key(Purpose::Encryption, bounds("profile"), 3),
        key(Purpose::Decryption, bounds("contactAnchor"), 4),
        key(Purpose::Encryption, bounds("contactAnchor"), 5),
    ];
    assert_eq!(own_bounds_verified_key(&keys, CONTRACT, Purpose::Encryption), Some(4));
    assert_eq!(own_bounds_verified_key(&keys, CONTRACT, Purpose::Decryption), Some(3));
    assert_eq!(own_bounds_verified_key(&keys, [1u8; 32], Purpose::Decryption), None);
    assert_eq!(require_own_key(&keys, CONTRACT, Purpose::Encryption), Ok(4));
    assert_eq!(
        require_own_key(&keys, CONTRACT, Purpose::Authentication),
        Err(OrchardPayError::OwnKeyMissing)
    );
    assert_eq!(
        fetch_bounds_verified_counterparty_key(None, CONTRACT),
        Err(OrchardPayError::CounterpartyKeyMissing)
    );
    assert_eq!(
        fetch_bounds_verified_counterparty_key(Some(keys[2].clone()), CONTRACT),
        Err(OrchardPayError::CounterpartyKeyNotBound)
    );
    assert_eq!(
        fetch_bounds_verified_counterparty_key(Some(keys[3].clone()), CONTRACT),
        Ok(keys[3].clone())
    );
}

#[test]
fn documents_are_signed_with_the_first_key_that_may() {
    let mut keys = vec![
        key(Purpose::Encryption, None, 1),
        key(Purpose::Authentication, None, 2),
        key(Purpose::Authentication, None, 3),
        key(Purpose::Authentication, None, 4),
        key(Purpose::Authentication, None, 5),
    ];
    keys[1].security_level = SecurityLevel::Master;
    keys[2].disabled = true;
    keys[3].security_level = SecurityLevel::Critical;
    assert_eq!(own_signing_key(&keys), Ok(3));
    keys.truncate(3);
    assert_eq!(own_signing_key(&keys), Err(OrchardPayError::OwnKeyMissing));
}

#[test]
fn a_private_key_is_stored_or_derived() {
    assert_eq!(compute_shared_secret_from_key(true, None), Ok(PrivateKeySource::Stored));
    assert_eq!(
        compute_shared_secret_from_key(false, Some(6)),
        Ok(PrivateKeySource::Derived { identity_index: 6 })
    );
    assert_eq!(
        compute_shared_secret_from_key(false, None),
        Err(OrchardPayError::OwnKeyMissing)
    );
}

#[test]
fn missing_keys_are_planned_and_complete_the_set() {
    let mut keys = vec![key(Purpose::Authentication, None, 9)];
    assert_eq!(
        ensure_own_orchardpay_keys(&keys, None, CONTRACT),
        Err(OrchardPayError::OwnKeyNotDerivable)
    );
    let mut taken = vec![vec![9u8]];
    assert_eq!(
        ensure_own_orchardpay_keys(&keys, Some(3), CONTRACT),
        Ok(OwnKeysPlan::Generate {
            identity_index: 3,
            purposes: vec![Purpose::Encryption, Purpose::Decryption],
            already_registered: taken.clone(),
        })
    );
    keys.push(generate_orchardpay_key(&mut taken, vec![10], Purpose::Encryption, CONTRACT));
    assert_eq!(taken, vec![vec![9u8], vec![10u8]]);
    assert_eq!(
        ensure_own_orchardpay_keys(&keys, Some(3), CONTRACT),
        Ok(OwnKeysPlan::Generate {
            identity_index: 3,
            purposes: vec![Purpose::Decryption],
            already_registered: taken.clone(),
        })
    );
    keys.push(generate_orchardpay_key(&mut taken, vec![11], Purpose::Decryption, CONTRACT));
    assert_eq!(keys[2], key(Purpose::Decryption, bounds("contactAnchor"), 11));
    assert_eq!(
        ensure_own_orchardpay_keys(&keys, None, CONTRACT),
        Ok(OwnKeysPlan::Complete)
    );
}

#[test]
fn the_contract_is_fetched_only_where_it_is_not_at_hand() {
    assert_eq!(ensure_orchardpay_contract(true, None), Ok(ContractSource::Local));
    assert_eq!(
        ensure_orchardpay_contract(false, Some(CONTRACT)),
        Ok(ContractSource::Fetch(CONTRACT))
    );
    assert_eq!(
        ensure_orchardpay_contract(false, None),
        Err(OrchardPayError::ContractNotConfigured)
    );
}

#[test]
fn results_carry_what_was_found() {
    assert_eq!(
        dispatch_task(vec![[1u8; 32]], [2u8; 32]),
        BackendTask::OrchardPayTask(Box::new(OrchardPayTask::ScanForIncomingAnchors {
            identity_ids: vec![[1u8; 32]],
            seed_hash: [2u8; 32],
        }))
    );
    assert_eq!(
        broadcast_document_created_at(&BackendTaskSuccessResult::BroadcastedDocument(
            PublishedDocument { id: [1u8; 32], created_at: Some(8) }
        )),
        Some(8)
    );
    assert_eq!(
        broadcast_document_created_at(&BackendTaskSuccessResult::ReplacedDocument([1u8; 32])),
        None
    );
    let cursor = HistoryCursor { mine_before: Some(1), their_before: None };
    assert_eq!(
        thread_loaded(
            [7u8; 32],
            LoadedThread {
                all_decoded: vec![],
                messages: vec![],
                receipt_alerts: vec![],
                history_cursor: cursor,
                may_be_incomplete: true,
            },
            vec![],
        ),
        BackendTaskSuccessResult::OrchardPayThreadLoaded {
            counterparty_identity_id: [7u8; 32],
            all_decoded: vec![],
            messages: vec![],
            silent_payments: vec![],
            receipt_alerts: vec![],
            history_cursor: cursor,
            may_be_incomplete: true,
        }
    );
    assert_eq!(
        contacts_recovered(&AnchorRecoverySummary {
            anchors_found: 4,
            contacts_recovered: 1,
            already_tracked: 2,
            undecryptable: 1,
        }),
        BackendTaskSuccessResult::OrchardPayContactsRecovered {
            anchors_found: 4,
            contacts_recovered: 1,
            already_tracked: 2,
            undecryptable: 1,
        }
    );
    assert_eq!(
        own_address_status([1u8; 32], &Some([0u8; 43])),
        BackendTaskSuccessResult::OrchardPayOwnShieldedAddressStatus {
            identity_id: [1u8; 32],
            published: true,
        }
    );
    assert!(keeps_own_address_flag(&Some([0u8; 43])));
    assert!(!keeps_own_address_flag(&None));
    assert_eq!(
        own_address_status([1u8; 32], &None),
        BackendTaskSuccessResult::OrchardPayOwnShieldedAddressStatus {
            identity_id: [1u8; 32],
            published: false,
        }
    );
    assert_eq!(
        anchors_scanned(&ScanPass::new(), 2),
        BackendTaskSuccessResult::OrchardPayIncomingAnchorsScanned {
            anything_changed: false,
            anchor_signals_seen: 0,
            anchor_signals_claimed: 0,
            anchor_signals_still_unresolved: 2,
        }
    );
}

#[test]
fn errors_are_told_in_words() {
    assert_eq!(
        OrchardPayError::RelationshipAlreadyExists.message(),
        "You've already connected with this contact, or a request is already pending. Check your Contacts list."
    );
    assert_eq!(
        OrchardPayError::Crypto(OrchardPayCryptoError::PayloadTooLarge).message(),
        OrchardPayCryptoError::PayloadTooLarge.message()
    );
    let every = [
        OrchardPayError::ContractNotConfigured,
        OrchardPayError::QueryCreation,
        OrchardPayError::CounterpartyKeyMissing,
        OrchardPayError::CounterpartyKeyNotBound,
        OrchardPayError::AnchorNotFound,
        OrchardPayError::OwnKeyMissing,
        OrchardPayError::MemoScanFailed,
        OrchardPayError::KeyGenerationFailed,
        OrchardPayError::ContactNotEstablished,
        OrchardPayError::OwnKeyNotDerivable,
    ];
    for error in every {
        assert!(error.message().ends_with('.'));
    }
}

#[test]
fn lengths_and_amounts_are_judged_at_their_bounds() {
    assert_eq!(validate_char_count("é\u{1F600}", 2, 3), Ok(()));
    let short = validate_char_count("a", 2, 3).unwrap_err();
    assert_eq!(short, TextLengthError { actual: 1, min: 2, max: 3 });
    assert_eq!(
        short.message(),
        "text contains 1 characters; expected between 2 and 3"
    );
    assert!(validate_char_count("abcd", 2, 3).is_err());
    assert_eq!(validate_min_amount(10, 10), Ok(()));
    let low = validate_min_amount(9, 10).unwrap_err();
    assert_eq!(low, AmountTooLowError { actual: 9, minimum: 10 });
    assert_eq!(low.message(), "amount is 9 credits; minimum is 10 credits");
}

#[test]
fn texts_are_spelled_trimmed_and_compared() {
    assert_eq!(decimal_text(0), "0");
    assert_eq!(decimal_text(u64::MAX), "18446744073709551615");
    assert_eq!(trim(" \t a b \u{a0}\n"), "a b");
    assert_eq!(trim(" \n "), "");
    assert_eq!(trim("\u{200b}a\u{3000}"), "\u{200b}a");
    assert!(is_not_after("abc", "abd"));
    assert!(is_not_after("ab", "abc"));
    assert!(!is_not_after("b", "abc"));
}

#[test]
fn whitespace_is_what_has_the_property() {
    for c in '\0'..=char::MAX {
        assert_eq!(is_whitespace(c), c.is_whitespace(), "{c:?}");
    }
}

fn wallet(is_open: bool, known: usize, watched: Vec<DerivationPathReference>) -> Wallet {
    Wallet {
        is_open,
        known_addresses: known,
        watched_addresses: watched,
    }
}

#[test]
fn a_wallet_gets_its_first_addresses_once() {
    let fresh = wallet(true, 0, vec![]);
    let core_only = wallet(true, 1, vec![DerivationPathReference::Other]);
    let complete = wallet(
        true,
        2,
        vec![DerivationPathReference::Other, DerivationPathReference::PlatformPayment],
    );
    assert!(wallet_needs_bootstrap(&fresh));
    assert!(wallet_needs_bootstrap(&core_only));
    assert!(!wallet_needs_bootstrap(&complete));
    assert!(bootstrap_wallet_addresses(&fresh));
    assert!(!bootstrap_wallet_addresses(&complete));
    assert!(!bootstrap_wallet_addresses(&wallet(false, 0, vec![])));
    assert!(opens_seed(&fresh) && opens_seed(&complete));
    assert!(!opens_seed(&wallet(false, 0, vec![])));
    assert_eq!(bootstrap_wallet_addresses_jit(&Some(fresh)), UnlockStep::DeriveAddresses);
    assert_eq!(bootstrap_wallet_addresses_jit(&Some(complete)), UnlockStep::RegisterUpstream);
    assert_eq!(bootstrap_wallet_addresses_jit(&None), UnlockStep::RegisterUpstream);
}

#[test]
fn a_failed_step_stops_only_what_needs_it() {
    let walk = |failing: UnlockStep| {
        let mut steps = vec![];
        let mut step = Some(UnlockStep::DeriveAddresses);
        while let Some(current) = step {
            steps.push(current);
            step = next_unlock_step(current, current != failing);
        }
        steps
    };
    assert_eq!(walk(UnlockStep::RegisterUpstream).len(), 8);
    assert_eq!(walk(UnlockStep::DeriveAddresses), walk(UnlockStep::WarmAuthKeys));
    let unbound = walk(UnlockStep::BindShielded);
    assert_eq!(unbound.len(), 7);
    assert!(!unbound.contains(&UnlockStep::CacheShieldedAddress));
    assert_eq!(unbound.last(), Some(&UnlockStep::WarmAuthKeys));
}

#[test]
fn identities_and_contacts_are_picked_by_wallet() {
    assert_eq!(
        reconcile_managed_identities(&vec![
            ([1u8; 32], Some(0)),
            ([2u8; 32], None),
            ([3u8; 32], Some(5)),
        ]),
        vec![([1u8; 32], 0), ([3u8; 32], 5)]
    );
    let contact = |accepted: bool, id: Vec<u8>| StoredContact {
        accepted,
        contact_identity_id: id,
    };
    let pairs = established_contact_pairs(
        &vec![
            IdentityContacts {
                owner_id: [1u8; 32],
                wallet_seed_hash: Some([9u8; 32]),
                contacts: vec![
                    contact(true, vec![4; 32]),
                    contact(false, vec![5; 32]),
                    contact(true, vec![6; 31]),
                    contact(true, vec![7; 32]),
                ],
            },
            IdentityContacts {
                owner_id: [2u8; 32],
                wallet_seed_hash: Some([8u8; 32]),
                contacts: vec![contact(true, vec![4; 32])],
            },
            IdentityContacts {
                owner_id: [3u8; 32],
                wallet_seed_hash: None,
                contacts: vec![contact(true, vec![4; 32])],
            },
        ],
        &[9u8; 32],
    );
    assert_eq!(pairs, vec![([1u8; 32], [4u8; 32]), ([1u8; 32], [7u8; 32])]);
}

#[test]
fn only_what_is_not_kept_is_derived_anew() {
    assert_eq!(
        warm_auth_pubkey_cache(&vec![(0, 0), (2, 1)], &vec![0, 2], 2),
        vec![(0, 1), (2, 0)]
    );
    assert_eq!(warm_auth_pubkey_cache(&vec![], &vec![], 2), vec![]);
}

#[test]
fn discovery_is_started_once() {
    let mut fired = false;
    assert!(queue_all_wallets_identity_discovery(&mut fired, 2));
    assert!(fired);
    assert!(!queue_all_wallets_identity_discovery(&mut fired, 2));
    let mut fired = false;
    assert!(!queue_all_wallets_identity_discovery(&mut fired, 0));
    assert!(fired);
}

#[test]
fn only_known_address_infos_are_taken_over() {
    let info = AddressInfo { balance: 5, nonce: 1 };
    assert_eq!(
        update_wallet_platform_address_info_from_sdk(&vec![
            ("a".to_string(), None),
            ("b".to_string(), Some(info)),
        ]),
        vec![("b".to_string(), info)]
    );
}

#[test]
fn the_guided_setup_has_four_steps() {
    let labels: Vec<&str> = OnboardingStep::ALL.iter().map(|s| s.label()).collect();
    assert_eq!(labels, vec!["Wallet", "Identity", "Name", "OrchardPay"]);
    for (i, step) in OnboardingStep::ALL.iter().enumerate() {
        assert_eq!(step.index(), i);
    }
    assert_eq!(
        onboarding_step_for_screen(&Screen::ImportMnemonicScreen),
        Some(OnboardingStep::Wallet)
    );
    assert_eq!(onboarding_step_for_screen(&Screen::Other), None);
    assert_eq!(
        onboarding_progress(OnboardingStep::DpnsName),
        [StepStanding::Done, StepStanding::Done, StepStanding::Current, StepStanding::Ahead]
    );
}

#[test]
fn an_address_is_published_from_its_screen() {
    let mut screen = ShieldedAddressSetupScreen::new([1u8; 32], Some(4), Some([2u8; 32]));
    assert_eq!(
        setup_breadcrumbs(),
        vec![
            ("Identities", AppAction::SetMainScreen(RootScreen::Identities)),
            ("Setup OrchardPay", AppAction::NoAction),
        ]
    );
    assert_eq!(screen.view_model(true, true, false), SetupView::Locked);
    assert_eq!(
        screen.view_model(false, true, false),
        SetupView::Ready { can_publish: true }
    );
    assert_eq!(
        screen.view_model(false, true, true),
        SetupView::Ready { can_publish: false }
    );
    assert_eq!(
        screen.publish_clicked(),
        AppAction::BackendTask(BackendTask::OrchardPayTask(Box::new(
            OrchardPayTask::PublishShieldedAddress {
                identity_id: [1u8; 32],
                identity_key: 4,
                seed_hash: [2u8; 32],
            }
        )))
    );
    assert_eq!(screen.status, PublishStatus::WaitingForResult);
    screen.display_message(MessageType::Info);
    assert_eq!(screen.status, PublishStatus::WaitingForResult);
    screen.display_message(MessageType::Warning);
    assert_eq!(screen.status, PublishStatus::Error);
    screen.display_task_result(&BackendTaskSuccessResult::ReplacedDocument([3u8; 32]));
    assert_eq!(screen.view_model(false, true, false), SetupView::Published);
    assert_eq!(
        after_publication(),
        AppAction::NavigateToOrchardPaySubscreen(OrchardPaySubscreen::AddContact)
    );

    let mut bare = ShieldedAddressSetupScreen::new([1u8; 32], None, None);
    assert_eq!(bare.view_model(false, true, false), SetupView::NoWallet);
    assert_eq!(bare.publish_clicked(), AppAction::NoAction);
    assert_eq!(bare.status, PublishStatus::NotStarted);
}

#[test]
fn a_coming_feature_is_announced() {
    let context = Arc::new(5u8);
    let screen = OrchardPartyScreen::new(&context);
    assert!(Arc::ptr_eq(&screen.app_context, &context));
    assert_eq!(ORCHARD_PARTY_ANNOUNCEMENT, "OrchardParty - Coming Soon!");
}
