use orchardpay::model::orchardpay::{
    group_shielded_activity, OrchardPayContactState, ShieldedActivityRow, ShieldedNoteKind,
};
use orchardpay::orchardpay::contact_search::OrchardPayContactSearchResult;
use orchardpay::orchardpay::outgoing::SendLimits;
use orchardpay::orchardpay::recent_activity::RecentContactActivity;
use orchardpay::orchardpay::tasks::{
    BackendTask, BackendTaskSuccessResult, OrchardPayTask, PublishedDocument,
};
use orchardpay::ui::actions::{AppAction, MessageType, OrchardPaySubscreen};
use orchardpay::ui::components::confirmation_dialog::ConfirmationStatus;
use orchardpay::ui::orchardpay::balance_label::{balance_summary_label, CreditReadout};
use orchardpay::ui::orchardpay::contact_list::{
    contacts_by_name, contacts_by_recency, format_duration_ago, last_sync_label, list_contact,
    note_status_label, recent_activity_label, unspent_summary, CardStanding, ListedContact,
    SearchStanding,
};
use orchardpay::ui::orchardpay::orchardpay_screen::{
    resolve_identity, tabs, AddressGate, LocalReadiness, OrchardPayScreen,
};

const ANCHOR_SIGNAL_AMOUNT_CREDITS: u64 = 100_000_000;
const TYPED_AMOUNT_CREDITS: u64 = 200_000_000;
const ME: [u8; 32] = [1u8; 32];
const ALICE: [u8; 32] = [2u8; 32];
const BOB: [u8; 32] = [4u8; 32];
const WALLET: [u8; 32] = [3u8; 32];

fn limits() -> SendLimits {
    SendLimits {
        min_message_chars: 1,
        max_message_chars: 10,
        min_memo_chars: 0,
        max_memo_chars: 5,
        min_amount: ANCHOR_SIGNAL_AMOUNT_CREDITS,
    }
}

fn add_contact_screen() -> OrchardPayScreen {
    let mut screen = OrchardPayScreen::new(
        OrchardPaySubscreen::AddContact,
        Some(ME),
        Some(1),
        Some(WALLET),
        Some(true),
    );
    screen.search_results = vec![OrchardPayContactSearchResult {
        identity_id: ALICE,
        username: "alice.dash".to_string(),
        contactable: true,
        existing_relationship: None,
    }];
    screen
}

fn direct_send_screen() -> OrchardPayScreen {
    let mut screen = add_contact_screen();
    screen.select_tab(OrchardPaySubscreen::DirectSend);
    screen.direct_send_amount = Some(TYPED_AMOUNT_CREDITS);
    screen
}

fn click_add_contact(screen: &mut OrchardPayScreen) {
    let row = screen.search_results[0].clone();
    let standing = screen.add_contact_row(&row, false);
    assert_eq!(standing.text(false), "Add Contact");
    if standing == (SearchStanding::Contactable { running: false, enabled: true }) {
        screen.initiate_clicked(row.identity_id, row.username, &limits());
    }
}

fn click_direct_send(screen: &mut OrchardPayScreen) {
    let row = screen.search_results[0].clone();
    let standing = screen.direct_send_row(&row, false);
    assert_eq!(standing.text(true), "Direct Send");
    if standing == (SearchStanding::Contactable { running: false, enabled: true }) {
        screen.direct_send_clicked(row.identity_id, row.username, "0.002 DASH");
    }
}

fn title(screen: &OrchardPayScreen) -> Option<String> {
    screen.pending_confirmation.as_ref().map(|p| p.dialog.title.clone())
}

fn pending_outbound(created_at: Option<u64>, name: Option<&str>) -> OrchardPayContactState {
    OrchardPayContactState::PendingOutbound {
        my_reference_id: [0u8; 32],
        my_anchor_document_id: [0u8; 32],
        name: name.map(|n| n.to_string()),
        created_at,
    }
}

fn inbound(created_at: Option<u64>, name: Option<&str>) -> OrchardPayContactState {
    OrchardPayContactState::PendingInboundUnaccepted {
        their_reference_id: [0u8; 32],
        their_anchor_document_id: [0u8; 32],
        name: name.map(|n| n.to_string()),
        created_at,
    }
}

fn established(created_at: Option<u64>, name: Option<&str>) -> OrchardPayContactState {
    OrchardPayContactState::Established {
        my_reference_id: [0u8; 32],
        my_anchor_document_id: [0u8; 32],
        their_reference_id: [0u8; 32],
        counterparty_encryption_pubkey: vec![1],
        counterparty_decryption_pubkey: vec![2],
        name: name.map(|n| n.to_string()),
        created_at,
    }
}

#[test]
fn add_contact_click_opens_confirmation_without_dispatching() {
    let mut screen = add_contact_screen();
    click_add_contact(&mut screen);

    assert!(
        screen.render_pending_confirmation(None).is_none(),
        "the original Add Contact click must not dispatch a backend task"
    );
    assert_eq!(
        title(&screen).as_deref(),
        Some("Send Contact Request"),
        "confirmation modal must show the action's title"
    );

    let action = screen.render_pending_confirmation(Some(ConfirmationStatus::Confirmed));

    assert!(
        screen.pending_confirmation.is_none(),
        "the confirmation dialog must close after confirmation"
    );
    assert!(
        matches!(action, AppAction::BackendTask(_)),
        "confirming must dispatch the real backend task"
    );
    assert_eq!(
        action,
        AppAction::run(OrchardPayTask::InitiateContact {
            identity_id: ME,
            identity_key: 1,
            counterparty_identity_id: ALICE,
            counterparty_name: "alice.dash".to_string(),
            seed_hash: WALLET,
            amount_credits: ANCHOR_SIGNAL_AMOUNT_CREDITS,
        })
    );
}

#[test]
fn add_contact_cancel_does_not_dispatch() {
    let mut screen = add_contact_screen();
    click_add_contact(&mut screen);
    assert_eq!(title(&screen).as_deref(), Some("Send Contact Request"));

    let action = screen.render_pending_confirmation(Some(ConfirmationStatus::Canceled));

    assert!(
        screen.pending_confirmation.is_none(),
        "canceling must close the confirmation dialog"
    );
    assert!(action.is_none(), "canceling must never dispatch a backend task");
}

#[test]
fn direct_send_button_disabled_without_amount() {
    let mut screen = direct_send_screen();
    screen.direct_send_amount = None;

    click_direct_send(&mut screen);

    assert!(
        screen.pending_confirmation.is_none(),
        "a click on the disabled button must not open the confirmation modal"
    );
    assert!(screen.render_pending_confirmation(None).is_none());
    screen.direct_send_clicked(ALICE, "alice.dash".to_string(), "0.002 DASH");
    assert!(screen.pending_confirmation.is_none());
}

#[test]
fn direct_send_click_opens_confirmation_with_checkbox() {
    let mut screen = direct_send_screen();
    click_direct_send(&mut screen);

    assert!(
        screen.render_pending_confirmation(None).is_none(),
        "the original Direct Send click must not dispatch a backend task"
    );
    assert_eq!(title(&screen).as_deref(), Some("Confirm Direct Send"));
    let dialog = screen.pending_confirmation.as_ref().unwrap().dialog.clone();
    assert_eq!(dialog.checkbox.unwrap().label, "Include a contact request?");
    assert_eq!(dialog.message, "Send 0.002 DASH to alice?");
    assert!(dialog.danger_mode);
}

#[test]
fn direct_send_confirm_without_checkbox_dispatches_send_direct() {
    let mut screen = direct_send_screen();
    click_direct_send(&mut screen);

    match screen.render_pending_confirmation(Some(ConfirmationStatus::Confirmed)) {
        AppAction::BackendTask(BackendTask::OrchardPayTask(task)) => match task.as_ref() {
            OrchardPayTask::SendDirect { counterparty_identity_id, amount, .. } => {
                assert_eq!(*counterparty_identity_id, ALICE);
                assert_eq!(*amount, TYPED_AMOUNT_CREDITS);
            }
            other => panic!("expected SendDirect, got {other:?}"),
        },
        other => panic!("expected a dispatched BackendTask, got {other:?}"),
    }
}

#[test]
fn direct_send_confirm_with_checkbox_dispatches_initiate_contact_with_custom_amount() {
    let mut screen = direct_send_screen();
    click_direct_send(&mut screen);
    screen.pending_confirmation.as_mut().unwrap().dialog.set_checkbox(true);

    match screen.render_pending_confirmation(Some(ConfirmationStatus::Confirmed)) {
        AppAction::BackendTask(BackendTask::OrchardPayTask(task)) => match task.as_ref() {
            OrchardPayTask::InitiateContact { counterparty_identity_id, amount_credits, .. } => {
                assert_eq!(*counterparty_identity_id, ALICE);
                assert_eq!(*amount_credits, TYPED_AMOUNT_CREDITS);
                assert_ne!(
                    *amount_credits, ANCHOR_SIGNAL_AMOUNT_CREDITS,
                    "must use the typed amount, not Send Friend Request's default"
                );
            }
            other => panic!("expected InitiateContact, got {other:?}"),
        },
        other => panic!("expected a dispatched BackendTask, got {other:?}"),
    }
}

#[test]
fn direct_send_cancel_does_not_dispatch() {
    let mut screen = direct_send_screen();
    click_direct_send(&mut screen);
    assert_eq!(title(&screen).as_deref(), Some("Confirm Direct Send"));

    let action = screen.render_pending_confirmation(Some(ConfirmationStatus::Canceled));

    assert!(screen.pending_confirmation.is_none());
    assert!(action.is_none());
}

#[test]
fn direct_send_completed_releases_guard_and_clears_amount() {
    let mut screen = direct_send_screen();
    assert!(screen.contact_actions.begin(ALICE));

    screen.display_task_result(
        BackendTaskSuccessResult::OrchardPayDirectSendCompleted {
            counterparty_identity_id: ALICE,
            amount: TYPED_AMOUNT_CREDITS,
        },
        Vec::new(),
    );

    assert!(
        !screen.contact_actions.is_in_flight(&ALICE),
        "a completed direct send must release its guard"
    );
    assert!(
        screen.direct_send_amount.is_none(),
        "a completed direct send must clear the entered amount"
    );
}

#[test]
fn what_runs_for_somebody_does_not_run_twice() {
    let mut screen = add_contact_screen();
    click_add_contact(&mut screen);
    let again = screen.pending_confirmation.clone();
    let first = screen.render_pending_confirmation(Some(ConfirmationStatus::Confirmed));
    assert!(!first.is_none());
    assert_eq!(
        screen.add_contact_row(&screen.search_results[0], false),
        SearchStanding::Contactable { running: true, enabled: false }
    );
    screen.pending_confirmation = again;
    let second = screen.render_pending_confirmation(Some(ConfirmationStatus::Confirmed));
    assert!(second.is_none());
    assert!(screen.pending_confirmation.is_none());
}

#[test]
fn accepting_is_asked_about() {
    let mut screen = add_contact_screen();
    screen.accept_clicked(BOB, "bob");
    let pending = screen.pending_confirmation.clone().unwrap();
    assert_eq!(pending.dialog.title, "Accept Contact Request");
    assert_eq!(pending.dialog.message, "Accept the contact request from bob?");
    assert!(!pending.dialog.danger_mode);
    assert_eq!(
        screen.render_pending_confirmation(Some(ConfirmationStatus::Confirmed)),
        AppAction::run(OrchardPayTask::AcceptContact {
            identity_id: ME,
            identity_key: 1,
            counterparty_identity_id: BOB,
            seed_hash: WALLET,
        })
    );
    let mut screen = add_contact_screen();
    screen.selected_key = None;
    screen.accept_clicked(BOB, "bob");
    assert!(screen.pending_confirmation.is_none());
}

#[test]
fn a_publication_lets_go_only_of_what_has_landed() {
    let mut screen = add_contact_screen();
    assert!(screen.contact_actions.begin(ALICE));
    assert!(screen.contact_actions.begin(BOB));
    screen.pending_identity_refresh = false;
    let published = BackendTaskSuccessResult::BroadcastedDocument(PublishedDocument {
        id: [9u8; 32],
        created_at: None,
    });
    screen.display_task_result(
        published,
        vec![
            (ALICE, Some(pending_outbound(Some(5), Some("alice.dash")))),
            (BOB, Some(inbound(Some(5), None))),
        ],
    );
    assert!(screen.pending_identity_refresh);
    assert!(!screen.contact_actions.is_in_flight(&ALICE));
    assert!(screen.contact_actions.is_in_flight(&BOB));
    assert_eq!(
        screen.search_results[0].existing_relationship,
        Some(pending_outbound(Some(5), Some("alice.dash")))
    );
    assert_eq!(
        screen.add_contact_row(&screen.search_results[0], false),
        SearchStanding::RequestSent
    );
}

#[test]
fn other_results_are_not_taken_for_a_contact_send() {
    let mut screen = add_contact_screen();
    assert!(!screen.handle_contact_send_result(&BackendTaskSuccessResult::NoResult, Vec::new()));
    let published = BackendTaskSuccessResult::BroadcastedDocument(PublishedDocument {
        id: [9u8; 32],
        created_at: None,
    });
    assert!(screen.handle_contact_send_result(&published, Vec::new()));
}

#[test]
fn search_rows_say_what_can_be_done() {
    let screen = add_contact_screen();
    let mut row = screen.search_results[0].clone();
    assert_eq!(
        screen.add_contact_row(&row, true),
        SearchStanding::Contactable { running: false, enabled: false }
    );
    row.existing_relationship = Some(inbound(None, None));
    assert_eq!(
        screen.add_contact_row(&row, false).text(false),
        "Wants to connect with you — check Contacts to accept"
    );
    row.existing_relationship = Some(established(None, None));
    assert_eq!(screen.add_contact_row(&row, false).text(false), "Already connected");
    row.existing_relationship = Some(pending_outbound(None, None));
    assert_eq!(screen.add_contact_row(&row, false).text(false), "Request already sent");
    row.existing_relationship = None;
    row.contactable = false;
    assert_eq!(screen.direct_send_row(&row, false).text(true), "Hasn't set up OrchardPay yet");
    let running = SearchStanding::Contactable { running: true, enabled: false };
    assert_eq!(running.text(false), "Sending…");
    assert_eq!(running.text(true), "Sending Directly…");
}

#[test]
fn a_search_needs_words_and_an_identity() {
    let mut screen = add_contact_screen();
    screen.search_query = "   ".to_string();
    assert!(screen.search_clicked().is_none());
    assert!(!screen.searching);
    screen.search_query = " ali ".to_string();
    assert_eq!(
        screen.search_clicked(),
        AppAction::run(OrchardPayTask::SearchContacts {
            search_query: " ali ".to_string(),
            owner_identity_id: ME,
        })
    );
    assert!(screen.searching);
    screen.display_task_result(
        BackendTaskSuccessResult::OrchardPayContactSearchResults(Vec::new()),
        Vec::new(),
    );
    assert!(!screen.searching);
    assert!(screen.search_results.is_empty());
    screen.identity = None;
    assert!(screen.search_clicked().is_none());
}

#[test]
fn each_load_is_asked_for_once() {
    let mut screen = add_contact_screen();
    assert_eq!(
        screen.take_recent_activity_load(),
        AppAction::run(OrchardPayTask::LoadRecentActivity { identity_id: ME })
    );
    assert!(screen.take_recent_activity_load().is_none());
    screen.display_task_result(
        BackendTaskSuccessResult::OrchardPayRecentActivity(Vec::new()),
        Vec::new(),
    );
    screen.recent_activity_dispatched = false;
    assert!(screen.take_recent_activity_load().is_none());
    screen.refresh_recent_activity();
    assert!(!screen.take_recent_activity_load().is_none());

    assert_eq!(
        screen.take_shielded_activity_load(),
        AppAction::run(OrchardPayTask::LoadShieldedActivity { seed_hash: WALLET })
    );
    assert!(screen.take_shielded_activity_load().is_none());
    screen.refresh_shielded_activity();
    assert!(!screen.take_shielded_activity_load().is_none());

    assert_eq!(
        screen.take_identity_refresh(),
        AppAction::BackendTask(BackendTask::RefreshIdentity(ME))
    );
    assert!(screen.take_identity_refresh().is_none());
}

#[test]
fn the_published_address_is_asked_for_only_while_unknown() {
    let ready = LocalReadiness::ContractConfigured;
    let mut screen = add_contact_screen();
    assert_eq!(screen.address_gate(), AddressGate::Published);
    assert!(screen.take_address_check(ready).is_none());

    let mut screen =
        OrchardPayScreen::new(OrchardPaySubscreen::Contacts, Some(ME), None, None, None);
    assert_eq!(screen.address_gate(), AddressGate::Checking);
    assert!(screen.take_address_check(LocalReadiness::NoDpnsName).is_none());
    let check = AppAction::run(OrchardPayTask::CheckOwnShieldedAddress { identity_id: ME });
    assert_eq!(screen.take_address_check(ready), check);
    assert!(screen.take_address_check(ready).is_none());
    screen.display_message(MessageType::Error);
    assert_eq!(screen.take_address_check(ready), check);
    screen.display_task_result(
        BackendTaskSuccessResult::OrchardPayOwnShieldedAddressStatus {
            identity_id: BOB,
            published: true,
        },
        Vec::new(),
    );
    assert_eq!(screen.address_gate(), AddressGate::Checking);
    screen.display_task_result(
        BackendTaskSuccessResult::OrchardPayOwnShieldedAddressStatus {
            identity_id: ME,
            published: false,
        },
        Vec::new(),
    );
    assert_eq!(screen.address_gate(), AddressGate::NotPublished);
}

#[test]
fn an_error_lets_go_of_every_guard() {
    let mut screen = add_contact_screen();
    assert!(screen.contact_actions.begin(ALICE));
    screen.searching = true;
    screen.checking_new_requests = true;
    screen.display_message(MessageType::Success);
    assert!(screen.contact_actions.is_in_flight(&ALICE));
    screen.display_message(MessageType::Warning);
    assert!(!screen.contact_actions.is_in_flight(&ALICE));
    assert!(!screen.searching && !screen.checking_new_requests);
    assert!(screen.shielded_address_check_dispatched);
}

#[test]
fn refreshing_starts_over_but_keeps_fresh_guards() {
    let mut screen = add_contact_screen();
    assert!(screen.contact_actions.begin(ALICE));
    screen.recent_activity = Some(Vec::new());
    screen.shielded_activity = Some(Vec::new());
    screen.search_query = "al".to_string();
    screen.pending_identity_refresh = false;
    screen.refresh(Some(BOB), None, None, None);
    assert_eq!(screen.identity, Some(BOB));
    assert!(screen.recent_activity.is_none() && screen.shielded_activity.is_none());
    assert_eq!(screen.address_gate(), AddressGate::Checking);
    assert!(!screen.shielded_address_check_dispatched);
    assert!(screen.pending_identity_refresh);
    assert_eq!(screen.search_query, "al");
    assert!(screen.contact_actions.is_in_flight(&ALICE));
}

#[test]
fn recovery_and_scan_need_identity_and_wallet() {
    let mut screen = add_contact_screen();
    assert_eq!(
        screen.recover_contacts_clicked(),
        AppAction::run(OrchardPayTask::RecoverContacts { identity_id: ME, seed_hash: WALLET })
    );
    assert_eq!(
        screen.check_new_requests_clicked(),
        AppAction::run(OrchardPayTask::ScanForIncomingAnchors {
            identity_ids: vec![ME],
            seed_hash: WALLET,
        })
    );
    assert!(screen.checking_new_requests);
    screen.display_task_result(
        BackendTaskSuccessResult::OrchardPayIncomingAnchorsScanned {
            anything_changed: false,
            anchor_signals_seen: 0,
            anchor_signals_claimed: 0,
            anchor_signals_still_unresolved: 0,
        },
        Vec::new(),
    );
    assert!(!screen.checking_new_requests);
    screen.selected_wallet = None;
    assert!(screen.recover_contacts_clicked().is_none());
    assert!(screen.check_new_requests_clicked().is_none());
    assert!(!screen.checking_new_requests);
}

#[test]
fn readiness_is_judged_in_order() {
    let mut screen = add_contact_screen();
    assert_eq!(
        screen.compute_local_readiness(true, true),
        LocalReadiness::ContractConfigured
    );
    assert_eq!(
        screen.compute_local_readiness(true, false),
        LocalReadiness::ContractNotConfigured
    );
    assert_eq!(screen.compute_local_readiness(false, false), LocalReadiness::NoDpnsName);
    screen.identity = None;
    assert_eq!(screen.compute_local_readiness(true, true), LocalReadiness::NoIdentity);
}

#[test]
fn the_selected_identity_is_used_if_it_is_here() {
    assert_eq!(resolve_identity(&vec![ME, BOB], Some(BOB)), Some(BOB));
    assert_eq!(resolve_identity(&vec![ME, BOB], Some(ALICE)), Some(ME));
    assert_eq!(resolve_identity(&vec![ME, BOB], None), Some(ME));
    assert_eq!(resolve_identity(&vec![], Some(BOB)), None);
}

#[test]
fn the_direct_limit_is_what_the_fee_leaves() {
    let mut screen = direct_send_screen();
    assert_eq!(screen.direct_send_limit(10, 4), Some(6));
    assert_eq!(screen.direct_send_limit(3, 4), Some(0));
    screen.selected_wallet = None;
    assert_eq!(screen.direct_send_limit(10, 4), None);
}

fn listed(id: u8, text: &str, state: OrchardPayContactState) -> ListedContact {
    let entries = Some(vec![RecentContactActivity {
        identity_id: [11u8; 32],
        last_activity: Some(900),
        has_messages: true,
    }]);
    list_contact([id; 32], text.to_string(), state, &entries)
}

#[test]
fn contacts_are_listed_by_name_without_regard_to_case() {
    let contacts = vec![
        listed(10, "zz", established(None, Some("bob"))),
        listed(11, "zz", pending_outbound(None, Some("Álvaro"))),
        listed(12, "Carol58", inbound(None, None)),
        listed(13, "zz", established(None, Some("ALICE"))),
        listed(14, "zz", established(None, Some("BOB"))),
    ];
    let ids: Vec<u8> = contacts_by_name(contacts).iter().map(|c| c.identity_id[0]).collect();
    assert_eq!(ids, vec![13, 10, 14, 12, 11]);
}

#[test]
fn contacts_are_listed_by_their_latest_activity() {
    let contacts = vec![
        listed(10, "a", established(Some(100), None)),
        listed(11, "b", established(Some(5), None)),
        listed(12, "c", inbound(Some(950), None)),
        listed(13, "d", pending_outbound(None, None)),
    ];
    let ids: Vec<u8> = contacts_by_recency(contacts).iter().map(|c| c.identity_id[0]).collect();
    assert_eq!(ids, vec![12, 11, 10, 13]);
}

#[test]
fn contacts_are_shown_by_name_or_identifier() {
    assert_eq!(listed(10, "base58", established(None, Some("bob.dash"))).shown_as(), "bob");
    assert_eq!(listed(10, "base58", inbound(None, Some("bob"))).shown_as(), "bob");
    assert_eq!(listed(10, "base58.dash", inbound(None, None)).shown_as(), "base58.dash");
}

#[test]
fn a_pending_contact_has_no_activity() {
    let contact = listed(11, "b", inbound(Some(5), None));
    assert_eq!(contact.activity, None);
    assert_eq!(contact.recency(), Some(5));
    assert_eq!(
        contact.activity_label(Some("now"), Some("yesterday")),
        Some("Sent yesterday".to_string())
    );
    assert_eq!(contact.activity_label(None, None), None);
    let contact = listed(11, "b", established(Some(5), None));
    assert_eq!(
        contact.activity_label(Some("now"), Some("yesterday")),
        Some("Last activity now".to_string())
    );
}

#[test]
fn contact_cards_say_what_can_be_done() {
    let waiting = listed(1, "a", pending_outbound(None, None)).standing(false, false);
    assert_eq!(waiting.text(), "Waiting for a response…");
    assert_eq!(waiting.button(), None);
    let contact = listed(1, "a", inbound(None, None));
    let standing = contact.standing(false, false);
    assert_eq!(standing, CardStanding::Acceptable { accepting: false, enabled: true });
    assert_eq!(standing.text(), "Wants to connect with you");
    assert_eq!(standing.button(), Some("Accept"));
    assert_eq!(contact.standing(true, false).button(), Some("Accepting…"));
    assert_eq!(
        contact.standing(false, true),
        CardStanding::Acceptable { accepting: false, enabled: false }
    );
    let connected = listed(1, "a", established(None, None)).standing(false, true);
    assert_eq!(connected.text(), "Connected");
    assert_eq!(connected.button(), Some("Open Conversation"));
}

#[test]
fn times_are_told_in_the_largest_unit() {
    assert_eq!(format_duration_ago(0), "0s ago");
    assert_eq!(format_duration_ago(59), "59s ago");
    assert_eq!(format_duration_ago(60), "1m ago");
    assert_eq!(format_duration_ago(3599), "59m ago");
    assert_eq!(format_duration_ago(3600), "1h ago");
    assert_eq!(format_duration_ago(86_399), "23h ago");
    assert_eq!(format_duration_ago(86_400), "1d ago");
    assert_eq!(last_sync_label(Some(61)), "Last shielded sync: 1m ago");
    assert_eq!(last_sync_label(None), "Last shielded sync: not yet this session");
}

#[test]
fn activity_is_told_in_words() {
    let mut entry =
        RecentContactActivity { identity_id: ME, last_activity: Some(1), has_messages: true };
    assert_eq!(recent_activity_label(&entry, Some("now")), "Last activity now");
    entry.has_messages = false;
    assert_eq!(recent_activity_label(&entry, Some("now")), "No messages yet — connected now");
    assert_eq!(recent_activity_label(&entry, None), "No messages yet");
}

#[test]
fn notes_are_told_in_words() {
    let mut row = ShieldedActivityRow {
        kind: ShieldedNoteKind::Received { spent: false },
        amount_credits: 5,
        memo_label: String::new(),
        block_height: Some(42),
        pending: false,
    };
    assert_eq!(note_status_label(&row), "Verified as of block 42");
    let view = group_shielded_activity(vec![row.clone()]);
    assert_eq!(unspent_summary(&view, "5 DASH"), "1 note · 5 DASH total");
    let view = group_shielded_activity(Vec::new());
    assert_eq!(unspent_summary(&view, "0 DASH"), "0 notes · 0 DASH total");
    row.block_height = None;
    assert_eq!(note_status_label(&row), "Verified");
    row.pending = true;
    assert_eq!(note_status_label(&row), "Pending");
}

#[test]
fn both_balances_are_read_out() {
    let credits = Some(CreditReadout { text: "1 DASH".to_string(), low: true });
    assert_eq!(
        balance_summary_label(&credits, Some("2 DASH")),
        "Identity Balance: 1 DASH  ·  Low Credits                        Shielded Balance: 2 DASH"
    );
    assert_eq!(balance_summary_label(&None, None), "Shielded Balance: Still Syncing…");
}

#[test]
fn the_screen_has_eight_tabs() {
    let items = tabs();
    assert_eq!(items.len(), 8);
    assert_eq!(items[3], ("Direct Send", OrchardPaySubscreen::DirectSend));
}
