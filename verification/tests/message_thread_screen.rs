use orchardpay::model::orchardpay::{OrchardPayContactState, SilentPaymentRecord};
use orchardpay::orchardpay::contact_search::strip_dash_suffix;
use orchardpay::orchardpay::encryption::MessageContent;
use orchardpay::orchardpay::messages::{
    HistoryCursor, ReceiptAlert, ReceiptAlertReason, ThreadMessage,
};
use orchardpay::orchardpay::outgoing::SendLimits;
use orchardpay::orchardpay::tasks::{
    BackendTask, BackendTaskSuccessResult, OrchardPayTask, PublishedDocument,
};
use orchardpay::ui::actions::{AppAction, MessageType, OrchardPaySubscreen, RootScreen};
use orchardpay::ui::components::confirmation_dialog::ConfirmationStatus;
use orchardpay::ui::components::text_edit_dialog::DialogInput;
use orchardpay::ui::orchardpay::message_thread_screen::{
    conversation_nav, resolve_counterparty_name, ComposeError, ComposeKind, MessageThreadScreen,
};
use orchardpay::ui::orchardpay::thread_view::{
    alert_text, bubble_buttons, bubble_headline, bubble_status, conversation_timeline, is_edited,
    money_bubble_tint, recent_verified_payments, shown_busy_label, silent_payment_tint,
    BubbleAction, BubbleContext, BubbleStatus, BusyLabel, ButtonLabel, Headline, PaymentRow,
    TimelineItem, Tint,
};

const LIMITS: SendLimits = SendLimits {
    min_message_chars: 0,
    max_message_chars: 1000,
    min_memo_chars: 0,
    max_memo_chars: 1000,
    min_amount: 100_000_000,
};

fn message_thread_screen() -> MessageThreadScreen {
    MessageThreadScreen::new([1u8; 32], [2u8; 32], Some(1), Some([3u8; 32]), None, None)
}

fn text_message(id: u8, from_me: bool, created_at: u64, text: &str) -> ThreadMessage {
    ThreadMessage {
        document_id: [id; 32],
        from_me,
        created_at: Some(created_at),
        updated_at: None,
        content: MessageContent::Message { data: text.to_string() },
        verified_amount: None,
        synthetic: false,
    }
}

fn payment(from_me: bool, amount: u64, verified: Option<u64>, memo: Option<&str>) -> ThreadMessage {
    ThreadMessage {
        document_id: [40u8; 32],
        from_me,
        created_at: Some(10),
        updated_at: None,
        content: MessageContent::Payment { amount, memo: memo.map(|m| m.to_string()) },
        verified_amount: verified,
        synthetic: false,
    }
}

fn request(from_me: bool, amount: u64, verified: Option<u64>) -> ThreadMessage {
    ThreadMessage {
        document_id: [50u8; 32],
        from_me,
        created_at: Some(20),
        updated_at: None,
        content: MessageContent::PaymentRequest { amount, memo: Some("rent".to_string()) },
        verified_amount: verified,
        synthetic: false,
    }
}

fn idle() -> BubbleContext {
    BubbleContext {
        busy_here: false,
        action_disabled: false,
        credit_blocked: false,
        shielded_state_ready: true,
    }
}

fn labels(message: &ThreadMessage, context: &BubbleContext) -> Vec<&'static str> {
    bubble_buttons(message, context).iter().map(|b| b.label.text()).collect()
}

fn loaded(id: [u8; 32], messages: Vec<ThreadMessage>) -> BackendTaskSuccessResult {
    BackendTaskSuccessResult::OrchardPayThreadLoaded {
        counterparty_identity_id: id,
        all_decoded: messages.clone(),
        messages,
        silent_payments: Vec::new(),
        receipt_alerts: Vec::new(),
        history_cursor: HistoryCursor { mine_before: Some(5), their_before: None },
        may_be_incomplete: true,
    }
}

#[test]
fn send_message_click_opens_confirmation_without_dispatching() {
    let mut screen = message_thread_screen();
    screen.compose_text = "Hello there".to_string();
    let view = screen.composer_view(0, 0, false);
    assert!(view.send_enabled);
    assert!(!view.sending);

    assert_eq!(screen.send_clicked("", "id", &LIMITS), None);
    assert!(
        screen.render_pending_confirmation(None).is_none(),
        "the original Send click must not dispatch a backend task"
    );
    assert_eq!(
        screen.pending_confirmation.as_ref().map(|p| p.dialog.title.as_str()),
        Some("Send Message?"),
        "confirmation modal must show the action's title"
    );

    let action = screen.render_pending_confirmation(Some(ConfirmationStatus::Confirmed));

    assert!(
        screen.pending_confirmation.is_none(),
        "the confirmation dialog must close after confirmation"
    );
    assert!(screen.sending, "confirming must mark the screen as sending");
    assert!(
        matches!(action, AppAction::BackendTask(_)),
        "confirming must dispatch the real backend task"
    );
    assert_eq!(
        action,
        AppAction::run(OrchardPayTask::SendMessage {
            identity_id: [1u8; 32],
            identity_key: 1,
            counterparty_identity_id: [2u8; 32],
            text: "Hello there".to_string(),
            seed_hash: [3u8; 32],
        })
    );
}

#[test]
fn send_message_cancel_does_not_dispatch() {
    let mut screen = message_thread_screen();
    screen.compose_text = "Hello there".to_string();

    assert_eq!(screen.send_clicked("", "id", &LIMITS), None);
    assert_eq!(
        screen.pending_confirmation.as_ref().map(|p| p.dialog.title.as_str()),
        Some("Send Message?")
    );

    let action = screen.render_pending_confirmation(Some(ConfirmationStatus::Canceled));

    assert!(
        screen.pending_confirmation.is_none(),
        "canceling must close the confirmation dialog"
    );
    assert!(!screen.sending, "canceling must never mark the screen as sending");
    assert!(action.is_none(), "canceling must never dispatch a backend task");
}

#[test]
fn synthetic_initial_message_renders_with_no_delete_or_edit_menu() {
    let mut screen = message_thread_screen();
    let synthetic = ThreadMessage {
        document_id: [9u8; 32],
        from_me: true,
        created_at: Some(1_700_000_000_000),
        updated_at: None,
        content: MessageContent::Message { data: "hey its me Paul".to_string() },
        verified_amount: None,
        synthetic: true,
    };
    screen.display_task_result(BackendTaskSuccessResult::OrchardPayThreadLoaded {
        counterparty_identity_id: screen.counterparty_identity_id,
        all_decoded: vec![synthetic.clone()],
        messages: vec![synthetic],
        silent_payments: Vec::new(),
        receipt_alerts: Vec::new(),
        history_cursor: HistoryCursor::default(),
        may_be_incomplete: false,
    });

    let timeline =
        conversation_timeline(&screen.messages, &screen.receipt_alerts, &screen.silent_payments);
    assert_eq!(timeline.len(), 1);
    let message = match &timeline[0] {
        TimelineItem::Message(message) => message,
        other => panic!("expected a bubble, got {other:?}"),
    };
    assert_eq!(
        message.content,
        MessageContent::Message { data: "hey its me Paul".to_string() },
        "the synthesized initial message must render as a normal bubble"
    );

    let shown = labels(message, &screen.bubble_context(message, false, true));
    assert!(
        !shown.contains(&"Delete"),
        "a synthetic bubble must never expose a Delete action"
    );
    assert!(
        !shown.contains(&"Edit Message"),
        "a synthetic bubble must never expose an Edit Message action"
    );
}

#[test]
fn a_message_is_asked_about_in_full() {
    let mut screen = message_thread_screen();
    screen.counterparty_name = Some("bob".to_string());
    screen.compose_text = "  hi\n".to_string();
    assert_eq!(screen.send_clicked("", "id", &LIMITS), None);
    let pending = screen.pending_confirmation.clone().unwrap();
    assert_eq!(pending.dialog.message, "Send this message to bob?\n\n\"hi\"");
    assert!(!pending.dialog.danger_mode);
    assert!(pending.dialog.checkbox.is_none());
    assert!(screen.composer_send_pending);
}

#[test]
fn a_payment_request_is_asked_about_with_its_amount() {
    let mut screen = message_thread_screen();
    screen.compose_kind = ComposeKind::PaymentRequest;
    screen.compose_amount = Some(7);
    screen.compose_memo = " rent ".to_string();
    assert_eq!(screen.send_clicked("0.7 DASH", "base58", &LIMITS), None);
    let pending = screen.pending_confirmation.clone().unwrap();
    assert_eq!(pending.dialog.title, "Send Payment Request?");
    assert_eq!(pending.dialog.message, "Request 0.7 DASH from base58?");
    assert!(!pending.dialog.danger_mode);
    assert_eq!(
        pending.task,
        OrchardPayTask::SendPaymentRequest {
            identity_id: [1u8; 32],
            identity_key: 1,
            counterparty_identity_id: [2u8; 32],
            amount: 7,
            memo: Some("rent".to_string()),
            seed_hash: [3u8; 32],
        }
    );
}

#[test]
fn a_payment_is_asked_about_in_danger_mode() {
    let mut screen = message_thread_screen();
    screen.compose_kind = ComposeKind::Payment;
    screen.compose_amount = Some(7);
    screen.compose_memo = "  ".to_string();
    assert_eq!(screen.send_clicked("0.7 DASH", "base58", &LIMITS), None);
    let pending = screen.pending_confirmation.clone().unwrap();
    assert_eq!(pending.dialog.title, "Send Payment?");
    assert_eq!(pending.dialog.message, "Send 0.7 DASH to base58?");
    assert!(pending.dialog.danger_mode);
    assert_eq!(
        pending.task,
        OrchardPayTask::SendPayment {
            identity_id: [1u8; 32],
            identity_key: 1,
            counterparty_identity_id: [2u8; 32],
            seed_hash: [3u8; 32],
            amount: 7,
            memo: None,
            fulfilling_request_document_id: None,
            save_receipt: false,
            original_request_memo: None,
            original_request_created_at: None,
        }
    );
}

#[test]
fn a_silent_payment_carries_no_memo() {
    let mut screen = message_thread_screen();
    screen.compose_kind = ComposeKind::Payment;
    screen.compose_send_silently = true;
    screen.compose_amount = Some(7);
    screen.compose_memo = "x".repeat(2000);
    assert_eq!(screen.send_clicked("0.7 DASH", "base58", &LIMITS), None);
    let pending = screen.pending_confirmation.clone().unwrap();
    assert_eq!(
        pending.dialog.message,
        "Send 0.7 DASH to base58 without a message? This won't create a document, only a private transfer."
    );
    assert!(pending.dialog.danger_mode);
    assert_eq!(
        pending.task,
        OrchardPayTask::SendSilentPayment {
            identity_id: [1u8; 32],
            counterparty_identity_id: [2u8; 32],
            seed_hash: [3u8; 32],
            amount: 7,
        }
    );
}

#[test]
fn what_cannot_be_sent_is_told_and_nothing_asked() {
    let mut screen = message_thread_screen();
    screen.compose_text = "x".repeat(1001);
    assert_eq!(screen.send_clicked("", "id", &LIMITS), Some(ComposeError::MessageTooLong));

    screen.compose_kind = ComposeKind::PaymentRequest;
    assert_eq!(screen.send_clicked("", "id", &LIMITS), Some(ComposeError::NoAmountToRequest));
    screen.compose_memo = "x".repeat(1001);
    assert_eq!(screen.send_clicked("", "id", &LIMITS), Some(ComposeError::MemoTooLong));

    screen.compose_kind = ComposeKind::Payment;
    screen.compose_amount = Some(1);
    assert_eq!(screen.send_clicked("", "id", &LIMITS), Some(ComposeError::MemoTooLong));
    screen.compose_send_silently = true;
    screen.compose_amount = None;
    assert_eq!(screen.send_clicked("", "id", &LIMITS), Some(ComposeError::NoAmountToSend));
    screen.compose_send_silently = false;
    screen.compose_memo = String::new();
    assert_eq!(screen.send_clicked("", "id", &LIMITS), Some(ComposeError::NoAmountToSend));

    assert!(screen.pending_confirmation.is_none());
    assert!(!screen.composer_send_pending);
    assert_eq!(
        ComposeError::MessageTooLong.text(),
        "The message is too long. Use 1000 characters or fewer and try again."
    );
    assert_eq!(
        ComposeError::MemoTooLong.text(),
        "The payment memo is too long. Use 1000 characters or fewer and try again."
    );
    assert_eq!(ComposeError::NoAmountToRequest.text(), "Enter an amount in DASH to request.");
    assert_eq!(ComposeError::NoAmountToSend.text(), "Enter an amount in DASH to send.");
}

#[test]
fn without_key_or_wallet_nothing_is_asked() {
    let mut screen = message_thread_screen();
    screen.selected_key = None;
    assert_eq!(screen.send_clicked("", "id", &LIMITS), None);
    assert!(screen.pending_confirmation.is_none());
    screen.apply_bubble_action(
        BubbleAction::DeleteMessage { document_id: [5u8; 32] },
        "",
        "id",
        &LIMITS,
    );
    assert!(screen.pending_confirmation.is_none());
    assert!(screen.pending_document_mutation_id.is_none());

    screen.selected_wallet = None;
    assert!(screen.dispatch_load().is_none());
    assert!(!screen.loading);
    assert!(screen.load_more_clicked().is_none());
    assert!(screen.loading_more);
}

#[test]
fn paying_a_request_takes_the_receipt_from_the_box() {
    for checked in [false, true] {
        let mut screen = message_thread_screen();
        screen.apply_bubble_action(
            BubbleAction::Pay {
                document_id: [5u8; 32],
                amount: 9,
                memo: Some("rent".to_string()),
                created_at: Some(4),
            },
            "0.9 DASH",
            "base58",
            &LIMITS,
        );
        {
            let pending = screen.pending_confirmation.as_mut().unwrap();
            assert_eq!(pending.dialog.title, "Pay Request?");
            assert_eq!(
                pending.dialog.message,
                "Pay 0.9 DASH to base58 for this payment request?"
            );
            assert!(pending.dialog.danger_mode);
            let checkbox = pending.dialog.checkbox.clone().unwrap();
            assert_eq!(checkbox.label, "Save Receipt");
            assert!(!checkbox.checked);
            pending.dialog.set_checkbox(checked);
        }
        assert_eq!(screen.pending_document_mutation_id, Some([5u8; 32]));
        assert_eq!(screen.pending_bubble_action_label, Some(BusyLabel::Paying));
        let action = screen.render_pending_confirmation(Some(ConfirmationStatus::Confirmed));
        assert_eq!(
            action,
            AppAction::run(OrchardPayTask::SendPayment {
                identity_id: [1u8; 32],
                identity_key: 1,
                counterparty_identity_id: [2u8; 32],
                seed_hash: [3u8; 32],
                amount: 9,
                memo: None,
                fulfilling_request_document_id: Some([5u8; 32]),
                save_receipt: checked,
                original_request_memo: Some("rent".to_string()),
                original_request_created_at: Some(4),
            })
        );
    }
}

#[test]
fn cancelling_a_question_unmarks_its_bubble() {
    let mut screen = message_thread_screen();
    screen.apply_bubble_action(
        BubbleAction::CancelPaymentRequest { document_id: [5u8; 32] },
        "",
        "id",
        &LIMITS,
    );
    let pending = screen.pending_confirmation.clone().unwrap();
    assert_eq!(pending.dialog.title, "Cancel Request?");
    assert_eq!(
        pending.dialog.message,
        "The other party will no longer be able to pay this request."
    );
    assert!(pending.dialog.danger_mode);
    assert_eq!(screen.pending_bubble_action_label, Some(BusyLabel::Cancelling));
    screen.render_pending_confirmation(Some(ConfirmationStatus::Canceled));
    assert_eq!(screen.pending_document_mutation_id, None);
    assert_eq!(screen.pending_bubble_action_label, None);
}

#[test]
fn deleting_is_asked_about() {
    let mut screen = message_thread_screen();
    screen.apply_bubble_action(
        BubbleAction::DeleteMessage { document_id: [5u8; 32] },
        "",
        "id",
        &LIMITS,
    );
    let pending = screen.pending_confirmation.clone().unwrap();
    assert_eq!(pending.dialog.title, "Delete Message?");
    assert_eq!(
        pending.dialog.message,
        "This message will be permanently removed from the conversation for both of you."
    );
    assert_eq!(
        pending.task,
        OrchardPayTask::DeleteMessage {
            identity_id: [1u8; 32],
            identity_key: 1,
            counterparty_identity_id: [2u8; 32],
            document_id: [5u8; 32],
            seed_hash: [3u8; 32],
        }
    );
}

fn save_click() -> DialogInput {
    DialogInput {
        save_clicked: true,
        cancel_clicked: false,
        closed_via_x: false,
        escape_pressed: false,
        clicked_outside: false,
    }
}

#[test]
fn saving_an_edit_runs_at_once() {
    let mut screen = message_thread_screen();
    screen.apply_bubble_action(
        BubbleAction::EditMessage { document_id: [5u8; 32], current_text: "old".to_string() },
        "",
        "id",
        &LIMITS,
    );
    {
        let editing = screen.editing.as_mut().unwrap();
        assert_eq!(editing.dialog.title, "Edit Message");
        assert_eq!(editing.dialog.text, "old");
        assert_eq!(editing.dialog.max_chars, 1000);
        assert_eq!(
            editing.dialog.too_long_message,
            "The message is too long. Use 1000 characters or fewer."
        );
        editing.dialog.text = "new".to_string();
    }
    let action = screen.render_editing_modal(&save_click());
    assert_eq!(
        action,
        AppAction::run(OrchardPayTask::EditMessage {
            identity_id: [1u8; 32],
            identity_key: 1,
            counterparty_identity_id: [2u8; 32],
            document_id: [5u8; 32],
            new_text: "new".to_string(),
            seed_hash: [3u8; 32],
        })
    );
    assert!(screen.editing.is_none());
    assert!(screen.sending);
    assert_eq!(screen.pending_bubble_action_label, Some(BusyLabel::Saving));
    assert_eq!(screen.pending_document_mutation_id, Some([5u8; 32]));
}

#[test]
fn an_emptied_memo_is_taken_away() {
    let mut screen = message_thread_screen();
    screen.apply_bubble_action(
        BubbleAction::EditPaymentMemo { document_id: [5u8; 32], current_memo: None },
        "",
        "id",
        &LIMITS,
    );
    assert_eq!(screen.editing.as_ref().unwrap().dialog.title, "Edit Memo");
    let action = screen.render_editing_modal(&save_click());
    assert_eq!(
        action,
        AppAction::run(OrchardPayTask::EditPaymentMemo {
            identity_id: [1u8; 32],
            identity_key: 1,
            counterparty_identity_id: [2u8; 32],
            document_id: [5u8; 32],
            new_memo: None,
            seed_hash: [3u8; 32],
        })
    );
}

#[test]
fn an_edit_stays_open_until_it_ends() {
    let mut screen = message_thread_screen();
    screen.apply_bubble_action(
        BubbleAction::EditMessage { document_id: [5u8; 32], current_text: "old".to_string() },
        "",
        "id",
        &LIMITS,
    );
    let idle_input = DialogInput { save_clicked: false, ..save_click() };
    assert!(screen.render_editing_modal(&idle_input).is_none());
    assert!(screen.editing.is_some());
    let cancel = DialogInput { save_clicked: false, cancel_clicked: true, ..save_click() };
    assert!(screen.render_editing_modal(&cancel).is_none());
    assert!(screen.editing.is_none());
    assert!(!screen.sending);

    screen.apply_bubble_action(
        BubbleAction::EditMessage { document_id: [5u8; 32], current_text: "old".to_string() },
        "",
        "id",
        &LIMITS,
    );
    screen.selected_key = None;
    assert!(screen.render_editing_modal(&save_click()).is_none());
    assert!(screen.editing.is_none());
    assert!(!screen.sending);
}

#[test]
fn the_conversation_is_asked_for_once_and_after_each_change() {
    let mut screen = message_thread_screen();
    let load = AppAction::run(OrchardPayTask::LoadThread {
        identity_id: [1u8; 32],
        counterparty_identity_id: [2u8; 32],
        seed_hash: [3u8; 32],
    });
    assert_eq!(screen.take_due_load(), load);
    assert!(screen.loading);
    assert_eq!(screen.refresh_label(), "Refreshing…");
    assert!(screen.shows_loading());
    assert!(screen.take_due_load().is_none());
    screen.pending_reload = true;
    assert_eq!(screen.take_due_load(), load);
    assert!(!screen.pending_reload);
    screen.refresh(Some("bob".to_string()));
    assert_eq!(screen.heading("id"), "Conversation with bob");
    assert_eq!(screen.take_due_load(), load);
}

#[test]
fn the_balance_is_refreshed_once() {
    let mut screen = message_thread_screen();
    assert_eq!(
        screen.take_identity_refresh(),
        AppAction::BackendTask(BackendTask::RefreshIdentity([1u8; 32]))
    );
    assert!(screen.take_identity_refresh().is_none());
}

#[test]
fn only_ones_own_conversation_is_taken_in() {
    let mut screen = message_thread_screen();
    screen.loading = true;
    screen.loading_more = true;
    screen.display_task_result(loaded([8u8; 32], vec![text_message(1, true, 1, "a")]));
    assert!(screen.messages.is_empty());
    assert!(screen.loading);
    screen.display_task_result(loaded([2u8; 32], vec![text_message(1, true, 1, "a")]));
    assert_eq!(screen.messages.len(), 1);
    assert!(screen.may_be_incomplete);
    assert!(!screen.is_busy());
    assert_eq!(screen.refresh_label(), "Refresh");

    let action = screen.load_more_clicked();
    assert_eq!(
        action,
        AppAction::run(OrchardPayTask::LoadMoreHistory {
            identity_id: [1u8; 32],
            counterparty_identity_id: [2u8; 32],
            seed_hash: [3u8; 32],
            all_decoded: vec![text_message(1, true, 1, "a")],
            history_cursor: HistoryCursor { mine_before: Some(5), their_before: None },
            may_be_incomplete: true,
        })
    );
    assert!(screen.is_busy());
}

#[test]
fn a_foreign_publication_does_not_end_the_wait() {
    let mut screen = message_thread_screen();
    screen.sending = true;
    screen.pending_document_mutation_id = Some([5u8; 32]);
    screen.display_task_result(BackendTaskSuccessResult::BroadcastedDocument(PublishedDocument {
        id: [6u8; 32],
        created_at: None,
    }));
    assert!(screen.sending);
    screen.display_task_result(BackendTaskSuccessResult::ReplacedDocument([6u8; 32]));
    screen.display_task_result(BackendTaskSuccessResult::DeletedDocument([6u8; 32]));
    assert!(screen.sending);
    screen.display_task_result(BackendTaskSuccessResult::ReplacedDocument([5u8; 32]));
    assert!(!screen.sending);
    assert!(screen.pending_reload);
    assert!(screen.pending_identity_refresh);
    assert_eq!(screen.pending_document_mutation_id, None);
}

#[test]
fn a_publication_of_ones_own_empties_the_composer() {
    let mut screen = message_thread_screen();
    screen.compose_text = "hi".to_string();
    screen.compose_amount = Some(3);
    screen.compose_memo = "m".to_string();
    screen.compose_send_silently = true;
    screen.sending = true;
    screen.composer_send_pending = true;
    screen.display_task_result(BackendTaskSuccessResult::BroadcastedDocument(PublishedDocument {
        id: [6u8; 32],
        created_at: None,
    }));
    assert!(!screen.sending && !screen.composer_send_pending);
    assert_eq!(screen.compose_text, "");
    assert_eq!(screen.compose_memo, "");
    assert_eq!(screen.compose_amount, None);
    assert!(!screen.compose_send_silently);
    assert!(screen.pending_reload);
}

#[test]
fn payments_of_both_kinds_end_the_wait() {
    let results = [
        BackendTaskSuccessResult::OrchardPayPaymentSent {
            counterparty_identity_id: [2u8; 32],
            amount: 1,
        },
        BackendTaskSuccessResult::OrchardPaySilentPaymentSent {
            counterparty_identity_id: [2u8; 32],
            amount: 1,
        },
    ];
    for result in results {
        let mut screen = message_thread_screen();
        screen.sending = true;
        screen.compose_text = "hi".to_string();
        screen.display_task_result(result);
        assert!(!screen.sending);
        assert_eq!(screen.compose_text, "");
        assert!(screen.pending_reload && screen.pending_identity_refresh);
    }
}

#[test]
fn an_error_ends_everything_that_is_under_way() {
    let mut screen = message_thread_screen();
    screen.sending = true;
    screen.loading = true;
    screen.loading_more = true;
    screen.composer_send_pending = true;
    screen.pending_document_mutation_id = Some([5u8; 32]);
    screen.pending_bubble_action_label = Some(BusyLabel::Paying);
    screen.display_message(MessageType::Info);
    assert!(screen.is_busy());
    screen.display_message(MessageType::Error);
    assert!(!screen.is_busy());
    assert!(!screen.composer_send_pending);
    assert_eq!(screen.pending_document_mutation_id, None);
    assert_eq!(screen.pending_bubble_action_label, None);
}

#[test]
fn the_composer_caps_only_payments() {
    let mut screen = message_thread_screen();
    assert_eq!(screen.composer_view(10, 3, false).max_amount, None);
    screen.compose_kind = ComposeKind::PaymentRequest;
    let view = screen.composer_view(10, 3, false);
    assert_eq!(view.max_amount, None);
    assert!(view.memo_shown && !view.silent_shown);
    screen.compose_kind = ComposeKind::Payment;
    let view = screen.composer_view(10, 3, false);
    assert_eq!(view.max_amount, Some(7));
    assert!(view.memo_shown && view.silent_shown);
    assert_eq!(screen.composer_view(2, 3, false).max_amount, Some(0));
    screen.compose_send_silently = true;
    assert!(!screen.composer_view(10, 3, false).memo_shown);
    assert!(!screen.composer_view(10, 3, true).send_enabled);
    screen.sending = true;
    let view = screen.composer_view(10, 3, false);
    assert!(view.sending && !view.send_enabled);
    screen.pending_document_mutation_id = Some([5u8; 32]);
    assert!(!screen.composer_view(10, 3, false).sending);
}

#[test]
fn bubbles_are_signed_with_names() {
    let mut screen = message_thread_screen();
    assert_eq!(screen.sender_label(true), "You");
    assert_eq!(screen.sender_label(false), "Them");
    assert_eq!(screen.heading("base58"), "Conversation with base58");
    screen.my_name = Some("ann".to_string());
    screen.counterparty_name = Some("bob".to_string());
    assert_eq!(screen.sender_label(true), "ann");
    assert_eq!(screen.sender_label(false), "bob");
    assert_eq!(screen.counterparty_display_name("base58"), "bob");
}

#[test]
fn the_path_says_who_is_talking() {
    let mut screen = message_thread_screen();
    let home = AppAction::SetMainScreenThenGoToMainScreen(RootScreen::OrchardPay);
    assert_eq!(
        screen.breadcrumbs(None, "4EfA…9Jrp"),
        vec![
            ("OrchardPay".to_string(), home.clone()),
            ("Wallet".to_string(), AppAction::NoAction),
            ("4EfA…9Jrp".to_string(), AppAction::NoAction),
        ]
    );
    screen.my_name = Some("ann".to_string());
    assert_eq!(
        screen.breadcrumbs(Some("Savings"), "4EfA…9Jrp"),
        vec![
            ("OrchardPay".to_string(), home),
            ("Savings".to_string(), AppAction::NoAction),
            ("ann".to_string(), AppAction::NoAction),
        ]
    );
}

#[test]
fn only_an_established_contact_lends_its_name() {
    let established = OrchardPayContactState::Established {
        my_reference_id: [0u8; 32],
        my_anchor_document_id: [0u8; 32],
        their_reference_id: [0u8; 32],
        counterparty_encryption_pubkey: vec![],
        counterparty_decryption_pubkey: vec![],
        name: Some("bob.dash".to_string()),
        created_at: None,
    };
    let pending = OrchardPayContactState::PendingOutbound {
        my_reference_id: [0u8; 32],
        my_anchor_document_id: [0u8; 32],
        name: Some("bob".to_string()),
        created_at: None,
    };
    assert_eq!(resolve_counterparty_name(&Some(established)), Some("bob".to_string()));
    assert_eq!(resolve_counterparty_name(&Some(pending)), None);
    assert_eq!(resolve_counterparty_name(&None), None);
}

#[test]
fn names_are_shown_without_their_ending() {
    let screen = MessageThreadScreen::new(
        [1u8; 32],
        [2u8; 32],
        None,
        None,
        Some("ann.dash".to_string()),
        Some("bob".to_string()),
    );
    assert_eq!(screen.my_name.as_deref(), Some("ann"));
    assert_eq!(screen.counterparty_name.as_deref(), Some("bob"));
    for (name, shown) in [
        ("bob.dash", "bob"),
        ("bob", "bob"),
        (".dash", ""),
        ("dash", "dash"),
        ("bob.dash.dash", "bob.dash"),
        ("bob.Dash", "bob.Dash"),
        ("bob.dashy", "bob.dashy"),
        ("bobxdash", "bobxdash"),
        ("é.dash", "é"),
        ("", ""),
    ] {
        assert_eq!(strip_dash_suffix(name), shown);
    }
}

#[test]
fn only_confirmed_money_is_tinted() {
    assert_eq!(money_bubble_tint(&text_message(1, false, 1, "Payment: 50 DASH")), None);
    assert_eq!(money_bubble_tint(&payment(false, 5, None, None)), None);
    assert_eq!(money_bubble_tint(&payment(false, 5, Some(5), None)), Some(Tint::Incoming));
    assert_eq!(money_bubble_tint(&payment(true, 5, Some(5), None)), Some(Tint::Outgoing));
    assert_eq!(money_bubble_tint(&request(true, 5, None)), Some(Tint::Incoming));
    assert_eq!(money_bubble_tint(&request(false, 5, None)), Some(Tint::Outgoing));
    let silent = SilentPaymentRecord { amount: 1, timestamp: 1, from_me: true };
    assert_eq!(silent_payment_tint(&silent), Tint::Outgoing);
    let silent = SilentPaymentRecord { amount: 1, timestamp: 1, from_me: false };
    assert_eq!(silent_payment_tint(&silent), Tint::Incoming);
}

#[test]
fn headlines_never_show_a_mere_claim() {
    assert_eq!(
        bubble_headline(&payment(false, 5, None, None)).text("5"),
        Some("Payment: Pending…".to_string())
    );
    assert_eq!(
        bubble_headline(&payment(false, 5, Some(4), None)),
        Headline::Payment { verified: Some(4) }
    );
    assert_eq!(
        bubble_headline(&payment(false, 5, Some(4), None)).text("4"),
        Some("Payment: 4".to_string())
    );
    assert_eq!(
        bubble_headline(&request(false, 5, None)).text("5"),
        Some("Payment Request: 5".to_string())
    );
    assert_eq!(bubble_headline(&text_message(1, true, 1, "x")).text(""), None);
}

#[test]
fn statuses_say_what_is_known() {
    let says = |m: &ThreadMessage, ready: bool| bubble_status(m, ready).text("A", "B");
    let some = |s: &str| Some(s.to_string());
    assert_eq!(says(&payment(true, 5, Some(5), None), false), some("Verified — A"));
    assert_eq!(
        says(&payment(true, 5, Some(4), None), true),
        some("Verified — but the amount received was A (message said B)")
    );
    assert_eq!(says(&payment(true, 5, None, None), false), some("Checking payment status…"));
    assert_eq!(
        says(&payment(true, 5, None, None), true),
        some("Awaiting Shielded Sync Completion")
    );
    assert_eq!(says(&request(true, 5, Some(5)), true), some("PAID — A"));
    assert_eq!(
        says(&request(true, 5, Some(4)), true),
        some("PAID — but the amount received was A (requested B)")
    );
    assert_eq!(says(&request(true, 5, None), false), some("Checking payment status…"));
    assert_eq!(says(&request(true, 5, None), true), some("Awaiting payment"));
    assert_eq!(says(&request(false, 5, None), true), None);
    assert_eq!(bubble_status(&request(false, 5, None), true), BubbleStatus::Payable);
    let mut cancelled = request(false, 5, None);
    cancelled.updated_at = Some(21);
    assert_eq!(says(&cancelled, true), some("Request Cancelled"));
    assert!(!is_edited(&cancelled));
    let mut edited = text_message(1, true, 1, "x");
    assert!(!is_edited(&edited));
    edited.updated_at = Some(1);
    assert!(!is_edited(&edited));
    edited.updated_at = Some(2);
    assert!(is_edited(&edited));
}

#[test]
fn bubbles_offer_what_fits_their_sender() {
    assert_eq!(labels(&text_message(1, true, 1, "x"), &idle()), vec!["Delete", "Edit Message"]);
    assert!(labels(&text_message(1, false, 1, "x"), &idle()).is_empty());
    assert_eq!(labels(&payment(true, 5, None, Some("m")), &idle()), vec!["Edit Memo"]);
    assert_eq!(labels(&payment(true, 5, None, None), &idle()), vec!["Add Memo"]);
    assert!(labels(&payment(false, 5, None, None), &idle()).is_empty());
    assert_eq!(labels(&request(true, 5, None), &idle()), vec!["Cancel Request"]);
    assert_eq!(labels(&request(false, 5, None), &idle()), vec!["Pay"]);
    assert!(labels(&request(false, 5, Some(5)), &idle()).is_empty());
    let unready = BubbleContext { shielded_state_ready: false, ..idle() };
    assert!(labels(&request(false, 5, None), &unready).is_empty());

    let busy = BubbleContext { busy_here: true, action_disabled: true, ..idle() };
    assert_eq!(labels(&request(false, 5, None), &busy), vec!["Paying…"]);
    assert_eq!(labels(&request(true, 5, None), &busy), vec!["Cancelling…"]);
    assert_eq!(labels(&payment(true, 5, None, None), &busy), vec!["Saving…"]);
    for message in [text_message(1, true, 1, "x"), request(false, 5, None)] {
        assert!(bubble_buttons(&message, &busy).iter().all(|b| !b.enabled));
    }
    let blocked = BubbleContext { credit_blocked: true, ..idle() };
    assert!(!bubble_buttons(&request(false, 5, None), &blocked)[0].enabled);
    assert!(bubble_buttons(&request(true, 5, None), &blocked)[0].enabled);
    assert_eq!(
        bubble_buttons(&request(false, 5, None), &idle())[0].action,
        BubbleAction::Pay {
            document_id: [50u8; 32],
            amount: 5,
            memo: Some("rent".to_string()),
            created_at: Some(20),
        }
    );
    assert_eq!(ButtonLabel::Busy(BusyLabel::Deleting).text(), "Deleting…");
}

#[test]
fn a_busy_bubble_says_so_where_no_button_does() {
    let label = Some(BusyLabel::Deleting);
    assert_eq!(shown_busy_label(&text_message(1, true, 1, "x"), true, label), label);
    assert_eq!(shown_busy_label(&text_message(1, true, 1, "x"), false, label), None);
    assert_eq!(shown_busy_label(&payment(true, 5, None, Some("m")), true, label), label);
    assert_eq!(shown_busy_label(&payment(false, 5, None, Some("m")), true, label), None);
    assert_eq!(shown_busy_label(&payment(true, 5, None, None), true, label), None);
    assert_eq!(shown_busy_label(&request(true, 5, None), true, label), None);
}

#[test]
fn the_timeline_runs_from_old_to_new() {
    let alert = ReceiptAlert {
        original_document_id: [7u8; 32],
        amount: 1,
        memo: None,
        original_created_at: Some(2500),
        reason: ReceiptAlertReason::OriginalDeleted,
    };
    let silent = SilentPaymentRecord { amount: 1, timestamp: 2, from_me: true };
    let mut undated = text_message(3, true, 0, "z");
    undated.created_at = None;
    let messages = vec![text_message(1, true, 3000, "a"), text_message(2, true, 2000, "b"), undated];
    let timeline = conversation_timeline(&messages, &vec![alert.clone()], &vec![silent]);
    assert_eq!(
        timeline,
        vec![
            TimelineItem::Message(messages[2].clone()),
            TimelineItem::Message(messages[1].clone()),
            TimelineItem::SilentPayment(silent),
            TimelineItem::ReceiptAlert(alert),
            TimelineItem::Message(messages[0].clone()),
        ]
    );
}

#[test]
fn receipts_are_reported_in_words() {
    assert_eq!(
        alert_text(ReceiptAlertReason::OriginalDeleted),
        "This payment request has been deleted."
    );
    assert_eq!(
        alert_text(ReceiptAlertReason::OriginalChangedKind),
        "This payment request has changed into a different kind of message."
    );
    assert_eq!(
        alert_text(ReceiptAlertReason::OriginalAmountOrMemoMismatch),
        "This payment request's amount or note no longer matches what you paid."
    );
}

#[test]
fn the_table_shows_the_six_newest_payments() {
    let mut messages = vec![text_message(1, true, 1, "no money"), payment(true, 5, None, None)];
    for t in 0..5u64 {
        let mut m = payment(t % 2 == 0, 1, Some(t + 100), None);
        m.created_at = Some(t * 1000);
        messages.push(m);
    }
    let (rows, full) = recent_verified_payments(&messages, &vec![]);
    assert_eq!(rows.len(), 5);
    assert!(!full);

    let mut paid = request(true, 9, Some(9));
    paid.created_at = Some(9000);
    messages.push(paid);
    let silent = SilentPaymentRecord { amount: 77, timestamp: 3, from_me: false };
    let (rows, full) = recent_verified_payments(&messages, &vec![silent]);
    assert!(full);
    assert_eq!(rows.len(), 6);
    assert_eq!(rows[0], PaymentRow { received: true, credits: 9, created_at: Some(9000) });
    assert_eq!(rows[1], PaymentRow { received: false, credits: 104, created_at: Some(4000) });
    assert_eq!(rows[2], PaymentRow { received: true, credits: 103, created_at: Some(3000) });
    assert_eq!(rows[3], PaymentRow { received: true, credits: 77, created_at: Some(3000) });
}

#[test]
fn the_tabs_stay_in_reach() {
    let nav = conversation_nav();
    assert_eq!(nav.len(), 7);
    assert_eq!(nav[0], ("Most Recent", OrchardPaySubscreen::MostRecent));
    assert_eq!(nav[6], ("QC Warning", OrchardPaySubscreen::QcWarning));
}
