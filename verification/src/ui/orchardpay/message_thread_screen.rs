//! The screen of one conversation: its messages, and the composer below them.

use vstd::prelude::*;
use vstd::string::StringExecFns;

use crate::model::identifier::{same_id, Identifier};
use crate::model::orchardpay::{OrchardPayContactState, SilentPaymentRecord};
use crate::model::text;
use crate::model::validation::validate_char_count;
use crate::orchardpay::contact_search;
use crate::orchardpay::contact_search::strip_dash_suffix;
use crate::orchardpay::messages::{HistoryCursor, ReceiptAlert, ThreadMessage};
use crate::orchardpay::outgoing::SendLimits;
use crate::orchardpay::tasks::{
    BackendTask, BackendTaskSuccessResult, KeyId, OrchardPayTask, WalletSeedHash,
};
use crate::ui::actions::{AppAction, MessageType, OrchardPaySubscreen, RootScreen};
use crate::ui::components::confirmation_dialog::{ConfirmationDialog, ConfirmationStatus};
use crate::ui::components::text_edit_dialog::{
    DialogInput, LengthRule, TextEditDialog, TextEditStatus,
};
use crate::ui::orchardpay::thread_view::{BubbleAction, BubbleContext, BusyLabel};

verus! {

/// What the composer is about to send.
#[derive(Debug, Clone, Copy, PartialEq, Eq, Structural)]
pub enum ComposeKind {
    Message,
    Payment,
    PaymentRequest,
}

/// Why the composer's content cannot be sent.
#[derive(Debug, Clone, Copy, PartialEq, Eq, Structural)]
pub enum ComposeError {
    MessageTooLong,
    MemoTooLong,
    NoAmountToRequest,
    NoAmountToSend,
}

impl ComposeError {
    /// What the user is told.
    pub open spec fn words(self) -> Seq<char> {
        match self {
            ComposeError::MessageTooLong =>
                "The message is too long. Use 1000 characters or fewer and try again."@,
            ComposeError::MemoTooLong =>
                "The payment memo is too long. Use 1000 characters or fewer and try again."@,
            ComposeError::NoAmountToRequest => "Enter an amount in DASH to request."@,
            ComposeError::NoAmountToSend => "Enter an amount in DASH to send."@,
        }
    }

    /// What the user is told.
    pub fn text(self) -> (words: &'static str)
        ensures
            words@ == self.words(),
    {
        match self {
            ComposeError::MessageTooLong =>
                "The message is too long. Use 1000 characters or fewer and try again.",
            ComposeError::MemoTooLong =>
                "The payment memo is too long. Use 1000 characters or fewer and try again.",
            ComposeError::NoAmountToRequest => "Enter an amount in DASH to request.",
            ComposeError::NoAmountToSend => "Enter an amount in DASH to send.",
        }
    }
}

/// A task that waits behind a question to the user. A payment that answers a
/// request takes its receipt from the question's box.
#[derive(Debug, Clone, PartialEq)]
pub struct PendingConfirmation {
    pub dialog: ConfirmationDialog,
    pub task: OrchardPayTask,
}

/// The task that runs once its question was answered: a payment that answers a
/// request leaves a receipt if the box was checked, and everything else is as it
/// was asked about.
pub open spec fn confirmed_task(task: OrchardPayTask, checked: bool) -> OrchardPayTask {
    match task {
        OrchardPayTask::SendPayment {
            identity_id,
            identity_key,
            counterparty_identity_id,
            seed_hash,
            amount,
            memo,
            fulfilling_request_document_id: Some(request),
            save_receipt,
            original_request_memo,
            original_request_created_at,
        } => OrchardPayTask::SendPayment {
            identity_id,
            identity_key,
            counterparty_identity_id,
            seed_hash,
            amount,
            memo,
            fulfilling_request_document_id: Some(request),
            save_receipt: checked,
            original_request_memo,
            original_request_created_at,
        },
        _ => task,
    }
}

impl PendingConfirmation {
    /// The task that runs now that the question was answered.
    fn into_task(self) -> (task: OrchardPayTask)
        ensures
            task == confirmed_task(self.task, self.dialog.spec_checkbox_checked()),
    {
        let checked: bool = self.dialog.checkbox_checked();
        match self.task {
            OrchardPayTask::SendPayment {
                identity_id,
                identity_key,
                counterparty_identity_id,
                seed_hash,
                amount,
                memo,
                fulfilling_request_document_id: Some(request),
                save_receipt: _,
                original_request_memo,
                original_request_created_at,
            } => OrchardPayTask::SendPayment {
                identity_id,
                identity_key,
                counterparty_identity_id,
                seed_hash,
                amount,
                memo,
                fulfilling_request_document_id: Some(request),
                save_receipt: checked,
                original_request_memo,
                original_request_created_at,
            },
            task => task,
        }
    }
}

/// What is being edited.
#[derive(Debug, Clone, Copy, PartialEq, Eq, Structural)]
pub enum EditKind {
    Message,
    PaymentMemo,
}

/// An edit that is under way.
#[derive(Debug, Clone, PartialEq)]
pub struct EditingState {
    pub kind: EditKind,
    pub document_id: Identifier,
    pub dialog: TextEditDialog,
}

/// The composer, as it is shown.
#[derive(Debug, Clone, Copy, PartialEq, Eq, Structural)]
pub struct ComposerView {
    /// Whether there is a field for the memo.
    pub memo_shown: bool,
    /// Whether the composer offers to send without a message.
    pub silent_shown: bool,
    /// The most that can be sent, where what is sent is paid for.
    pub max_amount: Option<u64>,
    /// Whether the button says that something is being sent.
    pub sending: bool,
    pub send_enabled: bool,
}

/// The screen of one conversation.
#[derive(Debug, Clone, PartialEq)]
pub struct MessageThreadScreen {
    pub identity_id: Identifier,
    pub counterparty_identity_id: Identifier,
    /// The key that signs, if the identity has one that can.
    pub selected_key: Option<KeyId>,
    /// The wallet of the identity, if it has one.
    pub selected_wallet: Option<WalletSeedHash>,
    pub wallet_open_attempted: bool,
    pub messages: Vec<ThreadMessage>,
    pub silent_payments: Vec<SilentPaymentRecord>,
    pub receipt_alerts: Vec<ReceiptAlert>,
    /// Everything that was decoded, receipts included. It is not shown, but older
    /// history is joined to it.
    pub all_decoded_thread: Vec<ThreadMessage>,
    pub history_cursor: HistoryCursor,
    pub may_be_incomplete: bool,
    /// Older history is being loaded.
    pub loading_more: bool,
    /// The conversation was asked for since the screen was last refreshed.
    pub load_dispatched: bool,
    /// The conversation is being loaded.
    pub loading: bool,
    pub pending_reload: bool,
    pub compose_kind: ComposeKind,
    pub compose_text: String,
    /// The amount in credits, while the field holds a valid one.
    pub compose_amount: Option<u64>,
    pub compose_memo: String,
    /// Whether a payment is to go out without a message.
    pub compose_send_silently: bool,
    /// Something was confirmed and has not come back yet.
    pub sending: bool,
    pub my_name: Option<String>,
    pub counterparty_name: Option<String>,
    pub pending_identity_refresh: bool,
    pub pending_confirmation: Option<PendingConfirmation>,
    pub editing: Option<EditingState>,
    /// The document that is being paid, edited, cancelled or deleted.
    pub pending_document_mutation_id: Option<Identifier>,
    /// What is being done to that document.
    pub pending_bubble_action_label: Option<BusyLabel>,
    /// What comes back next from a publication belongs to the composer.
    pub composer_send_pending: bool,
}

/// A name as it is shown, where there is one.
pub open spec fn shown_optional_name(name: Option<Seq<char>>) -> Option<Seq<char>> {
    match name {
        Some(n) => Some(contact_search::shown_name(n)),
        None => None,
    }
}

/// A name as it is shown, where there is one.
fn strip_optional_name(name: &Option<String>) -> (shown: Option<String>)
    ensures
        text::optional_view(shown) == shown_optional_name(text::optional_view(*name)),
{
    match name {
        Some(n) => Some(strip_dash_suffix(n.as_str())),
        None => None,
    }
}

/// The name under which a contact is shown here.
pub open spec fn name_here(state: Option<OrchardPayContactState>) -> Option<Seq<char>> {
    match state {
        Some(OrchardPayContactState::Established { name: n, .. }) => shown_optional_name(
            text::optional_view(n),
        ),
        _ => None,
    }
}

/// The name under which an established contact is shown here.
pub fn resolve_counterparty_name(state: &Option<OrchardPayContactState>) -> (name: Option<String>)
    ensures
        text::optional_view(name) == name_here(*state),
{
    match state {
        Some(OrchardPayContactState::Established { name, .. }) => strip_optional_name(name),
        _ => None,
    }
}

fn copy_thread(messages: &Vec<ThreadMessage>) -> (copy: Vec<ThreadMessage>)
    ensures
        copy@ == messages@,
{
    let mut copy: Vec<ThreadMessage> = Vec::new();
    let mut i: usize = 0;
    while i < messages.len()
        invariant
            i <= messages@.len(),
            copy@ == messages@.take(i as int),
        decreases messages@.len() - i,
    {
        copy.push(messages[i].copy());
        assert(copy@ =~= messages@.take(i + 1));
        i = i + 1;
    }
    assert(copy@ =~= messages@);
    copy
}

impl MessageThreadScreen {
    /// The screen before anything was loaded. `my_name` is the name that the identity
    /// is registered under; `counterparty_name` is how the counterparty is shown.
    pub fn new(
        identity_id: Identifier,
        counterparty_identity_id: Identifier,
        selected_key: Option<KeyId>,
        selected_wallet: Option<WalletSeedHash>,
        my_name: Option<String>,
        counterparty_name: Option<String>,
    ) -> (screen: Self)
        ensures
            screen.identity_id == identity_id,
            screen.counterparty_identity_id == counterparty_identity_id,
            screen.selected_key == selected_key,
            screen.selected_wallet == selected_wallet,
            text::optional_view(screen.my_name) == shown_optional_name(
                text::optional_view(my_name),
            ),
            screen.counterparty_name == counterparty_name,
            screen.messages@.len() == 0,
            screen.silent_payments@.len() == 0,
            screen.receipt_alerts@.len() == 0,
            screen.all_decoded_thread@.len() == 0,
            screen.history_cursor == (HistoryCursor { mine_before: None, their_before: None }),
            screen.compose_kind == ComposeKind::Message,
            screen.compose_text@.len() == 0,
            screen.compose_amount is None,
            screen.compose_memo@.len() == 0,
            screen.pending_identity_refresh,
            !screen.wallet_open_attempted,
            !screen.may_be_incomplete,
            !screen.loading_more,
            !screen.load_dispatched,
            !screen.loading,
            !screen.pending_reload,
            !screen.compose_send_silently,
            !screen.sending,
            !screen.composer_send_pending,
            screen.pending_confirmation is None,
            screen.editing is None,
            screen.pending_document_mutation_id is None,
            screen.pending_bubble_action_label is None,
    {
        MessageThreadScreen {
            identity_id,
            counterparty_identity_id,
            selected_key,
            selected_wallet,
            wallet_open_attempted: false,
            messages: Vec::new(),
            silent_payments: Vec::new(),
            receipt_alerts: Vec::new(),
            all_decoded_thread: Vec::new(),
            history_cursor: HistoryCursor { mine_before: None, their_before: None },
            may_be_incomplete: false,
            loading_more: false,
            load_dispatched: false,
            loading: false,
            pending_reload: false,
            compose_kind: ComposeKind::Message,
            compose_text: String::new(),
            compose_amount: None,
            compose_memo: String::new(),
            compose_send_silently: false,
            sending: false,
            my_name: strip_optional_name(&my_name),
            counterparty_name,
            pending_identity_refresh: true,
            pending_confirmation: None,
            editing: None,
            pending_document_mutation_id: None,
            pending_bubble_action_label: None,
            composer_send_pending: false,
        }
    }

    /// The counterparty's name, or `identifier_text` where there is none.
    pub open spec fn display_name(self, identifier_text: Seq<char>) -> Seq<char> {
        match self.counterparty_name {
            Some(name) => name@,
            None => identifier_text,
        }
    }

    /// The counterparty's name, or `identifier_text`, their identifier spelled out,
    /// where there is none.
    pub fn counterparty_display_name(&self, identifier_text: &str) -> (name: String)
        ensures
            name@ == self.display_name(identifier_text@),
    {
        match &self.counterparty_name {
            Some(name) => name.clone(),
            None => identifier_text.to_owned(),
        }
    }

    /// The heading of the conversation.
    pub fn heading(&self, identifier_text: &str) -> (heading: String)
        ensures
            heading@ == "Conversation with "@ + self.display_name(identifier_text@),
    {
        let name: String = self.counterparty_display_name(identifier_text);
        text::joined("Conversation with ", name.as_str())
    }

    /// The path above the conversation: the main screen, the wallet and one's own name.
    /// `wallet_alias` is what the wallet is called, and `short_identifier` spells one's
    /// own identifier in short.
    pub fn breadcrumbs(&self, wallet_alias: Option<&str>, short_identifier: &str) -> (crumbs: Vec<
        (String, AppAction),
    >)
        ensures
            crumbs@.len() == 3,
            crumbs@[0].0@ == "OrchardPay"@,
            crumbs@[0].1 == AppAction::SetMainScreenThenGoToMainScreen(RootScreen::OrchardPay),
            crumbs@[1].0@ == match wallet_alias {
                Some(alias) => alias@,
                None => "Wallet"@,
            },
            crumbs@[1].1 == AppAction::NoAction,
            crumbs@[2].0@ == match self.my_name {
                Some(name) => name@,
                None => short_identifier@,
            },
            crumbs@[2].1 == AppAction::NoAction,
    {
        let wallet: String = match wallet_alias {
            Some(alias) => alias.to_owned(),
            None => "Wallet".to_owned(),
        };
        let me: String = match &self.my_name {
            Some(name) => name.clone(),
            None => short_identifier.to_owned(),
        };
        let mut crumbs: Vec<(String, AppAction)> = Vec::new();
        crumbs.push(
            (
                "OrchardPay".to_owned(),
                AppAction::SetMainScreenThenGoToMainScreen(RootScreen::OrchardPay),
            ),
        );
        crumbs.push((wallet, AppAction::NoAction));
        crumbs.push((me, AppAction::NoAction));
        crumbs
    }

    /// Who a bubble is from.
    pub open spec fn sender_name(self, from_me: bool) -> Seq<char> {
        if from_me {
            match self.my_name {
                Some(name) => name@,
                None => "You"@,
            }
        } else {
            match self.counterparty_name {
                Some(name) => name@,
                None => "Them"@,
            }
        }
    }

    /// Who a bubble is from.
    pub fn sender_label(&self, from_me: bool) -> (label: String)
        ensures
            label@ == self.sender_name(from_me),
    {
        if from_me {
            match &self.my_name {
                Some(name) => name.clone(),
                None => "You".to_owned(),
            }
        } else {
            match &self.counterparty_name {
                Some(name) => name.clone(),
                None => "Them".to_owned(),
            }
        }
    }

    /// Something is under way in this conversation.
    pub open spec fn busy(self) -> bool {
        self.sending || self.loading || self.loading_more
    }

    /// Whether something is under way in this conversation. Every button waits
    /// until it is done.
    pub fn is_busy(&self) -> (r: bool)
        ensures
            r == self.busy(),
    {
        self.sending || self.loading || self.loading_more
    }

    /// What the refresh button says.
    pub fn refresh_label(&self) -> (label: &'static str)
        ensures
            label@ == if self.loading {
                "Refreshing…"@
            } else {
                "Refresh"@
            },
    {
        if self.loading {
            "Refreshing…"
        } else {
            "Refresh"
        }
    }

    /// Whether, in place of an empty conversation, it is said that it loads.
    pub fn shows_loading(&self) -> (r: bool)
        ensures
            r == (self.loading && self.messages@.len() == 0),
    {
        self.loading && self.messages.len() == 0
    }

    /// What the buttons of a message's bubble depend on.
    pub open spec fn context_of(
        self,
        document_id: Identifier,
        credit_blocked: bool,
        shielded_state_ready: bool,
    ) -> BubbleContext {
        BubbleContext {
            busy_here: self.pending_document_mutation_id == Some(document_id),
            action_disabled: self.busy(),
            credit_blocked,
            shielded_state_ready,
        }
    }

    /// What the buttons of a message's bubble depend on.
    pub fn bubble_context(
        &self,
        message: &ThreadMessage,
        credit_blocked: bool,
        shielded_state_ready: bool,
    ) -> (context: BubbleContext)
        ensures
            context == self.context_of(message.document_id, credit_blocked, shielded_state_ready),
    {
        let busy_here: bool = match &self.pending_document_mutation_id {
            Some(id) => same_id(id, &message.document_id),
            None => false,
        };
        BubbleContext {
            busy_here,
            action_disabled: self.is_busy(),
            credit_blocked,
            shielded_state_ready,
        }
    }

    /// The composer, as it is shown.
    pub open spec fn composer_shown(self, shielded_balance: u64, fee: u64, credit_blocked: bool) -> ComposerView {
        ComposerView {
            memo_shown: self.compose_kind == ComposeKind::PaymentRequest || (self.compose_kind
                == ComposeKind::Payment && !self.compose_send_silently),
            silent_shown: self.compose_kind == ComposeKind::Payment,
            max_amount: if self.compose_kind == ComposeKind::Payment
                && self.selected_wallet is Some {
                Some(
                    if shielded_balance >= fee {
                        (shielded_balance - fee) as u64
                    } else {
                        0
                    },
                )
            } else {
                None
            },
            sending: self.sending && self.pending_document_mutation_id is None,
            send_enabled: !self.busy() && !credit_blocked,
        }
    }

    /// The composer, as it is shown. Only a payment is limited, to what is left of
    /// the shielded balance after the fee. A payment without a message has no memo.
    /// The button speaks of sending only while the composer's own content is sent.
    pub fn composer_view(&self, shielded_balance: u64, fee: u64, credit_blocked: bool) -> (view: ComposerView)
        ensures
            view == self.composer_shown(shielded_balance, fee, credit_blocked),
    {
        let pays: bool = self.compose_kind == ComposeKind::Payment;
        ComposerView {
            memo_shown: self.compose_kind == ComposeKind::PaymentRequest || (pays
                && !self.compose_send_silently),
            silent_shown: pays,
            max_amount: if pays && self.selected_wallet.is_some() {
                Some(
                    if shielded_balance >= fee {
                        shielded_balance - fee
                    } else {
                        0
                    },
                )
            } else {
                None
            },
            sending: self.sending && self.pending_document_mutation_id.is_none(),
            send_enabled: !self.is_busy() && !credit_blocked,
        }
    }

    /// `after` and `action` are what asking for the conversation leads to.
    pub open spec fn loads(self, action: AppAction, after: MessageThreadScreen) -> bool {
        match self.selected_wallet {
            None => action == AppAction::NoAction && after == self,
            Some(seed_hash) => action.runs(
                OrchardPayTask::LoadThread {
                    identity_id: self.identity_id,
                    counterparty_identity_id: self.counterparty_identity_id,
                    seed_hash,
                },
            ) && after == (MessageThreadScreen {
                loading: true,
                load_dispatched: true,
                ..self
            }),
        }
    }

    /// Asks for the conversation, if the identity has a wallet.
    pub fn dispatch_load(&mut self) -> (action: AppAction)
        ensures
            old(self).loads(action, *final(self)),
    {
        match self.selected_wallet {
            None => AppAction::NoAction,
            Some(seed_hash) => {
                self.loading = true;
                self.load_dispatched = true;
                AppAction::run(
                    OrchardPayTask::LoadThread {
                        identity_id: self.identity_id,
                        counterparty_identity_id: self.counterparty_identity_id,
                        seed_hash,
                    },
                )
            },
        }
    }

    /// Asks for older history, to be joined to what is here.
    pub fn load_more_clicked(&mut self) -> (action: AppAction)
        ensures
            *final(self) == (MessageThreadScreen { loading_more: true, ..*old(self) }),
            match old(self).selected_wallet {
                None => action == AppAction::NoAction,
                Some(seed_hash) => action.task() matches Some(
                    OrchardPayTask::LoadMoreHistory {
                        identity_id,
                        counterparty_identity_id,
                        seed_hash: hash,
                        all_decoded,
                        history_cursor,
                        may_be_incomplete,
                    },
                ) && identity_id == old(self).identity_id && counterparty_identity_id == old(self).counterparty_identity_id && hash == seed_hash && all_decoded@ == old(self).all_decoded_thread@ && history_cursor == old(self).history_cursor
                    && may_be_incomplete == old(self).may_be_incomplete,
            },
    {
        self.loading_more = true;
        match self.selected_wallet {
            None => AppAction::NoAction,
            Some(seed_hash) => AppAction::run(
                OrchardPayTask::LoadMoreHistory {
                    identity_id: self.identity_id,
                    counterparty_identity_id: self.counterparty_identity_id,
                    seed_hash,
                    all_decoded: copy_thread(&self.all_decoded_thread),
                    history_cursor: self.history_cursor,
                    may_be_incomplete: self.may_be_incomplete,
                },
            ),
        }
    }

    /// What the screen asks for by itself when it is drawn: the identity's balance
    /// where that may have changed.
    pub fn take_identity_refresh(&mut self) -> (action: AppAction)
        ensures
            *final(self) == (MessageThreadScreen { pending_identity_refresh: false, ..*old(self) }),
            action == if old(self).pending_identity_refresh {
                AppAction::BackendTask(BackendTask::RefreshIdentity(old(self).identity_id))
            } else {
                AppAction::NoAction
            },
    {
        if self.pending_identity_refresh {
            self.pending_identity_refresh = false;
            AppAction::BackendTask(BackendTask::RefreshIdentity(self.identity_id))
        } else {
            AppAction::NoAction
        }
    }

    /// `after` and `action` are what drawing the screen leads to.
    pub open spec fn drawn(self, action: AppAction, after: MessageThreadScreen) -> bool {
        ({
            let due = !self.load_dispatched || self.pending_reload;
            let reload = self.load_dispatched && self.pending_reload;
            let before = MessageThreadScreen {
                pending_reload: self.pending_reload && !reload,
                ..self
            };
            match self.selected_wallet {
                Some(seed_hash) if due => action.runs(
                    OrchardPayTask::LoadThread {
                        identity_id: self.identity_id,
                        counterparty_identity_id: self.counterparty_identity_id,
                        seed_hash,
                    },
                ) && after == (MessageThreadScreen {
                    loading: true,
                    load_dispatched: true,
                    ..before
                }),
                _ => action == AppAction::NoAction && after == before,
            }
        })
    }

    /// What the screen asks for by itself when it is drawn: the conversation, once
    /// after each refresh, and again after something in it was changed.
    pub fn take_due_load(&mut self) -> (action: AppAction)
        ensures
            old(self).drawn(action, *final(self)),
    {
        if !self.load_dispatched {
            self.dispatch_load()
        } else if self.pending_reload {
            self.pending_reload = false;
            self.dispatch_load()
        } else {
            AppAction::NoAction
        }
    }

    /// The composer is empty, and nothing else differs from `before`.
    pub open spec fn composer_cleared(self, before: MessageThreadScreen) -> bool {
        &&& self.compose_text@.len() == 0
        &&& self.compose_memo@.len() == 0
        &&& self == (MessageThreadScreen {
            compose_text: self.compose_text,
            compose_amount: None,
            compose_memo: self.compose_memo,
            compose_send_silently: false,
            ..before
        })
    }

    /// Empties the composer.
    fn clear_composer(&mut self)
        ensures
            final(self).composer_cleared(*old(self)),
    {
        self.compose_text = String::new();
        self.compose_amount = None;
        self.compose_memo = String::new();
        self.compose_send_silently = false;
    }

    /// This is `before` with a question about `task` put to the user.
    pub open spec fn asks(
        self,
        before: MessageThreadScreen,
        title: Seq<char>,
        message: Seq<char>,
        danger_mode: bool,
        checkbox: Option<Seq<char>>,
        task: OrchardPayTask,
    ) -> bool {
        &&& self == (MessageThreadScreen {
            pending_confirmation: self.pending_confirmation,
            ..before
        })
        &&& self.pending_confirmation matches Some(pending) && pending.dialog.reads(
            title,
            message,
            danger_mode,
            checkbox,
        ) && pending.task == task
    }

    /// Puts a question about `task` to the user. Nothing runs before it is answered.
    fn open_confirmation(
        &mut self,
        title: &str,
        message: String,
        task: OrchardPayTask,
        danger_mode: bool,
        checkbox: Option<&str>,
    )
        ensures
            final(self).asks(
                *old(self),
                title@,
                message@,
                danger_mode,
                match checkbox {
                    None => None,
                    Some(label) => Some(label@),
                },
                task,
            ),
    {
        self.pending_confirmation = Some(
            PendingConfirmation {
                dialog: ConfirmationDialog::new(title, message, danger_mode, checkbox),
                task,
            },
        );
    }

    /// `after` and `action` are what this answer leads to.
    pub open spec fn answered(
        self,
        status: Option<ConfirmationStatus>,
        action: AppAction,
        after: MessageThreadScreen,
    ) -> bool {
        match (status, self.pending_confirmation) {
            (Some(ConfirmationStatus::Confirmed), Some(pending)) => action.runs(
                confirmed_task(pending.task, pending.dialog.spec_checkbox_checked()),
            ) && after == (MessageThreadScreen {
                pending_confirmation: None,
                sending: true,
                ..self
            }),
            (Some(ConfirmationStatus::Canceled), Some(_)) => action == AppAction::NoAction
                && after == (MessageThreadScreen {
                pending_confirmation: None,
                pending_document_mutation_id: None,
                pending_bubble_action_label: None,
                ..self
            }),
            _ => action == AppAction::NoAction && after == self,
        }
    }

    /// Takes in the answer to the question, if there is one: a confirmed task runs,
    /// and a cancelled one leaves no trace on its bubble.
    pub fn render_pending_confirmation(&mut self, status: Option<ConfirmationStatus>) -> (action:
        AppAction)
        ensures
            old(self).answered(status, action, *final(self)),
    {
        let mut taken: Option<PendingConfirmation> = None;
        std::mem::swap(&mut taken, &mut self.pending_confirmation);
        match (status, taken) {
            (Some(ConfirmationStatus::Confirmed), Some(pending)) => {
                self.sending = true;
                AppAction::run(pending.into_task())
            },
            (Some(ConfirmationStatus::Canceled), Some(_)) => {
                self.pending_document_mutation_id = None;
                self.pending_bubble_action_label = None;
                AppAction::NoAction
            },
            (_, kept) => {
                self.pending_confirmation = kept;
                AppAction::NoAction
            },
        }
    }

    /// This with a bubble marked as being worked on.
    pub open spec fn working_on(self, document_id: Identifier, label: BusyLabel) -> MessageThreadScreen {
        MessageThreadScreen {
            pending_document_mutation_id: Some(document_id),
            pending_bubble_action_label: Some(label),
            ..self
        }
    }

    /// Asks whether a request is to be paid, and whether to keep a receipt.
    fn open_pay_confirmation(
        &mut self,
        document_id: Identifier,
        amount: u64,
        memo: Option<String>,
        created_at: Option<u64>,
        amount_text: &str,
        identifier_text: &str,
    )
        ensures
            match (old(self).selected_key, old(self).selected_wallet) {
                (Some(identity_key), Some(seed_hash)) => final(self).asks(
                    old(self).working_on(document_id, BusyLabel::Paying),
                    "Pay Request?"@,
                    "Pay "@ + amount_text@ + " to "@ + old(self).display_name(identifier_text@)
                        + " for this payment request?"@,
                    true,
                    Some("Save Receipt"@),
                    OrchardPayTask::SendPayment {
                        identity_id: old(self).identity_id,
                        identity_key,
                        counterparty_identity_id: old(self).counterparty_identity_id,
                        seed_hash,
                        amount,
                        memo: None,
                        fulfilling_request_document_id: Some(document_id),
                        save_receipt: false,
                        original_request_memo: memo,
                        original_request_created_at: created_at,
                    },
                ),
                _ => *final(self) == *old(self),
            },
    {
        if let (Some(identity_key), Some(seed_hash)) = (self.selected_key, self.selected_wallet) {
            let name: String = self.counterparty_display_name(identifier_text);
            let mut message: String = text::joined3("Pay ", amount_text, " to ");
            message.append(name.as_str());
            message.append(" for this payment request?");
            let task: OrchardPayTask = OrchardPayTask::SendPayment {
                identity_id: self.identity_id,
                identity_key,
                counterparty_identity_id: self.counterparty_identity_id,
                seed_hash,
                amount,
                memo: None,
                fulfilling_request_document_id: Some(document_id),
                save_receipt: false,
                original_request_memo: memo,
                original_request_created_at: created_at,
            };
            self.pending_document_mutation_id = Some(document_id);
            self.pending_bubble_action_label = Some(BusyLabel::Paying);
            self.open_confirmation("Pay Request?", message, task, true, Some("Save Receipt"));
        }
    }

    /// Asks whether a request of one's own is to be cancelled.
    fn open_cancel_request_confirmation(&mut self, document_id: Identifier)
        ensures
            match (old(self).selected_key, old(self).selected_wallet) {
                (Some(identity_key), Some(seed_hash)) => final(self).asks(
                    old(self).working_on(document_id, BusyLabel::Cancelling),
                    "Cancel Request?"@,
                    "The other party will no longer be able to pay this request."@,
                    true,
                    None,
                    OrchardPayTask::CancelPaymentRequest {
                        identity_id: old(self).identity_id,
                        identity_key,
                        counterparty_identity_id: old(self).counterparty_identity_id,
                        document_id,
                        seed_hash,
                    },
                ),
                _ => *final(self) == *old(self),
            },
    {
        if let (Some(identity_key), Some(seed_hash)) = (self.selected_key, self.selected_wallet) {
            let task: OrchardPayTask = OrchardPayTask::CancelPaymentRequest {
                identity_id: self.identity_id,
                identity_key,
                counterparty_identity_id: self.counterparty_identity_id,
                document_id,
                seed_hash,
            };
            self.pending_document_mutation_id = Some(document_id);
            self.pending_bubble_action_label = Some(BusyLabel::Cancelling);
            self.open_confirmation(
                "Cancel Request?",
                "The other party will no longer be able to pay this request.".to_owned(),
                task,
                true,
                None,
            );
        }
    }

    /// Asks whether a message of one's own is to be deleted.
    fn open_delete_message_confirmation(&mut self, document_id: Identifier)
        ensures
            match (old(self).selected_key, old(self).selected_wallet) {
                (Some(identity_key), Some(seed_hash)) => final(self).asks(
                    old(self).working_on(document_id, BusyLabel::Deleting),
                    "Delete Message?"@,
                    "This message will be permanently removed from the conversation for both of you."@,
                    true,
                    None,
                    OrchardPayTask::DeleteMessage {
                        identity_id: old(self).identity_id,
                        identity_key,
                        counterparty_identity_id: old(self).counterparty_identity_id,
                        document_id,
                        seed_hash,
                    },
                ),
                _ => *final(self) == *old(self),
            },
    {
        if let (Some(identity_key), Some(seed_hash)) = (self.selected_key, self.selected_wallet) {
            let task: OrchardPayTask = OrchardPayTask::DeleteMessage {
                identity_id: self.identity_id,
                identity_key,
                counterparty_identity_id: self.counterparty_identity_id,
                document_id,
                seed_hash,
            };
            self.pending_document_mutation_id = Some(document_id);
            self.pending_bubble_action_label = Some(BusyLabel::Deleting);
            self.open_confirmation(
                "Delete Message?",
                "This message will be permanently removed from the conversation for both of you.".to_owned(),
                task,
                true,
                None,
            );
        }
    }

    /// An edit of this document is open, and nothing else differs from `before`.
    pub open spec fn edits(
        self,
        before: MessageThreadScreen,
        kind: EditKind,
        document_id: Identifier,
        title: Seq<char>,
        initial_text: Seq<char>,
        rule: LengthRule,
        too_long_message: Seq<char>,
    ) -> bool {
        &&& self == (MessageThreadScreen { editing: self.editing, ..before })
        &&& self.editing matches Some(editing) && editing.kind == kind && editing.document_id
            == document_id && editing.dialog.title@ == title && editing.dialog.text@
            == initial_text && editing.dialog.max_chars == rule.max && editing.dialog.rule == rule
            && editing.dialog.too_long_message@ == too_long_message && editing.dialog.blocks_input
            && editing.dialog.is_open
    }

    /// `after` is what a click on a bubble leads to.
    pub open spec fn clicked(
        self,
        action: BubbleAction,
        amount_text: Seq<char>,
        identifier_text: Seq<char>,
        limits: SendLimits,
        after: MessageThreadScreen,
    ) -> bool {
        match action {
            BubbleAction::Pay { document_id, amount, memo, created_at } => match (
                self.selected_key,
                self.selected_wallet,
            ) {
                (Some(identity_key), Some(seed_hash)) => after.asks(
                    self.working_on(document_id, BusyLabel::Paying),
                    "Pay Request?"@,
                    "Pay "@ + amount_text + " to "@ + self.display_name(identifier_text)
                        + " for this payment request?"@,
                    true,
                    Some("Save Receipt"@),
                    OrchardPayTask::SendPayment {
                        identity_id: self.identity_id,
                        identity_key,
                        counterparty_identity_id: self.counterparty_identity_id,
                        seed_hash,
                        amount,
                        memo: None,
                        fulfilling_request_document_id: Some(document_id),
                        save_receipt: false,
                        original_request_memo: memo,
                        original_request_created_at: created_at,
                    },
                ),
                _ => after == self,
            },
            BubbleAction::EditMessage { document_id, current_text } => after.edits(
                self,
                EditKind::Message,
                document_id,
                "Edit Message"@,
                current_text@,
                (LengthRule { min: limits.min_message_chars, max: limits.max_message_chars }),
                "The message is too long. Use 1000 characters or fewer."@,
            ),
            BubbleAction::EditPaymentMemo { document_id, current_memo } => after.edits(
                self,
                EditKind::PaymentMemo,
                document_id,
                "Edit Memo"@,
                match current_memo {
                    Some(memo) => memo@,
                    None => Seq::empty(),
                },
                (LengthRule { min: limits.min_memo_chars, max: limits.max_memo_chars }),
                "The payment memo is too long. Use 1000 characters or fewer."@,
            ),
            BubbleAction::CancelPaymentRequest { document_id } => match (
                self.selected_key,
                self.selected_wallet,
            ) {
                (Some(identity_key), Some(seed_hash)) => after.asks(
                    self.working_on(document_id, BusyLabel::Cancelling),
                    "Cancel Request?"@,
                    "The other party will no longer be able to pay this request."@,
                    true,
                    None,
                    OrchardPayTask::CancelPaymentRequest {
                        identity_id: self.identity_id,
                        identity_key,
                        counterparty_identity_id: self.counterparty_identity_id,
                        document_id,
                        seed_hash,
                    },
                ),
                _ => after == self,
            },
            BubbleAction::DeleteMessage { document_id } => match (
                self.selected_key,
                self.selected_wallet,
            ) {
                (Some(identity_key), Some(seed_hash)) => after.asks(
                    self.working_on(document_id, BusyLabel::Deleting),
                    "Delete Message?"@,
                    "This message will be permanently removed from the conversation for both of you."@,
                    true,
                    None,
                    OrchardPayTask::DeleteMessage {
                        identity_id: self.identity_id,
                        identity_key,
                        counterparty_identity_id: self.counterparty_identity_id,
                        document_id,
                        seed_hash,
                    },
                ),
                _ => after == self,
            },
        }
    }

    /// What a click on a bubble leads to: a question, or an open edit. Nothing runs
    /// yet. `amount_text` spells the amount of a request that is to be paid.
    pub fn apply_bubble_action(
        &mut self,
        action: BubbleAction,
        amount_text: &str,
        identifier_text: &str,
        limits: &SendLimits,
    )
        ensures
            old(self).clicked(action, amount_text@, identifier_text@, *limits, *final(self)),
    {
        match action {
            BubbleAction::Pay { document_id, amount, memo, created_at } => {
                self.open_pay_confirmation(
                    document_id,
                    amount,
                    memo,
                    created_at,
                    amount_text,
                    identifier_text,
                );
            },
            BubbleAction::EditMessage { document_id, current_text } => {
                let rule: LengthRule = LengthRule {
                    min: limits.min_message_chars,
                    max: limits.max_message_chars,
                };
                self.editing = Some(
                    EditingState {
                        kind: EditKind::Message,
                        document_id,
                        dialog: TextEditDialog::new(
                            "Edit Message",
                            current_text.as_str(),
                            limits.max_message_chars,
                            rule,
                            "The message is too long. Use 1000 characters or fewer.",
                        ),
                    },
                );
            },
            BubbleAction::EditPaymentMemo { document_id, current_memo } => {
                let rule: LengthRule = LengthRule {
                    min: limits.min_memo_chars,
                    max: limits.max_memo_chars,
                };
                let current: String = match current_memo {
                    Some(memo) => memo,
                    None => String::new(),
                };
                assert(current_memo is None ==> current@ =~= Seq::empty());
                self.editing = Some(
                    EditingState {
                        kind: EditKind::PaymentMemo,
                        document_id,
                        dialog: TextEditDialog::new(
                            "Edit Memo",
                            current.as_str(),
                            limits.max_memo_chars,
                            rule,
                            "The payment memo is too long. Use 1000 characters or fewer.",
                        ),
                    },
                );
            },
            BubbleAction::CancelPaymentRequest { document_id } => {
                self.open_cancel_request_confirmation(document_id);
            },
            BubbleAction::DeleteMessage { document_id } => {
                self.open_delete_message_confirmation(document_id);
            },
        }
    }

    /// `task` carries out the edit of this document to this text; a memo that is
    /// empty is taken away.
    pub open spec fn saves(
        self,
        task: OrchardPayTask,
        editing: EditingState,
        new_text_: Seq<char>,
        identity_key: KeyId,
        seed_hash: WalletSeedHash,
    ) -> bool {
        match editing.kind {
            EditKind::Message => task matches OrchardPayTask::EditMessage {
                identity_id,
                identity_key: key,
                counterparty_identity_id,
                document_id,
                new_text,
                seed_hash: hash,
            } && identity_id == self.identity_id && key == identity_key && counterparty_identity_id
                == self.counterparty_identity_id && document_id == editing.document_id
                && new_text@ == new_text_ && hash == seed_hash,
            EditKind::PaymentMemo => task matches OrchardPayTask::EditPaymentMemo {
                identity_id,
                identity_key: key,
                counterparty_identity_id,
                document_id,
                new_memo,
                seed_hash: hash,
            } && identity_id == self.identity_id && key == identity_key && counterparty_identity_id
                == self.counterparty_identity_id && document_id == editing.document_id
                && text::optional_view(new_memo) == (if new_text_.len() == 0 {
                None
            } else {
                Some(new_text_)
            }) && hash == seed_hash,
        }
    }

    fn edit_task(
        &self,
        editing: &EditingState,
        new_text: String,
        identity_key: KeyId,
        seed_hash: WalletSeedHash,
    ) -> (task: OrchardPayTask)
        ensures
            self.saves(task, *editing, new_text@, identity_key, seed_hash),
    {
        match editing.kind {
            EditKind::Message => OrchardPayTask::EditMessage {
                identity_id: self.identity_id,
                identity_key,
                counterparty_identity_id: self.counterparty_identity_id,
                document_id: editing.document_id,
                new_text,
                seed_hash,
            },
            EditKind::PaymentMemo => OrchardPayTask::EditPaymentMemo {
                identity_id: self.identity_id,
                identity_key,
                counterparty_identity_id: self.counterparty_identity_id,
                document_id: editing.document_id,
                new_memo: if text::is_empty_text(new_text.as_str()) {
                    None
                } else {
                    Some(new_text)
                },
                seed_hash,
            },
        }
    }

    /// Shows the open edit, and closes it where it ended; gives the edit and its text
    /// where that was saved.
    fn show_edit(&mut self, input: &DialogInput) -> (saved: Option<(EditingState, String)>)
        ensures
            match old(self).editing {
                None => saved is None && *final(self) == *old(self),
                Some(editing) => match editing.dialog.outcome(*input) {
                    None => saved is None && *final(self) == (MessageThreadScreen {
                        editing: Some(
                            EditingState {
                                dialog: TextEditDialog {
                                    is_open: editing.dialog.is_open && !input.closed_via_x,
                                    ..editing.dialog
                                },
                                ..editing
                            },
                        ),
                        ..*old(self)
                    }),
                    Some(None) => saved is None && *final(self) == (MessageThreadScreen {
                        editing: None,
                        ..*old(self)
                    }),
                    Some(Some(new_text)) => saved matches Some((e, t)) && e.kind == editing.kind
                        && e.document_id == editing.document_id && t@ == new_text && *final(self)
                        == (MessageThreadScreen { editing: None, ..*old(self) }),
                },
            },
    {
        let mut taken: Option<EditingState> = None;
        std::mem::swap(&mut taken, &mut self.editing);
        match taken {
            None => None,
            Some(editing) => {
                let mut dialog: TextEditDialog = editing.dialog;
                let response: Option<TextEditStatus> = dialog.show(input).dialog_response;
                match response {
                    None => {
                        self.editing = Some(
                            EditingState {
                                kind: editing.kind,
                                document_id: editing.document_id,
                                dialog,
                            },
                        );
                        None
                    },
                    Some(TextEditStatus::Canceled) => None,
                    Some(TextEditStatus::Saved(new_text)) => Some(
                        (
                            EditingState {
                                kind: editing.kind,
                                document_id: editing.document_id,
                                dialog,
                            },
                            new_text,
                        ),
                    ),
                }
            },
        }
    }

    /// `after` and `action` are what this input to the open edit leads to.
    pub open spec fn edited(self, input: DialogInput, action: AppAction, after: MessageThreadScreen) -> bool {
        match self.editing {
            None => action == AppAction::NoAction && after == self,
            Some(editing) => match editing.dialog.outcome(input) {
                None => action == AppAction::NoAction && after == (MessageThreadScreen {
                    editing: Some(
                        EditingState {
                            dialog: TextEditDialog {
                                is_open: editing.dialog.is_open && !input.closed_via_x,
                                ..editing.dialog
                            },
                            ..editing
                        },
                    ),
                    ..self
                }),
                Some(None) => action == AppAction::NoAction && after
                    == (MessageThreadScreen { editing: None, ..self }),
                Some(Some(new_text)) => match (
                    self.selected_key,
                    self.selected_wallet,
                ) {
                    (Some(identity_key), Some(seed_hash)) => action.task() matches Some(task)
                        && self.saves(task, editing, new_text, identity_key, seed_hash)
                        && after == (MessageThreadScreen {
                        editing: None,
                        sending: true,
                        ..self.working_on(editing.document_id, BusyLabel::Saving)
                    }),
                    _ => action == AppAction::NoAction && after == (MessageThreadScreen {
                        editing: None,
                        ..self
                    }),
                },
            },
        }
    }

    /// Takes in what the user did in the open edit. Saving runs the edit at once;
    /// the dialog's own button is the confirmation.
    pub fn render_editing_modal(&mut self, input: &DialogInput) -> (action: AppAction)
        ensures
            old(self).edited(*input, action, *final(self)),
    {
        let (editing, new_text) = match self.show_edit(input) {
            None => return AppAction::NoAction,
            Some(saved) => saved,
        };
        match (self.selected_key, self.selected_wallet) {
            (Some(identity_key), Some(seed_hash)) => {
                let task: OrchardPayTask = self.edit_task(
                    &editing,
                    new_text,
                    identity_key,
                    seed_hash,
                );
                self.sending = true;
                self.pending_document_mutation_id = Some(editing.document_id);
                self.pending_bubble_action_label = Some(BusyLabel::Saving);
                AppAction::run(task)
            },
            _ => AppAction::NoAction,
        }
    }

    /// The memo that would be sent: what the field holds without the whitespace
    /// around it, if anything is left.
    pub open spec fn composed_memo(self) -> Option<Seq<char>> {
        let memo = text::trimmed(self.compose_memo@);
        if memo.len() == 0 {
            None
        } else {
            Some(memo)
        }
    }

    /// Why the composer's content cannot be sent, if it cannot.
    pub open spec fn compose_error(self, limits: SendLimits) -> Option<ComposeError> {
        let memo_too_long = self.composed_memo() matches Some(memo) && !(limits.min_memo_chars
            <= memo.len() <= limits.max_memo_chars);
        match self.compose_kind {
            ComposeKind::Message => if limits.min_message_chars <= text::trimmed(
                self.compose_text@,
            ).len() <= limits.max_message_chars {
                None
            } else {
                Some(ComposeError::MessageTooLong)
            },
            ComposeKind::PaymentRequest => if memo_too_long {
                Some(ComposeError::MemoTooLong)
            } else if self.compose_amount is None {
                Some(ComposeError::NoAmountToRequest)
            } else {
                None
            },
            ComposeKind::Payment => if !self.compose_send_silently && memo_too_long {
                Some(ComposeError::MemoTooLong)
            } else if self.compose_amount is None {
                Some(ComposeError::NoAmountToSend)
            } else {
                None
            },
        }
    }

    /// `task` sends what the composer holds.
    pub open spec fn sends(
        self,
        task: OrchardPayTask,
        identity_key: KeyId,
        seed_hash: WalletSeedHash,
    ) -> bool {
        match self.compose_kind {
            ComposeKind::Message => task matches OrchardPayTask::SendMessage {
                identity_id,
                identity_key: key,
                counterparty_identity_id,
                text: t,
                seed_hash: hash,
            } && identity_id == self.identity_id && key == identity_key && counterparty_identity_id
                == self.counterparty_identity_id && t@ == text::trimmed(self.compose_text@) && hash
                == seed_hash,
            ComposeKind::PaymentRequest => task matches OrchardPayTask::SendPaymentRequest {
                identity_id,
                identity_key: key,
                counterparty_identity_id,
                amount,
                memo,
                seed_hash: hash,
            } && identity_id == self.identity_id && key == identity_key && counterparty_identity_id
                == self.counterparty_identity_id && Some(amount) == self.compose_amount
                && text::optional_view(memo) == self.composed_memo() && hash == seed_hash,
            ComposeKind::Payment => if self.compose_send_silently {
                task matches OrchardPayTask::SendSilentPayment {
                    identity_id,
                    counterparty_identity_id,
                    seed_hash: hash,
                    amount,
                } && identity_id == self.identity_id && counterparty_identity_id
                    == self.counterparty_identity_id && Some(amount) == self.compose_amount && hash
                    == seed_hash
            } else {
                task matches OrchardPayTask::SendPayment {
                    identity_id,
                    identity_key: key,
                    counterparty_identity_id,
                    seed_hash: hash,
                    amount,
                    memo,
                    fulfilling_request_document_id: None,
                    save_receipt: false,
                    original_request_memo: None,
                    original_request_created_at: None,
                } && identity_id == self.identity_id && key == identity_key
                    && counterparty_identity_id == self.counterparty_identity_id && Some(amount)
                    == self.compose_amount && text::optional_view(memo) == self.composed_memo()
                    && hash == seed_hash
            },
        }
    }

    /// The title of the question before the composer's content is sent.
    pub open spec fn send_title(self) -> Seq<char> {
        match self.compose_kind {
            ComposeKind::Message => "Send Message?"@,
            ComposeKind::PaymentRequest => "Send Payment Request?"@,
            ComposeKind::Payment => "Send Payment?"@,
        }
    }

    /// The question before the composer's content is sent.
    pub open spec fn send_question(
        self,
        amount_text: Seq<char>,
        identifier_text: Seq<char>,
    ) -> Seq<char> {
        let name = self.display_name(identifier_text);
        match self.compose_kind {
            ComposeKind::Message => "Send this message to "@ + name + "?\n\n\""@ + text::trimmed(
                self.compose_text@,
            ) + "\""@,
            ComposeKind::PaymentRequest => "Request "@ + amount_text + " from "@ + name + "?"@,
            ComposeKind::Payment => if self.compose_send_silently {
                "Send "@ + amount_text + " to "@ + name
                    + " without a message? This won't create a document, only a private transfer."@
            } else {
                "Send "@ + amount_text + " to "@ + name + "?"@
            },
        }
    }

    /// `memo` is what would be sent, and whether it is within its limits.
    fn checked_memo(&self, limits: &SendLimits) -> (r: (Option<String>, bool))
        ensures
            text::optional_view(r.0) == self.composed_memo(),
            r.1 == !(self.composed_memo() matches Some(memo) && !(limits.min_memo_chars
                <= memo.len() <= limits.max_memo_chars)),
    {
        let memo: String = text::trim(self.compose_memo.as_str());
        if text::is_empty_text(memo.as_str()) {
            return (None, true);
        }
        let fits: bool = validate_char_count(
            memo.as_str(),
            limits.min_memo_chars,
            limits.max_memo_chars,
        ).is_ok();
        (Some(memo), fits)
    }

    /// What the composer holds as a task with its question, or why it cannot be sent.
    fn compose(
        &self,
        identity_key: KeyId,
        seed_hash: WalletSeedHash,
        amount_text: &str,
        identifier_text: &str,
        limits: &SendLimits,
    ) -> (r: Result<(OrchardPayTask, String), ComposeError>)
        ensures
            match r {
                Err(error) => self.compose_error(*limits) == Some(error),
                Ok((task, question)) => self.compose_error(*limits) is None && self.sends(
                    task,
                    identity_key,
                    seed_hash,
                ) && question@ == self.send_question(amount_text@, identifier_text@),
            },
    {
        let name: String = self.counterparty_display_name(identifier_text);
        match self.compose_kind {
            ComposeKind::Message => {
                let body: String = text::trim(self.compose_text.as_str());
                if validate_char_count(
                    body.as_str(),
                    limits.min_message_chars,
                    limits.max_message_chars,
                ).is_err() {
                    return Err(ComposeError::MessageTooLong);
                }
                let mut question: String = text::joined3(
                    "Send this message to ",
                    name.as_str(),
                    "?\n\n\"",
                );
                question.append(body.as_str());
                question.append("\"");
                Ok(
                    (
                        OrchardPayTask::SendMessage {
                            identity_id: self.identity_id,
                            identity_key,
                            counterparty_identity_id: self.counterparty_identity_id,
                            text: body,
                            seed_hash,
                        },
                        question,
                    ),
                )
            },
            ComposeKind::PaymentRequest => {
                let (memo, fits) = self.checked_memo(limits);
                if !fits {
                    return Err(ComposeError::MemoTooLong);
                }
                match self.compose_amount {
                    None => Err(ComposeError::NoAmountToRequest),
                    Some(amount) => {
                        let mut question: String = text::joined3("Request ", amount_text, " from ");
                        question.append(name.as_str());
                        question.append("?");
                        Ok(
                            (
                                OrchardPayTask::SendPaymentRequest {
                                    identity_id: self.identity_id,
                                    identity_key,
                                    counterparty_identity_id: self.counterparty_identity_id,
                                    amount,
                                    memo,
                                    seed_hash,
                                },
                                question,
                            ),
                        )
                    },
                }
            },
            ComposeKind::Payment => {
                let mut question: String = text::joined3("Send ", amount_text, " to ");
                question.append(name.as_str());
                if self.compose_send_silently {
                    question.append(
                        " without a message? This won't create a document, only a private transfer.",
                    );
                    return match self.compose_amount {
                        None => Err(ComposeError::NoAmountToSend),
                        Some(amount) => Ok(
                            (
                                OrchardPayTask::SendSilentPayment {
                                    identity_id: self.identity_id,
                                    counterparty_identity_id: self.counterparty_identity_id,
                                    seed_hash,
                                    amount,
                                },
                                question,
                            ),
                        ),
                    };
                }
                let (memo, fits) = self.checked_memo(limits);
                if !fits {
                    return Err(ComposeError::MemoTooLong);
                }
                question.append("?");
                match self.compose_amount {
                    None => Err(ComposeError::NoAmountToSend),
                    Some(amount) => Ok(
                        (
                            OrchardPayTask::SendPayment {
                                identity_id: self.identity_id,
                                identity_key,
                                counterparty_identity_id: self.counterparty_identity_id,
                                seed_hash,
                                amount,
                                memo,
                                fulfilling_request_document_id: None,
                                save_receipt: false,
                                original_request_memo: None,
                                original_request_created_at: None,
                            },
                            question,
                        ),
                    ),
                }
            },
        }
    }

    /// `after` and `error` are what a click on the send button leads to.
    pub open spec fn send_asked(
        self,
        amount_text: Seq<char>,
        identifier_text: Seq<char>,
        limits: SendLimits,
        error: Option<ComposeError>,
        after: MessageThreadScreen,
    ) -> bool {
        match (self.selected_key, self.selected_wallet) {
            (Some(identity_key), Some(seed_hash)) => match self.compose_error(limits) {
                Some(e) => error == Some(e) && after == self,
                None => error is None && after.pending_confirmation is Some && after.asks(
                    (MessageThreadScreen { composer_send_pending: true, ..self }),
                    self.send_title(),
                    self.send_question(amount_text, identifier_text),
                    self.compose_kind == ComposeKind::Payment,
                    None,
                    after.pending_confirmation->0.task,
                ) && self.sends(
                    after.pending_confirmation->0.task,
                    identity_key,
                    seed_hash,
                ),
            },
            _ => error is None && after == self,
        }
    }

    /// Asks whether what the composer holds is to be sent, or tells why it cannot
    /// be. Nothing runs yet. Without a key or a wallet nothing happens.
    /// `amount_text` spells the composer's amount.
    pub fn send_clicked(
        &mut self,
        amount_text: &str,
        identifier_text: &str,
        limits: &SendLimits,
    ) -> (error: Option<ComposeError>)
        ensures
            old(self).send_asked(amount_text@, identifier_text@, *limits, error, *final(self)),
    {
        match (self.selected_key, self.selected_wallet) {
            (Some(identity_key), Some(seed_hash)) => {
                match self.compose(identity_key, seed_hash, amount_text, identifier_text, limits) {
                    Err(error) => Some(error),
                    Ok((task, question)) => {
                        let title: &str = match self.compose_kind {
                            ComposeKind::Message => "Send Message?",
                            ComposeKind::PaymentRequest => "Send Payment Request?",
                            ComposeKind::Payment => "Send Payment?",
                        };
                        let danger: bool = self.compose_kind == ComposeKind::Payment;
                        self.composer_send_pending = true;
                        self.open_confirmation(title, question, task, danger, None);
                        None
                    },
                }
            },
            _ => None,
        }
    }

    /// Has the conversation asked for again, under the name by which the
    /// counterparty is known now.
    pub fn refresh(&mut self, counterparty_name: Option<String>)
        ensures
            *final(self) == (MessageThreadScreen {
                load_dispatched: false,
                counterparty_name,
                ..*old(self)
            }),
    {
        self.load_dispatched = false;
        self.counterparty_name = counterparty_name;
    }

    /// This after the user was told something.
    pub open spec fn told(self, message_type: MessageType) -> MessageThreadScreen {
        if message_type == MessageType::Error || message_type == MessageType::Warning {
            MessageThreadScreen {
                sending: false,
                pending_document_mutation_id: None,
                pending_bubble_action_label: None,
                composer_send_pending: false,
                loading: false,
                loading_more: false,
                ..self
            }
        } else {
            self
        }
    }

    /// Takes in that the user was told something: after an error or a warning
    /// nothing is under way any more.
    pub fn display_message(&mut self, message_type: MessageType)
        ensures
            *final(self) == old(self).told(message_type),
    {
        if message_type == MessageType::Error || message_type == MessageType::Warning {
            self.sending = false;
            self.pending_document_mutation_id = None;
            self.pending_bubble_action_label = None;
            self.composer_send_pending = false;
            self.loading = false;
            self.loading_more = false;
        }
    }

    /// This with nothing being sent, and with the conversation and the balance to be
    /// fetched anew.
    pub open spec fn settled(self) -> MessageThreadScreen {
        MessageThreadScreen {
            sending: false,
            pending_document_mutation_id: None,
            pending_bubble_action_label: None,
            pending_reload: true,
            pending_identity_refresh: true,
            ..self
        }
    }

    fn settle(&mut self)
        ensures
            *final(self) == old(self).settled(),
    {
        self.sending = false;
        self.pending_document_mutation_id = None;
        self.pending_bubble_action_label = None;
        self.pending_reload = true;
        self.pending_identity_refresh = true;
    }

    /// `after` is this with the result taken in.
    pub open spec fn takes_in(self, result: BackendTaskSuccessResult, after: MessageThreadScreen) -> bool {
        match result {
            BackendTaskSuccessResult::OrchardPayThreadLoaded {
                counterparty_identity_id,
                all_decoded,
                messages,
                silent_payments,
                receipt_alerts,
                history_cursor,
                may_be_incomplete,
            } => after == if counterparty_identity_id == self.counterparty_identity_id {
                MessageThreadScreen {
                    messages,
                    silent_payments,
                    receipt_alerts,
                    all_decoded_thread: all_decoded,
                    history_cursor,
                    may_be_incomplete,
                    loading: false,
                    loading_more: false,
                    ..self
                }
            } else {
                self
            },
            BackendTaskSuccessResult::OrchardPayPaymentSent { .. } => after.composer_cleared(self.settled()),
            BackendTaskSuccessResult::OrchardPaySilentPaymentSent { .. } => after.composer_cleared(self.settled()),
            BackendTaskSuccessResult::BroadcastedDocument(_) => if self.composer_send_pending {
                after.composer_cleared(
                    (MessageThreadScreen {
                        composer_send_pending: false,
                        ..self.settled()
                    }),
                )
            } else {
                after == self
            },
            BackendTaskSuccessResult::ReplacedDocument(id) => after == if self.pending_document_mutation_id == Some(id) {
                self.settled()
            } else {
                self
            },
            BackendTaskSuccessResult::DeletedDocument(id) => after == if self.pending_document_mutation_id == Some(id) {
                self.settled()
            } else {
                self
            },
            _ => after == self,
        }
    }

    /// Takes in what a task resulted in, where that concerns this conversation: the
    /// conversation itself; a payment; a publication, if the composer waits for
    /// one; a change of the very document that is being worked on.
    pub fn display_task_result(&mut self, result: BackendTaskSuccessResult)
        ensures
            old(self).takes_in(result, *final(self)),
    {
        match result {
            BackendTaskSuccessResult::OrchardPayThreadLoaded {
                counterparty_identity_id,
                all_decoded,
                messages,
                silent_payments,
                receipt_alerts,
                history_cursor,
                may_be_incomplete,
            } => {
                if same_id(&counterparty_identity_id, &self.counterparty_identity_id) {
                    self.messages = messages;
                    self.silent_payments = silent_payments;
                    self.receipt_alerts = receipt_alerts;
                    self.all_decoded_thread = all_decoded;
                    self.history_cursor = history_cursor;
                    self.may_be_incomplete = may_be_incomplete;
                    self.loading = false;
                    self.loading_more = false;
                }
            },
            BackendTaskSuccessResult::OrchardPayPaymentSent { .. } => {
                self.settle();
                self.clear_composer();
            },
            BackendTaskSuccessResult::OrchardPaySilentPaymentSent { .. } => {
                self.settle();
                self.clear_composer();
            },
            BackendTaskSuccessResult::BroadcastedDocument(_) => {
                if self.composer_send_pending {
                    self.composer_send_pending = false;
                    self.settle();
                    self.clear_composer();
                }
            },
            BackendTaskSuccessResult::ReplacedDocument(id) => {
                if self.works_on(&id) {
                    self.settle();
                }
            },
            BackendTaskSuccessResult::DeletedDocument(id) => {
                if self.works_on(&id) {
                    self.settle();
                }
            },
            _ => {},
        }
    }

    fn works_on(&self, document_id: &Identifier) -> (r: bool)
        ensures
            r == (self.pending_document_mutation_id == Some(*document_id)),
    {
        match &self.pending_document_mutation_id {
            Some(id) => same_id(id, document_id),
            None => false,
        }
    }
}

/// The tabs that stay in reach while a conversation is open, with their labels.
pub fn conversation_nav() -> (items: Vec<(&'static str, OrchardPaySubscreen)>)
    ensures
        items@.len() == 7,
        items@[0].0@ == "Most Recent"@ && items@[0].1 == OrchardPaySubscreen::MostRecent,
        items@[1].0@ == "Contacts"@ && items@[1].1 == OrchardPaySubscreen::Contacts,
        items@[2].0@ == "Send Friend Request"@ && items@[2].1 == OrchardPaySubscreen::AddContact,
        items@[3].0@ == "Shielded TXs"@ && items@[3].1 == OrchardPaySubscreen::Payments,
        items@[4].0@ == "Profile"@ && items@[4].1 == OrchardPaySubscreen::Profile,
        items@[5].0@ == "About"@ && items@[5].1 == OrchardPaySubscreen::About,
        items@[6].0@ == "QC Warning"@ && items@[6].1 == OrchardPaySubscreen::QcWarning,
{
    let mut items: Vec<(&'static str, OrchardPaySubscreen)> = Vec::new();
    items.push(("Most Recent", OrchardPaySubscreen::MostRecent));
    items.push(("Contacts", OrchardPaySubscreen::Contacts));
    items.push(("Send Friend Request", OrchardPaySubscreen::AddContact));
    items.push(("Shielded TXs", OrchardPaySubscreen::Payments));
    items.push(("Profile", OrchardPaySubscreen::Profile));
    items.push(("About", OrchardPaySubscreen::About));
    items.push(("QC Warning", OrchardPaySubscreen::QcWarning));
    items
}

/// What runs after a question differs from what was asked about in nothing but the
/// receipt: the same amount goes to the same counterparty.
pub proof fn confirmation_changes_only_the_receipt(task: OrchardPayTask, checked: bool)
    ensures
        task matches OrchardPayTask::SendPayment { identity_id, identity_key, counterparty_identity_id, seed_hash, amount, memo, fulfilling_request_document_id, save_receipt, original_request_memo, original_request_created_at }
            ==> (confirmed_task(task, checked) matches OrchardPayTask::SendPayment { identity_id: i, identity_key: k, counterparty_identity_id: c, seed_hash: s, amount: a, memo: m, fulfilling_request_document_id: f, save_receipt: r, original_request_memo: om, original_request_created_at: oc }
            && i == identity_id && k == identity_key && c == counterparty_identity_id && s
            == seed_hash && a == amount && m == memo && f == fulfilling_request_document_id && om
            == original_request_memo && oc == original_request_created_at && r == (
            if fulfilling_request_document_id is Some {
                checked
            } else {
                save_receipt
            })),
        !(task is SendPayment) ==> confirmed_task(task, checked) == task,
{
}

/// A task runs only where its question was confirmed, and it is the one that was
/// asked about; a question that is answered is gone, and until it is answered
/// nothing happens.
pub proof fn nothing_runs_unconfirmed(
    before: MessageThreadScreen,
    status: Option<ConfirmationStatus>,
    action: AppAction,
    after: MessageThreadScreen,
)
    requires
        before.answered(status, action, after),
    ensures
        !(action is NoAction) ==> {
            &&& status == Some(ConfirmationStatus::Confirmed)
            &&& before.pending_confirmation matches Some(pending) && action.task() == Some(
                confirmed_task(pending.task, pending.dialog.spec_checkbox_checked()),
            )
            &&& after.sending
        },
        status == Some(ConfirmationStatus::Confirmed) && before.pending_confirmation is Some
            ==> action.task() is Some,
        status is Some ==> after.pending_confirmation is None,
        status is None ==> after == before,
        status == Some(ConfirmationStatus::Canceled) && before.pending_confirmation is Some ==> {
            &&& after.pending_document_mutation_id is None
            &&& after.pending_bubble_action_label is None
            &&& after.sending == before.sending
        },
        after.messages == before.messages,
        after.compose_text == before.compose_text,
        after.compose_amount == before.compose_amount,
        after.compose_memo == before.compose_memo,
        after.editing == before.editing,
{
}

/// A conversation that was loaded is shown as it was loaded, if it is this one; that
/// of another counterparty changes nothing.
pub proof fn only_this_conversation_is_shown(
    before: MessageThreadScreen,
    result: BackendTaskSuccessResult,
    after: MessageThreadScreen,
)
    requires
        before.takes_in(result, after),
    ensures
        result matches BackendTaskSuccessResult::OrchardPayThreadLoaded {
            counterparty_identity_id,
            all_decoded,
            messages,
            silent_payments,
            receipt_alerts,
            history_cursor,
            may_be_incomplete,
        } ==> if counterparty_identity_id == before.counterparty_identity_id {
            &&& after.messages == messages
            &&& after.silent_payments == silent_payments
            &&& after.receipt_alerts == receipt_alerts
            &&& after.all_decoded_thread == all_decoded
            &&& after.history_cursor == history_cursor
            &&& after.may_be_incomplete == may_be_incomplete
            &&& !after.loading
            &&& !after.loading_more
            &&& after.sending == before.sending
            &&& after.compose_text == before.compose_text
            &&& after.compose_amount == before.compose_amount
            &&& after.compose_memo == before.compose_memo
            &&& after.pending_document_mutation_id == before.pending_document_mutation_id
            &&& after.composer_send_pending == before.composer_send_pending
        } else {
            after == before
        },
        !(result is OrchardPayThreadLoaded) ==> {
            &&& after.messages == before.messages
            &&& after.silent_payments == before.silent_payments
            &&& after.receipt_alerts == before.receipt_alerts
            &&& after.all_decoded_thread == before.all_decoded_thread
            &&& after.history_cursor == before.history_cursor
            &&& after.may_be_incomplete == before.may_be_incomplete
        },
        after.identity_id == before.identity_id,
        after.counterparty_identity_id == before.counterparty_identity_id,
        after.editing == before.editing,
        after.pending_confirmation == before.pending_confirmation,
{
}

/// The composer is emptied once what it sent has gone out, and not before: by a
/// payment, or by a publication where it waits for one. Then nothing is under way
/// any more, and conversation and balance are fetched anew.
pub proof fn the_composer_is_emptied_when_sent(
    before: MessageThreadScreen,
    result: BackendTaskSuccessResult,
    after: MessageThreadScreen,
)
    requires
        before.takes_in(result, after),
    ensures
        ({
            let sent = result is OrchardPayPaymentSent || result is OrchardPaySilentPaymentSent || (
            result is BroadcastedDocument && before.composer_send_pending);
            &&& sent ==> {
                &&& after.compose_text@.len() == 0
                &&& after.compose_memo@.len() == 0
                &&& after.compose_amount is None
                &&& !after.compose_send_silently
                &&& !after.sending
                &&& after.pending_document_mutation_id is None
                &&& after.pending_bubble_action_label is None
                &&& after.pending_reload
                &&& after.pending_identity_refresh
            }
            &&& !sent ==> {
                &&& after.compose_text == before.compose_text
                &&& after.compose_memo == before.compose_memo
                &&& after.compose_amount == before.compose_amount
                &&& after.compose_send_silently == before.compose_send_silently
            }
        }),
        result is BroadcastedDocument && before.composer_send_pending
            ==> !after.composer_send_pending,
        result is BroadcastedDocument && !before.composer_send_pending ==> after == before,
{
}

/// A change of a document ends what is under way exactly where that very document is
/// being worked on.
pub proof fn only_the_own_change_ends_the_work(
    before: MessageThreadScreen,
    id: Identifier,
    after: MessageThreadScreen,
)
    requires
        before.takes_in(BackendTaskSuccessResult::ReplacedDocument(id), after)
            || before.takes_in(BackendTaskSuccessResult::DeletedDocument(id), after),
    ensures
        before.pending_document_mutation_id == Some(id) ==> {
            &&& !after.sending
            &&& after.pending_document_mutation_id is None
            &&& after.pending_bubble_action_label is None
            &&& after.pending_reload
            &&& after.pending_identity_refresh
        },
        before.pending_document_mutation_id != Some(id) ==> after == before,
{
}

/// After an error or a warning nothing is under way any more, and what was written
/// stays; other messages change nothing.
pub proof fn errors_end_what_is_under_way(before: MessageThreadScreen, message_type: MessageType)
    ensures
        message_type is Error || message_type is Warning ==> {
            let after = before.told(message_type);
            &&& !after.busy()
            &&& !after.sending
            &&& !after.loading
            &&& !after.loading_more
            &&& after.pending_document_mutation_id is None
            &&& after.pending_bubble_action_label is None
            &&& !after.composer_send_pending
            &&& after.compose_text == before.compose_text
            &&& after.compose_amount == before.compose_amount
            &&& after.compose_memo == before.compose_memo
            &&& after.messages == before.messages
        },
        message_type is Success || message_type is Info ==> before.told(message_type) == before,
{
}

/// Drawing the screen asks for the conversation where that was not done since the
/// last refresh or something in it has changed, and once for each; without a wallet
/// nothing is asked for.
pub proof fn conversations_are_asked_for_when_due(
    before: MessageThreadScreen,
    action: AppAction,
    after: MessageThreadScreen,
)
    requires
        before.drawn(action, after),
    ensures
        action is NoAction <==> before.selected_wallet is None || (before.load_dispatched
            && !before.pending_reload),
        !(action is NoAction) ==> {
            &&& before.selected_wallet matches Some(hash) && action.task() == Some(
                OrchardPayTask::LoadThread {
                    identity_id: before.identity_id,
                    counterparty_identity_id: before.counterparty_identity_id,
                    seed_hash: hash,
                },
            )
            &&& after.loading
            &&& after.load_dispatched
        },
        action is NoAction ==> after.loading == before.loading && after.load_dispatched
            == before.load_dispatched,
        before.load_dispatched ==> !after.pending_reload,
        after.messages == before.messages,
{
}

/// Asking for the conversation asks for this one, with the wallet there is, and
/// says that it loads.
pub proof fn loading_asks_for_this_conversation(
    before: MessageThreadScreen,
    action: AppAction,
    after: MessageThreadScreen,
)
    requires
        before.loads(action, after),
    ensures
        before.selected_wallet matches Some(hash) ==> action.task() == Some(
            OrchardPayTask::LoadThread {
                identity_id: before.identity_id,
                counterparty_identity_id: before.counterparty_identity_id,
                seed_hash: hash,
            },
        ) && after.loading && after.load_dispatched,
        before.selected_wallet is None ==> action is NoAction && after == before,
        after.messages == before.messages,
{
}

/// A click on a bubble sends nothing: it asks, with the document marked as worked
/// on, or opens an edit of that document with what it holds now.
pub proof fn clicks_ask_before_they_act(
    before: MessageThreadScreen,
    action: BubbleAction,
    amount_text: Seq<char>,
    identifier_text: Seq<char>,
    limits: SendLimits,
    after: MessageThreadScreen,
)
    requires
        before.clicked(action, amount_text, identifier_text, limits, after),
        before.selected_key is Some,
        before.selected_wallet is Some,
    ensures
        after.sending == before.sending,
        after.messages == before.messages,
        match action {
            BubbleAction::Pay { document_id, amount, memo, created_at } => {
                &&& after.pending_document_mutation_id == Some(document_id)
                &&& after.pending_bubble_action_label == Some(BusyLabel::Paying)
                &&& after.editing == before.editing
                &&& after.pending_confirmation matches Some(pending)
                &&& pending.dialog.title@ == "Pay Request?"@
                &&& pending.dialog.danger_mode
                &&& pending.dialog.checkbox matches Some(b) && b.label@ == "Save Receipt"@
                    && !b.checked
                &&& pending.task matches OrchardPayTask::SendPayment {
                    identity_id,
                    identity_key,
                    counterparty_identity_id,
                    seed_hash,
                    amount: a,
                    memo: m,
                    fulfilling_request_document_id,
                    save_receipt,
                    original_request_memo,
                    original_request_created_at,
                }
                &&& identity_id == before.identity_id
                &&& before.selected_key == Some(identity_key)
                &&& counterparty_identity_id == before.counterparty_identity_id
                &&& before.selected_wallet == Some(seed_hash)
                &&& a == amount
                &&& m is None
                &&& fulfilling_request_document_id == Some(document_id)
                &&& !save_receipt
                &&& original_request_memo == memo
                &&& original_request_created_at == created_at
            },
            BubbleAction::CancelPaymentRequest { document_id } => {
                &&& after.pending_document_mutation_id == Some(document_id)
                &&& after.pending_bubble_action_label == Some(BusyLabel::Cancelling)
                &&& after.editing == before.editing
                &&& after.pending_confirmation matches Some(pending)
                &&& pending.dialog.title@ == "Cancel Request?"@
                &&& pending.dialog.danger_mode
                &&& pending.dialog.checkbox is None
                &&& pending.task matches OrchardPayTask::CancelPaymentRequest {
                    identity_id,
                    identity_key,
                    counterparty_identity_id,
                    document_id: d,
                    seed_hash,
                }
                &&& identity_id == before.identity_id
                &&& before.selected_key == Some(identity_key)
                &&& counterparty_identity_id == before.counterparty_identity_id
                &&& d == document_id
                &&& before.selected_wallet == Some(seed_hash)
            },
            BubbleAction::DeleteMessage { document_id } => {
                &&& after.pending_document_mutation_id == Some(document_id)
                &&& after.pending_bubble_action_label == Some(BusyLabel::Deleting)
                &&& after.editing == before.editing
                &&& after.pending_confirmation matches Some(pending)
                &&& pending.dialog.title@ == "Delete Message?"@
                &&& pending.dialog.danger_mode
                &&& pending.dialog.checkbox is None
                &&& pending.task matches OrchardPayTask::DeleteMessage {
                    identity_id,
                    identity_key,
                    counterparty_identity_id,
                    document_id: d,
                    seed_hash,
                }
                &&& identity_id == before.identity_id
                &&& before.selected_key == Some(identity_key)
                &&& counterparty_identity_id == before.counterparty_identity_id
                &&& d == document_id
                &&& before.selected_wallet == Some(seed_hash)
            },
            BubbleAction::EditMessage { document_id, current_text } => {
                &&& after.pending_confirmation == before.pending_confirmation
                &&& after.pending_document_mutation_id == before.pending_document_mutation_id
                &&& after.editing matches Some(editing)
                &&& editing.kind == EditKind::Message
                &&& editing.document_id == document_id
                &&& editing.dialog.is_open
                &&& editing.dialog.text@ == current_text@
                &&& editing.dialog.rule.min == limits.min_message_chars
                &&& editing.dialog.rule.max == limits.max_message_chars
                &&& editing.dialog.max_chars == limits.max_message_chars
            },
            BubbleAction::EditPaymentMemo { document_id, current_memo } => {
                &&& after.pending_confirmation == before.pending_confirmation
                &&& after.pending_document_mutation_id == before.pending_document_mutation_id
                &&& after.editing matches Some(editing)
                &&& editing.kind == EditKind::PaymentMemo
                &&& editing.document_id == document_id
                &&& editing.dialog.is_open
                &&& current_memo matches Some(memo) ==> editing.dialog.text@ == memo@
                &&& current_memo is None ==> editing.dialog.text@.len() == 0
                &&& editing.dialog.rule.min == limits.min_memo_chars
                &&& editing.dialog.rule.max == limits.max_memo_chars
                &&& editing.dialog.max_chars == limits.max_memo_chars
            },
        },
{
}

/// Without a key or a wallet no question is asked about a document.
pub proof fn clicks_need_a_key_and_a_wallet(
    before: MessageThreadScreen,
    action: BubbleAction,
    amount_text: Seq<char>,
    identifier_text: Seq<char>,
    limits: SendLimits,
    after: MessageThreadScreen,
)
    requires
        before.clicked(action, amount_text, identifier_text, limits, after),
        before.selected_key is None || before.selected_wallet is None,
    ensures
        !(action is EditMessage) && !(action is EditPaymentMemo) ==> after == before,
        after.pending_confirmation == before.pending_confirmation,
{
}

/// The question before a request is paid names the amount and the counterparty.
pub proof fn paying_is_asked_about_by_amount_and_name(
    before: MessageThreadScreen,
    action: BubbleAction,
    amount_text: Seq<char>,
    identifier_text: Seq<char>,
    limits: SendLimits,
    after: MessageThreadScreen,
)
    requires
        before.clicked(action, amount_text, identifier_text, limits, after),
        before.selected_key is Some,
        before.selected_wallet is Some,
        action is Pay,
    ensures
        before.counterparty_name matches Some(name)
            ==> after.pending_confirmation->0.dialog.message@ == "Pay "@ + amount_text + " to "@
            + name@ + " for this payment request?"@,
        before.counterparty_name is None ==> after.pending_confirmation->0.dialog.message@
            == "Pay "@ + amount_text + " to "@ + identifier_text + " for this payment request?"@,
{
}

/// An edit that was saved runs at once, for the document that was edited, with the
/// text it was saved with; a memo that was emptied is taken away. An edit that was
/// not saved runs nothing.
pub proof fn saved_edits_run_at_once(
    before: MessageThreadScreen,
    input: DialogInput,
    action: AppAction,
    after: MessageThreadScreen,
)
    requires
        before.edited(input, action, after),
    ensures
        !(action is NoAction) ==> {
            &&& before.editing matches Some(editing)
            &&& editing.dialog.outcome(input) matches Some(Some(saved))
            &&& after.editing is None
            &&& after.sending
            &&& after.pending_document_mutation_id == Some(editing.document_id)
            &&& after.pending_bubble_action_label == Some(BusyLabel::Saving)
            &&& editing.kind == EditKind::Message ==> (action.task() matches Some(
                OrchardPayTask::EditMessage {
                    identity_id,
                    identity_key,
                    counterparty_identity_id,
                    document_id,
                    new_text,
                    seed_hash,
                },
            ) && identity_id == before.identity_id && before.selected_key == Some(identity_key)
                && counterparty_identity_id == before.counterparty_identity_id && document_id
                == editing.document_id && new_text@ == saved && before.selected_wallet == Some(
                seed_hash,
            ))
            &&& editing.kind == EditKind::PaymentMemo ==> (action.task() matches Some(
                OrchardPayTask::EditPaymentMemo {
                    identity_id,
                    identity_key,
                    counterparty_identity_id,
                    document_id,
                    new_memo,
                    seed_hash,
                },
            ) && identity_id == before.identity_id && before.selected_key == Some(identity_key)
                && counterparty_identity_id == before.counterparty_identity_id && document_id
                == editing.document_id && before.selected_wallet == Some(seed_hash) && (saved.len()
                == 0 <==> new_memo is None) && (new_memo matches Some(memo) ==> memo@ == saved))
        },
        before.editing matches Some(editing) && editing.dialog.outcome(input) matches Some(Some(_))
            && before.selected_key is Some && before.selected_wallet is Some ==> !(
        action is NoAction),
        before.editing matches Some(editing) && editing.dialog.outcome(input) is Some
            ==> after.editing is None,
        before.editing is None ==> after == before,
        after.messages == before.messages,
        after.pending_confirmation == before.pending_confirmation,
{
}

/// What would be sent of the memo is the field without the whitespace around it, and
/// nothing where nothing is left.
pub proof fn blank_memos_are_not_sent(screen: MessageThreadScreen)
    ensures
        screen.composed_memo() is None <==> text::trimmed(screen.compose_memo@).len() == 0,
        screen.composed_memo() matches Some(memo) ==> memo == text::trimmed(screen.compose_memo@),
{
}

/// Nothing is sent that exceeds its limits or lacks its amount: a message by its
/// length, money by its memo and then by its amount. A payment without a message has
/// no memo to exceed.
pub proof fn only_what_fits_is_sent(screen: MessageThreadScreen, limits: SendLimits)
    ensures
        screen.compose_kind is Message ==> {
            let length = text::trimmed(screen.compose_text@).len();
            &&& screen.compose_error(limits) is None <==> limits.min_message_chars <= length
                <= limits.max_message_chars
            &&& screen.compose_error(limits) matches Some(e) ==> e == ComposeError::MessageTooLong
        },
        !(screen.compose_kind is Message) ==> {
            let memo = text::trimmed(screen.compose_memo@);
            let silent = screen.compose_kind is Payment && screen.compose_send_silently;
            let fits = silent || memo.len() == 0 || limits.min_memo_chars <= memo.len()
                <= limits.max_memo_chars;
            &&& screen.compose_error(limits) is None <==> fits && screen.compose_amount is Some
            &&& !fits ==> screen.compose_error(limits) == Some(ComposeError::MemoTooLong)
            &&& fits && screen.compose_amount is None && screen.compose_kind is PaymentRequest
                ==> screen.compose_error(limits) == Some(ComposeError::NoAmountToRequest)
            &&& fits && screen.compose_amount is None && screen.compose_kind is Payment
                ==> screen.compose_error(limits) == Some(ComposeError::NoAmountToSend)
        },
{
}

/// A click on the send button sends nothing: it tells what is wrong and changes
/// nothing, or asks about a task that carries what the composer holds, from this
/// identity to this counterparty.
pub proof fn sending_asks_about_what_is_composed(
    before: MessageThreadScreen,
    amount_text: Seq<char>,
    identifier_text: Seq<char>,
    limits: SendLimits,
    error: Option<ComposeError>,
    after: MessageThreadScreen,
)
    requires
        before.send_asked(amount_text, identifier_text, limits, error, after),
        before.selected_key is Some,
        before.selected_wallet is Some,
    ensures
        error == before.compose_error(limits),
        error is Some ==> after == before,
        error is None ==> {
            &&& after.composer_send_pending
            &&& after.sending == before.sending
            &&& after.compose_text == before.compose_text
            &&& after.pending_confirmation matches Some(pending)
            &&& pending.dialog.checkbox is None
            &&& pending.dialog.danger_mode <==> before.compose_kind is Payment
            &&& match before.compose_kind {
                ComposeKind::Message => pending.dialog.title@ == "Send Message?"@ && (
                pending.task matches OrchardPayTask::SendMessage {
                    identity_id,
                    identity_key,
                    counterparty_identity_id,
                    text: t,
                    seed_hash,
                } && identity_id == before.identity_id && before.selected_key == Some(identity_key)
                    && counterparty_identity_id == before.counterparty_identity_id && t@
                    == text::trimmed(before.compose_text@) && before.selected_wallet == Some(
                    seed_hash,
                )),
                ComposeKind::PaymentRequest => pending.dialog.title@ == "Send Payment Request?"@ && (
                pending.task matches OrchardPayTask::SendPaymentRequest {
                    identity_id,
                    identity_key,
                    counterparty_identity_id,
                    amount,
                    memo,
                    seed_hash,
                } && identity_id == before.identity_id && before.selected_key == Some(identity_key)
                    && counterparty_identity_id == before.counterparty_identity_id
                    && before.compose_amount == Some(amount) && text::optional_view(memo)
                    == before.composed_memo() && before.selected_wallet == Some(seed_hash)),
                ComposeKind::Payment => pending.dialog.title@ == "Send Payment?"@
                    && if before.compose_send_silently {
                    pending.task matches OrchardPayTask::SendSilentPayment {
                        identity_id,
                        counterparty_identity_id,
                        seed_hash,
                        amount,
                    } && identity_id == before.identity_id && counterparty_identity_id
                        == before.counterparty_identity_id && before.compose_amount == Some(amount)
                        && before.selected_wallet == Some(seed_hash)
                } else {
                    pending.task matches OrchardPayTask::SendPayment {
                        identity_id,
                        identity_key,
                        counterparty_identity_id,
                        seed_hash,
                        amount,
                        memo,
                        fulfilling_request_document_id,
                        save_receipt,
                        original_request_memo,
                        original_request_created_at,
                    } && identity_id == before.identity_id && before.selected_key == Some(
                        identity_key,
                    ) && counterparty_identity_id == before.counterparty_identity_id
                        && before.compose_amount == Some(amount) && text::optional_view(memo)
                        == before.composed_memo() && before.selected_wallet == Some(seed_hash)
                        && fulfilling_request_document_id is None && !save_receipt
                        && original_request_memo is None && original_request_created_at is None
                },
            }
        },
{
}

/// The question before something is sent names the counterparty, and the text or the
/// amount that goes to them.
pub proof fn sending_is_asked_about_by_name(
    screen: MessageThreadScreen,
    amount: Seq<char>,
    identifier: Seq<char>,
)
    ensures
        ({
            let name = match screen.counterparty_name {
                Some(n) => n@,
                None => identifier,
            };
            let question = screen.send_question(amount, identifier);
            match screen.compose_kind {
                ComposeKind::Message => question == "Send this message to "@ + name + "?\n\n\""@
                    + text::trimmed(screen.compose_text@) + "\""@,
                ComposeKind::PaymentRequest => question == "Request "@ + amount + " from "@ + name
                    + "?"@,
                ComposeKind::Payment => question == "Send "@ + amount + " to "@ + name + (
                if screen.compose_send_silently {
                    " without a message? This won't create a document, only a private transfer."@
                } else {
                    "?"@
                }),
            }
        }),
{
}

/// The composer limits a payment to what is left of the balance after the fee, and
/// nothing else; it offers a memo for all money but a payment without a message, and
/// sends only while nothing is under way.
pub proof fn payments_are_limited_by_the_balance(
    screen: MessageThreadScreen,
    balance: u64,
    fee: u64,
    blocked: bool,
)
    ensures
        ({
            let view = screen.composer_shown(balance, fee, blocked);
            &&& view.max_amount is Some <==> screen.compose_kind is Payment
                && screen.selected_wallet is Some
            &&& view.max_amount matches Some(most) ==> if balance >= fee {
                most + fee == balance
            } else {
                most == 0
            }
            &&& view.memo_shown <==> screen.compose_kind is PaymentRequest || (
            screen.compose_kind is Payment && !screen.compose_send_silently)
            &&& view.silent_shown <==> screen.compose_kind is Payment
            &&& view.send_enabled <==> !screen.sending && !screen.loading && !screen.loading_more
                && !blocked
            &&& view.sending <==> screen.sending && screen.pending_document_mutation_id is None
        }),
{
}

/// A bubble is busy only while its own document is worked on, and every button waits
/// while anything is under way.
pub proof fn buttons_wait_for_what_is_under_way(
    screen: MessageThreadScreen,
    id: Identifier,
    blocked: bool,
    ready: bool,
)
    ensures
        ({
            let context = screen.context_of(id, blocked, ready);
            &&& context.busy_here <==> screen.pending_document_mutation_id == Some(id)
            &&& context.action_disabled <==> screen.sending || screen.loading
                || screen.loading_more
            &&& context.credit_blocked == blocked
            &&& context.shielded_state_ready == ready
        }),
{
}

/// One's own bubbles bear one's own name, and the others that of the counterparty.
pub proof fn bubbles_bear_their_senders_name(screen: MessageThreadScreen)
    ensures
        screen.my_name matches Some(name) ==> screen.sender_name(true) == name@,
        screen.my_name is None ==> screen.sender_name(true) == "You"@,
        screen.counterparty_name matches Some(name) ==> screen.sender_name(false) == name@,
        screen.counterparty_name is None ==> screen.sender_name(false) == "Them"@,
{
}

/// Only an established contact has a name here, which is shown without its ending.
pub proof fn only_established_contacts_are_named(state: Option<OrchardPayContactState>)
    ensures
        name_here(state) is Some ==> (state matches Some(s) && s is Established
            && s.spec_name() is Some),
        state matches Some(s) ==> (s is Established ==> (s.spec_name() matches Some(name)
            ==> name_here(state) == Some(contact_search::shown_name(name@)))),
{
}

/// Each thing that is wrong with what was composed has its own words.
pub proof fn errors_say_what_to_change()
    ensures
        ComposeError::MessageTooLong.words()
            == "The message is too long. Use 1000 characters or fewer and try again."@,
        ComposeError::MemoTooLong.words()
            == "The payment memo is too long. Use 1000 characters or fewer and try again."@,
        ComposeError::NoAmountToRequest.words() == "Enter an amount in DASH to request."@,
        ComposeError::NoAmountToSend.words() == "Enter an amount in DASH to send."@,
{
}

/// Without a key or a wallet a click on the send button does nothing.
pub proof fn sending_needs_a_key_and_a_wallet(
    before: MessageThreadScreen,
    amount_text: Seq<char>,
    identifier_text: Seq<char>,
    limits: SendLimits,
    error: Option<ComposeError>,
    after: MessageThreadScreen,
)
    requires
        before.send_asked(amount_text, identifier_text, limits, error, after),
        before.selected_key is None || before.selected_wallet is None,
    ensures
        error is None,
        after == before,
{
}

/// A question or an edit says what it is about: that a cancelled request can no
/// longer be paid, that a deleted message is gone for both, and what is edited and
/// how long it may be.
pub proof fn questions_say_what_will_happen(
    before: MessageThreadScreen,
    action: BubbleAction,
    amount_text: Seq<char>,
    identifier_text: Seq<char>,
    limits: SendLimits,
    after: MessageThreadScreen,
)
    requires
        before.clicked(action, amount_text, identifier_text, limits, after),
        before.selected_key is Some,
        before.selected_wallet is Some,
    ensures
        action is CancelPaymentRequest ==> after.pending_confirmation->0.dialog.message@
            == "The other party will no longer be able to pay this request."@,
        action is DeleteMessage ==> after.pending_confirmation->0.dialog.message@
            == "This message will be permanently removed from the conversation for both of you."@,
        action is EditMessage ==> {
            &&& after.editing->0.dialog.title@ == "Edit Message"@
            &&& after.editing->0.dialog.too_long_message@
                == "The message is too long. Use 1000 characters or fewer."@
        },
        action is EditPaymentMemo ==> {
            &&& after.editing->0.dialog.title@ == "Edit Memo"@
            &&& after.editing->0.dialog.too_long_message@
                == "The payment memo is too long. Use 1000 characters or fewer."@
        },
{
}

/// Drawing the screen changes nothing but what it says of loading: a reload that was
/// due is no longer due once it was asked for.
pub proof fn drawing_changes_only_the_loading(
    before: MessageThreadScreen,
    action: AppAction,
    after: MessageThreadScreen,
)
    requires
        before.drawn(action, after),
    ensures
        after == (MessageThreadScreen {
            loading: before.loading || !(action is NoAction),
            load_dispatched: before.load_dispatched || !(action is NoAction),
            pending_reload: before.pending_reload && !before.load_dispatched,
            ..before
        }),
{
}

} // verus!
