//! What a conversation shows: its bubbles, their order, and the table of recent
//! payments.

use vstd::prelude::*;

use crate::model::identifier::Identifier;
use crate::model::orchardpay::SilentPaymentRecord;
use crate::model::text;
use crate::orchardpay::encryption::MessageContent;
use crate::orchardpay::messages;
use crate::orchardpay::messages::{
    KnownPayments, MessageDocument, ReceiptAlert, ReceiptAlertReason, ThreadMessage,
};
use crate::ordering;

verus! {

/// Which way money moves, as seen by the owner of the thread. Only a bubble about
/// money has a tint.
#[derive(Debug, Clone, Copy, PartialEq, Eq, Structural)]
pub enum Tint {
    Incoming,
    Outgoing,
}

/// Which way the money of a message moves, where the message may claim to be about
/// money: a request, or a payment that this wallet has confirmed.
pub open spec fn tint_of(message: ThreadMessage) -> Option<Tint> {
    match message.content {
        MessageContent::PaymentRequest { .. } => Some(
            if message.from_me {
                Tint::Incoming
            } else {
                Tint::Outgoing
            },
        ),
        MessageContent::Payment { .. } => if message.verified_amount is Some {
            Some(
                if message.from_me {
                    Tint::Outgoing
                } else {
                    Tint::Incoming
                },
            )
        } else {
            None
        },
        _ => None,
    }
}

/// The tint of a message's bubble.
pub fn money_bubble_tint(message: &ThreadMessage) -> (tint: Option<Tint>)
    ensures
        tint == tint_of(*message),
{
    match &message.content {
        MessageContent::PaymentRequest { .. } => Some(
            if message.from_me {
                Tint::Incoming
            } else {
                Tint::Outgoing
            },
        ),
        MessageContent::Payment { .. } => if message.verified_amount.is_some() {
            Some(
                if message.from_me {
                    Tint::Outgoing
                } else {
                    Tint::Incoming
                },
            )
        } else {
            None
        },
        _ => None,
    }
}

/// Which way the money of a silent payment moves.
pub open spec fn silent_tint(payment: SilentPaymentRecord) -> Tint {
    if payment.from_me {
        Tint::Outgoing
    } else {
        Tint::Incoming
    }
}

/// The tint of a silent payment's bubble.
pub fn silent_payment_tint(payment: &SilentPaymentRecord) -> (tint: Tint)
    ensures
        tint == silent_tint(*payment),
{
    if payment.from_me {
        Tint::Outgoing
    } else {
        Tint::Incoming
    }
}

/// What stands at the top of a bubble about money.
#[derive(Debug, Clone, Copy, PartialEq, Eq, Structural)]
pub enum Headline {
    NoHeadline,
    /// The amount that was confirmed, never the one that was claimed.
    Payment { verified: Option<u64> },
    PaymentRequest { amount: u64 },
}

/// What stands at the top of a message's bubble.
pub open spec fn headline_of(message: ThreadMessage) -> Headline {
    match message.content {
        MessageContent::Payment { .. } => Headline::Payment { verified: message.verified_amount },
        MessageContent::PaymentRequest { amount, .. } => Headline::PaymentRequest { amount },
        _ => Headline::NoHeadline,
    }
}

/// What stands at the top of a message's bubble.
pub fn bubble_headline(message: &ThreadMessage) -> (headline: Headline)
    ensures
        headline == headline_of(*message),
{
    match &message.content {
        MessageContent::Payment { .. } => Headline::Payment { verified: message.verified_amount },
        MessageContent::PaymentRequest { amount, .. } => Headline::PaymentRequest {
            amount: *amount,
        },
        _ => Headline::NoHeadline,
    }
}

impl Headline {
    /// The headline in words, with its amount spelled as `amount_text`.
    pub open spec fn words(self, amount_text: Seq<char>) -> Option<Seq<char>> {
        match self {
            Headline::NoHeadline => None,
            Headline::Payment { verified: None } => Some("Payment: Pending…"@),
            Headline::Payment { verified: Some(_) } => Some("Payment: "@ + amount_text),
            Headline::PaymentRequest { .. } => Some("Payment Request: "@ + amount_text),
        }
    }

    /// The headline in words, with its amount spelled as `amount_text`.
    pub fn text(self, amount_text: &str) -> (words: Option<String>)
        ensures
            text::optional_view(words) == self.words(amount_text@),
    {
        match self {
            Headline::NoHeadline => None,
            Headline::Payment { verified: None } => Some("Payment: Pending…".to_owned()),
            Headline::Payment { verified: Some(_) } => Some(
                text::joined("Payment: ", amount_text),
            ),
            Headline::PaymentRequest { .. } => Some(
                text::joined("Payment Request: ", amount_text),
            ),
        }
    }
}

/// What is known of a payment or a request.
#[derive(Debug, Clone, Copy, PartialEq, Eq, Structural)]
pub enum BubbleStatus {
    NoStatus,
    PaymentVerified { amount: u64 },
    PaymentMismatch { verified: u64, claimed: u64 },
    /// Nothing can be said before the first synchronisation.
    Checking,
    AwaitingSync,
    RequestPaid { amount: u64 },
    RequestPaidMismatch { paid: u64, requested: u64 },
    RequestCancelled,
    /// A request of one's own that is open.
    AwaitingPayment,
    /// A request of the other side's that is open.
    Payable,
}

/// What is known of a message's payment. Nothing is concluded from silence before
/// the wallet's shielded state was synchronised.
pub open spec fn status_of(message: ThreadMessage, shielded_state_ready: bool) -> BubbleStatus {
    match message.content {
        MessageContent::Payment { amount, .. } => match message.verified_amount {
            Some(verified) => if verified == amount {
                BubbleStatus::PaymentVerified { amount }
            } else {
                BubbleStatus::PaymentMismatch { verified, claimed: amount }
            },
            None => if shielded_state_ready {
                BubbleStatus::AwaitingSync
            } else {
                BubbleStatus::Checking
            },
        },
        MessageContent::PaymentRequest { amount, .. } => match message.verified_amount {
            Some(paid) => if paid == amount {
                BubbleStatus::RequestPaid { amount }
            } else {
                BubbleStatus::RequestPaidMismatch { paid, requested: amount }
            },
            None => if message.spec_was_updated() {
                BubbleStatus::RequestCancelled
            } else if !shielded_state_ready {
                BubbleStatus::Checking
            } else if message.from_me {
                BubbleStatus::AwaitingPayment
            } else {
                BubbleStatus::Payable
            },
        },
        _ => BubbleStatus::NoStatus,
    }
}

/// What is known of a message's payment.
pub fn bubble_status(message: &ThreadMessage, shielded_state_ready: bool) -> (status: BubbleStatus)
    ensures
        status == status_of(*message, shielded_state_ready),
{
    match &message.content {
        MessageContent::Payment { amount, .. } => match message.verified_amount {
            Some(verified) => if verified == *amount {
                BubbleStatus::PaymentVerified { amount: verified }
            } else {
                BubbleStatus::PaymentMismatch { verified, claimed: *amount }
            },
            None => if shielded_state_ready {
                BubbleStatus::AwaitingSync
            } else {
                BubbleStatus::Checking
            },
        },
        MessageContent::PaymentRequest { amount, .. } => match message.verified_amount {
            Some(paid) => if paid == *amount {
                BubbleStatus::RequestPaid { amount: paid }
            } else {
                BubbleStatus::RequestPaidMismatch { paid, requested: *amount }
            },
            None => if message.was_updated() {
                BubbleStatus::RequestCancelled
            } else if !shielded_state_ready {
                BubbleStatus::Checking
            } else if message.from_me {
                BubbleStatus::AwaitingPayment
            } else {
                BubbleStatus::Payable
            },
        },
        _ => BubbleStatus::NoStatus,
    }
}

impl BubbleStatus {
    /// The status in words: `first` spells the amount that was confirmed, `second`
    /// the one that was claimed or asked for. An open request of the other side's
    /// has only its button.
    pub open spec fn words(self, first: Seq<char>, second: Seq<char>) -> Option<Seq<char>> {
        match self {
            BubbleStatus::NoStatus => None,
            BubbleStatus::PaymentVerified { .. } => Some("Verified — "@ + first),
            BubbleStatus::PaymentMismatch { .. } => Some(
                "Verified — but the amount received was "@ + first + " (message said "@ + second
                    + ")"@,
            ),
            BubbleStatus::Checking => Some("Checking payment status…"@),
            BubbleStatus::AwaitingSync => Some("Awaiting Shielded Sync Completion"@),
            BubbleStatus::RequestPaid { .. } => Some("PAID — "@ + first),
            BubbleStatus::RequestPaidMismatch { .. } => Some(
                "PAID — but the amount received was "@ + first + " (requested "@ + second + ")"@,
            ),
            BubbleStatus::RequestCancelled => Some("Request Cancelled"@),
            BubbleStatus::AwaitingPayment => Some("Awaiting payment"@),
            BubbleStatus::Payable => None,
        }
    }

    /// The status in words.
    pub fn text(self, first: &str, second: &str) -> (words: Option<String>)
        ensures
            text::optional_view(words) == self.words(first@, second@),
    {
        match self {
            BubbleStatus::NoStatus => None,
            BubbleStatus::PaymentVerified { .. } => Some(text::joined("Verified — ", first)),
            BubbleStatus::PaymentMismatch { .. } => {
                let head: String = text::joined3(
                    "Verified — but the amount received was ",
                    first,
                    " (message said ",
                );
                Some(text::joined3(head.as_str(), second, ")"))
            },
            BubbleStatus::Checking => Some("Checking payment status…".to_owned()),
            BubbleStatus::AwaitingSync => Some("Awaiting Shielded Sync Completion".to_owned()),
            BubbleStatus::RequestPaid { .. } => Some(text::joined("PAID — ", first)),
            BubbleStatus::RequestPaidMismatch { .. } => {
                let head: String = text::joined3(
                    "PAID — but the amount received was ",
                    first,
                    " (requested ",
                );
                Some(text::joined3(head.as_str(), second, ")"))
            },
            BubbleStatus::RequestCancelled => Some("Request Cancelled".to_owned()),
            BubbleStatus::AwaitingPayment => Some("Awaiting payment".to_owned()),
            BubbleStatus::Payable => None,
        }
    }
}

/// A bubble is marked as edited. A request is not: a request that was changed was
/// cancelled, which its status says.
pub open spec fn marked_edited(message: ThreadMessage) -> bool {
    message.spec_was_updated() && !(message.content is PaymentRequest)
}

/// Whether a bubble is marked as edited. A request is not: a request that was
/// changed was cancelled, which its status says.
pub fn is_edited(message: &ThreadMessage) -> (edited: bool)
    ensures
        edited == marked_edited(*message),
{
    match &message.content {
        MessageContent::PaymentRequest { .. } => false,
        _ => message.was_updated(),
    }
}

/// What a bubble is busy with.
#[derive(Debug, Clone, Copy, PartialEq, Eq, Structural)]
pub enum BusyLabel {
    Paying,
    Deleting,
    Cancelling,
    Saving,
}

impl BusyLabel {
    /// In words.
    pub open spec fn words(self) -> Seq<char> {
        match self {
            BusyLabel::Paying => "Paying…"@,
            BusyLabel::Deleting => "Deleting…"@,
            BusyLabel::Cancelling => "Cancelling…"@,
            BusyLabel::Saving => "Saving…"@,
        }
    }

    /// In words.
    pub fn text(self) -> (words: &'static str)
        ensures
            words@ == self.words(),
    {
        match self {
            BusyLabel::Paying => "Paying…",
            BusyLabel::Deleting => "Deleting…",
            BusyLabel::Cancelling => "Cancelling…",
            BusyLabel::Saving => "Saving…",
        }
    }
}

/// What can be asked of a bubble.
#[derive(Debug, Clone, PartialEq)]
pub enum BubbleAction {
    /// Pay this request.
    Pay { document_id: Identifier, amount: u64, memo: Option<String>, created_at: Option<u64> },
    /// Edit the text of a message of one's own.
    EditMessage { document_id: Identifier, current_text: String },
    /// Edit the memo of a payment of one's own.
    EditPaymentMemo { document_id: Identifier, current_memo: Option<String> },
    /// Cancel a request of one's own.
    CancelPaymentRequest { document_id: Identifier },
    /// Delete a message of one's own.
    DeleteMessage { document_id: Identifier },
}

/// What a button says.
#[derive(Debug, Clone, Copy, PartialEq, Eq, Structural)]
pub enum ButtonLabel {
    Delete,
    EditMessage,
    EditMemo,
    AddMemo,
    CancelRequest,
    Pay,
    /// What the bubble is busy with.
    Busy(BusyLabel),
}

impl ButtonLabel {
    /// In words.
    pub open spec fn words(self) -> Seq<char> {
        match self {
            ButtonLabel::Delete => "Delete"@,
            ButtonLabel::EditMessage => "Edit Message"@,
            ButtonLabel::EditMemo => "Edit Memo"@,
            ButtonLabel::AddMemo => "Add Memo"@,
            ButtonLabel::CancelRequest => "Cancel Request"@,
            ButtonLabel::Pay => "Pay"@,
            ButtonLabel::Busy(busy) => busy.words(),
        }
    }

    /// In words.
    pub fn text(self) -> (words: &'static str)
        ensures
            words@ == self.words(),
    {
        match self {
            ButtonLabel::Delete => "Delete",
            ButtonLabel::EditMessage => "Edit Message",
            ButtonLabel::EditMemo => "Edit Memo",
            ButtonLabel::AddMemo => "Add Memo",
            ButtonLabel::CancelRequest => "Cancel Request",
            ButtonLabel::Pay => "Pay",
            ButtonLabel::Busy(busy) => busy.text(),
        }
    }
}

/// A button, or an entry of the menu, of a bubble.
#[derive(Debug, Clone, PartialEq)]
pub struct BubbleButton {
    pub label: ButtonLabel,
    pub enabled: bool,
    pub action: BubbleAction,
}

/// What the buttons of a bubble depend on besides its message.
#[derive(Debug, Clone, Copy, PartialEq, Eq)]
pub struct BubbleContext {
    /// Whether what the thread is busy with concerns this message.
    pub busy_here: bool,
    /// Whether the thread is busy with anything.
    pub action_disabled: bool,
    /// Whether the identity has too little credit to act.
    pub credit_blocked: bool,
    pub shielded_state_ready: bool,
}

/// The buttons of a message's bubble.
pub open spec fn buttons_of(message: ThreadMessage, context: BubbleContext) -> Seq<BubbleButton> {
    match message.content {
        MessageContent::Message { data } => if message.from_me && !message.synthetic {
            seq![
                BubbleButton {
                    label: ButtonLabel::Delete,
                    enabled: !context.action_disabled,
                    action: BubbleAction::DeleteMessage { document_id: message.document_id },
                },
                BubbleButton {
                    label: ButtonLabel::EditMessage,
                    enabled: !context.action_disabled,
                    action: BubbleAction::EditMessage {
                        document_id: message.document_id,
                        current_text: data,
                    },
                },
            ]
        } else {
            Seq::empty()
        },
        MessageContent::Payment { memo, .. } => if message.from_me {
            seq![
                BubbleButton {
                    label: if memo is Some {
                        ButtonLabel::EditMemo
                    } else if context.busy_here {
                        ButtonLabel::Busy(BusyLabel::Saving)
                    } else {
                        ButtonLabel::AddMemo
                    },
                    enabled: !context.action_disabled,
                    action: BubbleAction::EditPaymentMemo {
                        document_id: message.document_id,
                        current_memo: memo,
                    },
                },
            ]
        } else {
            Seq::empty()
        },
        MessageContent::PaymentRequest { amount, memo } => match status_of(
            message,
            context.shielded_state_ready,
        ) {
            BubbleStatus::AwaitingPayment => seq![
                BubbleButton {
                    label: if context.busy_here {
                        ButtonLabel::Busy(BusyLabel::Cancelling)
                    } else {
                        ButtonLabel::CancelRequest
                    },
                    enabled: !context.action_disabled,
                    action: BubbleAction::CancelPaymentRequest {
                        document_id: message.document_id,
                    },
                },
            ],
            BubbleStatus::Payable => seq![
                BubbleButton {
                    label: if context.busy_here {
                        ButtonLabel::Busy(BusyLabel::Paying)
                    } else {
                        ButtonLabel::Pay
                    },
                    enabled: !context.credit_blocked && !context.action_disabled,
                    action: BubbleAction::Pay {
                        document_id: message.document_id,
                        amount,
                        memo,
                        created_at: message.created_at,
                    },
                },
            ],
            _ => Seq::empty(),
        },
        MessageContent::PaymentRequestReceipt { .. } => Seq::empty(),
    }
}

/// The buttons of a message's bubble: one's own messages can be deleted and edited,
/// one's own payments can get another memo, one's own open requests be cancelled,
/// and the other side's open requests be paid.
pub fn bubble_buttons(message: &ThreadMessage, context: &BubbleContext) -> (buttons: Vec<
    BubbleButton,
>)
    ensures
        buttons@ == buttons_of(*message, *context),
{
    let mut buttons: Vec<BubbleButton> = Vec::new();
    match &message.content {
        MessageContent::Message { data } => {
            if message.from_me && !message.synthetic {
                buttons.push(
                    BubbleButton {
                        label: ButtonLabel::Delete,
                        enabled: !context.action_disabled,
                        action: BubbleAction::DeleteMessage { document_id: message.document_id },
                    },
                );
                buttons.push(
                    BubbleButton {
                        label: ButtonLabel::EditMessage,
                        enabled: !context.action_disabled,
                        action: BubbleAction::EditMessage {
                            document_id: message.document_id,
                            current_text: data.clone(),
                        },
                    },
                );
            }
        },
        MessageContent::Payment { memo, .. } => {
            if message.from_me {
                buttons.push(
                    BubbleButton {
                        label: if memo.is_some() {
                            ButtonLabel::EditMemo
                        } else if context.busy_here {
                            ButtonLabel::Busy(BusyLabel::Saving)
                        } else {
                            ButtonLabel::AddMemo
                        },
                        enabled: !context.action_disabled,
                        action: BubbleAction::EditPaymentMemo {
                            document_id: message.document_id,
                            current_memo: text::copy_optional_text(memo),
                        },
                    },
                );
            }
        },
        MessageContent::PaymentRequest { amount, memo } => {
            match bubble_status(message, context.shielded_state_ready) {
                BubbleStatus::AwaitingPayment => {
                    buttons.push(
                        BubbleButton {
                            label: if context.busy_here {
                                ButtonLabel::Busy(BusyLabel::Cancelling)
                            } else {
                                ButtonLabel::CancelRequest
                            },
                            enabled: !context.action_disabled,
                            action: BubbleAction::CancelPaymentRequest {
                                document_id: message.document_id,
                            },
                        },
                    );
                },
                BubbleStatus::Payable => {
                    buttons.push(
                        BubbleButton {
                            label: if context.busy_here {
                                ButtonLabel::Busy(BusyLabel::Paying)
                            } else {
                                ButtonLabel::Pay
                            },
                            enabled: !context.credit_blocked && !context.action_disabled,
                            action: BubbleAction::Pay {
                                document_id: message.document_id,
                                amount: *amount,
                                memo: text::copy_optional_text(memo),
                                created_at: message.created_at,
                            },
                        },
                    );
                },
                _ => {},
            }
        },
        MessageContent::PaymentRequestReceipt { .. } => {},
    }
    assert(buttons@ =~= buttons_of(*message, *context));
    buttons
}

/// What a bubble itself says it is busy with, where no button of it does: a message,
/// or a payment of one's own with a memo.
pub open spec fn busy_label_of(
    message: ThreadMessage,
    busy_here: bool,
    label: Option<BusyLabel>,
) -> Option<BusyLabel> {
    if busy_here && (message.content is Message || (message.from_me
        && message.content matches MessageContent::Payment { memo: Some(_), .. })) {
        label
    } else {
        None
    }
}

/// What a bubble itself says it is busy with, where no button of it does: a message,
/// or a payment of one's own with a memo.
pub fn shown_busy_label(message: &ThreadMessage, busy_here: bool, label: Option<BusyLabel>) -> (shown: Option<
    BusyLabel,
>)
    ensures
        shown == busy_label_of(*message, busy_here, label),
{
    if !busy_here {
        return None;
    }
    match &message.content {
        MessageContent::Message { .. } => label,
        MessageContent::Payment { memo, .. } => if message.from_me && memo.is_some() {
            label
        } else {
            None
        },
        _ => None,
    }
}

/// No text that somebody sends can pass for money: a plain message never has a
/// tint, and a payment has one only once this wallet has confirmed it.
pub proof fn only_confirmed_money_is_tinted(message: ThreadMessage)
    ensures
        message.content is Message ==> tint_of(message) is None,
        message.content is Payment && message.verified_amount is None ==> tint_of(message) is None,
{
}

/// What stands for an anchor's initial message offers nothing that would change a
/// document: it is no message document.
pub proof fn synthetic_messages_offer_nothing(message: ThreadMessage, context: BubbleContext)
    requires
        message.synthetic,
        message.content is Message,
    ensures
        buttons_of(message, context).len() == 0,
{
}

/// Only what one has sent oneself can be edited, deleted or cancelled, and only
/// what the other side asked for can be paid.
pub proof fn buttons_respect_the_sender(message: ThreadMessage, context: BubbleContext, i: int)
    requires
        0 <= i < buttons_of(message, context).len(),
    ensures
        (buttons_of(message, context)[i].action is Pay) == !message.from_me,
{
}

/// While the thread is busy, every button is out of use.
pub proof fn one_action_at_a_time(message: ThreadMessage, context: BubbleContext, i: int)
    requires
        context.action_disabled,
        0 <= i < buttons_of(message, context).len(),
    ensures
        !buttons_of(message, context)[i].enabled,
{
}

/// A request that was paid or cancelled, or of which nothing can be said yet,
/// offers no payment.
pub proof fn no_request_is_paid_twice(message: ThreadMessage, context: BubbleContext, i: int)
    requires
        message.content is PaymentRequest,
        message.verified_amount is Some || message.spec_was_updated()
            || !context.shielded_state_ready,
    ensures
        buttons_of(message, context).len() == 0,
{
}

/// Why a receipt is reported, in words.
pub open spec fn alert_words(reason: ReceiptAlertReason) -> Seq<char> {
    match reason {
        ReceiptAlertReason::OriginalDeleted => "This payment request has been deleted."@,
        ReceiptAlertReason::OriginalChangedKind =>
            "This payment request has changed into a different kind of message."@,
        ReceiptAlertReason::OriginalAmountOrMemoMismatch =>
            "This payment request's amount or note no longer matches what you paid."@,
    }
}

/// Why a receipt is reported, in words.
pub fn alert_text(reason: ReceiptAlertReason) -> (words: &'static str)
    ensures
        words@ == alert_words(reason),
{
    match reason {
        ReceiptAlertReason::OriginalDeleted => "This payment request has been deleted.",
        ReceiptAlertReason::OriginalChangedKind =>
            "This payment request has changed into a different kind of message.",
        ReceiptAlertReason::OriginalAmountOrMemoMismatch =>
            "This payment request's amount or note no longer matches what you paid.",
    }
}

/// One entry of a conversation.
#[derive(Debug, Clone, PartialEq)]
pub enum TimelineItem {
    Message(ThreadMessage),
    ReceiptAlert(ReceiptAlert),
    SilentPayment(SilentPaymentRecord),
}

/// The time in milliseconds of a silent payment.
pub open spec fn silent_millis(payment: SilentPaymentRecord) -> int {
    payment.timestamp * 1000
}

/// The time by which an entry is placed; without one it comes first. A receipt that
/// is reported stands where its request stood.
pub open spec fn timeline_rank() -> spec_fn(TimelineItem) -> int {
    |item: TimelineItem|
        match item {
            TimelineItem::Message(message) => match message.created_at {
                Some(t) => t as int,
                None => 0,
            },
            TimelineItem::ReceiptAlert(alert) => match alert.original_created_at {
                Some(t) => t as int,
                None => 0,
            },
            TimelineItem::SilentPayment(payment) => silent_millis(payment),
        }
}

fn item_time(item: &TimelineItem) -> (time: u64)
    ensures
        time == timeline_rank()(*item),
{
    match item {
        TimelineItem::Message(message) => match message.created_at {
            Some(t) => t,
            None => 0,
        },
        TimelineItem::ReceiptAlert(alert) => match alert.original_created_at {
            Some(t) => t,
            None => 0,
        },
        TimelineItem::SilentPayment(payment) => payment.timestamp as u64 * 1000,
    }
}

fn item_not_newer(a: &TimelineItem, b: &TimelineItem) -> (r: bool)
    ensures
        r == ordering::by_rank(timeline_rank())(*a, *b),
{
    item_time(a) <= item_time(b)
}

/// Everything that a conversation holds: messages, then alerts, then payments.
pub open spec fn timeline_items(
    messages: Seq<ThreadMessage>,
    alerts: Seq<ReceiptAlert>,
    payments: Seq<SilentPaymentRecord>,
) -> Seq<TimelineItem> {
    messages.map_values(|m: ThreadMessage| TimelineItem::Message(m)) + alerts.map_values(
        |a: ReceiptAlert| TimelineItem::ReceiptAlert(a),
    ) + payments.map_values(|p: SilentPaymentRecord| TimelineItem::SilentPayment(p))
}

fn copy_alert(alert: &ReceiptAlert) -> (copy: ReceiptAlert)
    ensures
        copy == *alert,
{
    ReceiptAlert {
        original_document_id: alert.original_document_id,
        amount: alert.amount,
        memo: text::copy_optional_text(&alert.memo),
        original_created_at: alert.original_created_at,
        reason: alert.reason,
    }
}

/// The entries of a conversation from the oldest to the newest; of entries of the
/// same time, messages come first, then alerts, then payments.
pub fn conversation_timeline(
    messages: &Vec<ThreadMessage>,
    alerts: &Vec<ReceiptAlert>,
    payments: &Vec<SilentPaymentRecord>,
) -> (timeline: Vec<TimelineItem>)
    ensures
        timeline@ == ordering::stable_sorted(
            timeline_items(messages@, alerts@, payments@),
            ordering::by_rank(timeline_rank()),
        ),
{
    let ghost all = timeline_items(messages@, alerts@, payments@);
    let mut items: Vec<TimelineItem> = Vec::new();
    let mut i: usize = 0;
    while i < messages.len()
        invariant
            i <= messages@.len(),
            all == timeline_items(messages@, alerts@, payments@),
            items@ == all.take(i as int),
        decreases messages@.len() - i,
    {
        items.push(TimelineItem::Message(messages[i].copy()));
        assert(items@ =~= all.take(i + 1));
        i = i + 1;
    }
    let mut j: usize = 0;
    while j < alerts.len()
        invariant
            j <= alerts@.len(),
            all == timeline_items(messages@, alerts@, payments@),
            items@ == all.take(messages@.len() + j),
        decreases alerts@.len() - j,
    {
        items.push(TimelineItem::ReceiptAlert(copy_alert(&alerts[j])));
        assert(items@ =~= all.take(messages@.len() + j + 1));
        j = j + 1;
    }
    let mut k: usize = 0;
    while k < payments.len()
        invariant
            k <= payments@.len(),
            all == timeline_items(messages@, alerts@, payments@),
            items@ == all.take(messages@.len() + alerts@.len() + k),
        decreases payments@.len() - k,
    {
        items.push(TimelineItem::SilentPayment(payments[k]));
        assert(items@ =~= all.take(messages@.len() + alerts@.len() + k + 1));
        k = k + 1;
    }
    assert(items@ =~= all);
    ordering::stable_sort(items, item_not_newer, Ghost(ordering::by_rank(timeline_rank())))
}

/// How many payments the table of recent ones shows at most.
pub const RECENT_PAYMENTS_MAX_ROWS: usize = 6;

/// A payment between the two parties that this wallet has confirmed.
#[derive(Debug, Clone, Copy, PartialEq, Eq)]
pub struct PaymentRow {
    /// Whether the owner of the thread received it.
    pub received: bool,
    pub credits: u64,
    pub created_at: Option<u64>,
}

/// The confirmed payment behind a message, if there is one. The money of a request
/// moves against the direction of the request.
pub open spec fn row_of(message: ThreadMessage) -> Option<PaymentRow> {
    match message.verified_amount {
        None => None,
        Some(credits) => match message.content {
            MessageContent::Payment { .. } => Some(
                PaymentRow { received: !message.from_me, credits, created_at: message.created_at },
            ),
            MessageContent::PaymentRequest { .. } => Some(
                PaymentRow { received: message.from_me, credits, created_at: message.created_at },
            ),
            _ => None,
        },
    }
}

/// The confirmed payments behind messages, in order.
pub open spec fn message_rows(messages: Seq<ThreadMessage>) -> Seq<PaymentRow>
    decreases messages.len(),
{
    if messages.len() == 0 {
        Seq::empty()
    } else {
        let before = message_rows(messages.drop_last());
        match row_of(messages.last()) {
            None => before,
            Some(row) => before.push(row),
        }
    }
}

/// A silent payment as a row.
pub open spec fn silent_row(payment: SilentPaymentRecord) -> PaymentRow {
    PaymentRow {
        received: !payment.from_me,
        credits: payment.amount,
        created_at: Some(silent_millis(payment) as u64),
    }
}

/// All confirmed payments: those behind messages, then the silent ones.
pub open spec fn payment_rows(
    messages: Seq<ThreadMessage>,
    payments: Seq<SilentPaymentRecord>,
) -> Seq<PaymentRow> {
    message_rows(messages) + payments.map_values(|p: SilentPaymentRecord| silent_row(p))
}

/// The time by which a payment is placed.
pub open spec fn payment_rank() -> spec_fn(PaymentRow) -> int {
    |row: PaymentRow|
        match row.created_at {
            Some(t) => t as int,
            None => 0,
        }
}

fn payment_not_older(a: &PaymentRow, b: &PaymentRow) -> (r: bool)
    ensures
        r == ordering::by_rank_descending(payment_rank())(*a, *b),
{
    let x: u64 = match a.created_at {
        Some(t) => t,
        None => 0,
    };
    let y: u64 = match b.created_at {
        Some(t) => t,
        None => 0,
    };
    x >= y
}

/// All confirmed payments, the newest first.
pub open spec fn newest_payments(
    messages: Seq<ThreadMessage>,
    payments: Seq<SilentPaymentRecord>,
) -> Seq<PaymentRow> {
    ordering::stable_sorted(
        payment_rows(messages, payments),
        ordering::by_rank_descending(payment_rank()),
    )
}

/// `rows` are those of `all` that the table shows, and `full` says whether there are
/// at least as many as it can show.
pub open spec fn is_payment_table(rows: Seq<PaymentRow>, full: bool, all: Seq<PaymentRow>) -> bool {
    &&& full == (all.len() >= RECENT_PAYMENTS_MAX_ROWS)
    &&& rows == if all.len() > RECENT_PAYMENTS_MAX_ROWS {
        all.take(RECENT_PAYMENTS_MAX_ROWS as int)
    } else {
        all
    }
}

/// The newest confirmed payments, as many as the table shows, and whether there are
/// at least as many as it can show.
pub fn recent_verified_payments(
    messages: &Vec<ThreadMessage>,
    payments: &Vec<SilentPaymentRecord>,
) -> (r: (Vec<PaymentRow>, bool))
    ensures
        is_payment_table(r.0@, r.1, newest_payments(messages@, payments@)),
{
    let mut rows: Vec<PaymentRow> = Vec::new();
    let mut i: usize = 0;
    while i < messages.len()
        invariant
            i <= messages@.len(),
            rows@ == message_rows(messages@.take(i as int)),
        decreases messages@.len() - i,
    {
        assert(messages@.take(i + 1).drop_last() =~= messages@.take(i as int));
        let message: &ThreadMessage = &messages[i];
        if let Some(credits) = message.verified_amount {
            match &message.content {
                MessageContent::Payment { .. } => {
                    rows.push(
                        PaymentRow {
                            received: !message.from_me,
                            credits,
                            created_at: message.created_at,
                        },
                    );
                },
                MessageContent::PaymentRequest { .. } => {
                    rows.push(
                        PaymentRow {
                            received: message.from_me,
                            credits,
                            created_at: message.created_at,
                        },
                    );
                },
                _ => {},
            }
        }
        i = i + 1;
    }
    assert(messages@.take(i as int) =~= messages@);
    let ghost first = rows@;
    let ghost all = payment_rows(messages@, payments@);
    let mut k: usize = 0;
    assert(rows@ =~= all.take(first.len() as int));
    while k < payments.len()
        invariant
            k <= payments@.len(),
            first == message_rows(messages@),
            all == payment_rows(messages@, payments@),
            rows@ == all.take(first.len() + k),
        decreases payments@.len() - k,
    {
        rows.push(
            PaymentRow {
                received: !payments[k].from_me,
                credits: payments[k].amount,
                created_at: Some(payments[k].timestamp as u64 * 1000),
            },
        );
        assert(rows@ =~= all.take(first.len() + k + 1));
        k = k + 1;
    }
    assert(rows@ =~= all);
    let mut sorted: Vec<PaymentRow> = ordering::stable_sort(
        rows,
        payment_not_older,
        Ghost(ordering::by_rank_descending(payment_rank())),
    );
    let at_least_full: bool = sorted.len() >= RECENT_PAYMENTS_MAX_ROWS;
    if sorted.len() > RECENT_PAYMENTS_MAX_ROWS {
        sorted.truncate(RECENT_PAYMENTS_MAX_ROWS);
    }
    (sorted, at_least_full)
}

/// That money has moved is said only where this wallet has confirmed it, and with the
/// amount that it confirmed. Where that is another amount than was claimed or asked for,
/// both are told.
pub proof fn only_confirmed_money_is_told(message: ThreadMessage, ready: bool)
    ensures
        ({
            let status = status_of(message, ready);
            &&& status matches BubbleStatus::PaymentVerified { amount } ==> message.verified_amount
                == Some(amount) && message.content is Payment
                && message.content->Payment_amount == amount
            &&& status matches BubbleStatus::PaymentMismatch { verified, claimed }
                ==> message.verified_amount == Some(verified) && message.content is Payment
                && message.content->Payment_amount == claimed && verified != claimed
            &&& status matches BubbleStatus::RequestPaid { amount } ==> message.verified_amount
                == Some(amount) && message.content is PaymentRequest
                && message.content->PaymentRequest_amount == amount
            &&& status matches BubbleStatus::RequestPaidMismatch { paid, requested }
                ==> message.verified_amount == Some(paid) && message.content is PaymentRequest
                && message.content->PaymentRequest_amount == requested && paid != requested
            &&& message.verified_amount is Some && message.content is Payment ==> status
                is PaymentVerified || status is PaymentMismatch
            &&& message.verified_amount is Some && message.content is PaymentRequest ==> status
                is RequestPaid || status is RequestPaidMismatch
        }),
{
}

/// A request that was changed after its creation was cancelled, whoever sent it, unless
/// it was paid; no other request was. An open one waits for its payment or can be paid,
/// as the other side or oneself is asked, but only once the wallet's state is known.
/// What is no money has no status.
pub proof fn unpaid_requests_are_cancelled_or_open(message: ThreadMessage, ready: bool)
    ensures
        ({
            let status = status_of(message, ready);
            let changed = message.updated_at is Some && message.updated_at != message.created_at;
            &&& message.content is PaymentRequest && message.verified_amount is None ==> {
                &&& changed <==> status is RequestCancelled
                &&& !changed && !ready <==> status is Checking
                &&& !changed && ready && message.from_me <==> status is AwaitingPayment
                &&& !changed && ready && !message.from_me <==> status is Payable
            }
            &&& message.content is Payment && message.verified_amount is None ==> {
                &&& ready <==> status is AwaitingSync
                &&& !ready <==> status is Checking
            }
            &&& message.content is Message || message.content is PaymentRequestReceipt <==> status
                is NoStatus
        }),
{
}

/// A headline never tells the amount that somebody claims to have paid: a payment's is
/// the confirmed one, or none yet. A request's is what is asked for.
pub proof fn headlines_tell_confirmed_amounts(message: ThreadMessage)
    ensures
        message.content is Payment <==> headline_of(message) is Payment,
        message.content is Payment ==> headline_of(message)->verified == message.verified_amount,
        message.content is PaymentRequest <==> headline_of(message) is PaymentRequest,
        message.content is PaymentRequest ==> headline_of(message)->amount
            == message.content->PaymentRequest_amount,
{
}

/// A tint follows the money: what one sends and what one is asked for goes out, what one
/// gets and what one asks for comes in. Turning the sender round turns the tint round.
pub proof fn tints_follow_the_money(message: ThreadMessage)
    ensures
        message.content is PaymentRequest ==> tint_of(message) == Some(
            if message.from_me {
                Tint::Incoming
            } else {
                Tint::Outgoing
            },
        ),
        message.content is Payment && message.verified_amount is Some ==> tint_of(message) == Some(
            if message.from_me {
                Tint::Outgoing
            } else {
                Tint::Incoming
            },
        ),
        message.content is PaymentRequestReceipt ==> tint_of(message) is None,
        ({
            let turned = ThreadMessage { from_me: !message.from_me, ..message };
            &&& tint_of(turned) is Some <==> tint_of(message) is Some
            &&& tint_of(message) is Some ==> tint_of(turned) != tint_of(message)
        }),
{
}

/// A silent payment has the tint, and the direction in the table, of a payment that was
/// confirmed.
pub proof fn silent_payments_count_as_confirmed(payment: SilentPaymentRecord)
    ensures
        payment.from_me <==> silent_tint(payment) == Tint::Outgoing,
        silent_row(payment).received == !payment.from_me,
        silent_row(payment).credits == payment.amount,
        silent_row(payment).created_at matches Some(t) && t == payment.timestamp * 1000,
{
}

/// A bubble is marked as edited where its document was changed after its creation, but a
/// request never is.
pub proof fn edits_are_marked(message: ThreadMessage)
    ensures
        marked_edited(message) <==> message.updated_at is Some && message.updated_at
            != message.created_at && !(message.content is PaymentRequest),
{
}

/// What a bubble offers: to delete and edit one's own message, to give one's own payment
/// another memo, to cancel one's own open request, and to pay the other side's with the
/// amount, the memo and the time that it has. Each concerns the document of the bubble.
pub proof fn buttons_do_what_fits(message: ThreadMessage, context: BubbleContext)
    ensures
        ({
            let buttons = buttons_of(message, context);
            let changed = message.updated_at is Some && message.updated_at != message.created_at;
            &&& message.content is Message && message.from_me && !message.synthetic ==> {
                &&& buttons.len() == 2
                &&& buttons[0].action == (BubbleAction::DeleteMessage {
                    document_id: message.document_id,
                })
                &&& buttons[0].label == ButtonLabel::Delete
                &&& buttons[1].action == (BubbleAction::EditMessage {
                    document_id: message.document_id,
                    current_text: message.content->Message_data,
                })
                &&& buttons[1].label == ButtonLabel::EditMessage
                &&& buttons[0].enabled == !context.action_disabled
                &&& buttons[1].enabled == !context.action_disabled
            }
            &&& message.content is Payment && message.from_me ==> {
                &&& buttons.len() == 1
                &&& buttons[0].action == (BubbleAction::EditPaymentMemo {
                    document_id: message.document_id,
                    current_memo: message.content->Payment_memo,
                })
                &&& buttons[0].enabled == !context.action_disabled
                &&& message.content->Payment_memo is Some ==> buttons[0].label
                    == ButtonLabel::EditMemo
                &&& message.content->Payment_memo is None ==> buttons[0].label == (
                if context.busy_here {
                    ButtonLabel::Busy(BusyLabel::Saving)
                } else {
                    ButtonLabel::AddMemo
                })
            }
            &&& message.content is PaymentRequest && message.verified_amount is None && !changed
                && context.shielded_state_ready && message.from_me ==> {
                &&& buttons.len() == 1
                &&& buttons[0].action == (BubbleAction::CancelPaymentRequest {
                    document_id: message.document_id,
                })
                &&& buttons[0].enabled == !context.action_disabled
                &&& buttons[0].label == (if context.busy_here {
                    ButtonLabel::Busy(BusyLabel::Cancelling)
                } else {
                    ButtonLabel::CancelRequest
                })
            }
            &&& message.content is PaymentRequest && message.verified_amount is None && !changed
                && context.shielded_state_ready && !message.from_me ==> {
                &&& buttons.len() == 1
                &&& buttons[0].action == (BubbleAction::Pay {
                    document_id: message.document_id,
                    amount: message.content->PaymentRequest_amount,
                    memo: message.content->PaymentRequest_memo,
                    created_at: message.created_at,
                })
                &&& buttons[0].enabled == (!context.credit_blocked && !context.action_disabled)
                &&& buttons[0].label == (if context.busy_here {
                    ButtonLabel::Busy(BusyLabel::Paying)
                } else {
                    ButtonLabel::Pay
                })
            }
            &&& buttons.len() > 0 ==> {
                ||| message.content is Message && message.from_me && !message.synthetic
                ||| message.content is Payment && message.from_me
                ||| message.content is PaymentRequest && message.verified_amount is None
                    && !changed && context.shielded_state_ready
            }
        }),
{
}

/// A request for which the wallet knows an amount, in whichever table, offers neither its
/// payment nor its cancellation once it is decoded.
pub proof fn known_payments_close_a_request(
    document: MessageDocument,
    from_me: bool,
    secret: Seq<u8>,
    known: KnownPayments,
    message: ThreadMessage,
    context: BubbleContext,
)
    requires
        messages::decodes_to(document, from_me, secret, known, message),
        message.content is PaymentRequest,
        messages::has_entry(known.recorded@, document.id) || messages::has_entry(
            known.outgoing@,
            document.id,
        ) || messages::has_entry(known.incoming@, document.id),
    ensures
        buttons_of(message, context).len() == 0,
        status_of(message, context.shielded_state_ready) is RequestPaid || status_of(
            message,
            context.shielded_state_ready,
        ) is RequestPaidMismatch,
{
    messages::decoded_money_carries_what_is_confirmed(document, from_me, secret, known, message);
}

/// A bubble says what it is busy with where none of its buttons does, and only where it
/// is the one concerned.
pub proof fn busy_bubbles_say_so(
    message: ThreadMessage,
    busy_here: bool,
    label: Option<BusyLabel>,
)
    ensures
        !busy_here ==> busy_label_of(message, busy_here, label) is None,
        busy_here && message.content is Message ==> busy_label_of(message, busy_here, label)
            == label,
        busy_here && message.content is Payment ==> busy_label_of(message, busy_here, label) == (
        if message.from_me && message.content->Payment_memo is Some {
            label
        } else {
            None
        }),
        message.content is PaymentRequest || message.content is PaymentRequestReceipt
            ==> busy_label_of(message, busy_here, label) is None,
{
}

/// The time at which an entry of a conversation stands is `t`, in milliseconds: that of
/// its message, of the request that a receipt was for, or of a silent payment.
pub open spec fn stands_at(item: TimelineItem, t: int) -> bool {
    match item {
        TimelineItem::Message(message) => message.created_at is Some && message.created_at->0 == t,
        TimelineItem::ReceiptAlert(alert) => alert.original_created_at is Some
            && alert.original_created_at->0 == t,
        TimelineItem::SilentPayment(payment) => t == 1000 * payment.timestamp,
    }
}

/// A conversation holds every message, every alert and every silent payment, each once,
/// from the oldest to the newest.
pub proof fn conversations_hold_everything_in_time(
    messages: Seq<ThreadMessage>,
    alerts: Seq<ReceiptAlert>,
    payments: Seq<SilentPaymentRecord>,
    i: int,
    j: int,
    t: int,
    u: int,
)
    requires
        0 <= i < j < messages.len() + alerts.len() + payments.len(),
    ensures
        ({
            let timeline = ordering::stable_sorted(
                timeline_items(messages, alerts, payments),
                ordering::by_rank(timeline_rank()),
            );
            &&& timeline.len() == messages.len() + alerts.len() + payments.len()
            &&& timeline.to_multiset() == messages.map_values(
                |m: ThreadMessage| TimelineItem::Message(m),
            ).to_multiset().add(
                alerts.map_values(|a: ReceiptAlert| TimelineItem::ReceiptAlert(a)).to_multiset(),
            ).add(
                payments.map_values(
                    |p: SilentPaymentRecord| TimelineItem::SilentPayment(p),
                ).to_multiset(),
            )
            &&& stands_at(timeline[i], t) && stands_at(timeline[j], u) ==> t <= u
        }),
{
    let all = timeline_items(messages, alerts, payments);
    let leq = ordering::by_rank(timeline_rank());
    let first = messages.map_values(|m: ThreadMessage| TimelineItem::Message(m));
    let second = alerts.map_values(|a: ReceiptAlert| TimelineItem::ReceiptAlert(a));
    let third = payments.map_values(|p: SilentPaymentRecord| TimelineItem::SilentPayment(p));
    ordering::stable_sort_orders(all, leq);
    ordering::stable_sort_keeps_items(all, leq);
    let timeline = ordering::stable_sorted(all, leq);
    vstd::seq_lib::lemma_multiset_commutative(first + second, third);
    vstd::seq_lib::lemma_multiset_commutative(first, second);
    assert(leq(timeline[i], timeline[j]));
}

/// The confirmed payments are those behind messages that carry a confirmed amount: a
/// payment goes to whoever did not send it, the payment of a request to whoever asked.
pub proof fn confirmed_payments_become_rows(
    before: Seq<ThreadMessage>,
    message: ThreadMessage,
    after: Seq<ThreadMessage>,
)
    ensures
        message_rows(Seq::empty()).len() == 0,
        message_rows(before + seq![message] + after) == message_rows(before) + (
        match message.verified_amount {
            Some(credits) => if message.content is Payment {
                seq![
                    PaymentRow {
                        received: !message.from_me,
                        credits,
                        created_at: message.created_at,
                    },
                ]
            } else if message.content is PaymentRequest {
                seq![
                    PaymentRow {
                        received: message.from_me,
                        credits,
                        created_at: message.created_at,
                    },
                ]
            } else {
                Seq::empty()
            },
            None => Seq::empty(),
        }) + message_rows(after),
{
    let one = seq![message];
    lemma_rows_parts(before + one, after);
    lemma_rows_parts(before, one);
    reveal_with_fuel(message_rows, 2);
    assert(one.drop_last() =~= Seq::empty());
    assert(message_rows(one) =~= (match row_of(message) {
        Some(row) => seq![row],
        None => Seq::empty(),
    }));
}

proof fn lemma_rows_parts(a: Seq<ThreadMessage>, b: Seq<ThreadMessage>)
    ensures
        message_rows(a + b) == message_rows(a) + message_rows(b),
    decreases b.len(),
{
    if b.len() == 0 {
        assert(a + b =~= a);
        assert(message_rows(a) + message_rows(b) =~= message_rows(a));
    } else {
        lemma_rows_parts(a, b.drop_last());
        assert((a + b).drop_last() =~= a + b.drop_last());
        assert(message_rows(a + b) =~= message_rows(a) + message_rows(b));
    }
}

/// The table of payments holds those behind messages and the silent ones, each once, the
/// newest first.
pub proof fn newest_payments_come_first(
    messages: Seq<ThreadMessage>,
    payments: Seq<SilentPaymentRecord>,
    i: int,
    j: int,
)
    requires
        0 <= i < j < message_rows(messages).len() + payments.len(),
    ensures
        ({
            let rows = newest_payments(messages, payments);
            &&& rows.len() == message_rows(messages).len() + payments.len()
            &&& rows.to_multiset() == message_rows(messages).to_multiset().add(
                payments.map_values(|p: SilentPaymentRecord| silent_row(p)).to_multiset(),
            )
            &&& rows[j].created_at matches Some(u) ==> (rows[i].created_at matches Some(t) && t
                >= u) || u == 0
        }),
{
    let all = payment_rows(messages, payments);
    let leq = ordering::by_rank_descending(payment_rank());
    ordering::stable_sort_orders(all, leq);
    ordering::stable_sort_keeps_items(all, leq);
    vstd::seq_lib::lemma_multiset_commutative(
        message_rows(messages),
        payments.map_values(|p: SilentPaymentRecord| silent_row(p)),
    );
    let rows = newest_payments(messages, payments);
    assert(leq(rows[i], rows[j]));
}

/// The table shows all payments, or the first six of them, and says whether it is
/// full.
pub proof fn tables_show_the_first_six(rows: Seq<PaymentRow>, full: bool, all: Seq<PaymentRow>, i: int)
    requires
        is_payment_table(rows, full, all),
        0 <= i < rows.len(),
    ensures
        rows.len() == if all.len() < 6 {
            all.len()
        } else {
            6
        },
        rows[i] == all[i],
        full <==> rows.len() == 6,
{
}

/// The table has a row for each confirmed payment and each silent one, and no others.
/// A silent one goes to whoever did not send it, with its amount and its time.
pub proof fn tables_are_made_of_confirmed_payments(
    messages: Seq<ThreadMessage>,
    payments: Seq<SilentPaymentRecord>,
    payment: SilentPaymentRecord,
)
    ensures
        newest_payments(messages, payments).to_multiset() == message_rows(
            messages,
        ).to_multiset().add(
            payments.map_values(|p: SilentPaymentRecord| silent_row(p)).to_multiset(),
        ),
        silent_row(payment).received == !payment.from_me,
        silent_row(payment).credits == payment.amount,
        silent_row(payment).created_at matches Some(t) && t == payment.timestamp * 1000,
{
    ordering::stable_sort_keeps_items(
        payment_rows(messages, payments),
        ordering::by_rank_descending(payment_rank()),
    );
    vstd::seq_lib::lemma_multiset_commutative(
        message_rows(messages),
        payments.map_values(|p: SilentPaymentRecord| silent_row(p)),
    );
}

/// A headline spells an amount only where one is confirmed or asked for.
pub proof fn unconfirmed_payments_are_pending(amount: u64, asked: Headline, spelled: Seq<char>)
    ensures
        Headline::NoHeadline.words(spelled) is None,
        (Headline::Payment { verified: None }).words(spelled) == Some("Payment: Pending…"@),
        (Headline::Payment { verified: Some(amount) }).words(spelled) == Some(
            "Payment: "@ + spelled,
        ),
        asked is PaymentRequest ==> asked.words(spelled) == Some("Payment Request: "@ + spelled),
{
}

/// Every status but none and payable has words of its own; those of money that moved
/// spell the amount, and both amounts where they differ.
pub proof fn statuses_spell_their_amounts(
    status: BubbleStatus,
    first: Seq<char>,
    second: Seq<char>,
)
    ensures
        status.words(first, second) is None <==> status is NoStatus || status is Payable,
        status is PaymentVerified ==> status.words(first, second) == Some("Verified — "@ + first),
        status is RequestPaid ==> status.words(first, second) == Some("PAID — "@ + first),
        status is PaymentMismatch ==> status.words(first, second) == Some(
            "Verified — but the amount received was "@ + first + " (message said "@ + second
                + ")"@,
        ),
        status is RequestPaidMismatch ==> status.words(first, second) == Some(
            "PAID — but the amount received was "@ + first + " (requested "@ + second + ")"@,
        ),
        status is Checking ==> status.words(first, second) == Some("Checking payment status…"@),
        status is AwaitingSync ==> status.words(first, second) == Some(
            "Awaiting Shielded Sync Completion"@,
        ),
        status is RequestCancelled ==> status.words(first, second) == Some("Request Cancelled"@),
        status is AwaitingPayment ==> status.words(first, second) == Some("Awaiting payment"@),
{
}

/// Buttons say what they do, or what is being done, and reports what is wrong.
pub proof fn labels_say_what_is_done()
    ensures
        BusyLabel::Paying.words() == "Paying…"@,
        BusyLabel::Deleting.words() == "Deleting…"@,
        BusyLabel::Cancelling.words() == "Cancelling…"@,
        BusyLabel::Saving.words() == "Saving…"@,
        forall|busy: BusyLabel| #[trigger] ButtonLabel::Busy(busy).words() == busy.words(),
        ButtonLabel::Delete.words() == "Delete"@,
        ButtonLabel::EditMessage.words() == "Edit Message"@,
        ButtonLabel::EditMemo.words() == "Edit Memo"@,
        ButtonLabel::AddMemo.words() == "Add Memo"@,
        ButtonLabel::CancelRequest.words() == "Cancel Request"@,
        ButtonLabel::Pay.words() == "Pay"@,
        alert_words(ReceiptAlertReason::OriginalDeleted)
            == "This payment request has been deleted."@,
        alert_words(ReceiptAlertReason::OriginalChangedKind)
            == "This payment request has changed into a different kind of message."@,
        alert_words(ReceiptAlertReason::OriginalAmountOrMemoMismatch)
            == "This payment request's amount or note no longer matches what you paid."@,
{
}

} // verus!
