//! The screen on which an identity's shielded address is published.

use vstd::prelude::*;

use crate::model::identifier::Identifier;
use crate::orchardpay::tasks::{BackendTaskSuccessResult, KeyId, OrchardPayTask, WalletSeedHash};
use crate::ui::actions::{AppAction, MessageType, OrchardPaySubscreen, RootScreen};

verus! {

/// How far a publication has come.
#[derive(Debug, Clone, Copy, PartialEq, Eq, Structural)]
pub enum PublishStatus {
    NotStarted,
    WaitingForResult,
    Error,
    Complete,
}

/// The screen on which an identity's shielded address is published.
#[derive(Debug, Clone, Copy, PartialEq, Eq)]
pub struct ShieldedAddressSetupScreen {
    pub identity_id: Identifier,
    /// The key that signs, if the identity has one that can.
    pub selected_key: Option<KeyId>,
    /// The wallet of the identity, if it has one.
    pub selected_wallet: Option<WalletSeedHash>,
    pub wallet_open_attempted: bool,
    pub status: PublishStatus,
}

/// What the screen shows.
#[derive(Debug, Clone, Copy, PartialEq, Eq, Structural)]
pub enum SetupView {
    /// The publication is done; from here it goes to the tab for new contacts.
    Published,
    /// The identity has no wallet, without which there is no address.
    NoWallet,
    /// The wallet is to be unlocked first.
    Locked,
    /// The address, and the button to publish it.
    Ready { can_publish: bool },
}

impl ShieldedAddressSetupScreen {
    /// The screen before anything was done.
    pub fn new(
        identity_id: Identifier,
        selected_key: Option<KeyId>,
        selected_wallet: Option<WalletSeedHash>,
    ) -> (screen: Self)
        ensures
            screen == (ShieldedAddressSetupScreen {
                identity_id,
                selected_key,
                selected_wallet,
                wallet_open_attempted: false,
                status: PublishStatus::NotStarted,
            }),
    {
        ShieldedAddressSetupScreen {
            identity_id,
            selected_key,
            selected_wallet,
            wallet_open_attempted: false,
            status: PublishStatus::NotStarted,
        }
    }

    /// What the screen shows.
    pub open spec fn shown(self, wallet_locked: bool, address_known: bool, credit_blocked: bool) -> SetupView {
        if self.status == PublishStatus::Complete {
            SetupView::Published
        } else if self.selected_wallet is None {
            SetupView::NoWallet
        } else if wallet_locked {
            SetupView::Locked
        } else {
            SetupView::Ready {
                can_publish: self.selected_key is Some && address_known && !credit_blocked,
            }
        }
    }

    /// The publication that a click asks for.
    pub open spec fn publication(self) -> Option<OrchardPayTask> {
        match (self.selected_key, self.selected_wallet) {
            (Some(identity_key), Some(seed_hash)) => Some(
                OrchardPayTask::PublishShieldedAddress {
                    identity_id: self.identity_id,
                    identity_key,
                    seed_hash,
                },
            ),
            _ => None,
        }
    }

    /// The screen after a message of this type.
    pub open spec fn told(self, message_type: MessageType) -> Self {
        if message_type == MessageType::Error || message_type == MessageType::Warning {
            ShieldedAddressSetupScreen { status: PublishStatus::Error, ..self }
        } else {
            self
        }
    }

    /// The screen after this result.
    pub open spec fn landed(self, result: BackendTaskSuccessResult) -> Self {
        if result is BroadcastedDocument || result is ReplacedDocument {
            ShieldedAddressSetupScreen { status: PublishStatus::Complete, ..self }
        } else {
            self
        }
    }

    /// What the screen shows. The button works where there is a key to sign with,
    /// an address to publish, and enough credit to pay for it.
    pub fn view_model(&self, wallet_locked: bool, address_known: bool, credit_blocked: bool) -> (view: SetupView)
        ensures
            view == self.shown(wallet_locked, address_known, credit_blocked),
    {
        if self.status == PublishStatus::Complete {
            SetupView::Published
        } else if self.selected_wallet.is_none() {
            SetupView::NoWallet
        } else if wallet_locked {
            SetupView::Locked
        } else {
            SetupView::Ready {
                can_publish: self.selected_key.is_some() && address_known && !credit_blocked,
            }
        }
    }

    /// The button was clicked: the publication is asked for, where there are a key
    /// and a wallet for it.
    pub fn publish_clicked(&mut self) -> (action: AppAction)
        ensures
            match old(self).publication() {
                Some(task) => {
                    &&& *final(self) == (ShieldedAddressSetupScreen {
                        status: PublishStatus::WaitingForResult,
                        ..*old(self)
                    })
                    &&& action.runs(task)
                },
                None => *final(self) == *old(self) && action is NoAction,
            },
    {
        match (self.selected_key, self.selected_wallet) {
            (Some(identity_key), Some(seed_hash)) => {
                self.status = PublishStatus::WaitingForResult;
                AppAction::run(
                    OrchardPayTask::PublishShieldedAddress {
                        identity_id: self.identity_id,
                        identity_key,
                        seed_hash,
                    },
                )
            },
            _ => AppAction::NoAction,
        }
    }

    /// An error or a warning ends the publication.
    pub fn display_message(&mut self, message_type: MessageType)
        ensures
            *final(self) == old(self).told(message_type),
    {
        if message_type == MessageType::Error || message_type == MessageType::Warning {
            self.status = PublishStatus::Error;
        }
    }

    /// A document that was published or replaced completes the publication.
    pub fn display_task_result(&mut self, result: &BackendTaskSuccessResult)
        ensures
            *final(self) == old(self).landed(*result),
    {
        match result {
            BackendTaskSuccessResult::BroadcastedDocument(_) => {
                self.status = PublishStatus::Complete;
            },
            BackendTaskSuccessResult::ReplacedDocument(_) => {
                self.status = PublishStatus::Complete;
            },
            _ => {},
        }
    }
}

/// The path above the screen.
pub fn setup_breadcrumbs() -> (crumbs: Vec<(&'static str, AppAction)>)
    ensures
        crumbs@.len() == 2,
        crumbs@[0].0@ == "Identities"@,
        crumbs@[0].1 == AppAction::SetMainScreen(RootScreen::Identities),
        crumbs@[1].0@ == "Setup OrchardPay"@,
        crumbs@[1].1 == AppAction::NoAction,
{
    let mut crumbs: Vec<(&'static str, AppAction)> = Vec::new();
    crumbs.push(("Identities", AppAction::SetMainScreen(RootScreen::Identities)));
    crumbs.push(("Setup OrchardPay", AppAction::NoAction));
    crumbs
}

/// Where it goes from a completed publication.
pub fn after_publication() -> (action: AppAction)
    ensures
        action == AppAction::NavigateToOrchardPaySubscreen(OrchardPaySubscreen::AddContact),
{
    AppAction::NavigateToOrchardPaySubscreen(OrchardPaySubscreen::AddContact)
}

/// The button works only for an identity with a wallet that is open, a key to sign
/// with, an address and the credits for it, and nothing more is asked.
pub proof fn addresses_are_published_with_all_at_hand(
    screen: ShieldedAddressSetupScreen,
    wallet_locked: bool,
    address_known: bool,
    credit_blocked: bool,
)
    ensures
        screen.shown(wallet_locked, address_known, credit_blocked) == (SetupView::Ready {
            can_publish: true,
        }) <==> {
            &&& !(screen.status is Complete)
            &&& screen.selected_wallet is Some
            &&& !wallet_locked
            &&& screen.selected_key is Some
            &&& address_known
            &&& !credit_blocked
        },
        screen.shown(wallet_locked, address_known, credit_blocked) is Published
            <==> screen.status is Complete,
        screen.shown(wallet_locked, address_known, credit_blocked) is NoWallet <==> !(
        screen.status is Complete) && screen.selected_wallet is None,
        screen.shown(wallet_locked, address_known, credit_blocked) is Locked <==> !(
        screen.status is Complete) && screen.selected_wallet is Some && wallet_locked,
{
}

/// A click publishes the address of the screen's own identity, with its key and its
/// wallet, and nothing where one of these is missing.
pub proof fn clicks_publish_the_own_address(screen: ShieldedAddressSetupScreen)
    ensures
        screen.publication() is Some <==> screen.selected_key is Some
            && screen.selected_wallet is Some,
        screen.publication() matches Some(task) ==> {
            &&& task matches OrchardPayTask::PublishShieldedAddress {
                identity_id,
                identity_key,
                seed_hash,
            }
            &&& identity_id == screen.identity_id
            &&& screen.selected_key == Some(identity_key)
            &&& screen.selected_wallet == Some(seed_hash)
        },
{
}

/// A publication is complete only by a document that was published or replaced, and
/// failed only by an error or a warning; all else leaves the screen as it is.
pub proof fn publications_end_by_what_happened(
    screen: ShieldedAddressSetupScreen,
    message_type: MessageType,
    result: BackendTaskSuccessResult,
)
    ensures
        result is BroadcastedDocument || result is ReplacedDocument
            ==> screen.landed(result).status is Complete,
        !(result is BroadcastedDocument) && !(result is ReplacedDocument) ==> screen.landed(result)
            == screen,
        message_type is Error || message_type is Warning ==> screen.told(message_type).status is Error,
        message_type is Success || message_type is Info ==> screen.told(message_type) == screen,
        screen.landed(result).identity_id == screen.identity_id,
        screen.told(message_type).identity_id == screen.identity_id,
{
}

} // verus!
