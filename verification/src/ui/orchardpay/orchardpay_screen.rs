//! The main screen: its tabs, and what their buttons set going.

use vstd::prelude::*;

use crate::model::identifier::{same_id, Identifier};
use crate::model::orchardpay::{OrchardPayContactState, ShieldedActivityRow};
use crate::model::text;
use crate::orchardpay::contact_search;
use crate::orchardpay::contact_search::{strip_dash_suffix, OrchardPayContactSearchResult};
use crate::orchardpay::outgoing::SendLimits;
use crate::orchardpay::recent_activity::RecentContactActivity;
use crate::orchardpay::tasks::{
    BackendTask, BackendTaskSuccessResult, KeyId, OrchardPayTask, WalletSeedHash,
};
use crate::ui::actions::{AppAction, MessageType, OrchardPaySubscreen};
use crate::ui::components::confirmation_dialog::{ConfirmationDialog, ConfirmationStatus};
use crate::ui::orchardpay::contact_list::{search_standing, SearchStanding};
use crate::ui::orchardpay::contact_list;
use crate::ui::state::in_flight_actions;
use crate::ui::state::in_flight_actions::InFlightActions;

verus! {

/// What stands between an identity and the protocol, if anything does.
#[derive(Debug, Clone, Copy, PartialEq, Eq, Structural)]
pub enum LocalReadiness {
    NoIdentity,
    NoDpnsName,
    ContractNotConfigured,
    ContractConfigured,
}

/// Whether one can be found by others, which every tab for contacts waits for.
#[derive(Debug, Clone, Copy, PartialEq, Eq, Structural)]
pub enum AddressGate {
    Published,
    /// It is known that there is no published address.
    NotPublished,
    /// It is not known yet.
    Checking,
}

/// A task that waits behind a question to the user, and the counterparty that it
/// concerns.
#[derive(Debug, Clone, PartialEq)]
pub struct PendingConfirmation {
    pub dialog: ConfirmationDialog,
    /// What runs once the question is confirmed.
    pub task: OrchardPayTask,
    /// What runs instead where the question's box is checked.
    pub task_if_checked: Option<OrchardPayTask>,
    pub key: Identifier,
}

impl PendingConfirmation {
    /// What runs, now that the question is confirmed.
    pub open spec fn chosen_task(self) -> OrchardPayTask {
        match self.task_if_checked {
            Some(task) if self.dialog.spec_checkbox_checked() => task,
            _ => self.task,
        }
    }

    /// What runs, now that the question is confirmed.
    fn into_task(self) -> (task: OrchardPayTask)
        ensures
            task == self.chosen_task(),
    {
        let checked: bool = self.dialog.checkbox_checked();
        match self.task_if_checked {
            Some(task) => if checked {
                task
            } else {
                self.task
            },
            None => self.task,
        }
    }
}

/// The main screen.
pub struct OrchardPayScreen {
    pub orchardpay_subscreen: OrchardPaySubscreen,
    pub identity: Option<Identifier>,
    /// The key that signs, if the identity has one that can.
    pub selected_key: Option<KeyId>,
    /// The wallet of the identity, if it has one.
    pub selected_wallet: Option<WalletSeedHash>,
    pub wallet_open_attempted: bool,
    pub search_query: String,
    pub search_results: Vec<OrchardPayContactSearchResult>,
    pub searching: bool,
    pub checking_new_requests: bool,
    /// The amount in credits to be sent directly, while the field holds a valid one.
    pub direct_send_amount: Option<u64>,
    /// Whether the identity has published its address; `None` while unknown.
    pub has_shielded_address: Option<bool>,
    pub shielded_address_check_dispatched: bool,
    pub recent_activity: Option<Vec<RecentContactActivity>>,
    pub recent_activity_dispatched: bool,
    pub shielded_activity: Option<Vec<ShieldedActivityRow>>,
    pub shielded_activity_dispatched: bool,
    pub pending_identity_refresh: bool,
    pub pending_confirmation: Option<PendingConfirmation>,
    /// The counterparties for whom something runs.
    pub contact_actions: InFlightActions<Identifier>,
}

/// The identity that the screen is about.
pub open spec fn shown_identity(identities: Seq<Identifier>, selected: Option<Identifier>) -> Option<
    Identifier,
> {
    match selected {
        Some(id) if identities.contains(id) => Some(id),
        _ => if identities.len() > 0 {
            Some(identities[0])
        } else {
            None
        },
    }
}

/// The identity that the screen is about: the selected one if it is here, else the
/// first.
pub fn resolve_identity(identities: &Vec<Identifier>, selected: Option<Identifier>) -> (identity:
    Option<Identifier>)
    ensures
        identity == shown_identity(identities@, selected),
{
    if let Some(id) = selected {
        let mut i: usize = 0;
        while i < identities.len()
            invariant
                i <= identities@.len(),
                selected == Some(id),
                forall|j: int| 0 <= j < i ==> identities@[j] != id,
            decreases identities@.len() - i,
        {
            if same_id(&identities[i], &id) {
                assert(identities@.contains(id));
                return Some(id);
            }
            i = i + 1;
        }
    }
    if identities.len() > 0 {
        Some(identities[0])
    } else {
        None
    }
}

/// The state shows that a contact request, or its acceptance, went out.
pub open spec fn landed(state: Option<OrchardPayContactState>) -> bool {
    match state {
        Some(OrchardPayContactState::PendingOutbound { .. }) => true,
        Some(OrchardPayContactState::Established { .. }) => true,
        _ => false,
    }
}

/// The first row for this identity, or the number of rows.
pub open spec fn row_for(results: Seq<OrchardPayContactSearchResult>, id: Identifier) -> int
    decreases results.len(),
{
    if results.len() == 0 {
        0
    } else if results[0].identity_id == id {
        0
    } else {
        1 + row_for(results.skip(1), id)
    }
}

/// The rows with this state in the first row for this identity.
pub open spec fn patched(
    results: Seq<OrchardPayContactSearchResult>,
    id: Identifier,
    state: Option<OrchardPayContactState>,
) -> Seq<OrchardPayContactSearchResult> {
    let i = row_for(results, id);
    if i < results.len() {
        results.update(
            i,
            OrchardPayContactSearchResult { existing_relationship: state, ..results[i] },
        )
    } else {
        results
    }
}

/// The counterparties for whom something still runs after these states were read:
/// those for whom it shows that it has landed are let go.
pub open spec fn still_running(
    running: Set<Identifier>,
    states: Seq<(Identifier, Option<OrchardPayContactState>)>,
) -> Set<Identifier>
    decreases states.len(),
{
    if states.len() == 0 {
        running
    } else {
        let before = still_running(running, states.drop_last());
        if landed(states.last().1) {
            before.remove(states.last().0)
        } else {
            before
        }
    }
}

proof fn lemma_still_running_within(
    running: Set<Identifier>,
    states: Seq<(Identifier, Option<OrchardPayContactState>)>,
)
    ensures
        still_running(running, states).subset_of(running),
    decreases states.len(),
{
    if states.len() > 0 {
        lemma_still_running_within(running, states.drop_last());
    }
}

/// The rows after these states were read: those of whom it shows that something
/// that ran has landed carry the state that was read.
pub open spec fn reconciled(
    results: Seq<OrchardPayContactSearchResult>,
    running: Set<Identifier>,
    states: Seq<(Identifier, Option<OrchardPayContactState>)>,
) -> Seq<OrchardPayContactSearchResult>
    decreases states.len(),
{
    if states.len() == 0 {
        results
    } else {
        let rows = reconciled(results, running, states.drop_last());
        let (id, state) = states.last();
        if landed(state) && still_running(running, states.drop_last()).contains(id) {
            patched(rows, id, state)
        } else {
            rows
        }
    }
}

impl OrchardPayScreen {
    /// The screen before anything was loaded. `cached_address` is what is recorded
    /// of the identity's published address; where that says that there is one,
    /// nobody needs to be asked.
    pub fn new(
        orchardpay_subscreen: OrchardPaySubscreen,
        identity: Option<Identifier>,
        selected_key: Option<KeyId>,
        selected_wallet: Option<WalletSeedHash>,
        cached_address: Option<bool>,
    ) -> (screen: Self)
        ensures
            screen.orchardpay_subscreen == orchardpay_subscreen,
            screen.identity == identity,
            screen.selected_key == selected_key,
            screen.selected_wallet == selected_wallet,
            screen.has_shielded_address == cached_address,
            screen.shielded_address_check_dispatched == (cached_address == Some(true)),
            screen.search_query@.len() == 0,
            screen.search_results@.len() == 0,
            screen.pending_identity_refresh,
            !screen.wallet_open_attempted,
            !screen.searching,
            !screen.checking_new_requests,
            screen.direct_send_amount is None,
            screen.recent_activity is None,
            !screen.recent_activity_dispatched,
            screen.shielded_activity is None,
            !screen.shielded_activity_dispatched,
            screen.pending_confirmation is None,
            screen.contact_actions@ == Map::<Identifier, u128>::empty(),
    {
        OrchardPayScreen {
            orchardpay_subscreen,
            identity,
            selected_key,
            selected_wallet,
            wallet_open_attempted: false,
            search_query: String::new(),
            search_results: Vec::new(),
            searching: false,
            checking_new_requests: false,
            direct_send_amount: None,
            has_shielded_address: cached_address,
            shielded_address_check_dispatched: match cached_address {
                Some(published) => published,
                None => false,
            },
            recent_activity: None,
            recent_activity_dispatched: false,
            shielded_activity: None,
            shielded_activity_dispatched: false,
            pending_identity_refresh: true,
            pending_confirmation: None,
            contact_actions: InFlightActions::new(),
        }
    }

    /// What stands between the identity and the protocol.
    pub open spec fn readiness(self, has_dpns_name: bool, contract_configured: bool) -> LocalReadiness {
        if self.identity is None {
            LocalReadiness::NoIdentity
        } else if !has_dpns_name {
            LocalReadiness::NoDpnsName
        } else if !contract_configured {
            LocalReadiness::ContractNotConfigured
        } else {
            LocalReadiness::ContractConfigured
        }
    }

    /// What stands between the identity and the protocol.
    pub fn compute_local_readiness(&self, has_dpns_name: bool, contract_configured: bool) -> (
        readiness: LocalReadiness)
        ensures
            readiness == self.readiness(has_dpns_name, contract_configured),
    {
        if self.identity.is_none() {
            LocalReadiness::NoIdentity
        } else if !has_dpns_name {
            LocalReadiness::NoDpnsName
        } else if !contract_configured {
            LocalReadiness::ContractNotConfigured
        } else {
            LocalReadiness::ContractConfigured
        }
    }

    /// Whether one can be found by others.
    pub open spec fn gate(self) -> AddressGate {
        match self.has_shielded_address {
            Some(true) => AddressGate::Published,
            Some(false) => AddressGate::NotPublished,
            None => AddressGate::Checking,
        }
    }

    /// Whether one can be found by others. That this is not known is never shown as
    /// if there were no address.
    pub fn address_gate(&self) -> (gate: AddressGate)
        ensures
            gate == self.gate(),
    {
        match self.has_shielded_address {
            Some(true) => AddressGate::Published,
            Some(false) => AddressGate::NotPublished,
            None => AddressGate::Checking,
        }
    }

    /// Turns to a tab.
    pub fn select_tab(&mut self, tab: OrchardPaySubscreen)
        ensures
            *final(self) == (OrchardPayScreen { orchardpay_subscreen: tab, ..*old(self) }),
    {
        self.orchardpay_subscreen = tab;
    }

    /// `after` and `action` are what asking for the balance leads to.
    pub open spec fn balance_asked(self, action: AppAction, after: OrchardPayScreen) -> bool {
        match self.identity {
            Some(id) if self.pending_identity_refresh => action == AppAction::BackendTask(
                BackendTask::RefreshIdentity(id),
            ) && after == (OrchardPayScreen {
                pending_identity_refresh: false,
                ..self
            }),
            _ => action == AppAction::NoAction && after == self,
        }
    }

    /// What the screen asks for by itself when it is drawn: the identity's balance
    /// where that may have changed.
    pub fn take_identity_refresh(&mut self) -> (action: AppAction)
        ensures
            old(self).balance_asked(action, *final(self)),
    {
        match self.identity {
            Some(id) => if self.pending_identity_refresh {
                self.pending_identity_refresh = false;
                AppAction::BackendTask(BackendTask::RefreshIdentity(id))
            } else {
                AppAction::NoAction
            },
            None => AppAction::NoAction,
        }
    }

    /// `after` and `action` are what asking for the published address leads to.
    pub open spec fn address_asked(
        self,
        readiness: LocalReadiness,
        action: AppAction,
        after: OrchardPayScreen,
    ) -> bool {
        match self.identity {
            Some(identity_id) if readiness == LocalReadiness::ContractConfigured && self.has_shielded_address is None && !self.shielded_address_check_dispatched =>
                action.runs(OrchardPayTask::CheckOwnShieldedAddress { identity_id })
                && after == (OrchardPayScreen {
                shielded_address_check_dispatched: true,
                ..self
            }),
            _ => action == AppAction::NoAction && after == self,
        }
    }

    /// What the screen asks for by itself when it is drawn: whether the identity has
    /// published its address. It is asked once, and only where the protocol can be
    /// used and it is not known.
    pub fn take_address_check(&mut self, readiness: LocalReadiness) -> (action: AppAction)
        ensures
            old(self).address_asked(readiness, action, *final(self)),
    {
        match self.identity {
            Some(identity_id) => if readiness == LocalReadiness::ContractConfigured
                && self.has_shielded_address.is_none() && !self.shielded_address_check_dispatched {
                self.shielded_address_check_dispatched = true;
                AppAction::run(OrchardPayTask::CheckOwnShieldedAddress { identity_id })
            } else {
                AppAction::NoAction
            },
            None => AppAction::NoAction,
        }
    }

    /// `after` and `action` are what asking for the latest activity leads to.
    pub open spec fn activity_asked(self, action: AppAction, after: OrchardPayScreen) -> bool {
        match self.identity {
            Some(identity_id) if !self.recent_activity_dispatched && self.recent_activity is None => action.runs(
                OrchardPayTask::LoadRecentActivity { identity_id },
            ) && after == (OrchardPayScreen {
                recent_activity_dispatched: true,
                ..self
            }),
            _ => action == AppAction::NoAction && after == self,
        }
    }

    /// What the lists of contacts ask for by themselves: the latest activity, once.
    pub fn take_recent_activity_load(&mut self) -> (action: AppAction)
        ensures
            old(self).activity_asked(action, *final(self)),
    {
        match self.identity {
            Some(identity_id) => if !self.recent_activity_dispatched
                && self.recent_activity.is_none() {
                self.recent_activity_dispatched = true;
                AppAction::run(OrchardPayTask::LoadRecentActivity { identity_id })
            } else {
                AppAction::NoAction
            },
            None => AppAction::NoAction,
        }
    }

    /// Has the latest activity asked for again.
    pub fn refresh_recent_activity(&mut self)
        ensures
            *final(self) == (OrchardPayScreen {
                recent_activity: None,
                recent_activity_dispatched: false,
                ..*old(self)
            }),
    {
        self.recent_activity = None;
        self.recent_activity_dispatched = false;
    }

    /// `after` and `action` are what asking for the shielded transactions leads to.
    pub open spec fn shielded_asked(self, action: AppAction, after: OrchardPayScreen) -> bool {
        match self.selected_wallet {
            Some(seed_hash) if !self.shielded_activity_dispatched && self.shielded_activity is None => action.runs(
                OrchardPayTask::LoadShieldedActivity { seed_hash },
            ) && after == (OrchardPayScreen {
                shielded_activity_dispatched: true,
                ..self
            }),
            _ => action == AppAction::NoAction && after == self,
        }
    }

    /// What the list of shielded transactions asks for by itself: those, once.
    pub fn take_shielded_activity_load(&mut self) -> (action: AppAction)
        ensures
            old(self).shielded_asked(action, *final(self)),
    {
        match self.selected_wallet {
            Some(seed_hash) => if !self.shielded_activity_dispatched
                && self.shielded_activity.is_none() {
                self.shielded_activity_dispatched = true;
                AppAction::run(OrchardPayTask::LoadShieldedActivity { seed_hash })
            } else {
                AppAction::NoAction
            },
            None => AppAction::NoAction,
        }
    }

    /// Has the shielded transactions asked for again.
    pub fn refresh_shielded_activity(&mut self)
        ensures
            *final(self) == (OrchardPayScreen {
                shielded_activity: None,
                shielded_activity_dispatched: false,
                ..*old(self)
            }),
    {
        self.shielded_activity = None;
        self.shielded_activity_dispatched = false;
    }

    /// `after` and `action` are what a search leads to.
    pub open spec fn search_asked(self, action: AppAction, after: OrchardPayScreen) -> bool {
        match self.identity {
            Some(owner_identity_id) if text::trimmed(self.search_query@).len() > 0 =>
                action.runs(
                OrchardPayTask::SearchContacts {
                    search_query: self.search_query,
                    owner_identity_id,
                },
            ) && after == (OrchardPayScreen { searching: true, ..self }),
            _ => action == AppAction::NoAction && after == self,
        }
    }

    /// Searches for what the field holds, unless that is blank.
    pub fn search_clicked(&mut self) -> (action: AppAction)
        ensures
            old(self).search_asked(action, *final(self)),
    {
        let term: String = text::trim(self.search_query.as_str());
        if text::is_empty_text(term.as_str()) {
            return AppAction::NoAction;
        }
        match self.identity {
            Some(owner_identity_id) => {
                self.searching = true;
                AppAction::run(
                    OrchardPayTask::SearchContacts {
                        search_query: self.search_query.clone(),
                        owner_identity_id,
                    },
                )
            },
            None => AppAction::NoAction,
        }
    }

    /// What can be done with somebody found, on the tab for new contacts.
    pub fn add_contact_row(
        &self,
        result: &OrchardPayContactSearchResult,
        credit_blocked: bool,
    ) -> (standing: SearchStanding)
        ensures
            standing == contact_list::search_standing_of(
                *result,
                self.contact_actions@.dom().contains(result.identity_id),
                !credit_blocked,
            ),
    {
        let in_flight: bool = self.contact_actions.is_in_flight(&result.identity_id);
        search_standing(result, in_flight, !credit_blocked)
    }

    /// What can be done with somebody found, on the tab for direct payments: without
    /// a valid amount the button is out of use.
    pub fn direct_send_row(
        &self,
        result: &OrchardPayContactSearchResult,
        credit_blocked: bool,
    ) -> (standing: SearchStanding)
        ensures
            standing == contact_list::search_standing_of(
                *result,
                self.contact_actions@.dom().contains(result.identity_id),
                !credit_blocked && self.direct_send_amount is Some,
            ),
    {
        let in_flight: bool = self.contact_actions.is_in_flight(&result.identity_id);
        search_standing(result, in_flight, !credit_blocked && self.direct_send_amount.is_some())
    }

    /// The most that can be sent directly.
    pub open spec fn send_limit(self, shielded_balance: u64, fee: u64) -> Option<u64> {
        if self.selected_wallet is Some {
            Some(
                if shielded_balance >= fee {
                    (shielded_balance - fee) as u64
                } else {
                    0
                },
            )
        } else {
            None
        }
    }

    /// The most that can be sent directly: what is left of the shielded balance
    /// after the fee.
    pub fn direct_send_limit(&self, shielded_balance: u64, fee: u64) -> (limit: Option<u64>)
        ensures
            limit == self.send_limit(shielded_balance, fee),
    {
        if self.selected_wallet.is_none() {
            return None;
        }
        Some(
            if shielded_balance >= fee {
                shielded_balance - fee
            } else {
                0
            },
        )
    }

    /// `action` is what rebuilding contacts leads to.
    pub open spec fn recovery_asked(self, action: AppAction) -> bool {
        match (self.identity, self.selected_wallet) {
            (Some(identity_id), Some(seed_hash)) => action.runs(
                OrchardPayTask::RecoverContacts { identity_id, seed_hash },
            ),
            _ => action == AppAction::NoAction,
        }
    }

    /// Rebuilds contacts from what the identity has published.
    pub fn recover_contacts_clicked(&self) -> (action: AppAction)
        ensures
            self.recovery_asked(action),
    {
        match (self.identity, self.selected_wallet) {
            (Some(identity_id), Some(seed_hash)) => AppAction::run(
                OrchardPayTask::RecoverContacts { identity_id, seed_hash },
            ),
            _ => AppAction::NoAction,
        }
    }

    /// `after` and `action` are what looking for new requests leads to.
    pub open spec fn requests_asked(self, action: AppAction, after: OrchardPayScreen) -> bool {
        match (self.identity, self.selected_wallet) {
            (Some(identity_id), Some(seed_hash)) => action.task() matches Some(
                OrchardPayTask::ScanForIncomingAnchors { identity_ids, seed_hash: hash },
            ) && identity_ids@ == seq![identity_id] && hash == seed_hash && after
                == (OrchardPayScreen { checking_new_requests: true, ..self }),
            _ => action == AppAction::NoAction && after == self,
        }
    }

    /// Looks for new requests to this identity.
    pub fn check_new_requests_clicked(&mut self) -> (action: AppAction)
        ensures
            old(self).requests_asked(action, *final(self)),
    {
        match (self.identity, self.selected_wallet) {
            (Some(identity_id), Some(seed_hash)) => {
                self.checking_new_requests = true;
                let mut identity_ids: Vec<Identifier> = Vec::new();
                identity_ids.push(identity_id);
                assert(identity_ids@ =~= seq![identity_id]);
                AppAction::run(OrchardPayTask::ScanForIncomingAnchors { identity_ids, seed_hash })
            },
            _ => AppAction::NoAction,
        }
    }

    /// This is `before` with a question put to the user.
    pub open spec fn asks(
        self,
        before: OrchardPayScreen,
        title: Seq<char>,
        message: Seq<char>,
        danger_mode: bool,
        checkbox: Option<Seq<char>>,
        task: OrchardPayTask,
        task_if_checked: Option<OrchardPayTask>,
        key: Identifier,
    ) -> bool {
        &&& self == (OrchardPayScreen {
            pending_confirmation: self.pending_confirmation,
            ..before
        })
        &&& self.pending_confirmation matches Some(pending) && pending.dialog.reads(
            title,
            message,
            danger_mode,
            checkbox,
        ) && pending.task == task && pending.task_if_checked == task_if_checked && pending.key
            == key
    }

    /// Puts a question to the user. Nothing runs before it is answered.
    fn open_confirmation(
        &mut self,
        title: &str,
        message: String,
        danger_mode: bool,
        checkbox: Option<&str>,
        task: OrchardPayTask,
        task_if_checked: Option<OrchardPayTask>,
        key: Identifier,
    )
        ensures
            final(self).asks(
                *old(self),
                title@,
                message@,
                danger_mode,
                match checkbox {
                    None => None,
                    Some(label) => Some(label@),
                },
                task,
                task_if_checked,
                key,
            ),
    {
        self.pending_confirmation = Some(
            PendingConfirmation {
                dialog: ConfirmationDialog::new(title, message, danger_mode, checkbox),
                task,
                task_if_checked,
                key,
            },
        );
    }

    /// `after` is what a click on the button to accept leads to.
    pub open spec fn accept_asked(
        self,
        counterparty_identity_id: Identifier,
        display_name: Seq<char>,
        after: OrchardPayScreen,
    ) -> bool {
        match (self.identity, self.selected_key, self.selected_wallet) {
            (Some(identity_id), Some(identity_key), Some(seed_hash)) => after.asks(
                self,
                "Accept Contact Request"@,
                "Accept the contact request from "@ + display_name + "?"@,
                false,
                None,
                OrchardPayTask::AcceptContact {
                    identity_id,
                    identity_key,
                    counterparty_identity_id,
                    seed_hash,
                },
                None,
                counterparty_identity_id,
            ),
            _ => after == self,
        }
    }

    /// Asks whether a request is to be accepted. `display_name` is how the
    /// counterparty is shown.
    pub fn accept_clicked(&mut self, counterparty_identity_id: Identifier, display_name: &str)
        ensures
            old(self).accept_asked(counterparty_identity_id, display_name@, *final(self)),
    {
        if let (Some(identity_id), Some(identity_key), Some(seed_hash)) = (
            self.identity,
            self.selected_key,
            self.selected_wallet,
        ) {
            let message: String = text::joined3(
                "Accept the contact request from ",
                display_name,
                "?",
            );
            self.open_confirmation(
                "Accept Contact Request",
                message,
                false,
                None,
                OrchardPayTask::AcceptContact {
                    identity_id,
                    identity_key,
                    counterparty_identity_id,
                    seed_hash,
                },
                None,
                counterparty_identity_id,
            );
        }
    }

    /// `after` is what a click on the button to add a contact leads to.
    pub open spec fn initiate_asked(
        self,
        counterparty_identity_id: Identifier,
        counterparty_name: String,
        limits: SendLimits,
        after: OrchardPayScreen,
    ) -> bool {
        match (self.identity, self.selected_key, self.selected_wallet) {
            (Some(identity_id), Some(identity_key), Some(seed_hash)) => after.asks(
                self,
                "Send Contact Request"@,
                "Send a contact request to "@ + counterparty_name@ + "?"@,
                false,
                None,
                OrchardPayTask::InitiateContact {
                    identity_id,
                    identity_key,
                    counterparty_identity_id,
                    counterparty_name,
                    seed_hash,
                    amount_credits: limits.min_amount,
                },
                None,
                counterparty_identity_id,
            ),
            _ => after == self,
        }
    }

    /// Asks whether a contact request is to be sent. The transfer that signals it has
    /// the least amount that may be sent.
    pub fn initiate_clicked(
        &mut self,
        counterparty_identity_id: Identifier,
        counterparty_name: String,
        limits: &SendLimits,
    )
        ensures
            old(self).initiate_asked(counterparty_identity_id, counterparty_name, *limits, *final(self)),
    {
        if let (Some(identity_id), Some(identity_key), Some(seed_hash)) = (
            self.identity,
            self.selected_key,
            self.selected_wallet,
        ) {
            let message: String = text::joined3(
                "Send a contact request to ",
                counterparty_name.as_str(),
                "?",
            );
            self.open_confirmation(
                "Send Contact Request",
                message,
                false,
                None,
                OrchardPayTask::InitiateContact {
                    identity_id,
                    identity_key,
                    counterparty_identity_id,
                    counterparty_name,
                    seed_hash,
                    amount_credits: limits.min_amount,
                },
                None,
                counterparty_identity_id,
            );
        }
    }

    /// `after` is what a click on the button to pay leads to.
    pub open spec fn direct_send_asked(
        self,
        counterparty_identity_id: Identifier,
        counterparty_name: String,
        amount_text: Seq<char>,
        after: OrchardPayScreen,
    ) -> bool {
        match (
            self.direct_send_amount,
            self.identity,
            self.selected_key,
            self.selected_wallet,
        ) {
            (Some(amount), Some(identity_id), Some(identity_key), Some(seed_hash)) => after.asks(
                self,
                "Confirm Direct Send"@,
                "Send "@ + amount_text + " to "@ + contact_search::shown_name(
                    counterparty_name@,
                ) + "?"@,
                true,
                Some("Include a contact request?"@),
                OrchardPayTask::SendDirect {
                    owner_identity_id: identity_id,
                    counterparty_identity_id,
                    seed_hash,
                    amount,
                },
                Some(
                    OrchardPayTask::InitiateContact {
                        identity_id,
                        identity_key,
                        counterparty_identity_id,
                        counterparty_name,
                        seed_hash,
                        amount_credits: amount,
                    },
                ),
                counterparty_identity_id,
            ),
            _ => after == self,
        }
    }

    /// Asks whether the amount of the field is to be sent, and whether a contact
    /// request is to go with it: then the same amount travels with that request.
    /// `amount_text` spells the amount.
    pub fn direct_send_clicked(
        &mut self,
        counterparty_identity_id: Identifier,
        counterparty_name: String,
        amount_text: &str,
    )
        ensures
            old(self).direct_send_asked(
                counterparty_identity_id,
                counterparty_name,
                amount_text@,
                *final(self),
            ),
    {
        if let (Some(amount), Some(identity_id), Some(identity_key), Some(seed_hash)) = (
            self.direct_send_amount,
            self.identity,
            self.selected_key,
            self.selected_wallet,
        ) {
            let head: String = text::joined3("Send ", amount_text, " to ");
            let display_name: String = strip_dash_suffix(counterparty_name.as_str());
            let message: String = text::joined3(head.as_str(), display_name.as_str(), "?");
            self.open_confirmation(
                "Confirm Direct Send",
                message,
                true,
                Some("Include a contact request?"),
                OrchardPayTask::SendDirect {
                    owner_identity_id: identity_id,
                    counterparty_identity_id,
                    seed_hash,
                    amount,
                },
                Some(
                    OrchardPayTask::InitiateContact {
                        identity_id,
                        identity_key,
                        counterparty_identity_id,
                        counterparty_name,
                        seed_hash,
                        amount_credits: amount,
                    },
                ),
                counterparty_identity_id,
            );
        }
    }

    /// `after` and `action` are what this answer leads to.
    pub open spec fn answered(
        self,
        status: Option<ConfirmationStatus>,
        action: AppAction,
        after: OrchardPayScreen,
    ) -> bool {
        match (status, self.pending_confirmation) {
            (Some(ConfirmationStatus::Confirmed), Some(pending)) => {
                &&& after == (OrchardPayScreen {
                    pending_confirmation: None,
                    contact_actions: after.contact_actions,
                    ..self
                })
                &&& after.contact_actions.origin() == self.contact_actions.origin()
                &&& if self.contact_actions@.dom().contains(pending.key) {
                    action == AppAction::NoAction && after.contact_actions@ == self.contact_actions@
                } else {
                    action.runs(pending.chosen_task()) && exists|now: u128|
                        after.contact_actions@ == #[trigger] self.contact_actions@.insert(pending.key, now)
                }
            },
            (Some(ConfirmationStatus::Canceled), Some(_)) => action == AppAction::NoAction
                && after == (OrchardPayScreen {
                pending_confirmation: None,
                ..self
            }),
            _ => action == AppAction::NoAction && after == self,
        }
    }

    /// Takes in the answer to the question, if there is one. A confirmed task runs
    /// only if nothing runs for the same counterparty already.
    pub fn render_pending_confirmation(&mut self, status: Option<ConfirmationStatus>) -> (action:
        AppAction)
        ensures
            old(self).answered(status, action, *final(self)),
    {
        let mut taken: Option<PendingConfirmation> = None;
        std::mem::swap(&mut taken, &mut self.pending_confirmation);
        match (status, taken) {
            (Some(ConfirmationStatus::Confirmed), Some(pending)) => {
                if self.contact_actions.begin(pending.key) {
                    AppAction::run(pending.into_task())
                } else {
                    AppAction::NoAction
                }
            },
            (Some(ConfirmationStatus::Canceled), Some(_)) => AppAction::NoAction,
            (_, kept) => {
                self.pending_confirmation = kept;
                AppAction::NoAction
            },
        }
    }

    /// This is `before` after these states were read.
    pub open spec fn reconciled_from(
        self,
        before: OrchardPayScreen,
        states: Seq<(Identifier, Option<OrchardPayContactState>)>,
    ) -> bool {
        &&& self == (OrchardPayScreen {
            search_results: self.search_results,
            contact_actions: self.contact_actions,
            ..before
        })
        &&& self.contact_actions@ == before.contact_actions@.restrict(
            still_running(before.contact_actions@.dom(), states),
        )
        &&& self.contact_actions.origin() == before.contact_actions.origin()
        &&& self.search_results@ == reconciled(
            before.search_results@,
            before.contact_actions@.dom(),
            states,
        )
    }

    /// Lets go of the counterparties for whom the states that were read show that
    /// what ran has landed, and shows that in their rows. The others keep running.
    pub fn reconcile_contact_actions(
        &mut self,
        states: Vec<(Identifier, Option<OrchardPayContactState>)>,
    )
        ensures
            final(self).reconciled_from(*old(self), states@),
    {
        let ghost all = states@;
        let ghost before = *old(self);
        let ghost running = before.contact_actions@;
        assert(all.take(0) =~= Seq::empty());
        assert(running.restrict(running.dom()) =~= running);
        for entry in iter: states
            invariant
                iter.seq() == all,
                before == *old(self),
                running == before.contact_actions@,
                self.reconciled_from(before, all.take(iter.index() as int)),
        {
            let ghost i = iter.index() as int;
            assert(all.take(i + 1).drop_last() =~= all.take(i));
            assert(all.take(i + 1).last() == entry);
            proof {
                let left = still_running(running.dom(), all.take(i));
                lemma_still_running_within(running.dom(), all.take(i));
                assert(running.restrict(left).dom() =~= left);
                assert(running.restrict(left).remove(entry.0) =~= running.restrict(
                    left.remove(entry.0),
                ));
            }
            self.reconcile_one(entry.0, entry.1);
        }
        assert(all.take(all.len() as int) =~= all);
    }

    fn reconcile_one(&mut self, key: Identifier, state: Option<OrchardPayContactState>)
        ensures
            *final(self) == (OrchardPayScreen {
                search_results: final(self).search_results,
                contact_actions: final(self).contact_actions,
                ..*old(self)
            }),
            final(self).contact_actions@ == if landed(state) {
                old(self).contact_actions@.remove(key)
            } else {
                old(self).contact_actions@
            },
            final(self).contact_actions.origin() == old(self).contact_actions.origin(),
            final(self).search_results@ == if landed(state) && old(self).contact_actions@.dom().contains(key) {
                patched(old(self).search_results@, key, state)
            } else {
                old(self).search_results@
            },
    {
        let has_landed: bool = match &state {
            Some(OrchardPayContactState::PendingOutbound { .. }) => true,
            Some(OrchardPayContactState::Established { .. }) => true,
            _ => false,
        };
        if !has_landed || !self.contact_actions.is_in_flight(&key) {
            assert(has_landed ==> self.contact_actions@ =~= self.contact_actions@.remove(key));
            return;
        }
        self.contact_actions.release(&key);
        let i: usize = find_row(&self.search_results, &key);
        if i < self.search_results.len() {
            let row: OrchardPayContactSearchResult = OrchardPayContactSearchResult {
                identity_id: self.search_results[i].identity_id,
                username: self.search_results[i].username.clone(),
                contactable: self.search_results[i].contactable,
                existing_relationship: state,
            };
            self.search_results.set(i, row);
        }
    }

    /// Takes in that a contact request or a direct payment went out, if the result
    /// says so, and tells whether it does. `states` are the states that are recorded
    /// of the counterparties for whom something runs.
    pub fn handle_contact_send_result(
        &mut self,
        result: &BackendTaskSuccessResult,
        states: Vec<(Identifier, Option<OrchardPayContactState>)>,
    ) -> (handled: bool)
        ensures
            match *result {
                BackendTaskSuccessResult::BroadcastedDocument(_) => handled && final(self).reconciled_from(
                    (OrchardPayScreen { pending_identity_refresh: true, ..*old(self) }),
                    if old(self).identity is Some {
                        states@
                    } else {
                        Seq::empty()
                    },
                ),
                BackendTaskSuccessResult::OrchardPayDirectSendCompleted {
                    counterparty_identity_id,
                    ..
                } => handled && *final(self) == (OrchardPayScreen {
                    direct_send_amount: None,
                    contact_actions: final(self).contact_actions,
                    ..*old(self)
                }) && final(self).contact_actions@ == old(self).contact_actions@.remove(
                    counterparty_identity_id,
                ) && final(self).contact_actions.origin() == old(self).contact_actions.origin(),
                _ => !handled && *final(self) == *old(self),
            },
    {
        match result {
            BackendTaskSuccessResult::BroadcastedDocument(_) => {
                self.pending_identity_refresh = true;
                assert(self.contact_actions@.restrict(self.contact_actions@.dom())
                    =~= self.contact_actions@);
                if self.identity.is_some() {
                    self.reconcile_contact_actions(states);
                }
                true
            },
            BackendTaskSuccessResult::OrchardPayDirectSendCompleted {
                counterparty_identity_id,
                ..
            } => {
                self.contact_actions.release(counterparty_identity_id);
                self.direct_send_amount = None;
                true
            },
            _ => false,
        }
    }

    /// Takes the identity anew, as when the screen is entered again, and has
    /// everything asked for again. Guards that have lasted too long are dropped.
    pub fn refresh(
        &mut self,
        identity: Option<Identifier>,
        selected_key: Option<KeyId>,
        selected_wallet: Option<WalletSeedHash>,
        cached_address: Option<bool>,
    )
        ensures
            *final(self) == (OrchardPayScreen {
                identity,
                selected_key,
                selected_wallet,
                wallet_open_attempted: false,
                has_shielded_address: cached_address,
                shielded_address_check_dispatched: cached_address == Some(true),
                recent_activity: None,
                recent_activity_dispatched: false,
                shielded_activity: None,
                shielded_activity_dispatched: false,
                pending_identity_refresh: true,
                contact_actions: final(self).contact_actions,
                ..*old(self)
            }),
            exists|now: u128|
                final(self).contact_actions@ == #[trigger] in_flight_actions::fresh_at(
                    old(self).contact_actions@,
                    now,
                ),
            final(self).contact_actions.origin() == old(self).contact_actions.origin(),
    {
        self.identity = identity;
        self.selected_key = selected_key;
        self.selected_wallet = selected_wallet;
        self.wallet_open_attempted = false;
        self.has_shielded_address = cached_address;
        self.shielded_address_check_dispatched = match cached_address {
            Some(published) => published,
            None => false,
        };
        self.recent_activity = None;
        self.recent_activity_dispatched = false;
        self.shielded_activity = None;
        self.shielded_activity_dispatched = false;
        self.pending_identity_refresh = true;
        self.contact_actions.prune_stale();
    }

    /// `after` is this after the user was told something.
    pub open spec fn told(self, message_type: MessageType, after: OrchardPayScreen) -> bool {
        if message_type == MessageType::Error || message_type == MessageType::Warning {
            after == (OrchardPayScreen {
                searching: false,
                checking_new_requests: false,
                shielded_address_check_dispatched: self.shielded_address_check_dispatched
                    && self.has_shielded_address is Some,
                contact_actions: after.contact_actions,
                ..self
            }) && after.contact_actions@ == Map::<Identifier, u128>::empty()
                && after.contact_actions.origin() == self.contact_actions.origin()
        } else {
            after == self
        }
    }

    /// Takes in that the user was told something. After an error or a warning
    /// nothing is under way any more, and an unanswered question for the published
    /// address may be put again.
    pub fn display_message(&mut self, message_type: MessageType)
        ensures
            old(self).told(message_type, *final(self)),
    {
        if message_type == MessageType::Error || message_type == MessageType::Warning {
            self.searching = false;
            self.checking_new_requests = false;
            if self.has_shielded_address.is_none() {
                self.shielded_address_check_dispatched = false;
            }
            self.contact_actions.clear();
        }
    }

    /// `after` is this with the result taken in.
    pub open spec fn takes_in(
        self,
        result: BackendTaskSuccessResult,
        states: Seq<(Identifier, Option<OrchardPayContactState>)>,
        after: OrchardPayScreen,
    ) -> bool {
        match result {
            BackendTaskSuccessResult::BroadcastedDocument(_) => after.reconciled_from(
                (OrchardPayScreen { pending_identity_refresh: true, ..self }),
                if self.identity is Some {
                    states
                } else {
                    Seq::empty()
                },
            ),
            BackendTaskSuccessResult::OrchardPayDirectSendCompleted {
                counterparty_identity_id,
                ..
            } => after == (OrchardPayScreen {
                direct_send_amount: None,
                contact_actions: after.contact_actions,
                ..self
            }) && after.contact_actions@ == self.contact_actions@.remove(
                counterparty_identity_id,
            ) && after.contact_actions.origin() == self.contact_actions.origin(),
            BackendTaskSuccessResult::OrchardPayContactSearchResults(results) => after
                == (OrchardPayScreen {
                search_results: results,
                searching: false,
                ..self
            }),
            BackendTaskSuccessResult::OrchardPayOwnShieldedAddressStatus {
                identity_id,
                published,
            } => after == if self.identity == Some(identity_id) {
                OrchardPayScreen { has_shielded_address: Some(published), ..self }
            } else {
                self
            },
            BackendTaskSuccessResult::OrchardPayRecentActivity(entries) => after
                == (OrchardPayScreen { recent_activity: Some(entries), ..self }),
            BackendTaskSuccessResult::OrchardPayShieldedActivity(rows) => after
                == (OrchardPayScreen { shielded_activity: Some(rows), ..self }),
            BackendTaskSuccessResult::OrchardPayIncomingAnchorsScanned { .. } => after
                == (OrchardPayScreen { checking_new_requests: false, ..self }),
            _ => after == self,
        }
    }

    /// Takes in what a task resulted in. `states` are the states that are recorded of
    /// the counterparties for whom something runs.
    pub fn display_task_result(
        &mut self,
        result: BackendTaskSuccessResult,
        states: Vec<(Identifier, Option<OrchardPayContactState>)>,
    )
        ensures
            old(self).takes_in(result, states@, *final(self)),
    {
        if self.handle_contact_send_result(&result, states) {
            return;
        }
        match result {
            BackendTaskSuccessResult::OrchardPayContactSearchResults(results) => {
                self.search_results = results;
                self.searching = false;
            },
            BackendTaskSuccessResult::OrchardPayOwnShieldedAddressStatus {
                identity_id,
                published,
            } => {
                if let Some(id) = &self.identity {
                    if same_id(id, &identity_id) {
                        self.has_shielded_address = Some(published);
                    }
                }
            },
            BackendTaskSuccessResult::OrchardPayRecentActivity(entries) => {
                self.recent_activity = Some(entries);
            },
            BackendTaskSuccessResult::OrchardPayShieldedActivity(rows) => {
                self.shielded_activity = Some(rows);
            },
            BackendTaskSuccessResult::OrchardPayIncomingAnchorsScanned { .. } => {
                self.checking_new_requests = false;
            },
            _ => {},
        }
    }
}

fn find_row(results: &Vec<OrchardPayContactSearchResult>, id: &Identifier) -> (i: usize)
    ensures
        i == row_for(results@, *id),
        i <= results@.len(),
{
    let mut i: usize = 0;
    assert(results@.skip(0) =~= results@);
    while i < results.len()
        invariant
            i <= results@.len(),
            row_for(results@, *id) == i + row_for(results@.skip(i as int), *id),
        decreases results@.len() - i,
    {
        assert(results@.skip(i as int)[0] == results@[i as int]);
        assert(results@.skip(i as int).skip(1) =~= results@.skip(i + 1));
        if same_id(&results[i].identity_id, id) {
            return i;
        }
        i = i + 1;
    }
    i
}

/// The tabs of the screen with their labels, in order.
pub fn tabs() -> (items: Vec<(&'static str, OrchardPaySubscreen)>)
    ensures
        items@.len() == 8,
        items@[0].0@ == "Most Recent"@ && items@[0].1 == OrchardPaySubscreen::MostRecent,
        items@[1].0@ == "Contacts"@ && items@[1].1 == OrchardPaySubscreen::Contacts,
        items@[2].0@ == "Send Friend Request"@ && items@[2].1 == OrchardPaySubscreen::AddContact,
        items@[3].0@ == "Direct Send"@ && items@[3].1 == OrchardPaySubscreen::DirectSend,
        items@[4].0@ == "Shielded TXs"@ && items@[4].1 == OrchardPaySubscreen::Payments,
        items@[5].0@ == "Profile"@ && items@[5].1 == OrchardPaySubscreen::Profile,
        items@[6].0@ == "About"@ && items@[6].1 == OrchardPaySubscreen::About,
        items@[7].0@ == "QC Warning"@ && items@[7].1 == OrchardPaySubscreen::QcWarning,
{
    let mut items: Vec<(&'static str, OrchardPaySubscreen)> = Vec::new();
    items.push(("Most Recent", OrchardPaySubscreen::MostRecent));
    items.push(("Contacts", OrchardPaySubscreen::Contacts));
    items.push(("Send Friend Request", OrchardPaySubscreen::AddContact));
    items.push(("Direct Send", OrchardPaySubscreen::DirectSend));
    items.push(("Shielded TXs", OrchardPaySubscreen::Payments));
    items.push(("Profile", OrchardPaySubscreen::Profile));
    items.push(("About", OrchardPaySubscreen::About));
    items.push(("QC Warning", OrchardPaySubscreen::QcWarning));
    items
}

/// Two things that run at once do not let go of each other: somebody of whom no
/// state shows that what runs has landed stays guarded.
pub proof fn what_has_not_landed_stays_guarded(
    running: Set<Identifier>,
    states: Seq<(Identifier, Option<OrchardPayContactState>)>,
    id: Identifier,
)
    requires
        running.contains(id),
        forall|i: int|
            0 <= i < states.len() && (#[trigger] states[i]).0 == id ==> !landed(states[i].1),
    ensures
        still_running(running, states).contains(id),
    decreases states.len(),
{
    if states.len() > 0 {
        assert(states[states.len() - 1] == states.last());
        assert forall|i: int|
            0 <= i < states.drop_last().len() && (#[trigger] states.drop_last()[i]).0
                == id implies !landed(states.drop_last()[i].1) by {
            assert(states[i] == states.drop_last()[i]);
        }
        what_has_not_landed_stays_guarded(running, states.drop_last(), id);
    }
}

/// Somebody of whom a state shows that what ran has landed is let go.
pub proof fn what_has_landed_is_let_go(
    running: Set<Identifier>,
    states: Seq<(Identifier, Option<OrchardPayContactState>)>,
    i: int,
)
    requires
        0 <= i < states.len(),
        landed(states[i].1),
    ensures
        !still_running(running, states).contains(states[i].0),
    decreases states.len(),
{
    if i < states.len() - 1 {
        assert(states.drop_last()[i] == states[i]);
        what_has_landed_is_let_go(running, states.drop_last(), i);
    }
}

proof fn lemma_row_for(results: Seq<OrchardPayContactSearchResult>, id: Identifier)
    ensures
        0 <= row_for(results, id) <= results.len(),
        row_for(results, id) < results.len() ==> results[row_for(results, id)].identity_id == id,
    decreases results.len(),
{
    if results.len() > 0 && results[0].identity_id != id {
        lemma_row_for(results.skip(1), id);
        let k = row_for(results.skip(1), id);
        if k < results.skip(1).len() {
            assert(results.skip(1)[k] == results[k + 1]);
        }
    }
}

/// No state is made up: after a reconciliation each row says of the same person
/// what it said before, or what was read of them.
pub proof fn rows_show_only_what_was_read(
    results: Seq<OrchardPayContactSearchResult>,
    running: Set<Identifier>,
    states: Seq<(Identifier, Option<OrchardPayContactState>)>,
    k: int,
)
    requires
        0 <= k < results.len(),
    ensures
        reconciled(results, running, states).len() == results.len(),
        ({
            let row = reconciled(results, running, states)[k];
            &&& row == (OrchardPayContactSearchResult {
                existing_relationship: row.existing_relationship,
                ..results[k]
            })
            &&& row.existing_relationship == results[k].existing_relationship || states.contains(
                (row.identity_id, row.existing_relationship),
            )
        }),
    decreases states.len(),
{
    if states.len() > 0 {
        let earlier = states.drop_last();
        rows_show_only_what_was_read(results, running, earlier, k);
        let rows = reconciled(results, running, earlier);
        let (id, state) = states.last();
        lemma_row_for(rows, id);
        let row = reconciled(results, running, states)[k];
        assert(states[states.len() - 1] == (id, state));
        if row.existing_relationship != results[k].existing_relationship {
            if rows[k] == row && earlier.contains((row.identity_id, row.existing_relationship)) {
                let j = choose|j: int|
                    0 <= j < earlier.len() && earlier[j] == (
                        row.identity_id,
                        row.existing_relationship,
                    );
                assert(states[j] == earlier[j]);
            }
        }
    }
}

/// The screen is about the selected identity wherever it is here, and about some
/// identity wherever there is one.
pub proof fn the_selected_identity_is_shown(identities: Seq<Identifier>, id: Identifier)
    ensures
        identities.contains(id) ==> shown_identity(identities, Some(id)) == Some(id),
        !identities.contains(id) ==> shown_identity(identities, Some(id)) == shown_identity(
            identities,
            None,
        ),
        shown_identity(identities, None) is None <==> identities.len() == 0,
        identities.len() > 0 ==> shown_identity(identities, None) == Some(identities[0]),
{
}

/// Only a request of one's own that is out, or a contact that is established, shows
/// that something has landed.
pub proof fn only_what_went_out_has_landed(state: OrchardPayContactState)
    ensures
        landed(Some(state)) <==> state is PendingOutbound || state is Established,
        !landed(None),
{
}

/// What is missing first is told first: an identity, its name, the contract.
pub proof fn what_is_missing_is_told_in_order(
    screen: OrchardPayScreen,
    named: bool,
    configured: bool,
)
    ensures
        screen.readiness(named, configured) == LocalReadiness::NoIdentity
            <==> screen.identity is None,
        screen.readiness(named, configured) == LocalReadiness::NoDpnsName
            <==> screen.identity is Some && !named,
        screen.readiness(named, configured) == LocalReadiness::ContractNotConfigured
            <==> screen.identity is Some && named && !configured,
        screen.readiness(named, configured) == LocalReadiness::ContractConfigured
            <==> screen.identity is Some && named && configured,
{
}

/// An address counts as missing only where it is known to be, and as published only
/// where that is known.
pub proof fn unknown_addresses_are_not_missing(screen: OrchardPayScreen)
    ensures
        screen.gate() == AddressGate::Published <==> screen.has_shielded_address == Some(true),
        screen.gate() == AddressGate::NotPublished <==> screen.has_shielded_address == Some(false),
        screen.gate() == AddressGate::Checking <==> screen.has_shielded_address is None,
{
}

/// The balance is asked for where it may have changed, for the identity shown, and
/// once.
pub proof fn balances_are_asked_for_once(
    screen: OrchardPayScreen,
    action: AppAction,
    after: OrchardPayScreen,
)
    requires
        screen.balance_asked(action, after),
    ensures
        !(action is NoAction) <==> screen.identity is Some && screen.pending_identity_refresh,
        !(action is NoAction) ==> action == AppAction::BackendTask(
            BackendTask::RefreshIdentity(screen.identity->0),
        ) && !after.pending_identity_refresh,
        action is NoAction ==> after == screen,
{
}

/// The published address is asked for where it is not known and the protocol can be
/// used, for the identity shown, and once.
pub proof fn addresses_are_asked_for_once(
    screen: OrchardPayScreen,
    readiness: LocalReadiness,
    action: AppAction,
    after: OrchardPayScreen,
)
    requires
        screen.address_asked(readiness, action, after),
    ensures
        !(action is NoAction) <==> screen.identity is Some && readiness is ContractConfigured
            && screen.has_shielded_address is None && !screen.shielded_address_check_dispatched,
        !(action is NoAction) ==> action.task() == Some(
            OrchardPayTask::CheckOwnShieldedAddress { identity_id: screen.identity->0 },
        ) && after.shielded_address_check_dispatched,
        action is NoAction ==> after == screen,
        after.has_shielded_address == screen.has_shielded_address,
{
}

/// What the lists show is asked for where it is not there, and once: the activity of
/// the identity, and the transactions of the wallet.
pub proof fn lists_are_asked_for_once(
    screen: OrchardPayScreen,
    action: AppAction,
    after: OrchardPayScreen,
)
    ensures
        screen.activity_asked(action, after) ==> {
            &&& !(action is NoAction) <==> screen.identity is Some
                && !screen.recent_activity_dispatched && screen.recent_activity is None
            &&& !(action is NoAction) ==> action.task() == Some(
                OrchardPayTask::LoadRecentActivity { identity_id: screen.identity->0 },
            ) && after.recent_activity_dispatched
            &&& action is NoAction ==> after == screen
        },
        screen.shielded_asked(action, after) ==> {
            &&& !(action is NoAction) <==> screen.selected_wallet is Some
                && !screen.shielded_activity_dispatched && screen.shielded_activity is None
            &&& !(action is NoAction) ==> action.task() == Some(
                OrchardPayTask::LoadShieldedActivity { seed_hash: screen.selected_wallet->0 },
            ) && after.shielded_activity_dispatched
            &&& action is NoAction ==> after == screen
        },
{
}

/// A search runs for what the field holds, unless that is blank or nobody searches.
pub proof fn searches_run_for_what_was_entered(
    screen: OrchardPayScreen,
    action: AppAction,
    after: OrchardPayScreen,
)
    requires
        screen.search_asked(action, after),
    ensures
        !(action is NoAction) <==> screen.identity is Some && text::trimmed(
            screen.search_query@,
        ).len() > 0,
        !(action is NoAction) ==> action.task() == Some(
            OrchardPayTask::SearchContacts {
                search_query: screen.search_query,
                owner_identity_id: screen.identity->0,
            },
        ) && after.searching,
        action is NoAction ==> after == screen,
        after.search_results == screen.search_results,
{
}

/// New requests are looked for with the identity shown alone, and contacts are
/// rebuilt for it, wherever it has a wallet.
pub proof fn requests_are_looked_for_with_a_wallet(
    screen: OrchardPayScreen,
    action: AppAction,
    after: OrchardPayScreen,
)
    ensures
        screen.requests_asked(action, after) ==> {
            &&& !(action is NoAction) <==> screen.identity is Some
                && screen.selected_wallet is Some
            &&& !(action is NoAction) ==> (action.task() matches Some(
                OrchardPayTask::ScanForIncomingAnchors { identity_ids, seed_hash },
            ) && identity_ids@.len() == 1 && screen.identity == Some(identity_ids@[0])
                && screen.selected_wallet == Some(seed_hash)) && after.checking_new_requests
            &&& action is NoAction ==> after == screen
        },
        screen.recovery_asked(action) ==> {
            &&& !(action is NoAction) <==> screen.identity is Some
                && screen.selected_wallet is Some
            &&& !(action is NoAction) ==> action.task() == Some(
                OrchardPayTask::RecoverContacts {
                    identity_id: screen.identity->0,
                    seed_hash: screen.selected_wallet->0,
                },
            )
        },
{
}

/// What can be sent directly and the fee make up the balance, where that covers the
/// fee; otherwise nothing can be sent.
pub proof fn direct_payments_are_limited_by_the_balance(
    screen: OrchardPayScreen,
    balance: u64,
    fee: u64,
)
    ensures
        screen.send_limit(balance, fee) is Some <==> screen.selected_wallet is Some,
        screen.send_limit(balance, fee) matches Some(most) ==> if balance >= fee {
            most + fee == balance
        } else {
            most == 0
        },
{
}

/// A click on a button that concerns somebody sends nothing: it asks about a task
/// for that very person, of this identity, with its key and its wallet; without them
/// it does nothing.
pub proof fn contact_clicks_ask_first(
    screen: OrchardPayScreen,
    id: Identifier,
    name: String,
    shown: Seq<char>,
    amount_text: Seq<char>,
    limits: SendLimits,
    after: OrchardPayScreen,
)
    ensures
        ({
            let able = screen.identity is Some && screen.selected_key is Some
                && screen.selected_wallet is Some;
            &&& screen.accept_asked(id, shown, after) ==> if able {
                &&& after.pending_confirmation matches Some(pending)
                &&& pending.key == id
                &&& pending.dialog.title@ == "Accept Contact Request"@
                &&& pending.dialog.message@ == "Accept the contact request from "@ + shown + "?"@
                &&& !pending.dialog.danger_mode
                &&& pending.dialog.checkbox is None
                &&& pending.task_if_checked is None
                &&& pending.task == (OrchardPayTask::AcceptContact {
                    identity_id: screen.identity->0,
                    identity_key: screen.selected_key->0,
                    counterparty_identity_id: id,
                    seed_hash: screen.selected_wallet->0,
                })
                &&& after.contact_actions == screen.contact_actions
            } else {
                after == screen
            }
            &&& screen.initiate_asked(id, name, limits, after) ==> if able {
                &&& after.pending_confirmation matches Some(pending)
                &&& pending.key == id
                &&& pending.dialog.title@ == "Send Contact Request"@
                &&& pending.dialog.message@ == "Send a contact request to "@ + name@ + "?"@
                &&& !pending.dialog.danger_mode
                &&& pending.dialog.checkbox is None
                &&& pending.task_if_checked is None
                &&& pending.task == (OrchardPayTask::InitiateContact {
                    identity_id: screen.identity->0,
                    identity_key: screen.selected_key->0,
                    counterparty_identity_id: id,
                    counterparty_name: name,
                    seed_hash: screen.selected_wallet->0,
                    amount_credits: limits.min_amount,
                })
                &&& after.contact_actions == screen.contact_actions
            } else {
                after == screen
            }
            &&& screen.direct_send_asked(id, name, amount_text, after) ==> if able
                && screen.direct_send_amount is Some {
                &&& after.pending_confirmation matches Some(pending)
                &&& pending.key == id
                &&& pending.dialog.title@ == "Confirm Direct Send"@
                &&& pending.dialog.message@ == "Send "@ + amount_text + " to "@
                    + contact_search::shown_name(name@) + "?"@
                &&& pending.dialog.danger_mode
                &&& pending.dialog.checkbox matches Some(b) && !b.checked && b.label@
                    == "Include a contact request?"@
                &&& pending.task == (OrchardPayTask::SendDirect {
                    owner_identity_id: screen.identity->0,
                    counterparty_identity_id: id,
                    seed_hash: screen.selected_wallet->0,
                    amount: screen.direct_send_amount->0,
                })
                &&& pending.task_if_checked == Some(
                    OrchardPayTask::InitiateContact {
                        identity_id: screen.identity->0,
                        identity_key: screen.selected_key->0,
                        counterparty_identity_id: id,
                        counterparty_name: name,
                        seed_hash: screen.selected_wallet->0,
                        amount_credits: screen.direct_send_amount->0,
                    },
                )
                &&& after.contact_actions == screen.contact_actions
            } else {
                after == screen
            }
        }),
{
}

/// A task runs only where its question was confirmed and nothing runs for the same
/// person; then something does, and for nobody else. What runs is the task that goes
/// with the box.
pub proof fn one_task_runs_for_one_person(
    screen: OrchardPayScreen,
    status: Option<ConfirmationStatus>,
    action: AppAction,
    after: OrchardPayScreen,
    other: Identifier,
)
    requires
        screen.answered(status, action, after),
    ensures
        !(action is NoAction) <==> status == Some(ConfirmationStatus::Confirmed) && (
        screen.pending_confirmation matches Some(pending)
            && !screen.contact_actions@.dom().contains(pending.key)),
        !(action is NoAction) ==> {
            let pending = screen.pending_confirmation->0;
            let checked = pending.dialog.checkbox matches Some(b) && b.checked;
            &&& action.task() == if checked && pending.task_if_checked is Some {
                pending.task_if_checked
            } else {
                Some(pending.task)
            }
            &&& after.contact_actions@.dom().contains(pending.key)
            &&& other != pending.key ==> (after.contact_actions@.dom().contains(other)
                <==> screen.contact_actions@.dom().contains(other))
        },
        action is NoAction ==> after.contact_actions@ == screen.contact_actions@,
        status is Some ==> after.pending_confirmation is None,
        status is None ==> after == screen,
        after.search_results == screen.search_results,
{
}

/// The first row of somebody is theirs, and only it changes; somebody who is in no
/// row changes none.
pub proof fn only_the_first_row_is_changed(
    results: Seq<OrchardPayContactSearchResult>,
    id: Identifier,
    state: Option<OrchardPayContactState>,
    k: int,
)
    requires
        0 <= k < results.len(),
        forall|j: int| 0 <= j < k ==> (#[trigger] results[j]).identity_id != id,
        results[k].identity_id == id,
    ensures
        patched(results, id, state).len() == results.len(),
        patched(results, id, state)[k].existing_relationship == state,
        patched(results, id, state)[k].identity_id == id,
        patched(results, id, state)[k].username == results[k].username,
        patched(results, id, state)[k].contactable == results[k].contactable,
        forall|j: int|
            0 <= j < results.len() && j != k ==> #[trigger] patched(results, id, state)[j]
                == results[j],
{
    lemma_row_at(results, id, k);
}

proof fn lemma_row_at(results: Seq<OrchardPayContactSearchResult>, id: Identifier, k: int)
    requires
        0 <= k < results.len(),
        forall|j: int| 0 <= j < k ==> (#[trigger] results[j]).identity_id != id,
        results[k].identity_id == id,
    ensures
        row_for(results, id) == k,
    decreases k,
{
    if k > 0 {
        let rest = results.skip(1);
        assert(results[0].identity_id != id);
        assert forall|j: int| 0 <= j < k - 1 implies (#[trigger] rest[j]).identity_id != id by {
            assert(rest[j] == results[j + 1]);
        }
        lemma_row_at(rest, id, k - 1);
    }
}

/// A state that shows that what ran for somebody has landed is shown in their row;
/// one that shows nothing of the kind, or of somebody for whom nothing ran, is not.
pub proof fn rows_follow_what_has_landed(
    results: Seq<OrchardPayContactSearchResult>,
    running: Set<Identifier>,
    id: Identifier,
    state: Option<OrchardPayContactState>,
)
    ensures
        reconciled(results, running, seq![(id, state)]) == if landed(state) && running.contains(
            id,
        ) {
            patched(results, id, state)
        } else {
            results
        },
{
    let states = seq![(id, state)];
    assert(states.drop_last() =~= Seq::empty());
    assert(reconciled(results, running, states.drop_last()) == results);
    assert(still_running(running, states.drop_last()) == running);
}

/// After an error or a warning nothing is under way any more, for nobody, and an
/// address that is not known may be asked for again; what is shown stays. Other
/// messages change nothing.
pub proof fn errors_let_everybody_go(
    screen: OrchardPayScreen,
    message_type: MessageType,
    after: OrchardPayScreen,
    id: Identifier,
)
    requires
        screen.told(message_type, after),
    ensures
        message_type is Error || message_type is Warning ==> {
            &&& !after.searching
            &&& !after.checking_new_requests
            &&& !after.contact_actions@.dom().contains(id)
            &&& screen.has_shielded_address is None ==> !after.shielded_address_check_dispatched
            &&& screen.has_shielded_address is Some ==> after.shielded_address_check_dispatched
                == screen.shielded_address_check_dispatched
            &&& after.search_results == screen.search_results
            &&& after.has_shielded_address == screen.has_shielded_address
            &&& after.direct_send_amount == screen.direct_send_amount
        },
        message_type is Success || message_type is Info ==> after == screen,
{
}

/// Each result is taken in where it belongs: people found end the search, an address
/// counts only for the identity shown, activity and transactions are kept, and a
/// direct payment lets go of its receiver alone and empties the amount.
pub proof fn results_go_where_they_belong(
    screen: OrchardPayScreen,
    result: BackendTaskSuccessResult,
    states: Seq<(Identifier, Option<OrchardPayContactState>)>,
    after: OrchardPayScreen,
)
    requires
        screen.takes_in(result, states, after),
    ensures
        result matches BackendTaskSuccessResult::OrchardPayContactSearchResults(results)
            ==> after.search_results == results && !after.searching,
        result matches BackendTaskSuccessResult::OrchardPayOwnShieldedAddressStatus {
            identity_id,
            published,
        } ==> if screen.identity == Some(identity_id) {
            after.has_shielded_address == Some(published)
        } else {
            after == screen
        },
        result matches BackendTaskSuccessResult::OrchardPayRecentActivity(entries)
            ==> after.recent_activity == Some(entries),
        result matches BackendTaskSuccessResult::OrchardPayShieldedActivity(rows)
            ==> after.shielded_activity == Some(rows),
        result is OrchardPayIncomingAnchorsScanned ==> !after.checking_new_requests,
        result matches BackendTaskSuccessResult::OrchardPayDirectSendCompleted {
            counterparty_identity_id,
            ..
        } ==> {
            &&& !after.contact_actions@.dom().contains(counterparty_identity_id)
            &&& forall|other: Identifier|
                other != counterparty_identity_id
                    ==> (#[trigger] after.contact_actions@.dom().contains(other)
                    <==> screen.contact_actions@.dom().contains(other))
            &&& after.direct_send_amount is None
        },
        result is BroadcastedDocument ==> after.pending_identity_refresh,
        !(result is BroadcastedDocument) && !(result is OrchardPayDirectSendCompleted)
            ==> after.contact_actions == screen.contact_actions,
        !(result is OrchardPayDirectSendCompleted) ==> after.direct_send_amount
            == screen.direct_send_amount,
        !(result is OrchardPayContactSearchResults) && !(result is BroadcastedDocument)
            ==> after.search_results == screen.search_results,
        !(result is OrchardPayOwnShieldedAddressStatus) ==> after.has_shielded_address
            == screen.has_shielded_address,
        after.identity == screen.identity,
        after.pending_confirmation == screen.pending_confirmation,
{
}

/// A document that was published lets go of exactly those of whom a state shows that
/// what ran has landed.
pub proof fn publications_let_go_of_what_has_landed(
    screen: OrchardPayScreen,
    result: BackendTaskSuccessResult,
    states: Seq<(Identifier, Option<OrchardPayContactState>)>,
    after: OrchardPayScreen,
    id: Identifier,
)
    requires
        screen.takes_in(result, states, after),
        result is BroadcastedDocument,
        screen.identity is Some,
        screen.contact_actions@.dom().contains(id),
    ensures
        after.contact_actions@.dom().contains(id) <==> forall|i: int|
            0 <= i < states.len() && (#[trigger] states[i]).0 == id ==> !landed(states[i].1),
{
    let running = screen.contact_actions@.dom();
    lemma_still_running_within(running, states);
    if forall|i: int|
        0 <= i < states.len() && (#[trigger] states[i]).0 == id ==> !landed(states[i].1) {
        what_has_not_landed_stays_guarded(running, states, id);
    } else {
        let i = choose|i: int|
            0 <= i < states.len() && (#[trigger] states[i]).0 == id && landed(states[i].1);
        what_has_landed_is_let_go(running, states, i);
    }
}

} // verus!
