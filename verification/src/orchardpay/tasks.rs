//! The tasks that the protocol can be asked to run, and what they result in.

use vstd::prelude::*;

use crate::model::identifier::Identifier;
use crate::model::orchardpay::{ShieldedActivityRow, SilentPaymentRecord};
use crate::orchardpay::anchor_recovery::AnchorRecoverySummary;
use crate::orchardpay::contact_search::OrchardPayContactSearchResult;
use crate::orchardpay::errors::OrchardPayError;
use crate::orchardpay::memo_scan::ScanPass;
use crate::orchardpay::messages::{HistoryCursor, LoadedThread, ReceiptAlert, ThreadMessage};
use crate::orchardpay::recent_activity::RecentContactActivity;

verus! {

/// By what a wallet is known.
pub type WalletSeedHash = [u8; 32];

/// The position of a key among an identity's keys.
pub type KeyId = u32;

/// A task of the protocol. `identity_id` names the local identity that acts, and
/// `identity_key` the key with which it signs.
#[derive(Debug, Clone, PartialEq)]
pub enum OrchardPayTask {
    /// Publish one's shielded address, or replace it.
    PublishShieldedAddress { identity_id: Identifier, identity_key: KeyId, seed_hash: WalletSeedHash },
    /// Start a relationship.
    InitiateContact {
        identity_id: Identifier,
        identity_key: KeyId,
        counterparty_identity_id: Identifier,
        /// The counterparty's name at the time of the request.
        counterparty_name: String,
        seed_hash: WalletSeedHash,
        /// What the signalling transfer is worth.
        amount_credits: u64,
    },
    /// Accept a request that was received.
    AcceptContact {
        identity_id: Identifier,
        identity_key: KeyId,
        counterparty_identity_id: Identifier,
        seed_hash: WalletSeedHash,
    },
    /// Look through incoming memos, for all of these identities.
    ScanForIncomingAnchors { identity_ids: Vec<Identifier>, seed_hash: WalletSeedHash },
    /// Find people by the beginning of their names.
    SearchContacts { search_query: String, owner_identity_id: Identifier },
    /// Find out whether an identity has published its shielded address.
    CheckOwnShieldedAddress { identity_id: Identifier },
    SendMessage {
        identity_id: Identifier,
        identity_key: KeyId,
        counterparty_identity_id: Identifier,
        text: String,
        seed_hash: WalletSeedHash,
    },
    SendPaymentRequest {
        identity_id: Identifier,
        identity_key: KeyId,
        counterparty_identity_id: Identifier,
        amount: u64,
        memo: Option<String>,
        seed_hash: WalletSeedHash,
    },
    SendPayment {
        identity_id: Identifier,
        identity_key: KeyId,
        counterparty_identity_id: Identifier,
        seed_hash: WalletSeedHash,
        amount: u64,
        memo: Option<String>,
        /// The request that the payment answers, if it does.
        fulfilling_request_document_id: Option<Identifier>,
        save_receipt: bool,
        original_request_memo: Option<String>,
        original_request_created_at: Option<u64>,
    },
    /// Pay an established contact without a document.
    SendSilentPayment {
        identity_id: Identifier,
        counterparty_identity_id: Identifier,
        seed_hash: WalletSeedHash,
        amount: u64,
    },
    /// Pay anybody, with no relationship and no document.
    SendDirect {
        owner_identity_id: Identifier,
        counterparty_identity_id: Identifier,
        seed_hash: WalletSeedHash,
        amount: u64,
    },
    EditMessage {
        identity_id: Identifier,
        identity_key: KeyId,
        counterparty_identity_id: Identifier,
        document_id: Identifier,
        new_text: String,
        seed_hash: WalletSeedHash,
    },
    EditPaymentMemo {
        identity_id: Identifier,
        identity_key: KeyId,
        counterparty_identity_id: Identifier,
        document_id: Identifier,
        new_memo: Option<String>,
        seed_hash: WalletSeedHash,
    },
    CancelPaymentRequest {
        identity_id: Identifier,
        identity_key: KeyId,
        counterparty_identity_id: Identifier,
        document_id: Identifier,
        seed_hash: WalletSeedHash,
    },
    DeleteMessage {
        identity_id: Identifier,
        identity_key: KeyId,
        counterparty_identity_id: Identifier,
        document_id: Identifier,
        seed_hash: WalletSeedHash,
    },
    /// Load the newest part of a conversation.
    LoadThread {
        identity_id: Identifier,
        counterparty_identity_id: Identifier,
        seed_hash: WalletSeedHash,
    },
    /// Load the next older part of a conversation.
    LoadMoreHistory {
        identity_id: Identifier,
        counterparty_identity_id: Identifier,
        seed_hash: WalletSeedHash,
        all_decoded: Vec<ThreadMessage>,
        history_cursor: HistoryCursor,
        may_be_incomplete: bool,
    },
    /// Rebuild contacts from one's own published anchors.
    RecoverContacts { identity_id: Identifier, seed_hash: WalletSeedHash },
    /// Order the contacts by their latest activity.
    LoadRecentActivity { identity_id: Identifier },
    /// Load the wallet's shielded transactions.
    LoadShieldedActivity { seed_hash: WalletSeedHash },
}

/// A task for the background.
#[derive(Debug, Clone, PartialEq)]
pub enum BackendTask {
    OrchardPayTask(Box<OrchardPayTask>),
    /// Fetch an identity's balance and keys anew.
    RefreshIdentity(Identifier),
}

/// The task that looks through a wallet's incoming memos for these identities.
pub fn dispatch_task(identity_ids: Vec<Identifier>, seed_hash: WalletSeedHash) -> (task: BackendTask)
    ensures
        task == BackendTask::OrchardPayTask(
            Box::new(OrchardPayTask::ScanForIncomingAnchors { identity_ids, seed_hash }),
        ),
{
    BackendTask::OrchardPayTask(
        Box::new(OrchardPayTask::ScanForIncomingAnchors { identity_ids, seed_hash }),
    )
}

/// A document that was published.
#[derive(Debug, Clone, Copy, PartialEq, Eq)]
pub struct PublishedDocument {
    pub id: Identifier,
    /// When the platform dates it, in milliseconds.
    pub created_at: Option<u64>,
}

/// What a task resulted in.
#[derive(Debug, Clone, PartialEq)]
pub enum BackendTaskSuccessResult {
    /// Nothing to report.
    NoResult,
    BroadcastedDocument(PublishedDocument),
    ReplacedDocument(Identifier),
    DeletedDocument(Identifier),
    OrchardPayThreadLoaded {
        counterparty_identity_id: Identifier,
        all_decoded: Vec<ThreadMessage>,
        messages: Vec<ThreadMessage>,
        silent_payments: Vec<SilentPaymentRecord>,
        receipt_alerts: Vec<ReceiptAlert>,
        history_cursor: HistoryCursor,
        may_be_incomplete: bool,
    },
    OrchardPayPaymentSent { counterparty_identity_id: Identifier, amount: u64 },
    OrchardPaySilentPaymentSent { counterparty_identity_id: Identifier, amount: u64 },
    OrchardPayDirectSendCompleted { counterparty_identity_id: Identifier, amount: u64 },
    OrchardPayContactSearchResults(Vec<OrchardPayContactSearchResult>),
    OrchardPayOwnShieldedAddressStatus { identity_id: Identifier, published: bool },
    OrchardPayIncomingAnchorsScanned {
        anything_changed: bool,
        anchor_signals_seen: usize,
        anchor_signals_claimed: usize,
        anchor_signals_still_unresolved: usize,
    },
    OrchardPayRecentActivity(Vec<RecentContactActivity>),
    OrchardPayShieldedActivity(Vec<ShieldedActivityRow>),
    OrchardPayContactsRecovered {
        anchors_found: usize,
        contacts_recovered: usize,
        already_tracked: usize,
        undecryptable: usize,
    },
}

/// When the document that a task has just published was created.
pub open spec fn published_at(result: BackendTaskSuccessResult) -> Option<u64> {
    match result {
        BackendTaskSuccessResult::BroadcastedDocument(document) => document.created_at,
        _ => None,
    }
}

/// When the document that a task has just published was created, if it has
/// published one and that is known.
pub fn broadcast_document_created_at(result: &BackendTaskSuccessResult) -> (at: Option<u64>)
    ensures
        at == published_at(*result),
{
    match result {
        BackendTaskSuccessResult::BroadcastedDocument(document) => document.created_at,
        _ => None,
    }
}

/// The result of loading a conversation.
pub fn thread_loaded(
    counterparty_identity_id: Identifier,
    thread: LoadedThread,
    silent_payments: Vec<SilentPaymentRecord>,
) -> (result: BackendTaskSuccessResult)
    ensures
        result == (BackendTaskSuccessResult::OrchardPayThreadLoaded {
            counterparty_identity_id,
            all_decoded: thread.all_decoded,
            messages: thread.messages,
            silent_payments,
            receipt_alerts: thread.receipt_alerts,
            history_cursor: thread.history_cursor,
            may_be_incomplete: thread.may_be_incomplete,
        }),
{
    BackendTaskSuccessResult::OrchardPayThreadLoaded {
        counterparty_identity_id,
        all_decoded: thread.all_decoded,
        messages: thread.messages,
        silent_payments,
        receipt_alerts: thread.receipt_alerts,
        history_cursor: thread.history_cursor,
        may_be_incomplete: thread.may_be_incomplete,
    }
}

/// The result of a recovery.
pub fn contacts_recovered(summary: &AnchorRecoverySummary) -> (result: BackendTaskSuccessResult)
    ensures
        result == (BackendTaskSuccessResult::OrchardPayContactsRecovered {
            anchors_found: summary.anchors_found,
            contacts_recovered: summary.contacts_recovered,
            already_tracked: summary.already_tracked,
            undecryptable: summary.undecryptable,
        }),
{
    BackendTaskSuccessResult::OrchardPayContactsRecovered {
        anchors_found: summary.anchors_found,
        contacts_recovered: summary.contacts_recovered,
        already_tracked: summary.already_tracked,
        undecryptable: summary.undecryptable,
    }
}

/// The result of looking for an identity's own published address.
pub fn own_address_status(identity_id: Identifier, address: &Option<[u8; 43]>) -> (result:
    BackendTaskSuccessResult)
    ensures
        result == (BackendTaskSuccessResult::OrchardPayOwnShieldedAddressStatus {
            identity_id,
            published: address is Some,
        }),
{
    BackendTaskSuccessResult::OrchardPayOwnShieldedAddressStatus {
        identity_id,
        published: address.is_some(),
    }
}

/// Whether it is to be kept that an identity has published its address, once that was
/// looked for: exactly where one was found.
pub fn keeps_own_address_flag(address: &Option<[u8; 43]>) -> (set: bool)
    ensures
        set == (*address is Some),
{
    address.is_some()
}

/// The result of a pass over incoming memos that leaves `still_unresolved` anchors
/// behind.
pub fn anchors_scanned(pass: &ScanPass, still_unresolved: usize) -> (result:
    BackendTaskSuccessResult)
    ensures
        result == (BackendTaskSuccessResult::OrchardPayIncomingAnchorsScanned {
            anything_changed: pass.anything_changed,
            anchor_signals_seen: pass.anchor_signals_seen,
            anchor_signals_claimed: pass.anchor_signals_claimed,
            anchor_signals_still_unresolved: still_unresolved,
        }),
{
    BackendTaskSuccessResult::OrchardPayIncomingAnchorsScanned {
        anything_changed: pass.anything_changed,
        anchor_signals_seen: pass.anchor_signals_seen,
        anchor_signals_claimed: pass.anchor_signals_claimed,
        anchor_signals_still_unresolved: still_unresolved,
    }
}

/// Where the contract is to be had from.
#[derive(Debug, Clone, Copy, PartialEq, Eq)]
pub enum ContractSource {
    /// It is at hand.
    Local,
    /// It is to be fetched under this identifier, and kept.
    Fetch(Identifier),
}

/// Where the contract is to be had from.
pub open spec fn contract_source(at_hand: bool, configured_id: Option<Identifier>) -> Result<
    ContractSource,
    OrchardPayError,
> {
    if at_hand {
        Ok(ContractSource::Local)
    } else {
        match configured_id {
            Some(id) => Ok(ContractSource::Fetch(id)),
            None => Err(OrchardPayError::ContractNotConfigured),
        }
    }
}

/// Where the contract is to be had from: the network is asked only where it is not
/// at hand, and only for an identifier that is configured.
pub fn ensure_orchardpay_contract(
    at_hand: bool,
    configured_id: Option<Identifier>,
) -> (source: Result<ContractSource, OrchardPayError>)
    ensures
        source == contract_source(at_hand, configured_id),
{
    if at_hand {
        return Ok(ContractSource::Local);
    }
    match configured_id {
        Some(id) => Ok(ContractSource::Fetch(id)),
        None => Err(OrchardPayError::ContractNotConfigured),
    }
}

/// A contract at hand is used, and one that is not is fetched under the identifier
/// that is configured; only without either is it missing.
pub proof fn contracts_at_hand_are_not_fetched(at_hand: bool, configured_id: Option<Identifier>)
    ensures
        contract_source(at_hand, configured_id) == Ok::<ContractSource, OrchardPayError>(
            ContractSource::Local,
        ) <==> at_hand,
        contract_source(at_hand, configured_id) matches Ok(ContractSource::Fetch(id)) ==> !at_hand
            && configured_id == Some(id),
        contract_source(at_hand, configured_id) is Err <==> !at_hand && configured_id is None,
        contract_source(at_hand, configured_id) matches Err(e) ==> e
            == OrchardPayError::ContractNotConfigured,
{
}

/// Only a document that was published has a time of publication, and that is its own.
pub proof fn only_published_documents_are_dated(
    document: PublishedDocument,
    result: BackendTaskSuccessResult,
)
    ensures
        published_at(BackendTaskSuccessResult::BroadcastedDocument(document))
            == document.created_at,
        published_at(result) is Some ==> result is BroadcastedDocument,
{
}

} // verus!
