//! What the protocol's operations fail with.

use vstd::prelude::*;

use crate::model::identifier::Identifier;
use crate::model::validation::{AmountTooLowError, TextLengthError};
use crate::orchardpay::encryption::OrchardPayCryptoError;

verus! {

/// Errors of the contact and messaging protocol.
#[derive(Debug, Clone, Copy, PartialEq, Eq)]
pub enum OrchardPayError {
    /// The contract is not configured for the active network.
    ContractNotConfigured,
    /// A document query could not be built.
    QueryCreation,
    /// The counterparty has no key bound to contact anchors, or cannot be
    /// reached.
    CounterpartyKeyMissing,
    /// The counterparty's key is not bound to this contract's contact anchors.
    CounterpartyKeyNotBound,
    /// A payload could not be encrypted or decrypted.
    Crypto(OrchardPayCryptoError),
    /// A contact anchor that was referred to is not there.
    AnchorNotFound,
    /// There is already a state recorded for the counterparty.
    RelationshipAlreadyExists,
    /// This identity has no key bound to contact anchors.
    OwnKeyMissing,
    /// A chunk of notes could not be fetched or decrypted.
    MemoScanFailed,
    /// A fresh key could not be generated.
    KeyGenerationFailed,
    /// The contact with the counterparty is not established.
    ContactNotEstablished,
    /// No key slot could be found for this identity.
    OwnKeyNotDerivable,
}

impl OrchardPayError {
    /// What the user is told.
    pub open spec fn spec_message(self) -> Seq<char> {
        match self {
            OrchardPayError::ContractNotConfigured =>
                "OrchardPay's private contact features aren't set up on this network yet. Try switching to a network where they're available, such as Testnet."@,
            OrchardPayError::QueryCreation => "Could not prepare the data request. Please retry or update the application."@,
            OrchardPayError::CounterpartyKeyMissing =>
                "This person hasn't set up private contacts on OrchardPay yet, so they can't be reached this way."@,
            OrchardPayError::CounterpartyKeyNotBound =>
                "This person's OrchardPay contact key could not be verified. Please try again later."@,
            OrchardPayError::Crypto(error) => error.spec_message(),
            OrchardPayError::AnchorNotFound =>
                "This private contact request could not be found. It may no longer be available."@,
            OrchardPayError::RelationshipAlreadyExists =>
                "You've already connected with this contact, or a request is already pending. Check your Contacts list."@,
            OrchardPayError::OwnKeyMissing =>
                "This identity isn't set up for OrchardPay's private contacts yet. Add an OrchardPay-bound key from Key Info to enable them."@,
            OrchardPayError::MemoScanFailed =>
                "Could not check for new private contact requests. This will be retried automatically."@,
            OrchardPayError::KeyGenerationFailed =>
                "Could not prepare your private OrchardPay keys. Please try again."@,
            OrchardPayError::ContactNotEstablished =>
                "You haven't connected with this contact yet. Send or accept a private contact request first."@,
            OrchardPayError::OwnKeyNotDerivable =>
                "Could not prepare your private OrchardPay keys. Please try again."@,
        }
    }

    /// What the user is told.
    pub fn message(self) -> (text: &'static str)
        ensures
            text@ == self.spec_message(),
    {
        match self {
            OrchardPayError::ContractNotConfigured =>
                "OrchardPay's private contact features aren't set up on this network yet. Try switching to a network where they're available, such as Testnet.",
            OrchardPayError::QueryCreation => "Could not prepare the data request. Please retry or update the application.",
            OrchardPayError::CounterpartyKeyMissing =>
                "This person hasn't set up private contacts on OrchardPay yet, so they can't be reached this way.",
            OrchardPayError::CounterpartyKeyNotBound =>
                "This person's OrchardPay contact key could not be verified. Please try again later.",
            OrchardPayError::Crypto(error) => error.message(),
            OrchardPayError::AnchorNotFound =>
                "This private contact request could not be found. It may no longer be available.",
            OrchardPayError::RelationshipAlreadyExists =>
                "You've already connected with this contact, or a request is already pending. Check your Contacts list.",
            OrchardPayError::OwnKeyMissing =>
                "This identity isn't set up for OrchardPay's private contacts yet. Add an OrchardPay-bound key from Key Info to enable them.",
            OrchardPayError::MemoScanFailed =>
                "Could not check for new private contact requests. This will be retried automatically.",
            OrchardPayError::KeyGenerationFailed =>
                "Could not prepare your private OrchardPay keys. Please try again.",
            OrchardPayError::ContactNotEstablished =>
                "You haven't connected with this contact yet. Send or accept a private contact request first.",
            OrchardPayError::OwnKeyNotDerivable =>
                "Could not prepare your private OrchardPay keys. Please try again.",
        }
    }
}

/// What a task of the protocol ends in when it does not succeed.
#[derive(Debug, Clone, Copy, PartialEq, Eq)]
pub enum OrchardPayTaskError {
    OrchardPay(OrchardPayError),
    /// The counterparty's published address is no valid address.
    CounterpartyShieldedAddressInvalid,
    MessageTooLong { source: TextLengthError },
    MemoTooLong { source: TextLengthError },
    AmountTooLow { source: AmountTooLowError },
    /// The document to edit does not hold what can be edited.
    EditTargetMismatch,
    /// The document to delete is no plain message.
    DeleteTargetMismatch,
    /// The request was cancelled before.
    RequestAlreadyCancelled,
    /// The request was paid, and only an unpaid one can be cancelled.
    RequestAlreadyPaid,
    /// An earlier payment was published whose transfer was never confirmed.
    PaymentRecoveryNeeded { document_id: Identifier },
    /// The wallet has no shielded address.
    ShieldedNotBound,
}

/// Nobody is told that something could not be found, verified or prepared in the
/// words for something else: what the user did not do, what the counterparty did not
/// do, and what merely failed have words of their own.
pub proof fn failures_are_told_by_their_cause(error: OrchardPayCryptoError)
    ensures
        OrchardPayError::ContractNotConfigured.spec_message()
            == "OrchardPay's private contact features aren't set up on this network yet. Try switching to a network where they're available, such as Testnet."@,
        OrchardPayError::QueryCreation.spec_message()
            == "Could not prepare the data request. Please retry or update the application."@,
        OrchardPayError::CounterpartyKeyMissing.spec_message()
            == "This person hasn't set up private contacts on OrchardPay yet, so they can't be reached this way."@,
        OrchardPayError::CounterpartyKeyNotBound.spec_message()
            == "This person's OrchardPay contact key could not be verified. Please try again later."@,
        OrchardPayError::Crypto(error).spec_message() == error.spec_message(),
        OrchardPayError::AnchorNotFound.spec_message()
            == "This private contact request could not be found. It may no longer be available."@,
        OrchardPayError::RelationshipAlreadyExists.spec_message()
            == "You've already connected with this contact, or a request is already pending. Check your Contacts list."@,
        OrchardPayError::OwnKeyMissing.spec_message()
            == "This identity isn't set up for OrchardPay's private contacts yet. Add an OrchardPay-bound key from Key Info to enable them."@,
        OrchardPayError::MemoScanFailed.spec_message()
            == "Could not check for new private contact requests. This will be retried automatically."@,
        OrchardPayError::ContactNotEstablished.spec_message()
            == "You haven't connected with this contact yet. Send or accept a private contact request first."@,
        OrchardPayError::KeyGenerationFailed.spec_message()
            == OrchardPayError::OwnKeyNotDerivable.spec_message(),
        OrchardPayError::KeyGenerationFailed.spec_message()
            == "Could not prepare your private OrchardPay keys. Please try again."@,
{
}

} // verus!
