//! The handshake of two contact anchors.
//!
//! Whoever starts a relationship publishes an anchor and signals it with a
//! transfer; the other side reads it and answers with an anchor of its own. A
//! note of the attempt is kept before anything is published, so that an attempt
//! which was cut off is taken up again and never published twice.

use vstd::prelude::*;

use crate::model::identifier::{same_id, Identifier};
use crate::model::orchardpay;
use crate::model::orchardpay::{
    copy_bytes, AnchorRole, OrchardPayContactState, PendingOperationStep,
    PendingOrchardPayOperation, ScheduledAnchorReplace,
};
use crate::model::text;
use crate::model::validation::{validate_min_amount, AmountTooLowError};
use crate::orchardpay::encryption;
use crate::orchardpay::encryption::{AnchorDataRecord, ContactAnchorPayload};
use crate::orchardpay::errors::{OrchardPayError, OrchardPayTaskError};
use crate::orchardpay::memo::{document_memo, MEMO_TAG_ANCHOR};
use crate::orchardpay::outgoing::SendLimits;
use crate::primitives;

verus! {

/// What one side is about to publish, and the transfer that signals it.
#[derive(Debug, Clone, PartialEq)]
pub struct ContactRequest {
    pub owner_id: Identifier,
    pub counterparty_id: Identifier,
    /// The counterparty's name, where it is known.
    pub counterparty_name: Option<String>,
    pub role: AnchorRole,
    /// What the anchor's own record says of the other side: their reference, or
    /// the owner's identifier as a stand-in until that is known.
    pub their_reference_id: [u8; 32],
    pub amount_credits: u64,
    /// When the request that is answered was created, where one is answered and that
    /// is known.
    pub pending_created_at: Option<u64>,
}

/// Why a transfer of this amount between these two is refused, if it is.
pub open spec fn transfer_refusal(
    owner_id: Identifier,
    counterparty_id: Identifier,
    amount: u64,
    minimum: u64,
) -> Option<OrchardPayTaskError> {
    if owner_id == counterparty_id {
        Some(OrchardPayTaskError::OrchardPay(OrchardPayError::CounterpartyKeyMissing))
    } else if amount < minimum {
        Some(
            OrchardPayTaskError::AmountTooLow {
                source: AmountTooLowError { actual: amount, minimum },
            },
        )
    } else {
        None
    }
}

/// Refuses a transfer to oneself, and one below the minimum.
pub fn check_transfer(
    owner_id: &Identifier,
    counterparty_id: &Identifier,
    amount: u64,
    minimum: u64,
) -> (r: Result<(), OrchardPayTaskError>)
    ensures
        r == match transfer_refusal(*owner_id, *counterparty_id, amount, minimum) {
            Some(e) => Err::<(), OrchardPayTaskError>(e),
            None => Ok(()),
        },
{
    if same_id(owner_id, counterparty_id) {
        return Err(OrchardPayTaskError::OrchardPay(OrchardPayError::CounterpartyKeyMissing));
    }
    match validate_min_amount(amount, minimum) {
        Ok(()) => Ok(()),
        Err(source) => Err(OrchardPayTaskError::AmountTooLow { source }),
    }
}

/// A request to somebody there is no relationship with yet.
pub open spec fn initiation(
    owner_id: Identifier,
    counterparty_id: Identifier,
    counterparty_name: String,
    amount_credits: u64,
    minimum: u64,
) -> Result<ContactRequest, OrchardPayTaskError> {
    match transfer_refusal(owner_id, counterparty_id, amount_credits, minimum) {
        Some(e) => Err(e),
        None => Ok(
            ContactRequest {
                owner_id,
                counterparty_id,
                counterparty_name: Some(counterparty_name),
                role: AnchorRole::Initiator,
                their_reference_id: owner_id,
                amount_credits,
                pending_created_at: None,
            },
        ),
    }
}

/// A request to somebody there is no relationship with yet, signalled with
/// `amount_credits`. The record's reference of the other side is filled with the
/// owner's own identifier, which nobody else can mistake for a real one.
pub fn initiate_contact(
    owner_id: Identifier,
    counterparty_id: Identifier,
    counterparty_name: String,
    amount_credits: u64,
    minimum: u64,
) -> (request: Result<ContactRequest, OrchardPayTaskError>)
    ensures
        request == initiation(
            owner_id,
            counterparty_id,
            counterparty_name,
            amount_credits,
            minimum,
        ),
{
    match check_transfer(&owner_id, &counterparty_id, amount_credits, minimum) {
        Err(e) => Err(e),
        Ok(()) => Ok(
            ContactRequest {
                owner_id,
                counterparty_id,
                counterparty_name: Some(counterparty_name),
                role: AnchorRole::Initiator,
                their_reference_id: owner_id,
                amount_credits,
                pending_created_at: None,
            },
        ),
    }
}

/// A request may be made to somebody of whom this is recorded.
pub open spec fn untracked(existing: Option<OrchardPayContactState>) -> Result<(), OrchardPayError> {
    if existing is Some {
        Err(OrchardPayError::RelationshipAlreadyExists)
    } else {
        Ok(())
    }
}

/// A request is only made where nothing is recorded for the counterparty.
pub fn require_untracked(existing: &Option<OrchardPayContactState>) -> (r: Result<
    (),
    OrchardPayError,
>)
    ensures
        r == untracked(*existing),
{
    if existing.is_some() {
        Err(OrchardPayError::RelationshipAlreadyExists)
    } else {
        Ok(())
    }
}

/// The answer to a request that was received and not yet accepted.
pub open spec fn acceptance(
    owner_id: Identifier,
    counterparty_id: Identifier,
    existing: Option<OrchardPayContactState>,
    minimum: u64,
) -> Result<ContactRequest, OrchardPayTaskError> {
    match existing {
        Some(
            OrchardPayContactState::PendingInboundUnaccepted { their_reference_id, created_at, .. },
        ) => Ok(
            ContactRequest {
                owner_id,
                counterparty_id,
                counterparty_name: None,
                role: AnchorRole::Acceptor,
                their_reference_id,
                amount_credits: minimum,
                pending_created_at: created_at,
            },
        ),
        _ => Err(OrchardPayTaskError::OrchardPay(OrchardPayError::AnchorNotFound)),
    }
}

/// The answer to a request that was received and not yet accepted, signalled with
/// the least amount that may be sent. It carries on when that request was created.
pub fn accept_contact(
    owner_id: Identifier,
    counterparty_id: Identifier,
    existing: &Option<OrchardPayContactState>,
    limits: &SendLimits,
) -> (request: Result<ContactRequest, OrchardPayTaskError>)
    ensures
        request == acceptance(owner_id, counterparty_id, *existing, limits.min_amount),
{
    match existing {
        Some(
            OrchardPayContactState::PendingInboundUnaccepted { their_reference_id, created_at, .. },
        ) => Ok(
            ContactRequest {
                owner_id,
                counterparty_id,
                counterparty_name: None,
                role: AnchorRole::Acceptor,
                their_reference_id: *their_reference_id,
                amount_credits: limits.min_amount,
                pending_created_at: *created_at,
            },
        ),
        _ => Err(OrchardPayTaskError::OrchardPay(OrchardPayError::AnchorNotFound)),
    }
}

/// What an acceptance pays is the least amount that is not refused.
pub proof fn signals_pay_the_least_amount(
    owner_id: Identifier,
    counterparty_id: Identifier,
    limits: SendLimits,
    amount: u64,
)
    requires
        owner_id != counterparty_id,
    ensures
        transfer_refusal(owner_id, counterparty_id, limits.min_amount, limits.min_amount) is None,
        transfer_refusal(owner_id, counterparty_id, amount, limits.min_amount) is None ==> amount
            >= limits.min_amount,
{
}

impl ContactRequest {
    /// The request with the name that was found for the counterparty, if one was.
    pub fn named(self, counterparty_name: Option<String>) -> (request: ContactRequest)
        ensures
            request == (ContactRequest { counterparty_name, ..self }),
    {
        ContactRequest { counterparty_name, ..self }
    }
}

/// Whether an attempt starts anew or takes up one that was cut off.
#[derive(Debug, Clone, Copy, PartialEq, Eq)]
pub enum AnchorAttempt {
    Fresh,
    Resumed { my_reference_id: [u8; 32], my_anchor_document_id: [u8; 32], needs_transfer: bool },
}

/// What a note of an earlier attempt calls for.
pub open spec fn attempt_after(pending: Option<PendingOrchardPayOperation>) -> AnchorAttempt {
    match pending {
        Some(
            PendingOrchardPayOperation::ContactAnchor {
                my_reference_id,
                my_anchor_document_id,
                step,
            },
        ) => AnchorAttempt::Resumed {
            my_reference_id,
            my_anchor_document_id,
            needs_transfer: step == PendingOperationStep::DocumentPublished,
        },
        _ => AnchorAttempt::Fresh,
    }
}

/// What a note of an earlier attempt calls for: an anchor that was noted is used
/// again, and its transfer is made unless the note says that it was.
pub fn anchor_attempt(pending: &Option<PendingOrchardPayOperation>) -> (attempt: AnchorAttempt)
    ensures
        attempt == attempt_after(*pending),
{
    match pending {
        Some(
            PendingOrchardPayOperation::ContactAnchor {
                my_reference_id,
                my_anchor_document_id,
                step,
            },
        ) => AnchorAttempt::Resumed {
            my_reference_id: *my_reference_id,
            my_anchor_document_id: *my_anchor_document_id,
            needs_transfer: *step == PendingOperationStep::DocumentPublished,
        },
        _ => AnchorAttempt::Fresh,
    }
}

/// A contact anchor to be published, as its first revision.
#[derive(Debug, Clone, PartialEq)]
pub struct NewAnchor {
    pub id: Identifier,
    pub owner_id: Identifier,
    pub my_reference_id: [u8; 32],
    /// What the counterparty reads.
    pub data: Vec<u8>,
    /// What only the owner reads.
    pub anchor_data: Vec<u8>,
}

/// What an anchor of mine tells the counterparty.
pub open spec fn own_payload(my_reference_id: [u8; 32]) -> encryption::AnchorPayloadView {
    encryption::AnchorPayloadView {
        reference_id: my_reference_id@,
        core_payment_xpub: None,
        dedicated_shielded_address: None,
        initial_message: None,
    }
}

/// What an anchor of mine says to myself.
pub open spec fn own_record(
    request: ContactRequest,
    my_reference_id: [u8; 32],
    encryption_pubkey: Seq<u8>,
    decryption_pubkey: Seq<u8>,
) -> encryption::AnchorRecordView {
    encryption::AnchorRecordView {
        counterparty_identity_id: request.counterparty_id@,
        counterparty_name_snapshot: text::optional_view(request.counterparty_name),
        my_reference_id: my_reference_id@,
        their_reference_id: Some(request.their_reference_id@),
        my_initial_message: None,
        my_core_payment_xpub: None,
        my_dedicated_shielded_address: None,
        counterparty_encryption_pubkey: Some(encryption_pubkey),
        counterparty_decryption_pubkey: Some(decryption_pubkey),
    }
}

/// Seals both parts of an anchor with a given reference: the payload under the
/// secret shared with the counterparty, the record under the wallet's own key.
pub fn new_anchor(
    request: &ContactRequest,
    document_id: Identifier,
    my_reference_id: [u8; 32],
    shared_secret: &[u8; 32],
    anchor_data_key: &[u8; 32],
    encryption_pubkey: &Vec<u8>,
    decryption_pubkey: &Vec<u8>,
) -> (anchor: Result<NewAnchor, OrchardPayError>)
    ensures
        match anchor {
            Ok(a) => {
                &&& a.id == document_id
                &&& a.owner_id == request.owner_id
                &&& a.my_reference_id == my_reference_id
                &&& primitives::sealable(
                    own_record(
                        *request,
                        my_reference_id,
                        encryption_pubkey@,
                        decryption_pubkey@,
                    ).encoded_len(),
                )
                &&& encryption::seals(shared_secret@, own_payload(my_reference_id).encoded(), a.data@)
                &&& encryption::AnchorPayloadView::decrypted(shared_secret@, a.data@) == Ok::<
                    encryption::AnchorPayloadView,
                    encryption::OrchardPayCryptoError,
                >(own_payload(my_reference_id))
                &&& encryption::seals(
                    anchor_data_key@,
                    own_record(
                        *request,
                        my_reference_id,
                        encryption_pubkey@,
                        decryption_pubkey@,
                    ).encoded(),
                    a.anchor_data@,
                )
                &&& a.anchor_data@.len() == 28 + own_record(
                    *request,
                    my_reference_id,
                    encryption_pubkey@,
                    decryption_pubkey@,
                ).encoded_len()
                &&& encryption::AnchorRecordView::decrypted(anchor_data_key@, a.anchor_data@) == Ok::<
                    encryption::AnchorRecordView,
                    encryption::OrchardPayCryptoError,
                >(own_record(*request, my_reference_id, encryption_pubkey@, decryption_pubkey@))
            },
            Err(e) => e == OrchardPayError::Crypto(encryption::OrchardPayCryptoError::Encryption)
                && !primitives::sealable(
                own_record(
                    *request,
                    my_reference_id,
                    encryption_pubkey@,
                    decryption_pubkey@,
                ).encoded_len(),
            ),
        },
{
    let payload: ContactAnchorPayload = ContactAnchorPayload {
        reference_id: my_reference_id,
        core_payment_xpub: None,
        dedicated_shielded_address: None,
        initial_message: None,
    };
    assert(payload@ == own_payload(my_reference_id));
    let record: AnchorDataRecord = AnchorDataRecord {
        counterparty_identity_id: request.counterparty_id,
        counterparty_name_snapshot: text::copy_optional_text(&request.counterparty_name),
        my_reference_id,
        their_reference_id: Some(request.their_reference_id),
        my_initial_message: None,
        my_core_payment_xpub: None,
        my_dedicated_shielded_address: None,
        counterparty_encryption_pubkey: Some(copy_bytes(encryption_pubkey)),
        counterparty_decryption_pubkey: Some(copy_bytes(decryption_pubkey)),
    };
    assert(record@ == own_record(
        *request,
        my_reference_id,
        encryption_pubkey@,
        decryption_pubkey@,
    ));
    match payload.encrypt(shared_secret) {
        Err(e) => Err(OrchardPayError::Crypto(e)),
        Ok(data) => match record.encrypt(anchor_data_key) {
            Err(e) => Err(OrchardPayError::Crypto(e)),
            Ok(anchor_data) => Ok(
                NewAnchor {
                    id: document_id,
                    owner_id: request.owner_id,
                    my_reference_id,
                    data,
                    anchor_data,
                },
            ),
        },
    }
}

/// [`new_anchor`] with a reference drawn at random.
pub fn fresh_anchor(
    request: &ContactRequest,
    document_id: Identifier,
    shared_secret: &[u8; 32],
    anchor_data_key: &[u8; 32],
    encryption_pubkey: &Vec<u8>,
    decryption_pubkey: &Vec<u8>,
) -> (anchor: Result<NewAnchor, OrchardPayError>)
    ensures
        match anchor {
            Ok(a) => {
                &&& a.id == document_id
                &&& a.owner_id == request.owner_id
                &&& primitives::sealable(
                    own_record(
                        *request,
                        a.my_reference_id,
                        encryption_pubkey@,
                        decryption_pubkey@,
                    ).encoded_len(),
                )
                &&& encryption::seals(
                    shared_secret@,
                    own_payload(a.my_reference_id).encoded(),
                    a.data@,
                )
                &&& encryption::AnchorPayloadView::decrypted(shared_secret@, a.data@) == Ok::<
                    encryption::AnchorPayloadView,
                    encryption::OrchardPayCryptoError,
                >(own_payload(a.my_reference_id))
                &&& encryption::seals(
                    anchor_data_key@,
                    own_record(
                        *request,
                        a.my_reference_id,
                        encryption_pubkey@,
                        decryption_pubkey@,
                    ).encoded(),
                    a.anchor_data@,
                )
                &&& a.anchor_data@.len() == 28 + own_record(
                    *request,
                    a.my_reference_id,
                    encryption_pubkey@,
                    decryption_pubkey@,
                ).encoded_len()
                &&& encryption::AnchorRecordView::decrypted(anchor_data_key@, a.anchor_data@) == Ok::<
                    encryption::AnchorRecordView,
                    encryption::OrchardPayCryptoError,
                >(own_record(*request, a.my_reference_id, encryption_pubkey@, decryption_pubkey@))
            },
            Err(e) => {
                &&& e == OrchardPayError::Crypto(encryption::OrchardPayCryptoError::Encryption)
                &&& forall|reference: [u8; 32]|
                    !primitives::sealable(
                        (#[trigger] own_record(
                            *request,
                            reference,
                            encryption_pubkey@,
                            decryption_pubkey@,
                        )).encoded_len(),
                    )
            },
        },
{
    let my_reference_id: [u8; 32] = primitives::random_bytes::<32>();
    new_anchor(
        request,
        document_id,
        my_reference_id,
        shared_secret,
        anchor_data_key,
        encryption_pubkey,
        decryption_pubkey,
    )
}

/// One step of an attempt. Steps are taken in order; the first that fails ends
/// the attempt.
#[derive(Debug, Clone, PartialEq)]
pub enum ContactEffect {
    /// Note how far the attempt has come.
    SetPending(PendingOrchardPayOperation),
    /// Publish the anchor.
    Broadcast(NewAnchor),
    /// Note that the anchor's record is to be replaced later.
    ScheduleReplace(ScheduledAnchorReplace),
    /// Signal the anchor to the counterparty's shielded address.
    Transfer { amount: u64, memo: [u8; 36] },
    /// Record the contact's state.
    SetState(OrchardPayContactState),
    /// Drop the note of the attempt.
    ClearPending,
}

/// The contents of a [`ContactEffect`].
pub ghost enum EffectView {
    SetPending(PendingOrchardPayOperation),
    Broadcast { id: Identifier, owner_id: Identifier, data: Seq<u8>, anchor_data: Seq<u8> },
    ScheduleReplace(ScheduledAnchorReplace),
    Transfer { amount: u64, memo: Seq<u8> },
    SetState(orchardpay::ContactStateView),
    ClearPending,
}

impl View for ContactEffect {
    type V = EffectView;

    open spec fn view(&self) -> EffectView {
        match *self {
            ContactEffect::SetPending(operation) => EffectView::SetPending(operation),
            ContactEffect::Broadcast(anchor) => EffectView::Broadcast {
                id: anchor.id,
                owner_id: anchor.owner_id,
                data: anchor.data@,
                anchor_data: anchor.anchor_data@,
            },
            ContactEffect::ScheduleReplace(marker) => EffectView::ScheduleReplace(marker),
            ContactEffect::Transfer { amount, memo } => EffectView::Transfer { amount, memo: memo@ },
            ContactEffect::SetState(state) => EffectView::SetState(state@),
            ContactEffect::ClearPending => EffectView::ClearPending,
        }
    }
}

/// The contents of a list of steps.
pub open spec fn effect_views(effects: Seq<ContactEffect>) -> Seq<EffectView> {
    effects.map_values(|e: ContactEffect| e@)
}

/// The note of an attempt at this step.
pub open spec fn note(
    my_reference_id: [u8; 32],
    document_id: Identifier,
    step: PendingOperationStep,
) -> PendingOrchardPayOperation {
    PendingOrchardPayOperation::ContactAnchor {
        my_reference_id,
        my_anchor_document_id: document_id,
        step,
    }
}

/// The steps that publish an anchor: the note comes first.
pub open spec fn publishing(anchor: NewAnchor) -> Seq<EffectView> {
    seq![
        EffectView::SetPending(
            note(anchor.my_reference_id, anchor.id, PendingOperationStep::DocumentPublished),
        ),
        ContactEffect::Broadcast(anchor)@,
    ]
}

/// The steps that publish an anchor: the note comes first.
pub fn publishing_effects(anchor: NewAnchor) -> (effects: Vec<ContactEffect>)
    ensures
        effect_views(effects@) == publishing(anchor),
{
    let mut effects: Vec<ContactEffect> = Vec::new();
    effects.push(
        ContactEffect::SetPending(
            PendingOrchardPayOperation::ContactAnchor {
                my_reference_id: anchor.my_reference_id,
                my_anchor_document_id: anchor.id,
                step: PendingOperationStep::DocumentPublished,
            },
        ),
    );
    effects.push(ContactEffect::Broadcast(anchor));
    assert(effect_views(effects@) =~= publishing(anchor));
    effects
}

/// Where an attempt stands once its anchor is out.
#[derive(Debug, Clone, Copy, PartialEq, Eq)]
pub struct AnchorProgress {
    pub my_reference_id: [u8; 32],
    pub my_anchor_document_id: [u8; 32],
    pub needs_transfer: bool,
    /// When the anchor was created, if it was published just now and that is
    /// known.
    pub created_at: Option<u64>,
}

/// The progress of an attempt that has just published its anchor.
pub open spec fn published_progress(anchor: NewAnchor, created_at: Option<u64>) -> AnchorProgress {
    AnchorProgress {
        my_reference_id: anchor.my_reference_id,
        my_anchor_document_id: anchor.id,
        needs_transfer: true,
        created_at,
    }
}

/// The progress of an attempt that has just published its anchor.
pub fn published(anchor: &NewAnchor, created_at: Option<u64>) -> (progress: AnchorProgress)
    ensures
        progress == published_progress(*anchor, created_at),
{
    AnchorProgress {
        my_reference_id: anchor.my_reference_id,
        my_anchor_document_id: anchor.id,
        needs_transfer: true,
        created_at,
    }
}

/// The progress of an attempt that was taken up again.
pub open spec fn resumed_progress(attempt: AnchorAttempt) -> Option<AnchorProgress> {
    match attempt {
        AnchorAttempt::Fresh => None,
        AnchorAttempt::Resumed { my_reference_id, my_anchor_document_id, needs_transfer } => Some(
            AnchorProgress {
                my_reference_id,
                my_anchor_document_id,
                needs_transfer,
                created_at: None,
            },
        ),
    }
}

/// The progress of an attempt that is taken up again; none for a fresh one.
pub fn resume(attempt: &AnchorAttempt) -> (progress: Option<AnchorProgress>)
    ensures
        progress == resumed_progress(*attempt),
{
    match attempt {
        AnchorAttempt::Fresh => None,
        AnchorAttempt::Resumed { my_reference_id, my_anchor_document_id, needs_transfer } => Some(
            AnchorProgress {
                my_reference_id: *my_reference_id,
                my_anchor_document_id: *my_anchor_document_id,
                needs_transfer: *needs_transfer,
                created_at: None,
            },
        ),
    }
}

/// The state that a finished attempt leaves: one that asked waits for the answer,
/// one that answered is established, and keeps the time of the request that it
/// answered.
pub open spec fn finished_state(
    request: ContactRequest,
    progress: AnchorProgress,
    encryption_pubkey: Seq<u8>,
    decryption_pubkey: Seq<u8>,
) -> orchardpay::ContactStateView {
    match request.role {
        AnchorRole::Initiator => orchardpay::ContactStateView::PendingOutbound {
            my_reference_id: progress.my_reference_id@,
            my_anchor_document_id: progress.my_anchor_document_id@,
            name: text::optional_view(request.counterparty_name),
            created_at: progress.created_at,
        },
        AnchorRole::Acceptor => orchardpay::ContactStateView::Established {
            my_reference_id: progress.my_reference_id@,
            my_anchor_document_id: progress.my_anchor_document_id@,
            their_reference_id: request.their_reference_id@,
            counterparty_encryption_pubkey: encryption_pubkey,
            counterparty_decryption_pubkey: decryption_pubkey,
            name: text::optional_view(request.counterparty_name),
            created_at: request.pending_created_at,
        },
    }
}

/// The steps that follow the publication.
pub open spec fn completing(
    request: ContactRequest,
    progress: AnchorProgress,
    encryption_pubkey: Seq<u8>,
    decryption_pubkey: Seq<u8>,
) -> Seq<EffectView> {
    let schedule = match progress.created_at {
        Some(created_at) => seq![
            EffectView::ScheduleReplace(
                ScheduledAnchorReplace {
                    anchor_document_id: progress.my_anchor_document_id,
                    anchor_created_at: created_at,
                    role: request.role,
                },
            ),
        ],
        None => Seq::empty(),
    };
    let transfer = if progress.needs_transfer {
        seq![
            EffectView::Transfer {
                amount: request.amount_credits,
                memo: MEMO_TAG_ANCHOR@ + progress.my_anchor_document_id@,
            },
            EffectView::SetPending(
                note(
                    progress.my_reference_id,
                    progress.my_anchor_document_id,
                    PendingOperationStep::TransferSent,
                ),
            ),
        ]
    } else {
        Seq::empty()
    };
    schedule + transfer + seq![
        EffectView::SetState(
            finished_state(request, progress, encryption_pubkey, decryption_pubkey),
        ),
        EffectView::ClearPending,
    ]
}

/// The steps that follow the publication: the later replacement is noted, the
/// signal sent and noted, the state recorded, and the note dropped.
pub fn completing_effects(
    request: &ContactRequest,
    progress: &AnchorProgress,
    encryption_pubkey: Vec<u8>,
    decryption_pubkey: Vec<u8>,
) -> (effects: Vec<ContactEffect>)
    ensures
        effect_views(effects@) == completing(
            *request,
            *progress,
            encryption_pubkey@,
            decryption_pubkey@,
        ),
{
    let mut effects: Vec<ContactEffect> = Vec::new();
    if let Some(created_at) = progress.created_at {
        effects.push(
            ContactEffect::ScheduleReplace(
                ScheduledAnchorReplace {
                    anchor_document_id: progress.my_anchor_document_id,
                    anchor_created_at: created_at,
                    role: request.role,
                },
            ),
        );
    }
    if progress.needs_transfer {
        effects.push(
            ContactEffect::Transfer {
                amount: request.amount_credits,
                memo: document_memo(MEMO_TAG_ANCHOR, &progress.my_anchor_document_id),
            },
        );
        effects.push(
            ContactEffect::SetPending(
                PendingOrchardPayOperation::ContactAnchor {
                    my_reference_id: progress.my_reference_id,
                    my_anchor_document_id: progress.my_anchor_document_id,
                    step: PendingOperationStep::TransferSent,
                },
            ),
        );
    }
    let state: OrchardPayContactState = match request.role {
        AnchorRole::Initiator => OrchardPayContactState::PendingOutbound {
            my_reference_id: progress.my_reference_id,
            my_anchor_document_id: progress.my_anchor_document_id,
            name: text::copy_optional_text(&request.counterparty_name),
            created_at: progress.created_at,
        },
        AnchorRole::Acceptor => OrchardPayContactState::Established {
            my_reference_id: progress.my_reference_id,
            my_anchor_document_id: progress.my_anchor_document_id,
            their_reference_id: request.their_reference_id,
            counterparty_encryption_pubkey: encryption_pubkey,
            counterparty_decryption_pubkey: decryption_pubkey,
            name: text::copy_optional_text(&request.counterparty_name),
            created_at: request.pending_created_at,
        },
    };
    effects.push(ContactEffect::SetState(state));
    effects.push(ContactEffect::ClearPending);
    assert(effect_views(effects@) =~= completing(
        *request,
        *progress,
        encryption_pubkey@,
        decryption_pubkey@,
    ));
    effects
}

/// What is kept locally of the attempts with one counterparty, and how often an
/// anchor was published.
pub ghost struct AttemptRecord {
    pub pending: Option<PendingOrchardPayOperation>,
    pub state: Option<orchardpay::ContactStateView>,
    pub published: Seq<Identifier>,
}

/// The record after one more step.
pub open spec fn after_effect(record: AttemptRecord, effect: EffectView) -> AttemptRecord {
    match effect {
        EffectView::SetPending(operation) => AttemptRecord { pending: Some(operation), ..record },
        EffectView::Broadcast { id, .. } => AttemptRecord {
            published: record.published.push(id),
            ..record
        },
        EffectView::ScheduleReplace(_) => record,
        EffectView::Transfer { .. } => record,
        EffectView::SetState(state) => AttemptRecord { state: Some(state), ..record },
        EffectView::ClearPending => AttemptRecord { pending: None, ..record },
    }
}

/// The record after these steps.
pub open spec fn after_effects(record: AttemptRecord, effects: Seq<EffectView>) -> AttemptRecord
    decreases effects.len(),
{
    if effects.len() == 0 {
        record
    } else {
        after_effect(after_effects(record, effects.drop_last()), effects.last())
    }
}

/// All the steps of an attempt that starts anew.
pub open spec fn fresh_run(
    request: ContactRequest,
    anchor: NewAnchor,
    created_at: Option<u64>,
    encryption_pubkey: Seq<u8>,
    decryption_pubkey: Seq<u8>,
) -> Seq<EffectView> {
    publishing(anchor) + completing(
        request,
        published_progress(anchor, created_at),
        encryption_pubkey,
        decryption_pubkey,
    )
}

/// The record after one step more than `k`.
proof fn lemma_step(record: AttemptRecord, effects: Seq<EffectView>, k: int)
    requires
        0 <= k < effects.len(),
    ensures
        after_effects(record, effects.take(k + 1)) == after_effect(
            after_effects(record, effects.take(k)),
            effects[k],
        ),
{
    assert(effects.take(k + 1).drop_last() =~= effects.take(k));
}

/// The steps after the publication publish nothing and end in the finished state.
proof fn lemma_completing(
    record: AttemptRecord,
    request: ContactRequest,
    progress: AnchorProgress,
    encryption_pubkey: Seq<u8>,
    decryption_pubkey: Seq<u8>,
)
    ensures
        ({
            let done = after_effects(
                record,
                completing(request, progress, encryption_pubkey, decryption_pubkey),
            );
            &&& done.published == record.published
            &&& done.pending is None
            &&& done.state == Some(
                finished_state(request, progress, encryption_pubkey, decryption_pubkey),
            )
        }),
{
    let steps = completing(request, progress, encryption_pubkey, decryption_pubkey);
    let n = steps.len() as int;
    assert(after_effects(record, steps.take(0)) == record);
    if n >= 3 {
        lemma_step(record, steps, 0);
    }
    if n >= 4 {
        lemma_step(record, steps, 1);
    }
    if n >= 5 {
        lemma_step(record, steps, 2);
    }
    lemma_step(record, steps, n - 2);
    lemma_step(record, steps, n - 1);
    assert(steps.take(n) =~= steps);
}

/// After any step but the last, the note names the anchor, which was published
/// at most once.
proof fn lemma_midway(
    request: ContactRequest,
    anchor: NewAnchor,
    created_at: Option<u64>,
    encryption_pubkey: Seq<u8>,
    decryption_pubkey: Seq<u8>,
    before: AttemptRecord,
    k: int,
)
    requires
        1 <= k < fresh_run(
            request,
            anchor,
            created_at,
            encryption_pubkey,
            decryption_pubkey,
        ).len(),
    ensures
        ({
            let run = fresh_run(request, anchor, created_at, encryption_pubkey, decryption_pubkey);
            let record = after_effects(before, run.take(k));
            &&& exists|step: PendingOperationStep|
                record.pending == Some(#[trigger] note(anchor.my_reference_id, anchor.id, step))
            &&& record.published == if k == 1 {
                before.published
            } else {
                before.published.push(anchor.id)
            }
        }),
    decreases k,
{
    let run = fresh_run(request, anchor, created_at, encryption_pubkey, decryption_pubkey);
    lemma_step(before, run, k - 1);
    assert(after_effects(before, run.take(0)) == before);
    if k == 1 {
        assert(after_effects(before, run.take(1)).pending == Some(
            note(anchor.my_reference_id, anchor.id, PendingOperationStep::DocumentPublished),
        ));
    } else {
        lemma_midway(
            request,
            anchor,
            created_at,
            encryption_pubkey,
            decryption_pubkey,
            before,
            k - 1,
        );
        if k > 2 {
            let tail = completing(
                request,
                published_progress(anchor, created_at),
                encryption_pubkey,
                decryption_pubkey,
            );
            assert(run[k - 1] == tail[k - 3]);
            if run[k - 1] is SetPending {
                assert(after_effects(before, run.take(k)).pending == Some(
                    note(anchor.my_reference_id, anchor.id, PendingOperationStep::TransferSent),
                ));
            }
        }
    }
}

/// An attempt that is cut off after any of its steps and made again publishes no
/// second anchor: before the first step there is nothing to take up, after the
/// last one nothing is left, and in between the note leads to the same anchor,
/// whose remaining steps hold no publication and end in the finished state.
pub proof fn cut_off_attempt_publishes_once(
    request: ContactRequest,
    anchor: NewAnchor,
    created_at: Option<u64>,
    encryption_pubkey: Seq<u8>,
    decryption_pubkey: Seq<u8>,
    before: AttemptRecord,
    k: int,
)
    requires
        before.pending is None,
        0 <= k <= fresh_run(
            request,
            anchor,
            created_at,
            encryption_pubkey,
            decryption_pubkey,
        ).len(),
    ensures
        ({
            let run = fresh_run(request, anchor, created_at, encryption_pubkey, decryption_pubkey);
            let record = after_effects(before, run.take(k));
            if k == 0 {
                record == before
            } else if k == run.len() {
                &&& record.pending is None
                &&& record.published == before.published.push(anchor.id)
                &&& record.state == Some(
                    finished_state(
                        request,
                        published_progress(anchor, created_at),
                        encryption_pubkey,
                        decryption_pubkey,
                    ),
                )
            } else {
                &&& resumed_progress(attempt_after(record.pending)) matches Some(progress)
                &&& progress.my_reference_id == anchor.my_reference_id
                &&& progress.my_anchor_document_id == anchor.id
                &&& record.published == before.published || record.published
                    == before.published.push(anchor.id)
                &&& ({
                    let again = after_effects(
                        record,
                        completing(request, progress, encryption_pubkey, decryption_pubkey),
                    );
                    &&& again.published == record.published
                    &&& again.pending is None
                    &&& again.state == Some(
                        finished_state(request, progress, encryption_pubkey, decryption_pubkey),
                    )
                })
            }
        }),
{
    let run = fresh_run(request, anchor, created_at, encryption_pubkey, decryption_pubkey);
    let record = after_effects(before, run.take(k));
    if k == 0 {
        assert(after_effects(before, run.take(0)) == before);
    } else if k == run.len() {
        let tail = completing(
            request,
            published_progress(anchor, created_at),
            encryption_pubkey,
            decryption_pubkey,
        );
        lemma_midway(
            request,
            anchor,
            created_at,
            encryption_pubkey,
            decryption_pubkey,
            before,
            k - 1,
        );
        lemma_midway(
            request,
            anchor,
            created_at,
            encryption_pubkey,
            decryption_pubkey,
            before,
            k - 2,
        );
        lemma_step(before, run, k - 2);
        lemma_step(before, run, k - 1);
        assert(run[k - 1] == tail.last());
        assert(run[k - 2] == tail[tail.len() - 2]);
    } else {
        lemma_midway(
            request,
            anchor,
            created_at,
            encryption_pubkey,
            decryption_pubkey,
            before,
            k,
        );
        let progress = resumed_progress(attempt_after(record.pending))->0;
        lemma_completing(record, request, progress, encryption_pubkey, decryption_pubkey);
    }
}

/// Accepting a request keeps the time that was recorded of it, whether the attempt ran
/// through or was taken up again.
pub proof fn accepting_keeps_the_time(
    request: ContactRequest,
    progress: AnchorProgress,
    encryption_pubkey: Seq<u8>,
    decryption_pubkey: Seq<u8>,
    before: AttemptRecord,
)
    requires
        request.role == AnchorRole::Acceptor,
        before.state matches Some(
            orchardpay::ContactStateView::PendingInboundUnaccepted { created_at, .. },
        ) && created_at == request.pending_created_at,
    ensures
        ({
            let after = after_effects(
                before,
                completing(request, progress, encryption_pubkey, decryption_pubkey),
            );
            &&& after.pending is None
            &&& after.state matches Some(
                orchardpay::ContactStateView::Established { their_reference_id, created_at, .. },
            )
            &&& their_reference_id == request.their_reference_id@
            &&& created_at == request.pending_created_at
        }),
{
    lemma_completing(before, request, progress, encryption_pubkey, decryption_pubkey);
}

/// Whoever asks and whoever answers signals the anchor: where the transfer is still to
/// be made, the steps hold exactly one, of the request's amount, whose memo is `OPA1`
/// followed by the anchor's identifier. It is noted at once, and made before the state
/// is recorded. Where it was made before, it is not made again.
pub proof fn anchors_are_signalled_once(
    request: ContactRequest,
    progress: AnchorProgress,
    encryption_pubkey: Seq<u8>,
    decryption_pubkey: Seq<u8>,
)
    ensures
        ({
            let steps = completing(request, progress, encryption_pubkey, decryption_pubkey);
            let signal = EffectView::Transfer {
                amount: request.amount_credits,
                memo: seq![0x4fu8, 0x50u8, 0x41u8, 0x31u8] + progress.my_anchor_document_id@,
            };
            &&& progress.needs_transfer ==> exists|t: int|
                {
                    &&& 0 <= t < steps.len() - 3
                    &&& #[trigger] steps[t] == signal
                    &&& steps[t + 1] == EffectView::SetPending(
                        PendingOrchardPayOperation::ContactAnchor {
                            my_reference_id: progress.my_reference_id,
                            my_anchor_document_id: progress.my_anchor_document_id,
                            step: PendingOperationStep::TransferSent,
                        },
                    )
                    &&& forall|k: int|
                        0 <= k < steps.len() && k != t ==> !(#[trigger] steps[k] is Transfer)
                    &&& forall|k: int|
                        0 <= k < steps.len() && k != t + 1 ==> !(#[trigger] steps[k] is SetPending)
                }
            &&& !progress.needs_transfer ==> forall|k: int|
                0 <= k < steps.len() ==> !(#[trigger] steps[k] is Transfer) && !(
                steps[k] is SetPending)
        }),
{
    let steps = completing(request, progress, encryption_pubkey, decryption_pubkey);
    assert(MEMO_TAG_ANCHOR@ =~= seq![0x4fu8, 0x50u8, 0x41u8, 0x31u8]);
    if progress.needs_transfer {
        let t: int = if progress.created_at is Some {
            1
        } else {
            0
        };
        assert(steps.len() == t + 4);
        assert(steps[t] is Transfer);
        assert forall|k: int| 0 <= k < steps.len() && k != t implies !(
        #[trigger] steps[k] is Transfer) by {}
    }
}

/// The steps after the publication end by recording one state and dropping the note,
/// in this order, and publish nothing. Where it is known when the anchor was created,
/// and only there, they first note that its record is to be replaced, counted from
/// that time.
pub proof fn completing_ends_in_one_state(
    request: ContactRequest,
    progress: AnchorProgress,
    encryption_pubkey: Seq<u8>,
    decryption_pubkey: Seq<u8>,
)
    ensures
        ({
            let steps = completing(request, progress, encryption_pubkey, decryption_pubkey);
            let n = steps.len() as int;
            &&& n >= 2
            &&& steps[n - 1] == EffectView::ClearPending
            &&& steps[n - 2] is SetState
            &&& forall|k: int|
                0 <= k < n ==> !(#[trigger] steps[k] is Broadcast) && (steps[k] is SetState ==> k
                    == n - 2) && (steps[k] is ClearPending ==> k == n - 1)
            &&& progress.created_at matches Some(t) ==> steps[0] == EffectView::ScheduleReplace(
                ScheduledAnchorReplace {
                    anchor_document_id: progress.my_anchor_document_id,
                    anchor_created_at: t,
                    role: request.role,
                },
            )
            &&& forall|k: int|
                0 <= k < n && #[trigger] steps[k] is ScheduleReplace ==> k == 0
                    && progress.created_at is Some
        }),
{
}

/// Whoever asked is left waiting with nothing of the other side but the name; whoever
/// answered is connected, with both references and both keys, and with the time of the
/// request that was answered.
pub proof fn asking_waits_and_answering_connects(
    request: ContactRequest,
    progress: AnchorProgress,
    encryption_pubkey: Seq<u8>,
    decryption_pubkey: Seq<u8>,
)
    ensures
        ({
            let steps = completing(request, progress, encryption_pubkey, decryption_pubkey);
            &&& steps[steps.len() - 2] matches EffectView::SetState(state)
            &&& request.role is Initiator ==> (state matches orchardpay::ContactStateView::PendingOutbound {
                my_reference_id,
                my_anchor_document_id,
                name,
                created_at,
            } && my_reference_id == progress.my_reference_id@ && my_anchor_document_id
                == progress.my_anchor_document_id@ && name == text::optional_view(
                request.counterparty_name,
            ) && created_at == progress.created_at)
            &&& request.role is Acceptor ==> (state matches orchardpay::ContactStateView::Established {
                my_reference_id,
                my_anchor_document_id,
                their_reference_id,
                counterparty_encryption_pubkey,
                counterparty_decryption_pubkey,
                name,
                created_at,
            } && my_reference_id == progress.my_reference_id@ && my_anchor_document_id
                == progress.my_anchor_document_id@ && their_reference_id
                == request.their_reference_id@ && counterparty_encryption_pubkey
                == encryption_pubkey && counterparty_decryption_pubkey == decryption_pubkey && name
                == text::optional_view(request.counterparty_name) && created_at
                == request.pending_created_at)
        }),
{
}

/// An anchor is noted before it is published, and the note names that very anchor, with
/// its transfer still to be made. What is published is the anchor as it was sealed.
pub proof fn anchors_are_noted_first(anchor: NewAnchor)
    ensures
        publishing(anchor).len() == 2,
        publishing(anchor)[0] == EffectView::SetPending(
            PendingOrchardPayOperation::ContactAnchor {
                my_reference_id: anchor.my_reference_id,
                my_anchor_document_id: anchor.id,
                step: PendingOperationStep::DocumentPublished,
            },
        ),
        publishing(anchor)[1] == (EffectView::Broadcast {
            id: anchor.id,
            owner_id: anchor.owner_id,
            data: anchor.data@,
            anchor_data: anchor.anchor_data@,
        }),
        published_progress(anchor, None).needs_transfer,
        forall|created_at: Option<u64>|
            {
                let progress = #[trigger] published_progress(anchor, created_at);
                &&& progress.my_reference_id == anchor.my_reference_id
                &&& progress.my_anchor_document_id == anchor.id
                &&& progress.needs_transfer
                &&& progress.created_at == created_at
            },
{
}

/// An attempt that is taken up again goes on with the anchor that was noted, and makes
/// the transfer unless it was noted that it was made. Any other note, or none, leads to
/// a fresh attempt.
pub proof fn notes_are_taken_up(
    pending: Option<PendingOrchardPayOperation>,
)
    ensures
        match pending {
            Some(
                PendingOrchardPayOperation::ContactAnchor {
                    my_reference_id,
                    my_anchor_document_id,
                    step,
                },
            ) => resumed_progress(attempt_after(pending)) matches Some(progress)
                && progress.my_reference_id == my_reference_id && progress.my_anchor_document_id
                == my_anchor_document_id && progress.created_at is None && (
            progress.needs_transfer <==> step is DocumentPublished),
            _ => attempt_after(pending) is Fresh && resumed_progress(attempt_after(pending)) is None,
        },
{
}

/// A transfer is refused exactly to oneself, as to somebody without keys, and below the
/// minimum, with the amount and the minimum told.
pub proof fn only_these_transfers_are_refused(
    owner_id: Identifier,
    counterparty_id: Identifier,
    amount: u64,
    minimum: u64,
)
    ensures
        ({
            let refusal = transfer_refusal(owner_id, counterparty_id, amount, minimum);
            &&& refusal is None <==> owner_id != counterparty_id && amount >= minimum
            &&& owner_id == counterparty_id ==> refusal == Some(
                OrchardPayTaskError::OrchardPay(OrchardPayError::CounterpartyKeyMissing),
            )
            &&& owner_id != counterparty_id && amount < minimum ==> (refusal matches Some(
                OrchardPayTaskError::AmountTooLow { source },
            ) && source.actual == amount && source.minimum == minimum)
        }),
{
}

/// The counterparty learns the reference from an anchor and nothing else; its owner
/// finds in it again all that is needed to go on with this counterparty.
pub proof fn anchors_tell_each_side_its_part(
    request: ContactRequest,
    my_reference_id: [u8; 32],
    encryption_pubkey: Seq<u8>,
    decryption_pubkey: Seq<u8>,
)
    ensures
        ({
            let payload = own_payload(my_reference_id);
            let record = own_record(request, my_reference_id, encryption_pubkey, decryption_pubkey);
            &&& payload.reference_id == my_reference_id@
            &&& payload.core_payment_xpub is None
            &&& payload.dedicated_shielded_address is None
            &&& payload.initial_message is None
            &&& record.counterparty_identity_id == request.counterparty_id@
            &&& record.counterparty_name_snapshot == text::optional_view(request.counterparty_name)
            &&& record.my_reference_id == my_reference_id@
            &&& record.their_reference_id == Some(request.their_reference_id@)
            &&& record.counterparty_encryption_pubkey == Some(encryption_pubkey)
            &&& record.counterparty_decryption_pubkey == Some(decryption_pubkey)
            &&& record.my_initial_message is None
            &&& record.my_core_payment_xpub is None
            &&& record.my_dedicated_shielded_address is None
        }),
{
}

/// A request goes from the one who asks to the one asked, under their name and with
/// the amount that was named; it fills in the asker for the reference it cannot know
/// yet. One cannot ask oneself, nor with less than the minimum, and nothing else is
/// refused.
pub proof fn requests_go_to_the_one_asked(
    owner_id: Identifier,
    counterparty_id: Identifier,
    name: String,
    amount: u64,
    minimum: u64,
)
    ensures
        ({
            let request = initiation(owner_id, counterparty_id, name, amount, minimum);
            &&& request is Ok <==> owner_id != counterparty_id && amount >= minimum
            &&& request matches Ok(r) ==> {
                &&& r.owner_id == owner_id
                &&& r.counterparty_id == counterparty_id
                &&& r.counterparty_name == Some(name)
                &&& r.role == AnchorRole::Initiator
                &&& r.their_reference_id == owner_id
                &&& r.amount_credits == amount
                &&& r.pending_created_at is None
            }
            &&& owner_id == counterparty_id ==> request == Err::<
                ContactRequest,
                OrchardPayTaskError,
            >(OrchardPayTaskError::OrchardPay(OrchardPayError::CounterpartyKeyMissing))
            &&& owner_id != counterparty_id && amount < minimum ==> request == Err::<
                ContactRequest,
                OrchardPayTaskError,
            >(
                OrchardPayTaskError::AmountTooLow {
                    source: AmountTooLowError { actual: amount, minimum },
                },
            )
        }),
{
}

/// Only a request that was received and not accepted is answered: to the one who
/// made it, by their reference, with the least amount, keeping when it was made.
pub proof fn answers_go_to_open_requests(
    owner_id: Identifier,
    counterparty_id: Identifier,
    existing: Option<OrchardPayContactState>,
    minimum: u64,
)
    ensures
        ({
            let request = acceptance(owner_id, counterparty_id, existing, minimum);
            &&& request is Ok <==> (existing matches Some(s) && s is PendingInboundUnaccepted)
            &&& request matches Ok(r) ==> {
                &&& r.owner_id == owner_id
                &&& r.counterparty_id == counterparty_id
                &&& r.counterparty_name is None
                &&& r.role == AnchorRole::Acceptor
                &&& r.their_reference_id
                    == existing->0->PendingInboundUnaccepted_their_reference_id
                &&& r.amount_credits == minimum
                &&& r.pending_created_at == existing->0.spec_created_at()
            }
            &&& request matches Err(e) ==> e == OrchardPayTaskError::OrchardPay(
                OrchardPayError::AnchorNotFound,
            )
        }),
{
}

/// Somebody of whom anything is recorded is not asked again.
pub proof fn nobody_is_asked_twice(state: OrchardPayContactState)
    ensures
        untracked(None) is Ok,
        untracked(Some(state)) == Err::<(), OrchardPayError>(
            OrchardPayError::RelationshipAlreadyExists,
        ),
{
}

/// The contents of a step tell which step it is, and all that it carries.
pub proof fn steps_are_what_they_carry(effect: ContactEffect)
    ensures
        match effect {
            ContactEffect::SetPending(operation) => effect@ == EffectView::SetPending(operation),
            ContactEffect::Broadcast(anchor) => effect@ == (EffectView::Broadcast {
                id: anchor.id,
                owner_id: anchor.owner_id,
                data: anchor.data@,
                anchor_data: anchor.anchor_data@,
            }),
            ContactEffect::ScheduleReplace(marker) => effect@ == EffectView::ScheduleReplace(
                marker,
            ),
            ContactEffect::Transfer { amount, memo } => effect@ == (EffectView::Transfer {
                amount,
                memo: memo@,
            }),
            ContactEffect::SetState(state) => effect@ == EffectView::SetState(state@),
            ContactEffect::ClearPending => effect@ == EffectView::ClearPending,
        },
{
}

} // verus!
