//! What a signalled contact anchor leads to, and the later replacement of an
//! anchor's own record.

use vstd::prelude::*;

use crate::codec;
use crate::model::identifier::{same_id, Identifier};
use crate::model::orchardpay;
use crate::model::orchardpay::{
    AnchorRole, OrchardPayContactState, ScheduledAnchorReplace,
};
use crate::model::text;
use crate::orchardpay::contact_anchor;
use crate::orchardpay::encryption;
use crate::orchardpay::encryption::{AnchorDataRecord, ContactAnchorPayload};
use crate::orchardpay::errors::OrchardPayError;
use crate::primitives;

verus! {

/// A published contact anchor.
#[derive(Debug, Clone, PartialEq)]
pub struct AnchorDocument {
    pub id: Identifier,
    pub owner_id: Identifier,
    /// When it was created, in milliseconds.
    pub created_at: Option<u64>,
    /// What the counterparty reads, if the document holds such bytes.
    pub data: Option<Vec<u8>>,
    /// What only the owner reads, if the document holds such bytes.
    pub anchor_data: Option<Vec<u8>>,
}

/// Whose anchor a signal is about, where it can concern this identity at all.
pub open spec fn sender_of(
    owner_id: Identifier,
    document: Option<AnchorDocument>,
) -> Option<Identifier> {
    match document {
        None => None,
        Some(d) => if d.owner_id == owner_id || d.data is None {
            None
        } else {
            Some(d.owner_id)
        },
    }
}

/// Whose anchor a signal is about: nobody's if there is no such document, if it
/// is one's own, or if it holds nothing to read.
pub fn signal_sender(owner_id: &Identifier, document: &Option<AnchorDocument>) -> (sender: Option<
    Identifier,
>)
    ensures
        sender == sender_of(*owner_id, *document),
{
    match document {
        None => None,
        Some(d) => if same_id(&d.owner_id, owner_id) || d.data.is_none() {
            None
        } else {
            Some(d.owner_id)
        },
    }
}

/// The reference that an anchor gives to whoever has its secret.
pub open spec fn signalled_reference(document: AnchorDocument, secret: Seq<u8>) -> Option<Seq<u8>> {
    match document.data {
        None => None,
        Some(data) => match encryption::AnchorPayloadView::decrypted(secret, data@) {
            Ok(payload) => Some(payload.reference_id),
            Err(_) => None,
        },
    }
}

/// The reference that an anchor gives to whoever has its secret. One that does not
/// open, or does not read, was not meant for this identity.
pub fn read_signal(document: &AnchorDocument, shared_secret: &[u8; 32]) -> (reference: Option<
    [u8; 32],
>)
    ensures
        match reference {
            Some(r) => signalled_reference(*document, shared_secret@) == Some(r@),
            None => signalled_reference(*document, shared_secret@) is None,
        },
{
    match &document.data {
        None => None,
        Some(data) => match ContactAnchorPayload::decrypt(shared_secret, data.as_slice()) {
            Ok(payload) => Some(payload.reference_id),
            Err(_) => None,
        },
    }
}

/// What a readable signal calls for.
#[derive(Debug, Clone, Copy, PartialEq, Eq)]
pub enum SignalResponse {
    /// Record a request that was received.
    RecordRequest,
    /// Complete a request of one's own, whose anchor this is.
    CompleteRequest { my_anchor_document_id: Identifier },
    /// Nothing.
    Ignore,
}

/// What a readable signal calls for, given what is recorded of its sender.
pub open spec fn response_to(existing: Option<OrchardPayContactState>) -> SignalResponse {
    match existing {
        None => SignalResponse::RecordRequest,
        Some(OrchardPayContactState::PendingOutbound { my_anchor_document_id, .. }) =>
            SignalResponse::CompleteRequest { my_anchor_document_id },
        Some(_) => SignalResponse::Ignore,
    }
}

/// What a readable signal calls for, given what is recorded of its sender.
pub fn signal_response(existing: &Option<OrchardPayContactState>) -> (response: SignalResponse)
    ensures
        response == response_to(*existing),
{
    match existing {
        None => SignalResponse::RecordRequest,
        Some(OrchardPayContactState::PendingOutbound { my_anchor_document_id, .. }) =>
            SignalResponse::CompleteRequest { my_anchor_document_id: *my_anchor_document_id },
        Some(_) => SignalResponse::Ignore,
    }
}

/// The counterparty's decryption key as noted in one's own anchor.
pub open spec fn noted_decryption_pubkey(
    own_anchor: Option<AnchorDocument>,
    anchor_data_key: Seq<u8>,
) -> Result<Option<Seq<u8>>, OrchardPayError> {
    match own_anchor {
        None => Err(OrchardPayError::AnchorNotFound),
        Some(document) => match document.anchor_data {
            None => Ok(None),
            Some(bytes) => if bytes@.len() == 0 {
                Ok(None)
            } else {
                match encryption::AnchorRecordView::decrypted(anchor_data_key, bytes@) {
                    Err(e) => Err(OrchardPayError::Crypto(e)),
                    Ok(record) => Ok(record.counterparty_decryption_pubkey),
                }
            },
        },
    }
}

/// The counterparty's decryption key as noted in one's own anchor, which must be
/// there. An anchor without a record has noted none.
pub fn own_noted_pubkey(own_anchor: &Option<AnchorDocument>, anchor_data_key: &[u8; 32]) -> (key: Result<
    Option<Vec<u8>>,
    OrchardPayError,
>)
    ensures
        match key {
            Ok(k) => noted_decryption_pubkey(*own_anchor, anchor_data_key@) == Ok::<
                Option<Seq<u8>>,
                OrchardPayError,
            >(codec::view_bytes(k)),
            Err(e) => noted_decryption_pubkey(*own_anchor, anchor_data_key@) == Err::<
                Option<Seq<u8>>,
                OrchardPayError,
            >(e),
        },
{
    match own_anchor {
        None => Err(OrchardPayError::AnchorNotFound),
        Some(document) => match &document.anchor_data {
            None => Ok(None),
            Some(bytes) => if bytes.len() == 0 {
                Ok(None)
            } else {
                match AnchorDataRecord::decrypt(anchor_data_key, bytes.as_slice()) {
                    Err(e) => Err(OrchardPayError::Crypto(e)),
                    Ok(record) => Ok(record.counterparty_decryption_pubkey),
                }
            },
        },
    }
}

/// What was looked up on account of a signal.
#[derive(Debug, Clone, PartialEq)]
pub struct SignalReadings {
    /// The sender's name, for a request that was received.
    pub sender_name: Option<String>,
    /// One's own anchor, for a request that is completed.
    pub own_anchor: Option<AnchorDocument>,
    /// The wallet's key for anchor records.
    pub anchor_data_key: [u8; 32],
    pub sender_encryption_pubkey: Vec<u8>,
    /// The sender's decryption key, looked up where one's own anchor has noted
    /// none.
    pub sender_decryption_pubkey: Option<Vec<u8>>,
}

/// The state to record on account of a signal, if any.
pub open spec fn signal_outcome(
    owner_id: Identifier,
    document: Option<AnchorDocument>,
    secret: Seq<u8>,
    existing: Option<orchardpay::ContactStateView>,
    readings: SignalReadings,
) -> Result<Option<orchardpay::ContactStateView>, OrchardPayError> {
    if sender_of(owner_id, document) is None {
        Ok(None)
    } else {
        match signalled_reference(document->0, secret) {
            None => Ok(None),
            Some(reference) => match existing {
                None => Ok(
                    Some(
                        orchardpay::ContactStateView::PendingInboundUnaccepted {
                            their_reference_id: reference,
                            their_anchor_document_id: document->0.id@,
                            name: text::optional_view(readings.sender_name),
                            created_at: document->0.created_at,
                        },
                    ),
                ),
                Some(
                    orchardpay::ContactStateView::PendingOutbound {
                        my_reference_id,
                        my_anchor_document_id,
                        name,
                        created_at,
                    },
                ) => match noted_decryption_pubkey(
                    readings.own_anchor,
                    readings.anchor_data_key@,
                ) {
                    Err(e) => Err(e),
                    Ok(noted) => {
                        let key = if noted is Some {
                            noted
                        } else {
                            codec::view_bytes(readings.sender_decryption_pubkey)
                        };
                        match key {
                            None => Err(OrchardPayError::CounterpartyKeyMissing),
                            Some(decryption_pubkey) => Ok(
                                Some(
                                    orchardpay::ContactStateView::Established {
                                        my_reference_id,
                                        my_anchor_document_id,
                                        their_reference_id: reference,
                                        counterparty_encryption_pubkey:
                                            readings.sender_encryption_pubkey@,
                                        counterparty_decryption_pubkey: decryption_pubkey,
                                        name,
                                        created_at,
                                    },
                                ),
                            ),
                        }
                    },
                },
                Some(_) => Ok(None),
            },
        }
    }
}

/// The state to record on account of a signalled anchor. A request from somebody
/// new is recorded as received; the answer to a request of one's own completes
/// it; anything else changes nothing.
pub fn handle_incoming_anchor_signal(
    owner_id: &Identifier,
    document: &Option<AnchorDocument>,
    shared_secret: &[u8; 32],
    existing: &Option<OrchardPayContactState>,
    readings: SignalReadings,
) -> (state: Result<Option<OrchardPayContactState>, OrchardPayError>)
    ensures
        match state {
            Ok(s) => signal_outcome(
                *owner_id,
                *document,
                shared_secret@,
                orchardpay::contact_view(*existing),
                readings,
            ) == Ok::<Option<orchardpay::ContactStateView>, OrchardPayError>(
                orchardpay::contact_view(s),
            ),
            Err(e) => signal_outcome(
                *owner_id,
                *document,
                shared_secret@,
                orchardpay::contact_view(*existing),
                readings,
            ) == Err::<Option<orchardpay::ContactStateView>, OrchardPayError>(e),
        },
{
    if signal_sender(owner_id, document).is_none() {
        return Ok(None);
    }
    match document {
        None => Ok(None),
        Some(anchor) => match read_signal(anchor, shared_secret) {
            None => Ok(None),
            Some(reference) => match existing {
                None => Ok(
                    Some(
                        OrchardPayContactState::PendingInboundUnaccepted {
                            their_reference_id: reference,
                            their_anchor_document_id: anchor.id,
                            name: readings.sender_name,
                            created_at: anchor.created_at,
                        },
                    ),
                ),
                Some(
                    OrchardPayContactState::PendingOutbound {
                        my_reference_id,
                        my_anchor_document_id,
                        name,
                        created_at,
                    },
                ) => match own_noted_pubkey(&readings.own_anchor, &readings.anchor_data_key) {
                    Err(e) => Err(e),
                    Ok(noted) => {
                        let key: Option<Vec<u8>> = if noted.is_some() {
                            noted
                        } else {
                            readings.sender_decryption_pubkey
                        };
                        match key {
                            None => Err(OrchardPayError::CounterpartyKeyMissing),
                            Some(decryption_pubkey) => Ok(
                                Some(
                                    OrchardPayContactState::Established {
                                        my_reference_id: *my_reference_id,
                                        my_anchor_document_id: *my_anchor_document_id,
                                        their_reference_id: reference,
                                        counterparty_encryption_pubkey:
                                            readings.sender_encryption_pubkey,
                                        counterparty_decryption_pubkey: decryption_pubkey,
                                        name: text::copy_optional_text(name),
                                        created_at: *created_at,
                                    },
                                ),
                            ),
                        }
                    },
                },
                Some(_) => Ok(None),
            },
        },
    }
}

/// A signal never turns back a relationship that is established or awaits one's
/// own acceptance.
pub proof fn signals_never_reopen(
    owner_id: Identifier,
    document: Option<AnchorDocument>,
    secret: Seq<u8>,
    existing: orchardpay::ContactStateView,
    readings: SignalReadings,
)
    requires
        existing is Established || existing is PendingInboundUnaccepted,
    ensures
        signal_outcome(owner_id, document, secret, Some(existing), readings) == Ok::<
            Option<orchardpay::ContactStateView>,
            OrchardPayError,
        >(None),
{
}

/// A handshake that runs through leaves each side with the other's reference:
/// what the asking side seals, the answering side records and answers, and the
/// asking side completes its request with what comes back.
pub proof fn handshake_agrees(
    asking: Identifier,
    answering: Identifier,
    asking_anchor: AnchorDocument,
    answering_anchor: AnchorDocument,
    asking_reference: [u8; 32],
    answering_reference: [u8; 32],
    secret_out: Seq<u8>,
    secret_back: Seq<u8>,
    asked: orchardpay::ContactStateView,
    answer: contact_anchor::ContactRequest,
    answer_progress: contact_anchor::AnchorProgress,
    answering_readings: SignalReadings,
    asking_readings: SignalReadings,
    encryption_pubkey: Seq<u8>,
    decryption_pubkey: Seq<u8>,
)
    requires
        asking != answering,
        // the anchors are published by their owners and read by the other side
        asking_anchor.owner_id == asking,
        asking_anchor.data is Some,
        encryption::AnchorPayloadView::decrypted(secret_out, asking_anchor.data->0@) == Ok::<
            encryption::AnchorPayloadView,
            encryption::OrchardPayCryptoError,
        >(contact_anchor::own_payload(asking_reference)),
        answering_anchor.owner_id == answering,
        answering_anchor.data is Some,
        encryption::AnchorPayloadView::decrypted(secret_back, answering_anchor.data->0@) == Ok::<
            encryption::AnchorPayloadView,
            encryption::OrchardPayCryptoError,
        >(contact_anchor::own_payload(answering_reference)),
        // the asking side waits, with its own anchor in reach
        asked is PendingOutbound,
        asked->PendingOutbound_my_reference_id == asking_reference@,
        noted_decryption_pubkey(asking_readings.own_anchor, asking_readings.anchor_data_key@) matches Ok(
            Some(_),
        ),
        // the answering side accepts what it recorded
        answer.role == AnchorRole::Acceptor,
        signal_outcome(answering, Some(asking_anchor), secret_out, None, answering_readings) matches Ok(
            Some(received),
        ) ==> received->PendingInboundUnaccepted_their_reference_id == answer.their_reference_id@,
        answer_progress.my_reference_id == answering_reference,
    ensures
        signal_outcome(answering, Some(asking_anchor), secret_out, None, answering_readings) matches Ok(
            Some(received),
        ) && received is PendingInboundUnaccepted,
        ({
            let theirs = contact_anchor::finished_state(
                answer,
                answer_progress,
                encryption_pubkey,
                decryption_pubkey,
            );
            &&& signal_outcome(
                asking,
                Some(answering_anchor),
                secret_back,
                Some(asked),
                asking_readings,
            ) matches Ok(Some(mine))
            &&& mine is Established
            &&& theirs is Established
            &&& mine->Established_my_reference_id == theirs->Established_their_reference_id
            &&& mine->Established_their_reference_id == theirs->Established_my_reference_id
        }),
{
}

/// A replacement that is to be made now.
#[derive(Debug, Clone, Copy, PartialEq, Eq)]
pub struct DueReplacement {
    pub anchor_document_id: Identifier,
    /// The counterparty's reference, where it replaces the stand-in.
    pub their_reference_id: Option<[u8; 32]>,
}

/// The replacement that a marker calls for at `now`.
pub open spec fn due_at(
    marker: Option<ScheduledAnchorReplace>,
    now: u64,
    delay: u64,
    existing: Option<OrchardPayContactState>,
) -> Option<DueReplacement> {
    match marker {
        None => None,
        Some(m) => if now - m.anchor_created_at < delay {
            None
        } else {
            match m.role {
                AnchorRole::Acceptor => Some(
                    DueReplacement {
                        anchor_document_id: m.anchor_document_id,
                        their_reference_id: None,
                    },
                ),
                AnchorRole::Initiator => match existing {
                    Some(OrchardPayContactState::Established { their_reference_id, .. }) => Some(
                        DueReplacement {
                            anchor_document_id: m.anchor_document_id,
                            their_reference_id: Some(their_reference_id),
                        },
                    ),
                    _ => None,
                },
            }
        },
    }
}

/// The replacement that a marker calls for at `now`: none before its time, and
/// none for one who asked and has not been answered.
pub fn due_replacement(
    marker: &Option<ScheduledAnchorReplace>,
    now: u64,
    delay: u64,
    existing: &Option<OrchardPayContactState>,
) -> (due: Option<DueReplacement>)
    ensures
        due == due_at(*marker, now, delay, *existing),
{
    match marker {
        None => None,
        Some(m) => if !m.is_due(now, delay) {
            None
        } else {
            match m.role {
                AnchorRole::Acceptor => Some(
                    DueReplacement {
                        anchor_document_id: m.anchor_document_id,
                        their_reference_id: None,
                    },
                ),
                AnchorRole::Initiator => match existing {
                    Some(OrchardPayContactState::Established { their_reference_id, .. }) => Some(
                        DueReplacement {
                            anchor_document_id: m.anchor_document_id,
                            their_reference_id: Some(*their_reference_id),
                        },
                    ),
                    _ => None,
                },
            }
        },
    }
}

/// The record with the counterparty's reference put in, where there is one.
pub open spec fn replaced_record(
    record: encryption::AnchorRecordView,
    due: DueReplacement,
) -> encryption::AnchorRecordView {
    match due.their_reference_id {
        None => record,
        Some(reference) => encryption::AnchorRecordView {
            their_reference_id: Some(reference@),
            ..record
        },
    }
}

/// `anchor_data` are the new bytes of an anchor's own record.
pub open spec fn is_replacement(
    document: Option<AnchorDocument>,
    due: DueReplacement,
    anchor_data_key: Seq<u8>,
    anchor_data: Result<Vec<u8>, OrchardPayError>,
) -> bool {
    match document {
        None => anchor_data == Err::<Vec<u8>, OrchardPayError>(OrchardPayError::AnchorNotFound),
        Some(d) => match d.anchor_data {
            None => anchor_data == Err::<Vec<u8>, OrchardPayError>(
                OrchardPayError::AnchorNotFound,
            ),
            Some(bytes) => match encryption::AnchorRecordView::decrypted(
                anchor_data_key,
                bytes@,
            ) {
                Err(e) => anchor_data == Err::<Vec<u8>, OrchardPayError>(
                    OrchardPayError::Crypto(e),
                ),
                Ok(record) => match anchor_data {
                    Ok(sealed) => {
                        &&& encryption::seals(
                            anchor_data_key,
                            replaced_record(record, due).encoded(),
                            sealed@,
                        )
                        &&& sealed@.len() == 28 + replaced_record(record, due).encoded_len()
                        &&& encryption::AnchorRecordView::decrypted(anchor_data_key, sealed@)
                            == Ok::<
                            encryption::AnchorRecordView,
                            encryption::OrchardPayCryptoError,
                        >(replaced_record(record, due))
                    },
                    Err(e) => e == OrchardPayError::Crypto(
                        encryption::OrchardPayCryptoError::Encryption,
                    ) && !primitives::sealable(replaced_record(record, due).encoded_len()),
                },
            },
        },
    }
}

/// The new bytes of an anchor's own record: the record read, its reference of the
/// counterparty put in where there is one, and sealed again under a fresh nonce.
pub fn fire_due_scheduled_anchor_replace(
    document: &Option<AnchorDocument>,
    due: &DueReplacement,
    anchor_data_key: &[u8; 32],
) -> (anchor_data: Result<Vec<u8>, OrchardPayError>)
    ensures
        is_replacement(*document, *due, anchor_data_key@, anchor_data),
{
    match document {
        None => Err(OrchardPayError::AnchorNotFound),
        Some(d) => match &d.anchor_data {
            None => Err(OrchardPayError::AnchorNotFound),
            Some(bytes) => match AnchorDataRecord::decrypt(anchor_data_key, bytes.as_slice()) {
                Err(e) => Err(OrchardPayError::Crypto(e)),
                Ok(record) => {
                    let ghost read = record@;
                    let mut record: AnchorDataRecord = record;
                    if let Some(reference) = due.their_reference_id {
                        record.their_reference_id = Some(reference);
                    }
                    assert(record@ == replaced_record(read, *due));
                    match record.encrypt(anchor_data_key) {
                        Err(e) => Err(OrchardPayError::Crypto(e)),
                        Ok(sealed) => Ok(sealed),
                    }
                },
            },
        },
    }
}

/// Putting a reference in the place of the stand-in, or sealing an unchanged
/// record again, leaves the length of the record as it was.
pub proof fn replacement_keeps_the_length(record: encryption::AnchorRecordView, due: DueReplacement)
    requires
        record.their_reference_id is Some,
    ensures
        replaced_record(record, due).encoded_len() == record.encoded_len(),
{
}

/// The record that replaces the one of an anchor as it was published is as long as
/// that: nobody tells by its length what was replaced.
pub proof fn replacement_is_as_long_as_what_was_published(
    request: contact_anchor::ContactRequest,
    anchor: contact_anchor::NewAnchor,
    encryption_pubkey: Seq<u8>,
    decryption_pubkey: Seq<u8>,
    due: DueReplacement,
    sealed: Seq<u8>,
)
    requires
        ({
            let record = contact_anchor::own_record(
                request,
                anchor.my_reference_id,
                encryption_pubkey,
                decryption_pubkey,
            );
            &&& anchor.anchor_data@.len() == 28 + record.encoded_len()
            &&& sealed.len() == 28 + replaced_record(record, due).encoded_len()
        }),
    ensures
        sealed.len() == anchor.anchor_data@.len(),
{
    replacement_keeps_the_length(
        contact_anchor::own_record(
            request,
            anchor.my_reference_id,
            encryption_pubkey,
            decryption_pubkey,
        ),
        due,
    );
}

/// A signal is looked at only where there is an anchor of somebody else that holds
/// something to read, and its owner is who it comes from.
pub proof fn signals_come_from_others(owner_id: Identifier, document: Option<AnchorDocument>)
    ensures
        sender_of(owner_id, document) is Some <==> document is Some && document->0.owner_id
            != owner_id && document->0.data is Some,
        sender_of(owner_id, document) matches Some(sender) ==> sender == document->0.owner_id,
{
}

/// Somebody new becomes a request that was received, one's own request is completed, and
/// whoever awaits an answer or is connected already is left alone.
pub proof fn responses_follow_what_is_recorded(existing: Option<OrchardPayContactState>)
    ensures
        existing is None <==> response_to(existing) is RecordRequest,
        existing matches Some(OrchardPayContactState::PendingOutbound { my_anchor_document_id, .. })
            ==> response_to(existing) == (SignalResponse::CompleteRequest {
            my_anchor_document_id,
        }),
        existing matches Some(OrchardPayContactState::PendingInboundUnaccepted { .. })
            ==> response_to(existing) is Ignore,
        existing matches Some(OrchardPayContactState::Established { .. }) ==> response_to(
            existing,
        ) is Ignore,
{
}

/// What can be read of a signal is recorded. From somebody new it is a request, with the
/// reference that it tells and the anchor and time that it came with. In answer to one's own
/// request it is a connection, which keeps one's own reference, anchor, name and time and
/// takes the reference from the signal; the decryption key is the one noted in one's own
/// anchor, or else the one that was looked up.
pub proof fn readable_signals_are_recorded(
    owner_id: Identifier,
    anchor: AnchorDocument,
    secret: Seq<u8>,
    payload: encryption::AnchorPayloadView,
    existing: Option<orchardpay::ContactStateView>,
    readings: SignalReadings,
)
    requires
        anchor.owner_id != owner_id,
        anchor.data is Some,
        encryption::AnchorPayloadView::decrypted(secret, anchor.data->0@) == Ok::<
            encryption::AnchorPayloadView,
            encryption::OrchardPayCryptoError,
        >(payload),
    ensures
        ({
            let outcome = signal_outcome(owner_id, Some(anchor), secret, existing, readings);
            &&& existing is None ==> outcome == Ok::<
                Option<orchardpay::ContactStateView>,
                OrchardPayError,
            >(
                Some(
                    orchardpay::ContactStateView::PendingInboundUnaccepted {
                        their_reference_id: payload.reference_id,
                        their_anchor_document_id: anchor.id@,
                        name: text::optional_view(readings.sender_name),
                        created_at: anchor.created_at,
                    },
                ),
            )
            &&& existing matches Some(
                orchardpay::ContactStateView::PendingOutbound {
                    my_reference_id,
                    my_anchor_document_id,
                    name,
                    created_at,
                },
            ) ==> {
                &&& readings.own_anchor is None ==> outcome == Err::<
                    Option<orchardpay::ContactStateView>,
                    OrchardPayError,
                >(OrchardPayError::AnchorNotFound)
                &&& outcome matches Ok(state) ==> (state matches Some(
                    orchardpay::ContactStateView::Established {
                        my_reference_id: mine,
                        my_anchor_document_id: anchored,
                        their_reference_id,
                        counterparty_encryption_pubkey,
                        counterparty_decryption_pubkey,
                        name: called,
                        created_at: since,
                    },
                ) && mine == my_reference_id && anchored == my_anchor_document_id
                    && their_reference_id == payload.reference_id && counterparty_encryption_pubkey
                    == readings.sender_encryption_pubkey@ && called == name && since == created_at
                    && (match readings.own_anchor->0.anchor_data {
                    Some(bytes) if bytes@.len() > 0 => encryption::AnchorRecordView::decrypted(
                        readings.anchor_data_key@,
                        bytes@,
                    ) matches Ok(record) && (if record.counterparty_decryption_pubkey is Some {
                        Some(counterparty_decryption_pubkey)
                            == record.counterparty_decryption_pubkey
                    } else {
                        codec::view_bytes(readings.sender_decryption_pubkey) == Some(
                            counterparty_decryption_pubkey,
                        )
                    }),
                    _ => codec::view_bytes(readings.sender_decryption_pubkey) == Some(
                        counterparty_decryption_pubkey,
                    ),
                }))
            }
            &&& existing matches Some(
                orchardpay::ContactStateView::PendingInboundUnaccepted { .. },
            ) ==> outcome == Ok::<Option<orchardpay::ContactStateView>, OrchardPayError>(None)
            &&& existing matches Some(orchardpay::ContactStateView::Established { .. })
                ==> outcome == Ok::<Option<orchardpay::ContactStateView>, OrchardPayError>(None)
        }),
{
}

/// What cannot be read under the secret was not meant for this identity and changes
/// nothing.
pub proof fn unreadable_signals_change_nothing(
    owner_id: Identifier,
    anchor: AnchorDocument,
    secret: Seq<u8>,
    existing: Option<orchardpay::ContactStateView>,
    readings: SignalReadings,
)
    requires
        anchor.owner_id == owner_id || anchor.data is None || encryption::AnchorPayloadView::decrypted(
            secret,
            anchor.data->0@,
        ) is Err,
    ensures
        signal_outcome(owner_id, Some(anchor), secret, existing, readings) == Ok::<
            Option<orchardpay::ContactStateView>,
            OrchardPayError,
        >(None),
        signal_outcome(owner_id, None, secret, existing, readings) == Ok::<
            Option<orchardpay::ContactStateView>,
            OrchardPayError,
        >(None),
{
}

/// The connection is completed wherever one's own anchor can be read and a decryption key is
/// to be had.
pub proof fn answers_complete_a_request(
    owner_id: Identifier,
    anchor: AnchorDocument,
    secret: Seq<u8>,
    existing: orchardpay::ContactStateView,
    readings: SignalReadings,
    own: AnchorDocument,
)
    requires
        anchor.owner_id != owner_id,
        anchor.data is Some,
        encryption::AnchorPayloadView::decrypted(secret, anchor.data->0@) is Ok,
        existing is PendingOutbound,
        readings.own_anchor == Some(own),
        own.anchor_data matches Some(bytes) ==> bytes@.len() == 0 || (
        encryption::AnchorRecordView::decrypted(readings.anchor_data_key@, bytes@) is Ok),
    ensures
        ({
            let outcome = signal_outcome(
                owner_id,
                Some(anchor),
                secret,
                Some(existing),
                readings,
            );
            let noted = own.anchor_data matches Some(bytes) && bytes@.len() > 0
                && encryption::AnchorRecordView::decrypted(
                readings.anchor_data_key@,
                bytes@,
            )->Ok_0.counterparty_decryption_pubkey is Some;
            &&& noted || readings.sender_decryption_pubkey is Some <==> outcome is Ok
            &&& outcome is Ok ==> outcome->Ok_0 is Some
            &&& outcome matches Err(e) ==> e == OrchardPayError::CounterpartyKeyMissing
        }),
{
}

/// A record is replaced once the delay has passed since its anchor was created, and stays
/// due from then on. Whoever answered only seals it again; whoever asked waits until the
/// other side has answered, and then puts its reference in.
pub proof fn replacements_wait_for_their_time(
    marker: ScheduledAnchorReplace,
    now: u64,
    later: u64,
    delay: u64,
    existing: Option<OrchardPayContactState>,
)
    requires
        now <= later,
    ensures
        ({
            let due = due_at(Some(marker), now, delay, existing);
            let reference = match existing {
                Some(OrchardPayContactState::Established { their_reference_id, .. }) => Some(
                    their_reference_id,
                ),
                _ => None,
            };
            &&& due is Some <==> now >= marker.anchor_created_at + delay && (
            marker.role is Acceptor || reference is Some)
            &&& due matches Some(d) ==> d.anchor_document_id == marker.anchor_document_id
                && d.their_reference_id == (if marker.role is Acceptor {
                None
            } else {
                reference
            })
            &&& due is Some ==> due_at(Some(marker), later, delay, existing) == due
            &&& due_at(None, now, delay, existing) is None
        }),
{
}

/// A replacement changes nothing of a record but the other side's reference, and not even
/// that where there is none to put in.
pub proof fn replacements_change_only_the_reference(
    record: encryption::AnchorRecordView,
    due: DueReplacement,
)
    ensures
        ({
            let after = replaced_record(record, due);
            &&& due.their_reference_id is None ==> after == record
            &&& due.their_reference_id matches Some(reference) ==> after.their_reference_id == Some(
                reference@,
            )
            &&& after.counterparty_identity_id == record.counterparty_identity_id
            &&& after.counterparty_name_snapshot == record.counterparty_name_snapshot
            &&& after.my_reference_id == record.my_reference_id
            &&& after.my_initial_message == record.my_initial_message
            &&& after.my_core_payment_xpub == record.my_core_payment_xpub
            &&& after.my_dedicated_shielded_address == record.my_dedicated_shielded_address
            &&& after.counterparty_encryption_pubkey == record.counterparty_encryption_pubkey
            &&& after.counterparty_decryption_pubkey == record.counterparty_decryption_pubkey
        }),
{
}

/// A replacement reads as the record did before, but for the reference of the
/// counterparty where one came to be known. Without a record there is nothing to
/// replace, and one that cannot be read is told.
pub proof fn replacements_read_as_before(
    document: Option<AnchorDocument>,
    due: DueReplacement,
    key: Seq<u8>,
    anchor_data: Result<Vec<u8>, OrchardPayError>,
)
    requires
        is_replacement(document, due, key, anchor_data),
    ensures
        document is None || document->0.anchor_data is None ==> anchor_data == Err::<
            Vec<u8>,
            OrchardPayError,
        >(OrchardPayError::AnchorNotFound),
        anchor_data matches Ok(sealed) ==> {
            let read = encryption::AnchorRecordView::decrypted(key, document->0.anchor_data->0@);
            let after = encryption::AnchorRecordView::decrypted(key, sealed@);
            &&& document is Some && document->0.anchor_data is Some
            &&& read is Ok
            &&& after is Ok
            &&& after->Ok_0 == (encryption::AnchorRecordView {
                their_reference_id: after->Ok_0.their_reference_id,
                ..read->Ok_0
            })
            &&& due.their_reference_id matches Some(reference)
                ==> after->Ok_0.their_reference_id == Some(reference@)
            &&& due.their_reference_id is None ==> after->Ok_0.their_reference_id
                == read->Ok_0.their_reference_id
        },
        document is Some && document->0.anchor_data is Some ==> {
            &&& encryption::AnchorRecordView::decrypted(
                key,
                document->0.anchor_data->0@,
            ) matches Err(e) ==> anchor_data == Err::<Vec<u8>, OrchardPayError>(
                OrchardPayError::Crypto(e),
            )
        },
{
}

/// A signal gives its reference to whoever can open it, and nothing to anybody else.
pub proof fn signals_are_read_by_whom_they_are_for(document: AnchorDocument, secret: Seq<u8>)
    ensures
        signalled_reference(document, secret) is Some ==> document.data is Some,
        document.data matches Some(data) ==> {
            let read = encryption::AnchorPayloadView::decrypted(secret, data@);
            &&& signalled_reference(document, secret) is Some <==> read is Ok
            &&& read matches Ok(payload) ==> signalled_reference(document, secret) == Some(
                payload.reference_id,
            )
        },
{
}

/// A record that can be read is replaced unless the cipher does not take it; the
/// replacement is 28 bytes longer than what it holds.
pub proof fn readable_records_are_replaced(
    document: AnchorDocument,
    due: DueReplacement,
    key: Seq<u8>,
    anchor_data: Result<Vec<u8>, OrchardPayError>,
)
    requires
        is_replacement(Some(document), due, key, anchor_data),
        document.anchor_data is Some,
        encryption::AnchorRecordView::decrypted(key, document.anchor_data->0@) is Ok,
    ensures
        anchor_data matches Err(e) ==> {
            &&& e == OrchardPayError::Crypto(encryption::OrchardPayCryptoError::Encryption)
            &&& !primitives::sealable(
                replaced_record(
                    encryption::AnchorRecordView::decrypted(
                        key,
                        document.anchor_data->0@,
                    )->Ok_0,
                    due,
                ).encoded_len(),
            )
        },
        anchor_data matches Ok(sealed) ==> sealed@.len() == 28
            + encryption::AnchorRecordView::decrypted(key, sealed@)->Ok_0.encoded_len(),
{
}

} // verus!
