//! What an identity sends, edits, cancels and pays.

use vstd::prelude::*;

use crate::model::identifier::Identifier;
use crate::model::orchardpay;
use crate::model::orchardpay::{
    copy_bytes, OrchardPayContactState, PendingOperationStep, PendingOrchardPayOperation,
};
use crate::model::text;
use crate::model::validation;
use crate::model::validation::{
    strip_unsafe_display_characters_allow_newlines, validate_char_count, validate_min_amount,
    AmountTooLowError, TextLengthError,
};
use crate::orchardpay::encryption;
use crate::orchardpay::encryption::{MessageContent, OrchardPayCryptoError};
use crate::orchardpay::errors::{OrchardPayError, OrchardPayTaskError};
use crate::orchardpay::keys;
use crate::orchardpay::keys::{require_own_key, IdentityKey, Purpose};
use crate::orchardpay::memo::{document_memo, MEMO_TAG_PAYMENT};
use crate::orchardpay::messages;
use crate::orchardpay::messages::{KnownPayments, MessageDocument, ThreadMessage};

verus! {

/// The bounds that what is sent has to keep.
#[derive(Debug, Clone, Copy, PartialEq, Eq)]
pub struct SendLimits {
    pub min_message_chars: usize,
    pub max_message_chars: usize,
    pub min_memo_chars: usize,
    pub max_memo_chars: usize,
    /// The least amount of a payment or request, in credits.
    pub min_amount: u64,
}

/// What messaging needs of an established contact.
#[derive(Debug, Clone, PartialEq)]
pub struct EstablishedRelationship {
    pub my_reference_id: [u8; 32],
    pub their_reference_id: [u8; 32],
    pub counterparty_encryption_pubkey: Vec<u8>,
    pub counterparty_decryption_pubkey: Vec<u8>,
}

/// `relationship` is what a recorded state stands for.
pub open spec fn stands_for(
    existing: Option<OrchardPayContactState>,
    relationship: Result<EstablishedRelationship, OrchardPayError>,
) -> bool {
    match orchardpay::contact_view(existing) {
        Some(
            orchardpay::ContactStateView::Established {
                my_reference_id,
                their_reference_id,
                counterparty_encryption_pubkey,
                counterparty_decryption_pubkey,
                ..
            },
        ) => {
            &&& relationship matches Ok(r)
            &&& r.my_reference_id@ == my_reference_id
            &&& r.their_reference_id@ == their_reference_id
            &&& r.counterparty_encryption_pubkey@ == counterparty_encryption_pubkey
            &&& r.counterparty_decryption_pubkey@ == counterparty_decryption_pubkey
        },
        _ => relationship == Err::<EstablishedRelationship, OrchardPayError>(
            OrchardPayError::ContactNotEstablished,
        ),
    }
}

/// The relationship that a recorded state stands for: only an established contact
/// can be written to.
pub fn established_state(existing: &Option<OrchardPayContactState>) -> (relationship: Result<
    EstablishedRelationship,
    OrchardPayError,
>)
    ensures
        stands_for(*existing, relationship),
{
    match existing {
        Some(
            OrchardPayContactState::Established {
                my_reference_id,
                their_reference_id,
                counterparty_encryption_pubkey,
                counterparty_decryption_pubkey,
                ..
            },
        ) => Ok(
            EstablishedRelationship {
                my_reference_id: *my_reference_id,
                their_reference_id: *their_reference_id,
                counterparty_encryption_pubkey: copy_bytes(counterparty_encryption_pubkey),
                counterparty_decryption_pubkey: copy_bytes(counterparty_decryption_pubkey),
            },
        ),
        _ => Err(OrchardPayError::ContactNotEstablished),
    }
}

/// From which two keys a shared secret is computed: the position of one's own, and
/// the bytes of the counterparty's.
#[derive(Debug, Clone, PartialEq)]
pub struct SecretInputs {
    pub own_key: usize,
    pub counterparty_pubkey: Vec<u8>,
}

/// `own_key` is the position of the first key of this purpose bound to anchors.
pub open spec fn is_first_own_key(
    own_keys: Seq<IdentityKey>,
    contract_id: Identifier,
    purpose: Purpose,
    own_key: int,
) -> bool {
    &&& 0 <= own_key < own_keys.len()
    &&& keys::serves(own_keys[own_key], contract_id, purpose)
    &&& forall|j: int|
        0 <= j < own_key ==> !keys::serves(#[trigger] own_keys[j], contract_id, purpose)
}

/// `inputs` are the keys behind what is sent: one's own encryption key and the
/// counterparty's decryption key; or one's own is missing.
pub open spec fn are_outbound(
    inputs: Result<SecretInputs, OrchardPayError>,
    own_keys: Seq<IdentityKey>,
    contract_id: Identifier,
    relationship: EstablishedRelationship,
) -> bool {
    match inputs {
        Ok(i) => {
            &&& is_first_own_key(own_keys, contract_id, Purpose::Encryption, i.own_key as int)
            &&& i.counterparty_pubkey@ == relationship.counterparty_decryption_pubkey@
        },
        Err(e) => e == OrchardPayError::OwnKeyMissing && !keys::has_own_key(
            own_keys,
            contract_id,
            Purpose::Encryption,
        ),
    }
}

/// `inputs` are the keys behind what is received: one's own decryption key and the
/// counterparty's encryption key; or one's own is missing.
pub open spec fn are_inbound(
    inputs: Result<SecretInputs, OrchardPayError>,
    own_keys: Seq<IdentityKey>,
    contract_id: Identifier,
    relationship: EstablishedRelationship,
) -> bool {
    match inputs {
        Ok(i) => {
            &&& is_first_own_key(own_keys, contract_id, Purpose::Decryption, i.own_key as int)
            &&& i.counterparty_pubkey@ == relationship.counterparty_encryption_pubkey@
        },
        Err(e) => e == OrchardPayError::OwnKeyMissing && !keys::has_own_key(
            own_keys,
            contract_id,
            Purpose::Decryption,
        ),
    }
}

/// The keys behind what is sent: one's own encryption key and the counterparty's
/// decryption key.
pub fn outbound_shared_secret(
    own_keys: &Vec<IdentityKey>,
    orchardpay_contract_id: Identifier,
    relationship: &EstablishedRelationship,
) -> (inputs: Result<SecretInputs, OrchardPayError>)
    ensures
        are_outbound(inputs, own_keys@, orchardpay_contract_id, *relationship),
{
    match require_own_key(own_keys, orchardpay_contract_id, Purpose::Encryption) {
        Err(e) => Err(e),
        Ok(own_key) => Ok(
            SecretInputs {
                own_key,
                counterparty_pubkey: copy_bytes(&relationship.counterparty_decryption_pubkey),
            },
        ),
    }
}

/// The keys behind what is received: one's own decryption key and the
/// counterparty's encryption key.
pub fn inbound_shared_secret(
    own_keys: &Vec<IdentityKey>,
    orchardpay_contract_id: Identifier,
    relationship: &EstablishedRelationship,
) -> (inputs: Result<SecretInputs, OrchardPayError>)
    ensures
        are_inbound(inputs, own_keys@, orchardpay_contract_id, *relationship),
{
    match require_own_key(own_keys, orchardpay_contract_id, Purpose::Decryption) {
        Err(e) => Err(e),
        Ok(own_key) => Ok(
            SecretInputs {
                own_key,
                counterparty_pubkey: copy_bytes(&relationship.counterparty_encryption_pubkey),
            },
        ),
    }
}

/// A text cleaned of what should not be displayed, if its length is within bounds.
pub open spec fn cleaned(text: Seq<char>, min: usize, max: usize) -> Result<
    Seq<char>,
    TextLengthError,
> {
    let clean = validation::stripped_lines(text);
    if min <= clean.len() <= max {
        Ok(clean)
    } else {
        Err(TextLengthError { actual: clean.len() as usize, min, max })
    }
}

/// The text of a message as it is sent, or why it is not.
pub open spec fn sendable_text(text: Seq<char>, limits: SendLimits) -> Result<
    Seq<char>,
    OrchardPayTaskError,
> {
    match cleaned(text, limits.min_message_chars, limits.max_message_chars) {
        Ok(clean) => Ok(clean),
        Err(source) => Err(OrchardPayTaskError::MessageTooLong { source }),
    }
}

/// The memo as it is sent, or why it is not.
pub open spec fn sendable_memo(memo: Option<Seq<char>>, limits: SendLimits) -> Result<
    Option<Seq<char>>,
    OrchardPayTaskError,
> {
    match memo {
        None => Ok(None),
        Some(m) => match cleaned(m, limits.min_memo_chars, limits.max_memo_chars) {
            Ok(clean) => Ok(Some(clean)),
            Err(source) => Err(OrchardPayTaskError::MemoTooLong { source }),
        },
    }
}

/// The text of a message as it is sent: cleaned, and within the bounds.
pub fn prepare_text(text: &str, limits: &SendLimits) -> (prepared: Result<
    String,
    OrchardPayTaskError,
>)
    ensures
        match prepared {
            Ok(t) => sendable_text(text@, *limits) == Ok::<Seq<char>, OrchardPayTaskError>(t@),
            Err(e) => sendable_text(text@, *limits) == Err::<Seq<char>, OrchardPayTaskError>(e),
        },
{
    let clean: String = strip_unsafe_display_characters_allow_newlines(text);
    match validate_char_count(
        clean.as_str(),
        limits.min_message_chars,
        limits.max_message_chars,
    ) {
        Ok(()) => Ok(clean),
        Err(source) => Err(OrchardPayTaskError::MessageTooLong { source }),
    }
}

/// The memo as it is sent: cleaned, and within the bounds if there is one.
pub fn prepare_memo(memo: &Option<String>, limits: &SendLimits) -> (prepared: Result<
    Option<String>,
    OrchardPayTaskError,
>)
    ensures
        match prepared {
            Ok(m) => sendable_memo(text::optional_view(*memo), *limits) == Ok::<
                Option<Seq<char>>,
                OrchardPayTaskError,
            >(text::optional_view(m)),
            Err(e) => sendable_memo(text::optional_view(*memo), *limits) == Err::<
                Option<Seq<char>>,
                OrchardPayTaskError,
            >(e),
        },
{
    match memo {
        None => Ok(None),
        Some(m) => {
            let clean: String = strip_unsafe_display_characters_allow_newlines(m.as_str());
            match validate_char_count(clean.as_str(), limits.min_memo_chars, limits.max_memo_chars) {
                Ok(()) => Ok(Some(clean)),
                Err(source) => Err(OrchardPayTaskError::MemoTooLong { source }),
            }
        },
    }
}

/// What an amount with a memo is sent as, or why it is not: the amount is looked
/// at first.
pub open spec fn sendable_amount(
    amount: u64,
    memo: Option<Seq<char>>,
    limits: SendLimits,
) -> Result<Option<Seq<char>>, OrchardPayTaskError> {
    if amount < limits.min_amount {
        Err(
            OrchardPayTaskError::AmountTooLow {
                source: AmountTooLowError { actual: amount, minimum: limits.min_amount },
            },
        )
    } else {
        sendable_memo(memo, limits)
    }
}

/// The memo that goes with an amount, once both are found in order.
pub fn prepare_amount(amount: u64, memo: &Option<String>, limits: &SendLimits) -> (prepared: Result<
    Option<String>,
    OrchardPayTaskError,
>)
    ensures
        match prepared {
            Ok(m) => sendable_amount(amount, text::optional_view(*memo), *limits) == Ok::<
                Option<Seq<char>>,
                OrchardPayTaskError,
            >(text::optional_view(m)),
            Err(e) => sendable_amount(amount, text::optional_view(*memo), *limits) == Err::<
                Option<Seq<char>>,
                OrchardPayTaskError,
            >(e),
        },
{
    match validate_min_amount(amount, limits.min_amount) {
        Err(source) => Err(OrchardPayTaskError::AmountTooLow { source }),
        Ok(()) => prepare_memo(memo, limits),
    }
}

/// `data` is the sealing of `content` under `secret`; or, where there is none or
/// its encoding is too long, the error that says so.
pub open spec fn sealed_as(
    data: Result<Vec<u8>, OrchardPayTaskError>,
    content: Result<encryption::ContentView, OrchardPayTaskError>,
    secret: Seq<u8>,
) -> bool {
    match content {
        Err(e) => data == Err::<Vec<u8>, OrchardPayTaskError>(e),
        Ok(c) => if c.encoded_len() > encryption::MAX_MESSAGE_PLAINTEXT_LEN {
            data == Err::<Vec<u8>, OrchardPayTaskError>(
                OrchardPayTaskError::OrchardPay(
                    OrchardPayError::Crypto(OrchardPayCryptoError::PayloadTooLarge),
                ),
            )
        } else {
            &&& data matches Ok(d)
            &&& encryption::seals(secret, encryption::padded(c.encoded()), d@)
            &&& d@.len() == encryption::encrypted_len(c.encoded_len())
            &&& encryption::ContentView::decrypted(secret, d@) == Ok::<
                encryption::ContentView,
                OrchardPayCryptoError,
            >(c)
        },
    }
}

fn seal(content: &MessageContent, shared_secret: &[u8; 32]) -> (data: Result<
    Vec<u8>,
    OrchardPayTaskError,
>)
    ensures
        sealed_as(data, Ok(content@), shared_secret@),
{
    match content.encrypt(shared_secret) {
        Ok(data) => Ok(data),
        Err(e) => Err(OrchardPayTaskError::OrchardPay(OrchardPayError::Crypto(e))),
    }
}

/// The content of a new message.
pub open spec fn message_content(text: Seq<char>, limits: SendLimits) -> Result<
    encryption::ContentView,
    OrchardPayTaskError,
> {
    match sendable_text(text, limits) {
        Err(e) => Err(e),
        Ok(data) => Ok(encryption::ContentView::Message { data }),
    }
}

/// The sealed content of a new message.
pub fn send_message(text: &str, limits: &SendLimits, shared_secret: &[u8; 32]) -> (data: Result<
    Vec<u8>,
    OrchardPayTaskError,
>)
    ensures
        sealed_as(data, message_content(text@, *limits), shared_secret@),
{
    match prepare_text(text, limits) {
        Err(e) => Err(e),
        Ok(data) => seal(&MessageContent::Message { data }, shared_secret),
    }
}

/// The content of a new request.
pub open spec fn request_content(
    amount: u64,
    memo: Option<Seq<char>>,
    limits: SendLimits,
) -> Result<encryption::ContentView, OrchardPayTaskError> {
    match sendable_amount(amount, memo, limits) {
        Err(e) => Err(e),
        Ok(memo) => Ok(encryption::ContentView::PaymentRequest { amount, memo }),
    }
}

/// The sealed content of a new payment request.
pub fn send_payment_request(
    amount: u64,
    memo: &Option<String>,
    limits: &SendLimits,
    shared_secret: &[u8; 32],
) -> (data: Result<Vec<u8>, OrchardPayTaskError>)
    ensures
        sealed_as(
            data,
            request_content(amount, text::optional_view(*memo), *limits),
            shared_secret@,
        ),
{
    match prepare_amount(amount, memo, limits) {
        Err(e) => Err(e),
        Ok(memo) => seal(&MessageContent::PaymentRequest { amount, memo }, shared_secret),
    }
}

/// What a document of one's own holds, or why that cannot be read.
pub open spec fn own_content(document: MessageDocument, secret: Seq<u8>) -> Result<
    encryption::ContentView,
    OrchardPayTaskError,
> {
    match document.msg_data {
        None => Err(
            OrchardPayTaskError::OrchardPay(
                OrchardPayError::Crypto(OrchardPayCryptoError::Malformed),
            ),
        ),
        Some(data) => match encryption::ContentView::decrypted(secret, data@) {
            Ok(content) => Ok(content),
            Err(e) => Err(OrchardPayTaskError::OrchardPay(OrchardPayError::Crypto(e))),
        },
    }
}

/// The sealed bytes of a document; one without such bytes is malformed.
pub fn extract_msg_data(document: &MessageDocument) -> (data: Result<Vec<u8>, OrchardPayError>)
    ensures
        match document.msg_data {
            Some(bytes) => data matches Ok(d) && d@ == bytes@,
            None => data == Err::<Vec<u8>, OrchardPayError>(
                OrchardPayError::Crypto(OrchardPayCryptoError::Malformed),
            ),
        },
{
    match &document.msg_data {
        Some(bytes) => Ok(copy_bytes(bytes)),
        None => Err(OrchardPayError::Crypto(OrchardPayCryptoError::Malformed)),
    }
}

fn read_own_message(document: &MessageDocument, shared_secret: &[u8; 32]) -> (content: Result<
    MessageContent,
    OrchardPayTaskError,
>)
    ensures
        match content {
            Ok(c) => own_content(*document, shared_secret@) == Ok::<
                encryption::ContentView,
                OrchardPayTaskError,
            >(c@),
            Err(e) => own_content(*document, shared_secret@) == Err::<
                encryption::ContentView,
                OrchardPayTaskError,
            >(e),
        },
{
    match extract_msg_data(document) {
        Err(e) => Err(OrchardPayTaskError::OrchardPay(e)),
        Ok(data) => match MessageContent::decrypt(shared_secret, data.as_slice()) {
            Ok(content) => Ok(content),
            Err(e) => Err(OrchardPayTaskError::OrchardPay(OrchardPayError::Crypto(e))),
        },
    }
}

/// The content that an edit leaves in place of a message.
pub open spec fn edited_message(
    document: MessageDocument,
    secret: Seq<u8>,
    new_text: Seq<char>,
    limits: SendLimits,
) -> Result<encryption::ContentView, OrchardPayTaskError> {
    match sendable_text(new_text, limits) {
        Err(e) => Err(e),
        Ok(data) => match own_content(document, secret) {
            Err(e) => Err(e),
            Ok(encryption::ContentView::Message { .. }) => Ok(
                encryption::ContentView::Message { data },
            ),
            Ok(_) => Err(OrchardPayTaskError::EditTargetMismatch),
        },
    }
}

/// The sealed content that replaces a message's text. Only a message can be edited
/// in this way.
pub fn edit_message(
    document: &MessageDocument,
    new_text: &str,
    limits: &SendLimits,
    shared_secret: &[u8; 32],
) -> (data: Result<Vec<u8>, OrchardPayTaskError>)
    ensures
        sealed_as(
            data,
            edited_message(*document, shared_secret@, new_text@, *limits),
            shared_secret@,
        ),
{
    match prepare_text(new_text, limits) {
        Err(e) => Err(e),
        Ok(data) => match read_own_message(document, shared_secret) {
            Err(e) => Err(e),
            Ok(MessageContent::Message { .. }) => seal(
                &MessageContent::Message { data },
                shared_secret,
            ),
            Ok(_) => Err(OrchardPayTaskError::EditTargetMismatch),
        },
    }
}

/// Whether a document may be deleted, or why it is not: only a message may.
pub open spec fn deletion(document: MessageDocument, secret: Seq<u8>) -> Result<
    (),
    OrchardPayTaskError,
> {
    match own_content(document, secret) {
        Err(e) => Err(e),
        Ok(encryption::ContentView::Message { .. }) => Ok(()),
        Ok(_) => Err(OrchardPayTaskError::DeleteTargetMismatch),
    }
}

/// Whether a document may be deleted: only a message may.
pub fn delete_message(document: &MessageDocument, shared_secret: &[u8; 32]) -> (r: Result<
    (),
    OrchardPayTaskError,
>)
    ensures
        r == deletion(*document, shared_secret@),
{
    match read_own_message(document, shared_secret) {
        Err(e) => Err(e),
        Ok(MessageContent::Message { .. }) => Ok(()),
        Ok(_) => Err(OrchardPayTaskError::DeleteTargetMismatch),
    }
}

/// The content that a change of memo leaves in place of a payment.
pub open spec fn edited_payment(
    document: MessageDocument,
    secret: Seq<u8>,
    new_memo: Option<Seq<char>>,
    limits: SendLimits,
) -> Result<encryption::ContentView, OrchardPayTaskError> {
    match sendable_memo(new_memo, limits) {
        Err(e) => Err(e),
        Ok(memo) => match own_content(document, secret) {
            Err(e) => Err(e),
            Ok(encryption::ContentView::Payment { amount, .. }) => Ok(
                encryption::ContentView::Payment { amount, memo },
            ),
            Ok(_) => Err(OrchardPayTaskError::EditTargetMismatch),
        },
    }
}

/// The sealed content that replaces a payment's memo. The amount stays as it is.
pub fn edit_payment_memo(
    document: &MessageDocument,
    new_memo: &Option<String>,
    limits: &SendLimits,
    shared_secret: &[u8; 32],
) -> (data: Result<Vec<u8>, OrchardPayTaskError>)
    ensures
        sealed_as(
            data,
            edited_payment(*document, shared_secret@, text::optional_view(*new_memo), *limits),
            shared_secret@,
        ),
{
    match prepare_memo(new_memo, limits) {
        Err(e) => Err(e),
        Ok(memo) => match read_own_message(document, shared_secret) {
            Err(e) => Err(e),
            Ok(MessageContent::Payment { amount, .. }) => seal(
                &MessageContent::Payment { amount, memo },
                shared_secret,
            ),
            Ok(_) => Err(OrchardPayTaskError::EditTargetMismatch),
        },
    }
}

/// The memo of a cancelled request.
pub open spec fn cancelled_memo(memo: Option<Seq<char>>) -> Seq<char> {
    match memo {
        Some(m) => "CANCELED: "@ + m,
        None => "CANCELED"@,
    }
}

/// The content that a cancellation leaves in place of a request.
pub open spec fn cancelled_request(document: MessageDocument, secret: Seq<u8>) -> Result<
    encryption::ContentView,
    OrchardPayTaskError,
> {
    match own_content(document, secret) {
        Err(e) => Err(e),
        Ok(content) => if document.created_at != document.updated_at {
            Err(OrchardPayTaskError::RequestAlreadyCancelled)
        } else {
            match content {
                encryption::ContentView::PaymentRequest { amount, memo } => Ok(
                    encryption::ContentView::PaymentRequest {
                        amount,
                        memo: Some(cancelled_memo(memo)),
                    },
                ),
                _ => Err(OrchardPayTaskError::EditTargetMismatch),
            }
        },
    }
}

/// The content that a cancellation leaves in place of a request for which
/// `verified_amount` says what was paid, or why the request is not cancelled.
pub open spec fn cancellation(
    document: MessageDocument,
    verified_amount: Option<u64>,
    secret: Seq<u8>,
) -> Result<encryption::ContentView, OrchardPayTaskError> {
    match cancelled_request(document, secret) {
        Ok(_) if verified_amount is Some => Err(OrchardPayTaskError::RequestAlreadyPaid),
        outcome => outcome,
    }
}

/// The sealed content that marks a request as cancelled. A document that was
/// changed since its creation was cancelled before. A request for which
/// `verified_amount` says what was paid is not cancelled any more.
pub fn cancel_payment_request(
    document: &MessageDocument,
    verified_amount: Option<u64>,
    shared_secret: &[u8; 32],
) -> (data: Result<Vec<u8>, OrchardPayTaskError>)
    ensures
        verified_amount is Some ==> data == Err::<Vec<u8>, OrchardPayTaskError>(
            match cancelled_request(*document, shared_secret@) {
                Err(e) => e,
                Ok(_) => OrchardPayTaskError::RequestAlreadyPaid,
            },
        ),
        verified_amount is None ==> sealed_as(
            data,
            cancelled_request(*document, shared_secret@),
            shared_secret@,
        ),
        sealed_as(
            data,
            cancellation(*document, verified_amount, shared_secret@),
            shared_secret@,
        ),
{
    match read_own_message(document, shared_secret) {
        Err(e) => Err(e),
        Ok(content) => {
            if document.created_at != document.updated_at {
                return Err(OrchardPayTaskError::RequestAlreadyCancelled);
            }
            match content {
                MessageContent::PaymentRequest { amount, memo } => {
                    if verified_amount.is_some() {
                        return Err(OrchardPayTaskError::RequestAlreadyPaid);
                    }
                    let cancelled: String = match &memo {
                        Some(m) => text::joined("CANCELED: ", m.as_str()),
                        None => "CANCELED".to_owned(),
                    };
                    seal(
                        &MessageContent::PaymentRequest { amount, memo: Some(cancelled) },
                        shared_secret,
                    )
                },
                _ => Err(OrchardPayTaskError::EditTargetMismatch),
            }
        },
    }
}

/// What was sent is what the reader of the document is shown: a document that carries
/// the sealing of a content can be read under the same secret, and reads as that
/// content and no other.
pub proof fn what_is_sent_is_read(
    data: Vec<u8>,
    content: encryption::ContentView,
    secret: Seq<u8>,
    document: MessageDocument,
    from_me: bool,
    known: KnownPayments,
    message: ThreadMessage,
)
    requires
        sealed_as(Ok(data), Ok(content), secret),
        document.msg_data == Some(data),
    ensures
        messages::decodable(document, secret),
        messages::decodes_to(document, from_me, secret, known, message) ==> message.content@
            == content,
{
}

/// Neither a change of memo nor a cancellation changes an amount, whatever text
/// comes with it.
pub proof fn edits_keep_the_amount(
    document: MessageDocument,
    secret: Seq<u8>,
    new_memo: Option<Seq<char>>,
    limits: SendLimits,
)
    ensures
        edited_payment(document, secret, new_memo, limits) matches Ok(after) ==> {
            &&& own_content(document, secret) matches Ok(before)
            &&& before is Payment
            &&& after is Payment
            &&& after->Payment_amount == before->Payment_amount
        },
        cancelled_request(document, secret) matches Ok(after) ==> {
            &&& own_content(document, secret) matches Ok(before)
            &&& before is PaymentRequest
            &&& after is PaymentRequest
            &&& after->PaymentRequest_amount == before->PaymentRequest_amount
        },
{
}

/// A document that replaced a cancelled request cannot be cancelled again: the
/// platform dates the change after the creation.
pub proof fn cancelling_twice_is_refused(
    document: MessageDocument,
    secret: Seq<u8>,
    data: Vec<u8>,
    updated_at: Option<u64>,
)
    requires
        cancelled_request(document, secret) is Ok,
        sealed_as(Ok(data), cancelled_request(document, secret), secret),
        updated_at != document.created_at,
    ensures
        cancelled_request(
            (MessageDocument { updated_at, msg_data: Some(data), ..document }),
            secret,
        ) == Err::<encryption::ContentView, OrchardPayTaskError>(
            OrchardPayTaskError::RequestAlreadyCancelled,
        ),
{
}

/// The request that a payment answers.
#[derive(Debug, Clone, PartialEq)]
pub struct FulfilledRequest {
    pub document_id: Identifier,
    pub save_receipt: bool,
    /// The memo and creation time that a receipt notes.
    pub original_memo: Option<String>,
    pub original_created_at: Option<u64>,
}

/// A payment to an established contact. Its memo has been prepared.
#[derive(Debug, Clone, PartialEq)]
pub struct PaymentOrder {
    pub owner_id: Identifier,
    pub my_reference_id: [u8; 32],
    pub amount: u64,
    pub memo: Option<String>,
    pub fulfilling: Option<FulfilledRequest>,
}

/// A message document to be published, as its first revision.
#[derive(Debug, Clone, PartialEq)]
pub struct OutgoingMessage {
    pub id: Identifier,
    pub owner_id: Identifier,
    pub ref_id: [u8; 32],
    pub msg_data: Vec<u8>,
}

/// One step of a payment. Steps are taken in order; the first that fails ends the
/// payment, except for the last one of an answered request, which only notes what
/// is already done.
#[derive(Debug, Clone, PartialEq)]
pub enum PaymentEffect {
    /// Note which document is about to be published.
    SetPending(PendingOrchardPayOperation),
    /// Publish the receipt.
    PublishReceipt(OutgoingMessage),
    /// Publish the payment's own message.
    PublishPayment(OutgoingMessage),
    /// Send the amount to the counterparty's shielded address.
    Transfer { amount: u64, memo: [u8; 36] },
    /// Drop the note.
    ClearPending,
    /// Note the request as paid with this amount.
    RecordPaid { document_id: Identifier, amount: u64 },
}

/// The contents of a [`PaymentEffect`].
pub ghost enum PaymentEffectView {
    SetPending(PendingOrchardPayOperation),
    PublishReceipt { id: Identifier, owner_id: Identifier, ref_id: [u8; 32], msg_data: Seq<u8> },
    PublishPayment { id: Identifier, owner_id: Identifier, ref_id: [u8; 32], msg_data: Seq<u8> },
    Transfer { amount: u64, memo: Seq<u8> },
    ClearPending,
    RecordPaid { document_id: Identifier, amount: u64 },
}

impl View for PaymentEffect {
    type V = PaymentEffectView;

    open spec fn view(&self) -> PaymentEffectView {
        match *self {
            PaymentEffect::SetPending(operation) => PaymentEffectView::SetPending(operation),
            PaymentEffect::PublishReceipt(message) => PaymentEffectView::PublishReceipt {
                id: message.id,
                owner_id: message.owner_id,
                ref_id: message.ref_id,
                msg_data: message.msg_data@,
            },
            PaymentEffect::PublishPayment(message) => PaymentEffectView::PublishPayment {
                id: message.id,
                owner_id: message.owner_id,
                ref_id: message.ref_id,
                msg_data: message.msg_data@,
            },
            PaymentEffect::Transfer { amount, memo } => PaymentEffectView::Transfer {
                amount,
                memo: memo@,
            },
            PaymentEffect::ClearPending => PaymentEffectView::ClearPending,
            PaymentEffect::RecordPaid { document_id, amount } => PaymentEffectView::RecordPaid {
                document_id,
                amount,
            },
        }
    }
}

/// The contents of a list of steps.
pub open spec fn payment_views(effects: Seq<PaymentEffect>) -> Seq<PaymentEffectView> {
    effects.map_values(|e: PaymentEffect| e@)
}

impl PaymentOrder {
    /// The content of the document that goes with the payment, if one does.
    pub open spec fn document_content(self) -> Option<encryption::ContentView> {
        match self.fulfilling {
            None => Some(
                encryption::ContentView::Payment {
                    amount: self.amount,
                    memo: text::optional_view(self.memo),
                },
            ),
            Some(request) => if request.save_receipt {
                Some(
                    encryption::ContentView::PaymentRequestReceipt {
                        original_document_id: request.document_id@,
                        amount: self.amount,
                        memo: text::optional_view(request.original_memo),
                        original_created_at: request.original_created_at,
                    },
                )
            } else {
                None
            },
        }
    }

    /// Whether a document goes with the payment, for which the shared secret is
    /// needed.
    pub fn has_document(&self) -> (r: bool)
        ensures
            r == (self.document_content() is Some),
    {
        match &self.fulfilling {
            None => true,
            Some(request) => request.save_receipt,
        }
    }

    /// The document of an earlier payment that was published and never confirmed,
    /// on account of which a new one is not begun.
    pub open spec fn unconfirmed(self, pending: Option<PendingOrchardPayOperation>) -> Option<
        Identifier,
    > {
        match self.fulfilling {
            Some(_) => None,
            None => match pending {
                Some(PendingOrchardPayOperation::Payment { document_id, .. }) => Some(document_id),
                _ => None,
            },
        }
    }

    /// Whether it matters if an earlier payment is unconfirmed: not where a request is
    /// answered.
    pub fn heeds_earlier(&self) -> (heeds: bool)
        ensures
            heeds == (self.fulfilling is None),
            !heeds ==> forall|pending: Option<PendingOrchardPayOperation>|
                #[trigger] self.unconfirmed(pending) is None,
    {
        self.fulfilling.is_none()
    }

    /// A payment is not begun while an earlier one is published and unconfirmed:
    /// that one is to be recovered instead.
    pub fn check_unconfirmed(&self, pending: &Option<PendingOrchardPayOperation>) -> (r: Result<
        (),
        OrchardPayTaskError,
    >)
        ensures
            r == match self.unconfirmed(*pending) {
                Some(document_id) => Err::<(), OrchardPayTaskError>(
                    OrchardPayTaskError::PaymentRecoveryNeeded { document_id },
                ),
                None => Ok(()),
            },
    {
        match &self.fulfilling {
            Some(_) => Ok(()),
            None => match pending {
                Some(PendingOrchardPayOperation::Payment { document_id, .. }) => Err(
                    OrchardPayTaskError::PaymentRecoveryNeeded { document_id: *document_id },
                ),
                _ => Ok(()),
            },
        }
    }

    /// The steps of the payment, whose document, if it has one, is sealed as
    /// `msg_data` and gets `document_id`.
    pub open spec fn steps(self, document_id: Identifier, msg_data: Seq<u8>) -> Seq<
        PaymentEffectView,
    > {
        match self.fulfilling {
            Some(request) => (if request.save_receipt {
                seq![
                    PaymentEffectView::PublishReceipt {
                        id: document_id,
                        owner_id: self.owner_id,
                        ref_id: self.my_reference_id,
                        msg_data,
                    },
                ]
            } else {
                Seq::empty()
            }) + seq![
                PaymentEffectView::Transfer {
                    amount: self.amount,
                    memo: MEMO_TAG_PAYMENT@ + request.document_id@,
                },
                PaymentEffectView::ClearPending,
                PaymentEffectView::RecordPaid {
                    document_id: request.document_id,
                    amount: self.amount,
                },
            ],
            None => seq![
                PaymentEffectView::SetPending(
                    PendingOrchardPayOperation::Payment {
                        document_id,
                        step: PendingOperationStep::DocumentPublished,
                    },
                ),
                PaymentEffectView::PublishPayment {
                    id: document_id,
                    owner_id: self.owner_id,
                    ref_id: self.my_reference_id,
                    msg_data,
                },
                PaymentEffectView::Transfer {
                    amount: self.amount,
                    memo: MEMO_TAG_PAYMENT@ + document_id@,
                },
                PaymentEffectView::ClearPending,
            ],
        }
    }
}

fn order_content(order: &PaymentOrder) -> (content: Option<MessageContent>)
    ensures
        match content {
            Some(c) => order.document_content() == Some(c@),
            None => order.document_content() is None,
        },
{
    match &order.fulfilling {
        None => Some(
            MessageContent::Payment {
                amount: order.amount,
                memo: text::copy_optional_text(&order.memo),
            },
        ),
        Some(request) => if request.save_receipt {
            Some(
                MessageContent::PaymentRequestReceipt {
                    original_document_id: request.document_id,
                    amount: order.amount,
                    memo: text::copy_optional_text(&request.original_memo),
                    original_created_at: request.original_created_at,
                },
            )
        } else {
            None
        },
    }
}

/// The sealed document of a payment that has one.
pub fn payment_document(order: &PaymentOrder, shared_secret: &[u8; 32]) -> (data: Result<
    Option<Vec<u8>>,
    OrchardPayTaskError,
>)
    ensures
        match order.document_content() {
            None => data == Ok::<Option<Vec<u8>>, OrchardPayTaskError>(None),
            Some(content) => match data {
                Ok(d) => d is Some && sealed_as(Ok(d->0), Ok(content), shared_secret@),
                Err(e) => sealed_as(Err(e), Ok(content), shared_secret@),
            },
        },
{
    match order_content(order) {
        None => Ok(None),
        Some(content) => match seal(&content, shared_secret) {
            Ok(data) => Ok(Some(data)),
            Err(e) => Err(e),
        },
    }
}

/// The steps of a payment, or why it is not begun. `msg_data` is what
/// [`payment_document`] returned, and `document_id` what that document will be
/// called.
pub fn send_payment(
    order: &PaymentOrder,
    pending: &Option<PendingOrchardPayOperation>,
    document_id: Identifier,
    msg_data: Vec<u8>,
) -> (effects: Result<Vec<PaymentEffect>, OrchardPayTaskError>)
    ensures
        match order.unconfirmed(*pending) {
            Some(earlier) => effects == Err::<Vec<PaymentEffect>, OrchardPayTaskError>(
                OrchardPayTaskError::PaymentRecoveryNeeded { document_id: earlier },
            ),
            None => effects matches Ok(e) && payment_views(e@) == order.steps(
                document_id,
                msg_data@,
            ),
        },
{
    match order.check_unconfirmed(pending) {
        Err(e) => {
            return Err(e);
        },
        Ok(()) => {},
    }
    let ghost data = msg_data@;
    let mut effects: Vec<PaymentEffect> = Vec::new();
    let message: OutgoingMessage = OutgoingMessage {
        id: document_id,
        owner_id: order.owner_id,
        ref_id: order.my_reference_id,
        msg_data,
    };
    match &order.fulfilling {
        Some(request) => {
            if request.save_receipt {
                effects.push(PaymentEffect::PublishReceipt(message));
            }
            effects.push(
                PaymentEffect::Transfer {
                    amount: order.amount,
                    memo: document_memo(MEMO_TAG_PAYMENT, &request.document_id),
                },
            );
            effects.push(PaymentEffect::ClearPending);
            effects.push(
                PaymentEffect::RecordPaid {
                    document_id: request.document_id,
                    amount: order.amount,
                },
            );
        },
        None => {
            effects.push(
                PaymentEffect::SetPending(
                    PendingOrchardPayOperation::Payment {
                        document_id,
                        step: PendingOperationStep::DocumentPublished,
                    },
                ),
            );
            effects.push(PaymentEffect::PublishPayment(message));
            effects.push(
                PaymentEffect::Transfer {
                    amount: order.amount,
                    memo: document_memo(MEMO_TAG_PAYMENT, &document_id),
                },
            );
            effects.push(PaymentEffect::ClearPending);
        },
    }
    assert(payment_views(effects@) =~= order.steps(document_id, data));
    Ok(effects)
}

/// No money moves before its record: where a payment has a document, its
/// publication comes before the transfer, and so does the note of it where the
/// payment is not the answer to a request.
pub proof fn record_precedes_transfer(
    order: PaymentOrder,
    document_id: Identifier,
    msg_data: Seq<u8>,
    i: int,
)
    requires
        0 <= i < order.steps(document_id, msg_data).len(),
        order.steps(document_id, msg_data)[i] is Transfer,
        order.document_content() is Some,
    ensures
        exists|j: int|
            0 <= j < i && {
                let step = #[trigger] order.steps(document_id, msg_data)[j];
                step is PublishReceipt || step is PublishPayment
            },
        order.fulfilling is None ==> order.steps(document_id, msg_data)[0] is SetPending,
{
    let steps = order.steps(document_id, msg_data);
    if order.fulfilling is None {
        assert(steps[1] is PublishPayment);
    } else {
        assert(steps[0] is PublishReceipt);
    }
}

/// The note that is kept after these steps.
pub open spec fn pending_after(
    pending: Option<PendingOrchardPayOperation>,
    steps: Seq<PaymentEffectView>,
) -> Option<PendingOrchardPayOperation>
    decreases steps.len(),
{
    if steps.len() == 0 {
        pending
    } else {
        match steps.last() {
            PaymentEffectView::SetPending(operation) => Some(operation),
            PaymentEffectView::ClearPending => None,
            _ => pending_after(pending, steps.drop_last()),
        }
    }
}

/// A payment of one's own accord that is cut off once its note is made, and before
/// the note is dropped, is not begun a second time: any further one is refused
/// with the document that was noted.
pub proof fn cut_off_payment_is_not_repeated(
    order: PaymentOrder,
    document_id: Identifier,
    msg_data: Seq<u8>,
    pending: Option<PendingOrchardPayOperation>,
    k: int,
    again: PaymentOrder,
)
    requires
        order.fulfilling is None,
        again.fulfilling is None,
        1 <= k < order.steps(document_id, msg_data).len(),
    ensures
        again.unconfirmed(
            pending_after(pending, order.steps(document_id, msg_data).take(k)),
        ) == Some(document_id),
{
    let steps = order.steps(document_id, msg_data);
    assert(steps.len() == 4);
    let noted = Some(
        PendingOrchardPayOperation::Payment {
            document_id,
            step: PendingOperationStep::DocumentPublished,
        },
    );
    assert(steps.take(1).last() == steps[0]);
    assert(pending_after(pending, steps.take(1)) == noted);
    assert(steps.take(2).drop_last() =~= steps.take(1));
    assert(steps.take(2).last() == steps[1]);
    assert(pending_after(pending, steps.take(2)) == noted);
    assert(steps.take(3).drop_last() =~= steps.take(2));
    assert(steps.take(3).last() == steps[2]);
    assert(pending_after(pending, steps.take(3)) == noted);
}

/// The two directions of a conversation meet in the same keys: what one side sends is
/// made with its encryption key and the other's decryption key, and the other reads it
/// with exactly these two. `ours` and `theirs` are the two sides' views of each other.
pub proof fn directions_meet(
    ours: EstablishedRelationship,
    theirs: EstablishedRelationship,
    our_keys: Seq<IdentityKey>,
    their_keys: Seq<IdentityKey>,
    contract_id: Identifier,
    sent: SecretInputs,
    received: SecretInputs,
)
    requires
        are_outbound(Ok(sent), our_keys, contract_id, ours),
        are_inbound(Ok(received), their_keys, contract_id, theirs),
        theirs.counterparty_encryption_pubkey@ == our_keys[sent.own_key as int].data@,
        ours.counterparty_decryption_pubkey@ == their_keys[received.own_key as int].data@,
    ensures
        sent.counterparty_pubkey@ == their_keys[received.own_key as int].data@,
        received.counterparty_pubkey@ == our_keys[sent.own_key as int].data@,
        our_keys[sent.own_key as int].purpose == Purpose::Encryption,
        their_keys[received.own_key as int].purpose == Purpose::Decryption,
{
}

/// A text of safe characters and line breaks that keeps the bounds is sent as it was
/// written. Whatever is sent keeps the bounds and holds nothing unsafe but line breaks.
/// A text is refused exactly where what is left of it does not keep the bounds, with the
/// number of its characters told.
pub proof fn texts_are_sent_as_written(text: Seq<char>, limits: SendLimits)
    ensures
        ({
            let safe = forall|i: int|
                0 <= i < text.len() ==> #[trigger] text[i] == '\n'
                    || !validation::unsafe_to_display(text[i]);
            let content = message_content(text, limits);
            &&& safe && limits.min_message_chars <= text.len() <= limits.max_message_chars
                ==> content == Ok::<encryption::ContentView, OrchardPayTaskError>(
                encryption::ContentView::Message { data: text },
            )
            &&& content matches Ok(sent) ==> {
                &&& sent is Message
                &&& limits.min_message_chars <= sent->Message_data.len()
                    <= limits.max_message_chars
                &&& forall|i: int|
                    0 <= i < sent->Message_data.len() ==> #[trigger] sent->Message_data[i] == '\n'
                        || !validation::unsafe_to_display(sent->Message_data[i])
            }
            &&& safe && text.len() <= usize::MAX && !(limits.min_message_chars <= text.len()
                <= limits.max_message_chars) ==> (content matches Err(
                OrchardPayTaskError::MessageTooLong { source },
            ) && source.actual == text.len() && source.min == limits.min_message_chars
                && source.max == limits.max_message_chars)
        }),
{
    validation::line_stripping_is_complete(text);
    if forall|i: int|
        0 <= i < text.len() ==> #[trigger] text[i] == '\n' || !validation::unsafe_to_display(
            text[i],
        ) {
        validation::line_stripping_keeps_safe_text(text);
    }
}

/// No amount below the least one is asked for or paid, whatever comes with it. Without a
/// memo nothing else is in the way; a memo of safe characters and line breaks that keeps
/// its bounds goes along as it was written. What is asked for is the amount that was
/// named.
pub proof fn requests_ask_for_what_was_named(amount: u64, memo: Option<Seq<char>>, limits: SendLimits)
    ensures
        ({
            let content = request_content(amount, memo, limits);
            let prepared = sendable_amount(amount, memo, limits);
            &&& amount < limits.min_amount ==> {
                &&& content is Err && prepared is Err
                &&& content->Err_0 matches OrchardPayTaskError::AmountTooLow { source }
                &&& source.actual == amount && source.minimum == limits.min_amount
            }
            &&& content is Ok <==> prepared is Ok
            &&& content matches Ok(sent) ==> sent is PaymentRequest && sent->PaymentRequest_amount
                == amount && prepared == Ok::<Option<Seq<char>>, OrchardPayTaskError>(
                sent->PaymentRequest_memo,
            )
            &&& amount >= limits.min_amount && memo is None ==> prepared == Ok::<
                Option<Seq<char>>,
                OrchardPayTaskError,
            >(None)
            &&& amount >= limits.min_amount && memo is Some && limits.min_memo_chars
                <= memo->0.len() <= limits.max_memo_chars && (forall|i: int|
                0 <= i < memo->0.len() ==> #[trigger] memo->0[i] == '\n'
                    || !validation::unsafe_to_display(memo->0[i])) ==> prepared == Ok::<
                Option<Seq<char>>,
                OrchardPayTaskError,
            >(memo)
            &&& prepared matches Ok(sent) ==> (sent is Some <==> memo is Some)
            &&& prepared matches Ok(Some(sent)) ==> limits.min_memo_chars <= sent.len()
                <= limits.max_memo_chars && forall|i: int|
                0 <= i < sent.len() ==> #[trigger] sent[i] == '\n'
                    || !validation::unsafe_to_display(sent[i])
        }),
{
    if let Some(m) = memo {
        validation::line_stripping_is_complete(m);
        if forall|i: int|
            0 <= i < m.len() ==> #[trigger] m[i] == '\n' || !validation::unsafe_to_display(m[i]) {
            validation::line_stripping_keeps_safe_text(m);
        }
    }
}

/// What may be sent is sealed, and reads back as itself; what is too long to be sealed,
/// or was refused before, is told.
pub proof fn contents_are_sealed_or_refused(
    data: Result<Vec<u8>, OrchardPayTaskError>,
    content: Result<encryption::ContentView, OrchardPayTaskError>,
    secret: Seq<u8>,
)
    requires
        sealed_as(data, content, secret),
    ensures
        content matches Err(e) ==> data == Err::<Vec<u8>, OrchardPayTaskError>(e),
        content matches Ok(c) ==> {
            &&& data is Ok <==> c.encoded_len() <= 5000
            &&& data matches Ok(d) ==> encryption::ContentView::decrypted(secret, d@) == Ok::<
                encryption::ContentView,
                OrchardPayCryptoError,
            >(c)
            &&& data matches Err(e) ==> e == OrchardPayTaskError::OrchardPay(
                OrchardPayError::Crypto(OrchardPayCryptoError::PayloadTooLarge),
            )
        },
{
}

/// Only a message can be edited or deleted, only a payment can get another memo, and only
/// a request can be cancelled. What cannot be read under the secret can be none of these.
pub proof fn each_kind_has_its_change(
    document: MessageDocument,
    secret: Seq<u8>,
    new_text: Seq<char>,
    new_memo: Option<Seq<char>>,
    limits: SendLimits,
)
    ensures
        ({
            let read = match document.msg_data {
                Some(bytes) => match encryption::ContentView::decrypted(secret, bytes@) {
                    Ok(content) => Some(content),
                    Err(_) => None,
                },
                None => None,
            };
            &&& deletion(document, secret) is Ok <==> read is Some && read->0 is Message
            &&& edited_message(document, secret, new_text, limits) is Ok <==> read is Some
                && read->0 is Message && message_content(new_text, limits) is Ok
            &&& edited_message(document, secret, new_text, limits) is Ok ==> edited_message(
                document,
                secret,
                new_text,
                limits,
            ) == message_content(new_text, limits)
            &&& edited_payment(document, secret, new_memo, limits) is Ok <==> read is Some
                && read->0 is Payment && sendable_memo(new_memo, limits) is Ok
            &&& edited_payment(document, secret, new_memo, limits) matches Ok(after)
                ==> after is Payment && after->Payment_amount == read->0->Payment_amount
                && sendable_memo(new_memo, limits) == Ok::<
                Option<Seq<char>>,
                OrchardPayTaskError,
            >(after->Payment_memo)
            &&& cancelled_request(document, secret) is Ok <==> read is Some
                && read->0 is PaymentRequest && document.created_at == document.updated_at
            &&& read is Some && !(read->0 is Message) ==> deletion(document, secret) == Err::<
                (),
                OrchardPayTaskError,
            >(OrchardPayTaskError::DeleteTargetMismatch)
            &&& read is Some && !(read->0 is Message) && message_content(new_text, limits) is Ok
                ==> edited_message(document, secret, new_text, limits) == Err::<
                encryption::ContentView,
                OrchardPayTaskError,
            >(OrchardPayTaskError::EditTargetMismatch)
            &&& read is Some && !(read->0 is Payment) && sendable_memo(new_memo, limits) is Ok
                ==> edited_payment(document, secret, new_memo, limits) == Err::<
                encryption::ContentView,
                OrchardPayTaskError,
            >(OrchardPayTaskError::EditTargetMismatch)
        }),
{
}

/// A request is cancelled exactly where nothing was paid for it and nothing changed it
/// before. It keeps its amount, and its memo says that it is cancelled, followed by what
/// it said before.
pub proof fn only_open_requests_are_cancelled(
    document: MessageDocument,
    verified_amount: Option<u64>,
    secret: Seq<u8>,
    content: encryption::ContentView,
)
    requires
        own_content(document, secret) == Ok::<encryption::ContentView, OrchardPayTaskError>(
            content,
        ),
    ensures
        ({
            let outcome = cancellation(document, verified_amount, secret);
            &&& outcome is Ok <==> content is PaymentRequest && verified_amount is None
                && document.created_at == document.updated_at
            &&& outcome matches Ok(after) ==> {
                &&& after is PaymentRequest
                &&& after->PaymentRequest_amount == content->PaymentRequest_amount
                &&& after->PaymentRequest_memo matches Some(memo)
                &&& memo.len() >= 8 && memo.take(8) == "CANCELED"@
                &&& content->PaymentRequest_memo is None ==> memo.len() == 8
                &&& content->PaymentRequest_memo matches Some(before) ==> memo.len() == 10
                    + before.len() && memo.skip(10) == before && memo.subrange(8, 10) == ": "@
            }
            &&& document.created_at != document.updated_at ==> outcome == Err::<
                encryption::ContentView,
                OrchardPayTaskError,
            >(OrchardPayTaskError::RequestAlreadyCancelled)
            &&& document.created_at == document.updated_at && !(content is PaymentRequest)
                ==> outcome == Err::<encryption::ContentView, OrchardPayTaskError>(
                OrchardPayTaskError::EditTargetMismatch,
            )
            &&& document.created_at == document.updated_at && content is PaymentRequest
                && verified_amount is Some ==> outcome == Err::<
                encryption::ContentView,
                OrchardPayTaskError,
            >(OrchardPayTaskError::RequestAlreadyPaid)
        }),
{
    reveal_strlit("CANCELED");
    reveal_strlit("CANCELED: ");
    reveal_strlit(": ");
    if let encryption::ContentView::PaymentRequest { memo, .. } = content {
        let after = cancelled_memo(memo);
        assert(after.take(8) =~= "CANCELED"@);
        if let Some(before) = memo {
            assert(after.skip(10) =~= before);
            assert(after.subrange(8, 10) =~= ": "@);
        }
    }
}

/// A payment makes exactly one transfer, of its amount. Its memo is `OPP1` followed by the
/// document that it pays for: the request that it answers, or else its own. The note of the
/// payment is dropped after the transfer and not before.
pub proof fn payments_transfer_once(
    order: PaymentOrder,
    document_id: Identifier,
    msg_data: Seq<u8>,
)
    ensures
        ({
            let steps = order.steps(document_id, msg_data);
            let paid_for = match order.fulfilling {
                Some(request) => request.document_id,
                None => document_id,
            };
            exists|t: int|
                {
                    &&& 0 <= t < steps.len() - 1
                    &&& #[trigger] steps[t] == (PaymentEffectView::Transfer {
                        amount: order.amount,
                        memo: seq![0x4fu8, 0x50u8, 0x50u8, 0x31u8] + paid_for@,
                    })
                    &&& steps[t + 1] == PaymentEffectView::ClearPending
                    &&& forall|k: int|
                        0 <= k < steps.len() && k != t ==> !(#[trigger] steps[k] is Transfer)
                    &&& forall|k: int|
                        0 <= k < steps.len() && k != t + 1 ==> !(
                        #[trigger] steps[k] is ClearPending)
                    &&& forall|k: int|
                        0 <= k < steps.len() && (#[trigger] steps[k] is PublishPayment
                            || steps[k] is PublishReceipt || steps[k] is SetPending) ==> k < t
                    &&& forall|k: int|
                        0 <= k < steps.len() && #[trigger] steps[k] is RecordPaid ==> k > t
                }
        }),
{
    let steps = order.steps(document_id, msg_data);
    assert(MEMO_TAG_PAYMENT@ =~= seq![0x4fu8, 0x50u8, 0x50u8, 0x31u8]);
    let t: int = match order.fulfilling {
        Some(request) => if request.save_receipt {
            1
        } else {
            0
        },
        None => 2,
    };
    assert(steps[t] is Transfer);
    assert(steps[t + 1] is ClearPending);
    assert(steps.len() == t + if order.fulfilling is Some {
        3int
    } else {
        2
    });
}

/// A payment of one's own accord publishes its document and notes it first; the payment of
/// a request publishes nothing but the receipt, where one is wanted, and records that the
/// request is paid with the amount that was paid. What is published is the sealed document
/// under one's own reference.
pub proof fn payments_leave_their_record(
    order: PaymentOrder,
    document_id: Identifier,
    msg_data: Seq<u8>,
    k: int,
)
    requires
        0 <= k < order.steps(document_id, msg_data).len(),
    ensures
        ({
            let steps = order.steps(document_id, msg_data);
            let step = steps[k];
            &&& order.fulfilling is None ==> steps.len() == 4 && steps[0] is SetPending
                && steps[1] is PublishPayment
            &&& order.fulfilling matches Some(request) ==> {
                &&& steps.len() == if request.save_receipt {
                    4int
                } else {
                    3
                }
                &&& request.save_receipt <==> steps[0] is PublishReceipt
                &&& steps[steps.len() - 1] == (PaymentEffectView::RecordPaid {
                    document_id: request.document_id,
                    amount: order.amount,
                })
            }
            &&& step is PublishPayment ==> order.fulfilling is None && step == (
            PaymentEffectView::PublishPayment {
                id: document_id,
                owner_id: order.owner_id,
                ref_id: order.my_reference_id,
                msg_data,
            })
            &&& step is PublishReceipt ==> order.fulfilling is Some && step == (
            PaymentEffectView::PublishReceipt {
                id: document_id,
                owner_id: order.owner_id,
                ref_id: order.my_reference_id,
                msg_data,
            })
            &&& step is SetPending ==> order.fulfilling is None && step
                == PaymentEffectView::SetPending(
                PendingOrchardPayOperation::Payment {
                    document_id,
                    step: PendingOperationStep::DocumentPublished,
                },
            )
        }),
{
}

/// What is published with a payment: of one's own accord, the amount that is paid and the
/// memo; with the payment of a request, if a receipt is wanted, what was asked for and
/// when, and nothing otherwise.
pub proof fn payment_documents_say_what_is_paid(order: PaymentOrder)
    ensures
        order.fulfilling is None ==> (order.document_content() matches Some(content)
            && content is Payment && content->Payment_amount == order.amount
            && content->Payment_memo == text::optional_view(order.memo)),
        order.fulfilling matches Some(request) ==> {
            &&& order.document_content() is Some <==> request.save_receipt
            &&& order.document_content() matches Some(content) ==> content is PaymentRequestReceipt
                && content->PaymentRequestReceipt_original_document_id == request.document_id@
                && content->PaymentRequestReceipt_amount == order.amount
                && content->PaymentRequestReceipt_memo == text::optional_view(
                request.original_memo,
            ) && content->PaymentRequestReceipt_original_created_at == request.original_created_at
        },
{
}

/// A payment of one's own accord waits for an earlier one that was published and not
/// confirmed, and for nothing else; the payment of a request waits for none.
pub proof fn only_unconfirmed_payments_hold_up(
    order: PaymentOrder,
    pending: Option<PendingOrchardPayOperation>,
)
    ensures
        order.fulfilling is Some ==> order.unconfirmed(pending) is None,
        order.fulfilling is None ==> match pending {
            Some(PendingOrchardPayOperation::Payment { document_id, .. }) => order.unconfirmed(
                pending,
            ) == Some(document_id),
            _ => order.unconfirmed(pending) is None,
        },
{
}

/// Only an established contact is written to, with the references and the keys that
/// are recorded of it, each in its place.
pub proof fn only_established_contacts_are_written_to(
    existing: Option<OrchardPayContactState>,
    relationship: Result<EstablishedRelationship, OrchardPayError>,
)
    requires
        stands_for(existing, relationship),
    ensures
        relationship is Ok <==> (existing matches Some(state) && state is Established),
        relationship matches Err(e) ==> e == OrchardPayError::ContactNotEstablished,
        existing matches Some(
            OrchardPayContactState::Established {
                my_reference_id,
                their_reference_id,
                counterparty_encryption_pubkey,
                counterparty_decryption_pubkey,
                ..
            },
        ) ==> relationship->Ok_0.my_reference_id@ == my_reference_id@
            && relationship->Ok_0.their_reference_id@ == their_reference_id@
            && relationship->Ok_0.counterparty_encryption_pubkey@
            == counterparty_encryption_pubkey@ && relationship->Ok_0.counterparty_decryption_pubkey@
            == counterparty_decryption_pubkey@,
{
}

/// What is sent is made with one's own encryption key and the counterparty's
/// decryption key, and what is received with one's own decryption key and the
/// counterparty's encryption key. That one's own key is missing is told exactly where
/// it is.
pub proof fn each_direction_has_its_keys(
    own_keys: Seq<IdentityKey>,
    contract_id: Identifier,
    relationship: EstablishedRelationship,
    inputs: Result<SecretInputs, OrchardPayError>,
    k: int,
)
    requires
        0 <= k < own_keys.len(),
    ensures
        are_outbound(inputs, own_keys, contract_id, relationship) ==> {
            &&& inputs matches Ok(i) ==> {
                &&& i.counterparty_pubkey@ == relationship.counterparty_decryption_pubkey@
                &&& 0 <= i.own_key < own_keys.len()
                &&& keys::serves(own_keys[i.own_key as int], contract_id, Purpose::Encryption)
                &&& k < i.own_key ==> !keys::serves(own_keys[k], contract_id, Purpose::Encryption)
            }
            &&& inputs matches Err(e) ==> e == OrchardPayError::OwnKeyMissing && !keys::serves(
                own_keys[k],
                contract_id,
                Purpose::Encryption,
            )
        },
        are_inbound(inputs, own_keys, contract_id, relationship) ==> {
            &&& inputs matches Ok(i) ==> {
                &&& i.counterparty_pubkey@ == relationship.counterparty_encryption_pubkey@
                &&& 0 <= i.own_key < own_keys.len()
                &&& keys::serves(own_keys[i.own_key as int], contract_id, Purpose::Decryption)
                &&& k < i.own_key ==> !keys::serves(own_keys[k], contract_id, Purpose::Decryption)
            }
            &&& inputs matches Err(e) ==> e == OrchardPayError::OwnKeyMissing && !keys::serves(
                own_keys[k],
                contract_id,
                Purpose::Decryption,
            )
        },
{
}

/// What is sealed is 28 bytes longer than its encoding, or than the 64 bytes that a
/// shorter one is filled up to.
pub proof fn sealed_contents_hide_short_lengths(
    data: Result<Vec<u8>, OrchardPayTaskError>,
    content: encryption::ContentView,
    secret: Seq<u8>,
)
    requires
        sealed_as(data, Ok(content), secret),
        data is Ok,
    ensures
        data->Ok_0@.len() == 28 + (if content.encoded_len() < 64 {
            64
        } else {
            content.encoded_len()
        }),
        encryption::opened(secret, data->Ok_0@) == Some(encryption::padded(content.encoded())),
{
}

} // verus!
