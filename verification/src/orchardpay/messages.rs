//! Conversation threads: pages of encrypted messages, their decoding and their
//! assembly into what is shown.

use vstd::prelude::*;

use crate::model::identifier::{same_id, Identifier};
use crate::model::text;
use crate::orchardpay::encryption;
use crate::orchardpay::encryption::MessageContent;
use crate::ordering;

verus! {

/// The document type of messages.
pub const ENCRYPTED_MESSAGE_DOCUMENT_TYPE: &'static str = "encryptedMessage";

/// How many documents one query for one side of a conversation asks for.
pub const MESSAGE_PAGE_SIZE: u32 = 100;

/// A message document as it was fetched.
#[derive(Debug, Clone, PartialEq)]
pub struct MessageDocument {
    pub id: Identifier,
    pub owner_id: Identifier,
    pub created_at: Option<u64>,
    pub updated_at: Option<u64>,
    /// The sealed content; `None` if the field is missing or holds no bytes.
    pub msg_data: Option<Vec<u8>>,
}

/// A decrypted message of a thread.
#[derive(Debug, Clone, PartialEq)]
pub struct ThreadMessage {
    pub document_id: Identifier,
    /// Whether the owner of the thread sent it.
    pub from_me: bool,
    pub created_at: Option<u64>,
    pub updated_at: Option<u64>,
    pub content: MessageContent,
    /// The amount that this wallet has confirmed for the transfer that goes with
    /// a payment or a request; for a request it also means that it is paid.
    pub verified_amount: Option<u64>,
    /// Whether the entry stands for an anchor's initial message and not for a
    /// message document of its own.
    pub synthetic: bool,
}

/// Why a saved receipt no longer fits the request it was saved for.
#[derive(Debug, Clone, Copy, PartialEq, Eq, Structural)]
pub enum ReceiptAlertReason {
    /// No document with that identifier is in the thread.
    OriginalDeleted,
    /// The document is there, but it is no request any more.
    OriginalChangedKind,
    /// It is a request that was not cancelled, but with another amount or memo.
    OriginalAmountOrMemoMismatch,
}

/// A receipt whose request no longer matches it.
#[derive(Debug, Clone, PartialEq)]
pub struct ReceiptAlert {
    pub original_document_id: Identifier,
    pub amount: u64,
    pub memo: Option<String>,
    pub original_created_at: Option<u64>,
    pub reason: ReceiptAlertReason,
}

/// Where each side of a conversation may have older messages: before the given
/// time, or, with `None`, nowhere.
#[derive(Debug, Clone, Copy, PartialEq, Eq, Structural)]
pub struct HistoryCursor {
    pub mine_before: Option<u64>,
    pub their_before: Option<u64>,
}

impl Default for HistoryCursor {
    fn default() -> (cursor: Self)
        ensures
            cursor == (HistoryCursor { mine_before: None, their_before: None }),
    {
        HistoryCursor { mine_before: None, their_before: None }
    }
}

impl HistoryCursor {
    /// Whether either side may have older messages.
    pub open spec fn spec_has_more(self) -> bool {
        self.mine_before is Some || self.their_before is Some
    }

    /// Whether either side may have older messages.
    pub fn has_more(&self) -> (r: bool)
        ensures
            r == self.spec_has_more(),
    {
        self.mine_before.is_some() || self.their_before.is_some()
    }
}

/// A thread as far as it is loaded.
#[derive(Debug, Clone, PartialEq)]
pub struct LoadedThread {
    /// Everything decoded so far, of both sides, receipts among it.
    pub all_decoded: Vec<ThreadMessage>,
    /// What is shown: everything but the receipts, oldest first.
    pub messages: Vec<ThreadMessage>,
    pub receipt_alerts: Vec<ReceiptAlert>,
    pub history_cursor: HistoryCursor,
    /// Whether some documents may not have made it into `all_decoded`.
    pub may_be_incomplete: bool,
}

/// What to ask the platform for: the documents tagged `ref_id`, owned by
/// `owner_id` and created before `created_before`, newest first.
#[derive(Debug, Clone, Copy, PartialEq, Eq)]
pub struct MessageQuery {
    pub ref_id: [u8; 32],
    pub owner_id: Identifier,
    /// Excluded upper bound of the creation time.
    pub created_before: u64,
    pub limit: u32,
}

/// The query for one page of one side.
pub open spec fn page_query(
    ref_id: [u8; 32],
    expected_owner: Identifier,
    before: Option<u64>,
    now_millis: u64,
) -> MessageQuery {
    MessageQuery {
        ref_id,
        owner_id: expected_owner,
        created_before: match before {
            Some(bound) => bound,
            None => now_millis,
        },
        limit: MESSAGE_PAGE_SIZE,
    }
}

/// The query for one page of one side: the newest documents before `before`, or
/// before the present where there is no bound.
pub fn message_page_query(
    ref_id: [u8; 32],
    expected_owner: Identifier,
    before: Option<u64>,
    now_millis: u64,
) -> (query: MessageQuery)
    ensures
        query == page_query(ref_id, expected_owner, before, now_millis),
{
    MessageQuery {
        ref_id,
        owner_id: expected_owner,
        created_before: match before {
            Some(bound) => bound,
            None => now_millis,
        },
        limit: MESSAGE_PAGE_SIZE,
    }
}

/// The query for the newest message of one side alone.
pub fn latest_message_query(
    ref_id: [u8; 32],
    expected_owner: Identifier,
    now_millis: u64,
) -> (query: MessageQuery)
    ensures
        query.ref_id == ref_id,
        query.owner_id == expected_owner,
        query.created_before == now_millis,
        query.limit == 1,
{
    MessageQuery { ref_id, owner_id: expected_owner, created_before: now_millis, limit: 1 }
}

/// `oldest` is the smallest creation time that any of the documents has.
pub open spec fn is_oldest(documents: Seq<MessageDocument>, oldest: Option<u64>) -> bool {
    match oldest {
        None => forall|i: int|
            0 <= i < documents.len() ==> (#[trigger] documents[i]).created_at is None,
        Some(t) => {
            &&& exists|i: int|
                0 <= i < documents.len() && (#[trigger] documents[i]).created_at == Some(t)
            &&& forall|i: int|
                0 <= i < documents.len() && (#[trigger] documents[i]).created_at is Some ==> t
                    <= documents[i].created_at->0
        },
    }
}

/// How many documents stand in front of the last run of documents created at
/// `boundary`.
pub open spec fn before_last_run(documents: Seq<MessageDocument>, boundary: u64) -> nat
    decreases documents.len(),
{
    if documents.len() == 0 || documents.last().created_at != Some(boundary) {
        documents.len()
    } else {
        before_last_run(documents.drop_last(), boundary)
    }
}

/// What becomes of a page: what is kept of it, and whether the bound for the
/// next page is known to leave nothing out.
pub open spec fn trimmed_page(documents: Seq<MessageDocument>, has_more: bool) -> Seq<
    MessageDocument,
> {
    if !has_more || documents.len() == 0 || documents.last().created_at is None {
        documents
    } else {
        let kept = before_last_run(documents, documents.last().created_at->0) as int;
        if kept == 0 {
            documents
        } else {
            documents.take(kept)
        }
    }
}

/// Whether a full page holds nothing but documents of one creation time.
pub open spec fn entirely_tied(documents: Seq<MessageDocument>, has_more: bool) -> bool {
    has_more && documents.len() > 0 && documents.last().created_at is Some && before_last_run(
        documents,
        documents.last().created_at->0,
    ) == 0
}

proof fn lemma_before_last_run(documents: Seq<MessageDocument>, boundary: u64)
    ensures
        before_last_run(documents, boundary) <= documents.len(),
        forall|i: int|
            before_last_run(documents, boundary) <= i < documents.len() ==> (
            #[trigger] documents[i]).created_at == Some(boundary),
        before_last_run(documents, boundary) > 0 ==> documents[before_last_run(
            documents,
            boundary,
        ) - 1].created_at != Some(boundary),
    decreases documents.len(),
{
    if documents.len() > 0 && documents.last().created_at == Some(boundary) {
        lemma_before_last_run(documents.drop_last(), boundary);
        assert forall|i: int|
            before_last_run(documents, boundary) <= i < documents.len() implies (
        #[trigger] documents[i]).created_at == Some(boundary) by {
            if i < documents.len() - 1 {
                assert(documents.drop_last()[i] == documents[i]);
            }
        }
    }
}

/// The smallest creation time among the documents.
fn oldest_created_at(documents: &Vec<MessageDocument>) -> (oldest: Option<u64>)
    ensures
        is_oldest(documents@, oldest),
{
    let mut oldest: Option<u64> = None;
    let mut i: usize = 0;
    while i < documents.len()
        invariant
            i <= documents@.len(),
            is_oldest(documents@.take(i as int), oldest),
        decreases documents@.len() - i,
    {
        let ghost seen = documents@.take(i as int);
        let ghost next = documents@.take(i + 1);
        let ghost before = oldest;
        proof {
            assert(forall|j: int| 0 <= j < seen.len() ==> next[j] == seen[j]);
            assert(next[i as int] == documents@[i as int]);
        }
        match documents[i].created_at {
            None => {},
            Some(t) => {
                let smaller: bool = match oldest {
                    None => true,
                    Some(o) => t < o,
                };
                if smaller {
                    oldest = Some(t);
                }
            },
        }
        proof {
            if oldest is Some && oldest == before {
                let j = choose|j: int| 0 <= j < seen.len() && seen[j].created_at == before;
                assert(next[j].created_at == oldest);
            }
        }
        i = i + 1;
    }
    assert(documents@.take(i as int) =~= documents@);
    oldest
}

/// Holds back the documents at a full page's smallest creation time, of which
/// the page may not hold all, and gives the bound for the next page: the time of
/// the last document kept. Where the whole page has one creation time nothing
/// can be held back; the second result then tells that documents may be missing.
pub fn trim_ambiguous_tail(documents: &mut Vec<MessageDocument>, has_more: bool) -> (r: (
    Option<u64>,
    bool,
))
    ensures
        final(documents)@ == trimmed_page(old(documents)@, has_more),
        r.1 == entirely_tied(old(documents)@, has_more),
        !has_more || old(documents)@.len() == 0 ==> is_oldest(old(documents)@, r.0),
        has_more && old(documents)@.len() > 0 ==> r.0 == final(documents)@.last().created_at,
{
    if !has_more || documents.len() == 0 {
        return (oldest_created_at(documents), false);
    }
    let ghost all = documents@;
    let mut kept: usize = documents.len();
    match documents[kept - 1].created_at {
        None => (None, false),
        Some(boundary) => {
            proof {
                lemma_before_last_run(all, boundary);
            }
            assert(all.take(kept as int) =~= all);
            while kept > 0 && documents[kept - 1].created_at == Some(boundary)
                invariant
                    kept <= documents@.len(),
                    documents@ == all,
                    before_last_run(all, boundary) == before_last_run(
                        all.take(kept as int),
                        boundary,
                    ),
                decreases kept,
            {
                assert(all.take(kept as int).drop_last() =~= all.take(kept - 1));
                kept = kept - 1;
            }
            assert(before_last_run(all, boundary) == kept);
            if kept > 0 {
                documents.truncate(kept);
                assert(documents@ =~= all.take(kept as int));
                (documents[kept - 1].created_at, false)
            } else {
                (Some(boundary), true)
            }
        },
    }
}

/// A page in descending order of creation that is trimmed and not entirely tied:
/// what is kept was created at the bound or later, what is held back before it.
/// So the next page, which ends below the bound, brings all that was held back
/// and nothing that was kept.
pub proof fn trimming_loses_nothing(documents: Seq<MessageDocument>, i: int)
    requires
        forall|i: int|
            0 <= i < documents.len() ==> (#[trigger] documents[i]).created_at is Some,
        forall|i: int, j: int|
            0 <= i <= j < documents.len() ==> (#[trigger] documents[i]).created_at->0 >= (
            #[trigger] documents[j]).created_at->0,
        documents.len() > 0,
        !entirely_tied(documents, true),
        0 <= i < documents.len(),
    ensures
        ({
            let kept = trimmed_page(documents, true);
            let bound = kept.last().created_at->0;
            &&& kept.len() > 0
            &&& kept == documents.take(kept.len() as int)
            &&& i < kept.len() ==> documents[i].created_at->0 >= bound
            &&& i >= kept.len() ==> documents[i].created_at->0 < bound
        }),
{
    let boundary = documents.last().created_at->0;
    let kept = before_last_run(documents, boundary) as int;
    lemma_before_last_run(documents, boundary);
    assert(trimmed_page(documents, true) == documents.take(kept));
    assert(documents[kept - 1].created_at != Some(boundary));
    assert(documents[kept - 1].created_at->0 >= documents[documents.len() - 1].created_at->0);
}

/// One page of one side's messages.
#[derive(Debug, Clone, PartialEq)]
pub struct MessagePage {
    pub documents: Vec<MessageDocument>,
    /// Whether older documents may exist on this side.
    pub has_more: bool,
    /// The bound for the next page.
    pub oldest_created_at: Option<u64>,
    /// Whether documents of this page's smallest creation time may be missing.
    pub may_be_incomplete: bool,
}

impl MessagePage {
    /// The bound before which this side may have more, if it may.
    pub open spec fn next_before(self) -> Option<u64> {
        if self.has_more {
            self.oldest_created_at
        } else {
            None
        }
    }

    /// What a fetched batch becomes.
    pub open spec fn is_page_of(self, fetched: Seq<MessageDocument>) -> bool {
        let full = fetched.len() >= MESSAGE_PAGE_SIZE;
        &&& self.documents@ == trimmed_page(fetched, full)
        &&& self.has_more == full
        &&& self.may_be_incomplete == entirely_tied(fetched, full)
        &&& !full ==> is_oldest(fetched, self.oldest_created_at)
        &&& full ==> self.oldest_created_at == self.documents@.last().created_at
    }
}

/// The page that a query's answer makes: a batch as large as was asked for may
/// have been cut off and is trimmed.
pub fn message_page(fetched: Vec<MessageDocument>) -> (page: MessagePage)
    ensures
        page.is_page_of(fetched@),
{
    let mut documents: Vec<MessageDocument> = fetched;
    let has_more: bool = documents.len() >= MESSAGE_PAGE_SIZE as usize;
    let (oldest_created_at, may_be_incomplete) = trim_ambiguous_tail(&mut documents, has_more);
    MessagePage { documents, has_more, oldest_created_at, may_be_incomplete }
}

impl MessageContent {
    /// A copy of the content.
    pub fn copy(&self) -> (copy: Self)
        ensures
            copy == *self,
    {
        match self {
            MessageContent::Message { data } => MessageContent::Message { data: data.clone() },
            MessageContent::Payment { amount, memo } => MessageContent::Payment {
                amount: *amount,
                memo: text::copy_optional_text(memo),
            },
            MessageContent::PaymentRequest { amount, memo } => MessageContent::PaymentRequest {
                amount: *amount,
                memo: text::copy_optional_text(memo),
            },
            MessageContent::PaymentRequestReceipt {
                original_document_id,
                amount,
                memo,
                original_created_at,
            } => MessageContent::PaymentRequestReceipt {
                original_document_id: *original_document_id,
                amount: *amount,
                memo: text::copy_optional_text(memo),
                original_created_at: *original_created_at,
            },
        }
    }

    /// Whether the content is a receipt, which is never shown itself.
    pub fn is_receipt(&self) -> (r: bool)
        ensures
            r == (*self is PaymentRequestReceipt),
    {
        match self {
            MessageContent::PaymentRequestReceipt { .. } => true,
            _ => false,
        }
    }
}

impl ThreadMessage {
    /// A copy of the message.
    pub fn copy(&self) -> (copy: Self)
        ensures
            copy == *self,
    {
        ThreadMessage {
            document_id: self.document_id,
            from_me: self.from_me,
            created_at: self.created_at,
            updated_at: self.updated_at,
            content: self.content.copy(),
            verified_amount: self.verified_amount,
            synthetic: self.synthetic,
        }
    }

    /// Whether a request was cancelled: nothing else ever updates one.
    pub open spec fn spec_was_updated(self) -> bool {
        self.updated_at is Some && self.updated_at != self.created_at
    }

    /// Whether the document was updated after it was created.
    pub fn was_updated(&self) -> (r: bool)
        ensures
            r == self.spec_was_updated(),
    {
        self.updated_at.is_some() && self.updated_at != self.created_at
    }
}

/// The amount that a table has for a document: that of the first entry for it.
pub open spec fn amount_for(table: Seq<(Identifier, u64)>, id: Identifier) -> Option<u64>
    decreases table.len(),
{
    if table.len() == 0 {
        None
    } else if table[0].0 == id {
        Some(table[0].1)
    } else {
        amount_for(table.skip(1), id)
    }
}

/// Looks up the amount for a document.
fn find_amount(table: &Vec<(Identifier, u64)>, id: &Identifier) -> (amount: Option<u64>)
    ensures
        amount == amount_for(table@, *id),
{
    let mut i: usize = 0;
    assert(table@.skip(0) =~= table@);
    while i < table.len()
        invariant
            i <= table@.len(),
            amount_for(table@, *id) == amount_for(table@.skip(i as int), *id),
        decreases table@.len() - i,
    {
        assert(table@.skip(i as int)[0] == table@[i as int]);
        if same_id(&table[i].0, id) {
            return Some(table[i].1);
        }
        assert(table@.skip(i as int).skip(1) =~= table@.skip(i + 1));
        i = i + 1;
    }
    assert(table@.skip(i as int).len() == 0);
    None
}

/// The amounts that this wallet knows for documents: those already recorded as
/// confirmed, those of its own outgoing notes and those of its incoming notes.
#[derive(Debug, Clone, PartialEq)]
pub struct KnownPayments {
    pub recorded: Vec<(Identifier, u64)>,
    pub outgoing: Vec<(Identifier, u64)>,
    pub incoming: Vec<(Identifier, u64)>,
}

impl KnownPayments {
    /// The confirmed amount for a document, from the first source that has one.
    pub open spec fn confirmed(self, id: Identifier) -> Option<u64> {
        match amount_for(self.recorded@, id) {
            Some(amount) => Some(amount),
            None => match amount_for(self.outgoing@, id) {
                Some(amount) => Some(amount),
                None => amount_for(self.incoming@, id),
            },
        }
    }

    /// The confirmed amount for a document, from the first source that has one.
    pub fn find_confirmed(&self, id: &Identifier) -> (amount: Option<u64>)
        ensures
            amount == self.confirmed(*id),
    {
        match find_amount(&self.recorded, id) {
            Some(amount) => Some(amount),
            None => match find_amount(&self.outgoing, id) {
                Some(amount) => Some(amount),
                None => find_amount(&self.incoming, id),
            },
        }
    }
}

/// `message` is what `document` decodes to.
pub open spec fn decodes_to(
    document: MessageDocument,
    from_me: bool,
    secret: Seq<u8>,
    known: KnownPayments,
    message: ThreadMessage,
) -> bool {
    &&& document.msg_data is Some
    &&& encryption::ContentView::decrypted(secret, document.msg_data->0@) == Ok::<
        encryption::ContentView,
        encryption::OrchardPayCryptoError,
    >(message.content@)
    &&& message.document_id == document.id
    &&& message.from_me == from_me
    &&& message.created_at == document.created_at
    &&& message.updated_at == document.updated_at
    &&& message.verified_amount == match message.content {
        MessageContent::Payment { .. } => known.confirmed(document.id),
        MessageContent::PaymentRequest { .. } => known.confirmed(document.id),
        _ => None,
    }
    &&& !message.synthetic
}

/// Whether `document` holds a content that can be read under `secret`.
pub open spec fn decodable(document: MessageDocument, secret: Seq<u8>) -> bool {
    document.msg_data is Some && encryption::ContentView::decrypted(
        secret,
        document.msg_data->0@,
    ) is Ok
}

/// Decrypts one document of a page.
pub fn decode_thread_message(
    document: &MessageDocument,
    from_me: bool,
    shared_secret: &[u8; 32],
    known: &KnownPayments,
) -> (message: Option<ThreadMessage>)
    ensures
        message is Some <==> decodable(*document, shared_secret@),
        message is Some ==> decodes_to(
            *document,
            from_me,
            shared_secret@,
            *known,
            message->0,
        ),
{
    match &document.msg_data {
        None => None,
        Some(bytes) => match MessageContent::decrypt(shared_secret, bytes.as_slice()) {
            Err(_) => None,
            Ok(content) => {
                let verified_amount: Option<u64> = match &content {
                    MessageContent::Payment { .. } => known.find_confirmed(&document.id),
                    MessageContent::PaymentRequest { .. } => known.find_confirmed(&document.id),
                    _ => None,
                };
                Some(
                    ThreadMessage {
                        document_id: document.id,
                        from_me,
                        created_at: document.created_at,
                        updated_at: document.updated_at,
                        content,
                        verified_amount,
                        synthetic: false,
                    },
                )
            },
        },
    }
}

/// `decoded` holds, in order, what the readable ones of `documents` decode to.
pub open spec fn page_decodes_to(
    documents: Seq<MessageDocument>,
    from_me: bool,
    secret: Seq<u8>,
    known: KnownPayments,
    decoded: Seq<ThreadMessage>,
) -> bool
    decreases documents.len(),
{
    if documents.len() == 0 {
        decoded.len() == 0
    } else if decodable(documents.last(), secret) {
        &&& decoded.len() > 0
        &&& decodes_to(documents.last(), from_me, secret, known, decoded.last())
        &&& page_decodes_to(documents.drop_last(), from_me, secret, known, decoded.drop_last())
    } else {
        page_decodes_to(documents.drop_last(), from_me, secret, known, decoded)
    }
}

/// Whether a document of the page cannot be read.
pub open spec fn page_has_failures(documents: Seq<MessageDocument>, secret: Seq<u8>) -> bool {
    exists|i: int| 0 <= i < documents.len() && !decodable(#[trigger] documents[i], secret)
}

/// Decrypts the documents of a page one after the other onto the end of `out`;
/// those that cannot be read are left out, which the result tells.
pub fn decode_page(
    documents: &Vec<MessageDocument>,
    from_me: bool,
    shared_secret: &[u8; 32],
    known: &KnownPayments,
    out: &mut Vec<ThreadMessage>,
) -> (any_decode_failure: bool)
    ensures
        old(out)@.len() <= final(out)@.len(),
        final(out)@.take(old(out)@.len() as int) == old(out)@,
        page_decodes_to(
            documents@,
            from_me,
            shared_secret@,
            *known,
            final(out)@.skip(old(out)@.len() as int),
        ),
        any_decode_failure == page_has_failures(documents@, shared_secret@),
{
    let ghost start = out@;
    let mut any_decode_failure: bool = false;
    let mut i: usize = 0;
    assert(start.take(start.len() as int) =~= start);
    assert(start.skip(start.len() as int) =~= Seq::empty());
    while i < documents.len()
        invariant
            i <= documents@.len(),
            start.len() <= out@.len(),
            out@.take(start.len() as int) == start,
            page_decodes_to(
                documents@.take(i as int),
                from_me,
                shared_secret@,
                *known,
                out@.skip(start.len() as int),
            ),
            any_decode_failure == page_has_failures(documents@.take(i as int), shared_secret@),
        decreases documents@.len() - i,
    {
        let ghost seen = documents@.take(i as int);
        let ghost next = documents@.take(i + 1);
        let ghost before = out@;
        let ghost failed = any_decode_failure;
        proof {
            assert(next.drop_last() =~= seen);
            assert(next.last() == documents@[i as int]);
            assert(forall|j: int| 0 <= j < seen.len() ==> #[trigger] next[j] == seen[j]);
        }
        match decode_thread_message(&documents[i], from_me, shared_secret, known) {
            Some(message) => {
                out.push(message);
                proof {
                    assert(out@.skip(start.len() as int).drop_last() =~= before.skip(
                        start.len() as int,
                    ));
                    assert(out@.take(start.len() as int) =~= start);
                }
            },
            None => {
                any_decode_failure = true;
            },
        }
        proof {
            assert(next[i as int] == documents@[i as int]);
            if failed {
                let j = choose|j: int|
                    0 <= j < seen.len() && !decodable(#[trigger] seen[j], shared_secret@);
                assert(next[j] == seen[j]);
            }
            if page_has_failures(next, shared_secret@) && !failed {
                let j = choose|j: int|
                    0 <= j < next.len() && !decodable(#[trigger] next[j], shared_secret@);
                if j < i {
                    assert(seen[j] == next[j]);
                }
            }
        }
        i = i + 1;
    }
    assert(documents@.take(i as int) =~= documents@);
    any_decode_failure
}

/// The creation time by which a message is placed; without one it comes first.
pub open spec fn message_rank() -> spec_fn(ThreadMessage) -> int {
    |message: ThreadMessage|
        match message.created_at {
            Some(t) => t as int,
            None => 0,
        }
}

/// The messages that are shown, oldest first.
pub open spec fn shown_messages(all: Seq<ThreadMessage>) -> Seq<ThreadMessage> {
    ordering::stable_sorted(
        all.filter(|m: ThreadMessage| !(m.content is PaymentRequestReceipt)),
        ordering::by_rank(message_rank()),
    )
}

/// The receipts, in the order in which they were decoded.
pub open spec fn receipts(all: Seq<ThreadMessage>) -> Seq<ThreadMessage> {
    all.filter(|m: ThreadMessage| m.content is PaymentRequestReceipt)
}

/// The first message with the given document identifier.
pub open spec fn message_with_id(messages: Seq<ThreadMessage>, id: Identifier) -> Option<
    ThreadMessage,
>
    decreases messages.len(),
{
    if messages.len() == 0 {
        None
    } else if messages[0].document_id == id {
        Some(messages[0])
    } else {
        message_with_id(messages.skip(1), id)
    }
}

/// What is wrong with the request that a receipt was saved for, if anything. A
/// request that is not there counts as deleted only once nothing more can be
/// loaded; one that was cancelled is in order.
pub open spec fn receipt_anomaly(
    receipt: MessageContent,
    original: Option<ThreadMessage>,
    fully_loaded: bool,
) -> Option<ReceiptAlertReason> {
    match original {
        None => if fully_loaded {
            Some(ReceiptAlertReason::OriginalDeleted)
        } else {
            None
        },
        Some(message) => match message.content {
            MessageContent::PaymentRequest { amount, memo } => if message.spec_was_updated() {
                None
            } else if amount != receipt->PaymentRequestReceipt_amount || text::optional_view(memo)
                != text::optional_view(receipt->PaymentRequestReceipt_memo) {
                Some(ReceiptAlertReason::OriginalAmountOrMemoMismatch)
            } else {
                None
            },
            _ => Some(ReceiptAlertReason::OriginalChangedKind),
        },
    }
}

/// The alert for one receipt, if there is one.
pub open spec fn alert_for(
    receipt: ThreadMessage,
    messages: Seq<ThreadMessage>,
    fully_loaded: bool,
) -> Option<ReceiptAlert> {
    match receipt.content {
        MessageContent::PaymentRequestReceipt {
            original_document_id,
            amount,
            memo,
            original_created_at,
        } => match receipt_anomaly(
            receipt.content,
            message_with_id(messages, original_document_id),
            fully_loaded,
        ) {
            None => None,
            Some(reason) => Some(
                ReceiptAlert { original_document_id, amount, memo, original_created_at, reason },
            ),
        },
        _ => None,
    }
}

/// The alerts for all receipts, in their order.
pub open spec fn alerts_for(
    receipts: Seq<ThreadMessage>,
    messages: Seq<ThreadMessage>,
    fully_loaded: bool,
) -> Seq<ReceiptAlert>
    decreases receipts.len(),
{
    if receipts.len() == 0 {
        Seq::empty()
    } else {
        let before = alerts_for(receipts.drop_last(), messages, fully_loaded);
        match alert_for(receipts.last(), messages, fully_loaded) {
            None => before,
            Some(alert) => before.push(alert),
        }
    }
}

fn message_not_newer(a: &ThreadMessage, b: &ThreadMessage) -> (r: bool)
    ensures
        r == ordering::by_rank(message_rank())(*a, *b),
{
    let x: u64 = match a.created_at {
        Some(t) => t,
        None => 0,
    };
    let y: u64 = match b.created_at {
        Some(t) => t,
        None => 0,
    };
    x <= y
}

/// The position of the first message with the given identifier.
fn find_message(messages: &Vec<ThreadMessage>, id: &Identifier) -> (i: usize)
    ensures
        i <= messages@.len(),
        message_with_id(messages@, *id) == if i < messages@.len() {
            Some(messages@[i as int])
        } else {
            None
        },
{
    let mut i: usize = 0;
    assert(messages@.skip(0) =~= messages@);
    while i < messages.len() && !same_id(&messages[i].document_id, id)
        invariant
            i <= messages@.len(),
            message_with_id(messages@, *id) == message_with_id(messages@.skip(i as int), *id),
        decreases messages@.len() - i,
    {
        assert(messages@.skip(i as int)[0] == messages@[i as int]);
        assert(messages@.skip(i as int).skip(1) =~= messages@.skip(i + 1));
        i = i + 1;
    }
    if i < messages.len() {
        assert(messages@.skip(i as int)[0] == messages@[i as int]);
    } else {
        assert(messages@.skip(i as int).len() == 0);
    }
    i
}

/// The alert for one receipt, if there is one.
fn check_receipt(
    receipt: &ThreadMessage,
    messages: &Vec<ThreadMessage>,
    fully_loaded: bool,
) -> (alert: Option<ReceiptAlert>)
    ensures
        alert == alert_for(*receipt, messages@, fully_loaded),
{
    match &receipt.content {
        MessageContent::PaymentRequestReceipt {
            original_document_id,
            amount: receipt_amount,
            memo: receipt_memo,
            original_created_at,
        } => {
            let at: usize = find_message(messages, original_document_id);
            let reason: Option<ReceiptAlertReason> = if at < messages.len() {
                let original: &ThreadMessage = &messages[at];
                match &original.content {
                    MessageContent::PaymentRequest { amount, memo } => {
                        if original.was_updated() {
                            None
                        } else if *amount != *receipt_amount || !text::same_optional_text(
                            memo,
                            receipt_memo,
                        ) {
                            Some(ReceiptAlertReason::OriginalAmountOrMemoMismatch)
                        } else {
                            None
                        }
                    },
                    _ => Some(ReceiptAlertReason::OriginalChangedKind),
                }
            } else if fully_loaded {
                Some(ReceiptAlertReason::OriginalDeleted)
            } else {
                None
            };
            match reason {
                None => None,
                Some(reason) => Some(
                    ReceiptAlert {
                        original_document_id: *original_document_id,
                        amount: *receipt_amount,
                        memo: text::copy_optional_text(receipt_memo),
                        original_created_at: *original_created_at,
                        reason,
                    },
                ),
            }
        },
        _ => None,
    }
}

/// Splits what is decoded so far into the messages that are shown and the alerts
/// about receipts whose request no longer matches.
pub fn assemble_thread(all_decoded: &Vec<ThreadMessage>, cursor: &HistoryCursor) -> (r: (
    Vec<ThreadMessage>,
    Vec<ReceiptAlert>,
))
    ensures
        r.0@ == shown_messages(all_decoded@),
        r.1@ == alerts_for(
            receipts(all_decoded@),
            shown_messages(all_decoded@),
            !cursor.spec_has_more(),
        ),
{
    let mut saved: Vec<ThreadMessage> = Vec::new();
    let mut shown: Vec<ThreadMessage> = Vec::new();
    let mut i: usize = 0;
    proof {
        reveal(Seq::filter);
    }
    while i < all_decoded.len()
        invariant
            i <= all_decoded@.len(),
            saved@ == receipts(all_decoded@.take(i as int)),
            shown@ == all_decoded@.take(i as int).filter(
                |m: ThreadMessage| !(m.content is PaymentRequestReceipt),
            ),
        decreases all_decoded@.len() - i,
    {
        proof {
            reveal(Seq::filter);
            assert(all_decoded@.take(i + 1).drop_last() =~= all_decoded@.take(i as int));
        }
        let message: ThreadMessage = all_decoded[i].copy();
        if message.content.is_receipt() {
            saved.push(message);
        } else {
            shown.push(message);
        }
        i = i + 1;
    }
    assert(all_decoded@.take(i as int) =~= all_decoded@);
    let messages: Vec<ThreadMessage> = ordering::stable_sort(
        shown,
        message_not_newer,
        Ghost(ordering::by_rank(message_rank())),
    );
    let fully_loaded: bool = !cursor.has_more();
    let mut alerts: Vec<ReceiptAlert> = Vec::new();
    let mut j: usize = 0;
    while j < saved.len()
        invariant
            j <= saved@.len(),
            alerts@ == alerts_for(saved@.take(j as int), messages@, fully_loaded),
        decreases saved@.len() - j,
    {
        assert(saved@.take(j + 1).drop_last() =~= saved@.take(j as int));
        match check_receipt(&saved[j], &messages, fully_loaded) {
            None => {},
            Some(alert) => alerts.push(alert),
        }
        j = j + 1;
    }
    assert(saved@.take(j as int) =~= saved@);
    (messages, alerts)
}

impl LoadedThread {
    /// The thread shows what it holds: messages and alerts are those of
    /// everything decoded, under the thread's own cursor.
    pub open spec fn is_assembled(self) -> bool {
        &&& self.messages@ == shown_messages(self.all_decoded@)
        &&& self.receipt_alerts@ == alerts_for(
            receipts(self.all_decoded@),
            shown_messages(self.all_decoded@),
            !self.history_cursor.spec_has_more(),
        )
    }
}

/// The newest page of either side, decrypted and assembled.
pub fn load_thread(
    mine_page: &MessagePage,
    their_page: &MessagePage,
    outbound_secret: &[u8; 32],
    inbound_secret: &[u8; 32],
    known: &KnownPayments,
) -> (thread: LoadedThread)
    ensures
        thread.is_assembled(),
        exists|n: int|
            0 <= n <= thread.all_decoded@.len() && #[trigger] page_decodes_to(
                mine_page.documents@,
                true,
                outbound_secret@,
                *known,
                thread.all_decoded@.take(n),
            ) && page_decodes_to(
                their_page.documents@,
                false,
                inbound_secret@,
                *known,
                thread.all_decoded@.skip(n),
            ),
        thread.history_cursor == (HistoryCursor {
            mine_before: mine_page.next_before(),
            their_before: their_page.next_before(),
        }),
        thread.may_be_incomplete == (mine_page.may_be_incomplete || their_page.may_be_incomplete
            || page_has_failures(mine_page.documents@, outbound_secret@) || page_has_failures(
            their_page.documents@,
            inbound_secret@,
        )),
{
    let mut all_decoded: Vec<ThreadMessage> = Vec::new();
    let mine_decode_failed: bool = decode_page(
        &mine_page.documents,
        true,
        outbound_secret,
        known,
        &mut all_decoded,
    );
    let ghost mine = all_decoded@;
    assert(mine.skip(0) =~= mine);
    let their_decode_failed: bool = decode_page(
        &their_page.documents,
        false,
        inbound_secret,
        known,
        &mut all_decoded,
    );
    let history_cursor: HistoryCursor = HistoryCursor {
        mine_before: if mine_page.has_more {
            mine_page.oldest_created_at
        } else {
            None
        },
        their_before: if their_page.has_more {
            their_page.oldest_created_at
        } else {
            None
        },
    };
    let (messages, receipt_alerts) = assemble_thread(&all_decoded, &history_cursor);
    let may_be_incomplete: bool = mine_page.may_be_incomplete || their_page.may_be_incomplete
        || mine_decode_failed || their_decode_failed;
    let thread: LoadedThread = LoadedThread {
        all_decoded,
        messages,
        receipt_alerts,
        history_cursor,
        may_be_incomplete,
    };
    proof {
        let n = mine.len() as int;
        assert(thread.all_decoded@.take(n) =~= mine);
        assert(page_decodes_to(
            their_page.documents@,
            false,
            inbound_secret@,
            *known,
            thread.all_decoded@.skip(n),
        ));
        assert(page_decodes_to(
            mine_page.documents@,
            true,
            outbound_secret@,
            *known,
            thread.all_decoded@.take(n),
        ));
    }
    thread
}

/// Adds the next older page of each side that may have one to what is held, and
/// assembles the whole anew. A side whose cursor is at its end has no page, and
/// stays at its end.
pub fn load_more_history(
    held: Vec<ThreadMessage>,
    history_cursor: HistoryCursor,
    may_be_incomplete: bool,
    mine_page: &Option<MessagePage>,
    their_page: &Option<MessagePage>,
    outbound_secret: &[u8; 32],
    inbound_secret: &[u8; 32],
    known: &KnownPayments,
) -> (thread: LoadedThread)
    requires
        mine_page is Some <==> history_cursor.mine_before is Some,
        their_page is Some <==> history_cursor.their_before is Some,
    ensures
        thread.is_assembled(),
        held@.len() <= thread.all_decoded@.len(),
        thread.all_decoded@.take(held@.len() as int) == held@,
        exists|n: int|
            held@.len() <= n <= thread.all_decoded@.len() && #[trigger] side_adds(
                *mine_page,
                true,
                outbound_secret@,
                *known,
                thread.all_decoded@.subrange(held@.len() as int, n),
            ) && side_adds(
                *their_page,
                false,
                inbound_secret@,
                *known,
                thread.all_decoded@.skip(n),
            ),
        thread.history_cursor == (HistoryCursor {
            mine_before: side_next(*mine_page),
            their_before: side_next(*their_page),
        }),
        thread.may_be_incomplete == (may_be_incomplete || side_incomplete(
            *mine_page,
            outbound_secret@,
        ) || side_incomplete(*their_page, inbound_secret@)),
{
    let ghost start = held@;
    let mut all_decoded: Vec<ThreadMessage> = held;
    let mut incomplete: bool = may_be_incomplete;
    let mut mine_before: Option<u64> = None;
    assert(start.take(start.len() as int) =~= start);
    assert(start.subrange(start.len() as int, start.len() as int) =~= Seq::empty());
    match mine_page {
        None => {},
        Some(page) => {
            let failed: bool = decode_page(
                &page.documents,
                true,
                outbound_secret,
                known,
                &mut all_decoded,
            );
            incomplete = incomplete || page.may_be_incomplete || failed;
            mine_before = if page.has_more {
                page.oldest_created_at
            } else {
                None
            };
        },
    }
    let ghost n = all_decoded@.len() as int;
    let ghost mid = all_decoded@;
    proof {
        assert(mid.subrange(start.len() as int, n) =~= mid.skip(start.len() as int));
        assert(mid.skip(n) =~= Seq::empty());
        assert(side_adds(
            *mine_page,
            true,
            outbound_secret@,
            *known,
            mid.subrange(start.len() as int, n),
        ));
    }
    let mut their_before: Option<u64> = None;
    match their_page {
        None => {},
        Some(page) => {
            let failed: bool = decode_page(
                &page.documents,
                false,
                inbound_secret,
                known,
                &mut all_decoded,
            );
            incomplete = incomplete || page.may_be_incomplete || failed;
            their_before = if page.has_more {
                page.oldest_created_at
            } else {
                None
            };
        },
    }
    proof {
        let all = all_decoded@;
        assert(all.take(n) =~= mid);
        assert(all.take(start.len() as int) =~= mid.take(start.len() as int));
        assert(all.subrange(start.len() as int, n) =~= mid.subrange(start.len() as int, n));
        assert(side_adds(
            *mine_page,
            true,
            outbound_secret@,
            *known,
            all.subrange(start.len() as int, n),
        ));
        assert(side_adds(*their_page, false, inbound_secret@, *known, all.skip(n)));
    }
    let next_cursor: HistoryCursor = HistoryCursor { mine_before, their_before };
    let (messages, receipt_alerts) = assemble_thread(&all_decoded, &next_cursor);
    LoadedThread {
        all_decoded,
        messages,
        receipt_alerts,
        history_cursor: next_cursor,
        may_be_incomplete: incomplete,
    }
}

/// What a side's page, if it has one, adds to what is held.
pub open spec fn side_adds(
    page: Option<MessagePage>,
    from_me: bool,
    secret: Seq<u8>,
    known: KnownPayments,
    added: Seq<ThreadMessage>,
) -> bool {
    match page {
        None => added.len() == 0,
        Some(p) => page_decodes_to(p.documents@, from_me, secret, known, added),
    }
}

/// Where a side goes on after its page.
pub open spec fn side_next(page: Option<MessagePage>) -> Option<u64> {
    match page {
        None => None,
        Some(p) => p.next_before(),
    }
}

/// Whether a side's page may leave documents out.
pub open spec fn side_incomplete(page: Option<MessagePage>, secret: Seq<u8>) -> bool {
    match page {
        None => false,
        Some(p) => p.may_be_incomplete || page_has_failures(p.documents@, secret),
    }
}

/// A thread shows every decoded message but the receipts, each as often as it was
/// decoded, from the oldest to the newest.
pub proof fn thread_shows_all_but_receipts(all: Seq<ThreadMessage>)
    ensures
        shown_messages(all).to_multiset() == all.filter(
            |m: ThreadMessage| !(m.content is PaymentRequestReceipt),
        ).to_multiset(),
        ordering::is_ordered(shown_messages(all), ordering::by_rank(message_rank())),
        forall|i: int|
            0 <= i < shown_messages(all).len() ==> !((#[trigger] shown_messages(all)[i]).content
                is PaymentRequestReceipt),
{
    let kept = |m: ThreadMessage| !(m.content is PaymentRequestReceipt);
    let leq = ordering::by_rank(message_rank());
    let candidates = all.filter(kept);
    let shown = shown_messages(all);
    ordering::stable_sort_keeps_items(candidates, leq);
    ordering::stable_sort_orders(candidates, leq);
    assert forall|i: int| 0 <= i < shown.len() implies !((#[trigger] shown[i]).content
        is PaymentRequestReceipt) by {
        shown.to_multiset_ensures();
        candidates.to_multiset_ensures();
        assert(shown.to_multiset().count(shown[i]) > 0) by {
            assert(shown.contains(shown[i]));
        }
        assert(candidates.contains(shown[i]));
        let j = choose|j: int| 0 <= j < candidates.len() && candidates[j] == shown[i];
        all.lemma_filter_pred(kept, j);
    }
}

/// As long as older messages may be missing, no receipt is reported for a request
/// that was deleted.
pub proof fn no_deletion_is_claimed_early(
    receipts: Seq<ThreadMessage>,
    messages: Seq<ThreadMessage>,
    i: int,
)
    requires
        0 <= i < alerts_for(receipts, messages, false).len(),
    ensures
        alerts_for(receipts, messages, false)[i].reason != ReceiptAlertReason::OriginalDeleted,
    decreases receipts.len(),
{
    let before = alerts_for(receipts.drop_last(), messages, false);
    if i < before.len() {
        no_deletion_is_claimed_early(receipts.drop_last(), messages, i);
    }
}

/// A receipt whose request is in the thread, unchanged or cancelled since, is never
/// reported.
pub proof fn intact_requests_raise_no_alert(
    receipt: ThreadMessage,
    request: ThreadMessage,
    messages: Seq<ThreadMessage>,
    fully_loaded: bool,
)
    requires
        receipt.content is PaymentRequestReceipt,
        request.content is PaymentRequest,
        message_with_id(
            messages,
            receipt.content->PaymentRequestReceipt_original_document_id,
        ) == Some(request),
        request.spec_was_updated() || {
            &&& request.content->PaymentRequest_amount
                == receipt.content->PaymentRequestReceipt_amount
            &&& text::optional_view(request.content->PaymentRequest_memo) == text::optional_view(
                receipt.content->PaymentRequestReceipt_memo,
            )
        },
    ensures
        alert_for(receipt, messages, fully_loaded) is None,
{
}

/// A table has an entry for a document.
pub open spec fn has_entry(table: Seq<(Identifier, u64)>, id: Identifier) -> bool {
    exists|i: int| 0 <= i < table.len() && (#[trigger] table[i]).0 == id
}

/// A table has an entry for a document with this amount.
pub open spec fn has_amount(table: Seq<(Identifier, u64)>, id: Identifier, amount: u64) -> bool {
    exists|i: int| 0 <= i < table.len() && #[trigger] table[i] == (id, amount)
}

/// A table has an amount for a document exactly where it has an entry for it, and the
/// amount is that of such an entry.
proof fn lemma_amount_for(table: Seq<(Identifier, u64)>, id: Identifier)
    ensures
        amount_for(table, id) is Some <==> has_entry(table, id),
        amount_for(table, id) matches Some(amount) ==> has_amount(table, id, amount),
    decreases table.len(),
{
    if table.len() > 0 {
        if table[0].0 == id {
            assert(table[0] == (id, table[0].1));
        } else {
            let rest = table.skip(1);
            lemma_amount_for(rest, id);
            assert forall|i: int| 0 < i < table.len() implies #[trigger] table[i] == rest[i
                - 1] by {}
            if has_entry(rest, id) {
                let j = choose|j: int| 0 <= j < rest.len() && (#[trigger] rest[j]).0 == id;
                assert(table[j + 1].0 == id);
            }
            if let Some(amount) = amount_for(table, id) {
                let j = choose|j: int| 0 <= j < rest.len() && #[trigger] rest[j] == (id, amount);
                assert(table[j + 1] == (id, amount));
            }
        }
    }
}

/// What a wallet has confirmed for a document is what one of its tables holds for it:
/// what was recorded, or else what it sent, or else what it received. Nothing is
/// confirmed only where no table has an entry.
pub proof fn confirmed_amounts_stand_in_a_table(known: KnownPayments, id: Identifier)
    ensures
        known.confirmed(id) is None <==> !has_entry(known.recorded@, id) && !has_entry(
            known.outgoing@,
            id,
        ) && !has_entry(known.incoming@, id),
        known.confirmed(id) matches Some(amount) ==> {
            if has_entry(known.recorded@, id) {
                has_amount(known.recorded@, id, amount)
            } else if has_entry(known.outgoing@, id) {
                has_amount(known.outgoing@, id, amount)
            } else {
                has_amount(known.incoming@, id, amount)
            }
        },
{
    lemma_amount_for(known.recorded@, id);
    lemma_amount_for(known.outgoing@, id);
    lemma_amount_for(known.incoming@, id);
}

/// A document that decodes to a payment or to a request carries the amount that a table
/// of the wallet holds for its identifier; it carries none only where no table has an
/// entry for it. A plain message or a receipt never carries one. Everything else is
/// taken over from the document.
pub proof fn decoded_money_carries_what_is_confirmed(
    document: MessageDocument,
    from_me: bool,
    secret: Seq<u8>,
    known: KnownPayments,
    message: ThreadMessage,
)
    requires
        decodes_to(document, from_me, secret, known, message),
    ensures
        message.content is Payment || message.content is PaymentRequest ==> {
            &&& message.verified_amount is None <==> !has_entry(known.recorded@, document.id)
                && !has_entry(known.outgoing@, document.id) && !has_entry(
                known.incoming@,
                document.id,
            )
            &&& message.verified_amount matches Some(amount) ==> {
                if has_entry(known.recorded@, document.id) {
                    has_amount(known.recorded@, document.id, amount)
                } else if has_entry(known.outgoing@, document.id) {
                    has_amount(known.outgoing@, document.id, amount)
                } else {
                    has_amount(known.incoming@, document.id, amount)
                }
            }
        },
        message.content is Message || message.content is PaymentRequestReceipt
            ==> message.verified_amount is None,
        message.document_id == document.id,
        message.from_me == from_me,
        message.created_at == document.created_at,
        message.updated_at == document.updated_at,
        !message.synthetic,
        document.msg_data matches Some(bytes) && encryption::ContentView::decrypted(secret, bytes@)
            == Ok::<encryption::ContentView, encryption::OrchardPayCryptoError>(message.content@),
{
    confirmed_amounts_stand_in_a_table(known, document.id);
}

/// A page decodes to one message for each document that can be read, in their order,
/// and to nothing else.
pub proof fn pages_decode_one_to_one(
    documents: Seq<MessageDocument>,
    from_me: bool,
    secret: Seq<u8>,
    known: KnownPayments,
    decoded: Seq<ThreadMessage>,
    i: int,
)
    requires
        page_decodes_to(documents, from_me, secret, known, decoded),
    ensures
        ({
            let readable = documents.filter(
                |d: MessageDocument|
                    d.msg_data is Some && encryption::ContentView::decrypted(
                        secret,
                        d.msg_data->0@,
                    ) is Ok,
            );
            &&& decoded.len() == readable.len()
            &&& 0 <= i < decoded.len() ==> decodes_to(
                readable[i],
                from_me,
                secret,
                known,
                decoded[i],
            )
        }),
    decreases documents.len(),
{
    reveal(Seq::filter);
    let p = |d: MessageDocument|
        d.msg_data is Some && encryption::ContentView::decrypted(secret, d.msg_data->0@) is Ok;
    if documents.len() > 0 {
        if decodable(documents.last(), secret) {
            pages_decode_one_to_one(
                documents.drop_last(),
                from_me,
                secret,
                known,
                decoded.drop_last(),
                i,
            );
            assert(p(documents.last()));
        } else {
            pages_decode_one_to_one(
                documents.drop_last(),
                from_me,
                secret,
                known,
                decoded,
                i,
            );
            assert(!p(documents.last()));
        }
    }
}

/// A batch with room left is the end of its side: it is kept as it is, nothing of it can
/// be missing, and nothing older is looked for. A full batch is never the end.
pub proof fn only_full_pages_go_on(page: MessagePage, fetched: Seq<MessageDocument>)
    requires
        page.is_page_of(fetched),
    ensures
        fetched.len() < 100 ==> {
            &&& page.documents@ == fetched
            &&& !page.may_be_incomplete
            &&& page.next_before() is None
        },
        fetched.len() >= 100 ==> {
            &&& page.has_more
            &&& page.documents@.len() > 0
            &&& page.next_before() == page.documents@[page.documents@.len() - 1].created_at
            &&& page.documents@ == fetched.take(page.documents@.len() as int)
        },
{
    if fetched.len() >= 100 && fetched.last().created_at is Some {
        lemma_before_last_run(fetched, fetched.last().created_at->0);
    }
    assert(fetched.take(fetched.len() as int) =~= fetched);
}

/// A full batch may leave something out that is never asked for again exactly where all
/// of it was created at one time.
pub proof fn only_tied_pages_are_incomplete(documents: Seq<MessageDocument>)
    ensures
        !entirely_tied(documents, false),
        entirely_tied(documents, true) <==> documents.len() > 0 && documents[documents.len()
            - 1].created_at is Some && forall|i: int|
            0 <= i < documents.len() ==> (#[trigger] documents[i]).created_at
                == documents[documents.len() - 1].created_at,
{
    if documents.len() > 0 && documents.last().created_at is Some {
        let boundary = documents.last().created_at->0;
        lemma_before_last_run(documents, boundary);
        let kept = before_last_run(documents, boundary) as int;
        if kept > 0 {
            assert(documents[kept - 1].created_at != Some(boundary));
        }
    }
}

/// What is held back of a page is a run of documents at its end that share one time, and
/// what is kept ends with another time.
pub proof fn held_back_documents_share_a_time(documents: Seq<MessageDocument>, i: int)
    requires
        trimmed_page(documents, true).len() <= i < documents.len(),
    ensures
        documents[i].created_at is Some,
        documents[i].created_at == documents[documents.len() - 1].created_at,
        trimmed_page(documents, true).len() > 0,
        trimmed_page(documents, true) == documents.take(
            trimmed_page(documents, true).len() as int,
        ),
        documents[trimmed_page(documents, true).len() - 1].created_at != documents[i].created_at,
{
    let boundary = documents.last().created_at->0;
    lemma_before_last_run(documents, boundary);
}

/// A conversation is read from the oldest message to the newest.
pub proof fn threads_go_from_old_to_new(all: Seq<ThreadMessage>, i: int, j: int)
    requires
        0 <= i < j < shown_messages(all).len(),
        shown_messages(all)[i].created_at is Some,
    ensures
        shown_messages(all)[j].created_at matches Some(t) ==> shown_messages(
            all,
        )[i].created_at->0 <= t,
        shown_messages(all)[j].created_at is None ==> shown_messages(all)[i].created_at == Some(0u64),
{
    let kept = |m: ThreadMessage| !(m.content is PaymentRequestReceipt);
    let leq = ordering::by_rank(message_rank());
    ordering::stable_sort_orders(all.filter(kept), leq);
    assert(leq(shown_messages(all)[i], shown_messages(all)[j]));
}

/// What is found under an identifier has it, and where nothing is found no message has
/// it.
proof fn lemma_message_with_id(messages: Seq<ThreadMessage>, id: Identifier)
    ensures
        message_with_id(messages, id) matches Some(found) ==> found.document_id == id && exists|
            i: int,
        |
            0 <= i < messages.len() && #[trigger] messages[i] == found,
        message_with_id(messages, id) is None ==> forall|i: int|
            0 <= i < messages.len() ==> (#[trigger] messages[i]).document_id != id,
    decreases messages.len(),
{
    if messages.len() > 0 {
        if messages[0].document_id == id {
            assert(messages[0].document_id == id);
        } else {
            lemma_message_with_id(messages.skip(1), id);
            if let Some(found) = message_with_id(messages, id) {
                let i = choose|i: int|
                    0 <= i < messages.skip(1).len() && #[trigger] messages.skip(1)[i] == found;
                assert(messages[i + 1] == found);
            } else {
                assert forall|i: int| 0 <= i < messages.len() implies (
                #[trigger] messages[i]).document_id != id by {
                    if i > 0 {
                        assert(messages.skip(1)[i - 1] == messages[i]);
                    }
                }
            }
        }
    }
}

/// A receipt is reported exactly where its request is gone and nothing more can be
/// loaded, is no request any more, or asks, without having been changed by a
/// cancellation, for another amount or with another memo. The report says which, and
/// carries what the receipt says.
pub proof fn receipts_are_checked(
    receipt: ThreadMessage,
    messages: Seq<ThreadMessage>,
    fully_loaded: bool,
)
    requires
        receipt.content is PaymentRequestReceipt,
        forall|i: int, j: int|
            0 <= i < messages.len() && 0 <= j < messages.len() && (
            #[trigger] messages[i]).document_id == (#[trigger] messages[j]).document_id ==> i == j,
    ensures
        ({
            let id = receipt.content->PaymentRequestReceipt_original_document_id;
            let alert = alert_for(receipt, messages, fully_loaded);
            &&& alert matches Some(a) ==> a.original_document_id == id && a.amount
                == receipt.content->PaymentRequestReceipt_amount && a.memo
                == receipt.content->PaymentRequestReceipt_memo && a.original_created_at
                == receipt.content->PaymentRequestReceipt_original_created_at
            &&& (forall|i: int|
                0 <= i < messages.len() ==> (#[trigger] messages[i]).document_id != id) ==> {
                &&& alert is Some <==> fully_loaded
                &&& alert matches Some(a) ==> a.reason is OriginalDeleted
            }
            &&& forall|i: int|
                0 <= i < messages.len() && (#[trigger] messages[i]).document_id == id ==> {
                    match messages[i].content {
                        MessageContent::PaymentRequest { amount, memo } => {
                            let cancelled = messages[i].updated_at is Some
                                && messages[i].updated_at != messages[i].created_at;
                            let same = amount == receipt.content->PaymentRequestReceipt_amount
                                && text::optional_view(memo) == text::optional_view(
                                receipt.content->PaymentRequestReceipt_memo,
                            );
                            &&& alert is None <==> cancelled || same
                            &&& alert matches Some(a) ==> a.reason is OriginalAmountOrMemoMismatch
                        },
                        _ => alert matches Some(a) && a.reason is OriginalChangedKind,
                    }
                }
        }),
{
    let id = receipt.content->PaymentRequestReceipt_original_document_id;
    lemma_message_with_id(messages, id);
}

/// Each receipt that is to be reported is reported, in the order of the receipts.
pub proof fn reports_follow_the_receipts(
    before: Seq<ThreadMessage>,
    receipt: ThreadMessage,
    messages: Seq<ThreadMessage>,
    fully_loaded: bool,
)
    ensures
        alerts_for(Seq::empty(), messages, fully_loaded).len() == 0,
        alerts_for(before.push(receipt), messages, fully_loaded) == match alert_for(
            receipt,
            messages,
            fully_loaded,
        ) {
            Some(alert) => alerts_for(before, messages, fully_loaded).push(alert),
            None => alerts_for(before, messages, fully_loaded),
        },
{
    assert(before.push(receipt).drop_last() =~= before);
}

/// Nothing that was decoded is lost: it is either shown or kept as a receipt, never both.
pub proof fn nothing_decoded_is_lost(all: Seq<ThreadMessage>, i: int)
    requires
        0 <= i < all.len(),
    ensures
        all[i].content is PaymentRequestReceipt ==> receipts(all).contains(all[i])
            && !shown_messages(all).contains(all[i]),
        !(all[i].content is PaymentRequestReceipt) ==> shown_messages(all).contains(all[i])
            && !receipts(all).contains(all[i]),
{
    let shown = |m: ThreadMessage| !(m.content is PaymentRequestReceipt);
    let saved = |m: ThreadMessage| m.content is PaymentRequestReceipt;
    thread_shows_all_but_receipts(all);
    let candidates = all.filter(shown);
    let listed = shown_messages(all);
    listed.to_multiset_ensures();
    candidates.to_multiset_ensures();
    if saved(all[i]) {
        assert(receipts(all).contains(all[i]));
    } else {
        assert(candidates.contains(all[i]));
        assert(listed.to_multiset().count(all[i]) > 0);
    }
    assert forall|k: int| 0 <= k < receipts(all).len() implies saved(
        #[trigger] receipts(all)[k],
    ) by {
        all.lemma_filter_pred(saved, k);
    }
}

/// A page may leave something out where it says so itself, and where a document of it
/// holds nothing or cannot be read; nowhere else.
pub proof fn unreadable_documents_are_told(page: MessagePage, secret: Seq<u8>)
    ensures
        side_incomplete(Some(page), secret) <==> page.may_be_incomplete || exists|i: int|
            0 <= i < page.documents@.len() && ((#[trigger] page.documents@[i]).msg_data is None
                || encryption::ContentView::decrypted(
                secret,
                page.documents@[i].msg_data->0@,
            ) is Err),
        !side_incomplete(None, secret),
        side_next(None) is None,
        page.has_more ==> side_next(Some(page)) == page.oldest_created_at,
        !page.has_more ==> side_next(Some(page)) is None,
{
    if page_has_failures(page.documents@, secret) {
        let i = choose|i: int|
            0 <= i < page.documents@.len() && !decodable(#[trigger] page.documents@[i], secret);
        assert(page.documents@[i].msg_data is None || encryption::ContentView::decrypted(
            secret,
            page.documents@[i].msg_data->0@,
        ) is Err);
    }
    if exists|i: int|
        0 <= i < page.documents@.len() && ((#[trigger] page.documents@[i]).msg_data is None
            || encryption::ContentView::decrypted(
            secret,
            page.documents@[i].msg_data->0@,
        ) is Err) {
        let i = choose|i: int|
            0 <= i < page.documents@.len() && ((#[trigger] page.documents@[i]).msg_data is None
                || encryption::ContentView::decrypted(
                secret,
                page.documents@[i].msg_data->0@,
            ) is Err);
        assert(!decodable(page.documents@[i], secret));
    }
}

/// A page is asked for by the reference and the owner of its side, a hundred
/// documents at a time, from where the last one ended, or from the present on.
pub proof fn pages_are_asked_for_by_side(
    ref_id: [u8; 32],
    owner: Identifier,
    bound: u64,
    now: u64,
)
    ensures
        page_query(ref_id, owner, Some(bound), now) == (MessageQuery {
            ref_id,
            owner_id: owner,
            created_before: bound,
            limit: 100,
        }),
        page_query(ref_id, owner, None, now) == (MessageQuery {
            ref_id,
            owner_id: owner,
            created_before: now,
            limit: 100,
        }),
{
}

/// A table gives the amount of its first entry for a document, and nothing where it
/// has none.
pub proof fn tables_give_their_first_entry(
    before: Seq<(Identifier, u64)>,
    id: Identifier,
    amount: u64,
    after: Seq<(Identifier, u64)>,
)
    requires
        forall|i: int| 0 <= i < before.len() ==> (#[trigger] before[i]).0 != id,
    ensures
        amount_for(before, id) is None,
        amount_for(before + seq![(id, amount)] + after, id) == Some(amount),
    decreases before.len(),
{
    let all = before + seq![(id, amount)] + after;
    if before.len() > 0 {
        let rest = before.skip(1);
        assert forall|i: int| 0 <= i < rest.len() implies (#[trigger] rest[i]).0 != id by {
            assert(rest[i] == before[i + 1]);
        }
        tables_give_their_first_entry(rest, id, amount, after);
        assert(all[0] == before[0]);
        assert(all.skip(1) =~= rest + seq![(id, amount)] + after);
    } else {
        assert(all[0] == (id, amount));
    }
}

/// A conversation holds more where either side does, and is taken as whole only
/// where neither does: only then is a request that is not there told as deleted.
pub proof fn only_whole_conversations_miss_requests(thread: LoadedThread)
    requires
        thread.is_assembled(),
    ensures
        thread.history_cursor.spec_has_more() <==> thread.history_cursor.mine_before is Some
            || thread.history_cursor.their_before is Some,
        thread.messages@ == shown_messages(thread.all_decoded@),
        thread.receipt_alerts@ == alerts_for(
            receipts(thread.all_decoded@),
            shown_messages(thread.all_decoded@),
            thread.history_cursor.mine_before is None && thread.history_cursor.their_before is None,
        ),
{
}

/// A page knows the oldest time of what it holds: no document of it that has a time
/// has an older one, and one of them has that time; there is none only where no
/// document has one.
pub proof fn pages_know_their_oldest_time(page: MessagePage, fetched: Seq<MessageDocument>, i: int)
    requires
        page.is_page_of(fetched),
        fetched.len() < 100,
        0 <= i < fetched.len(),
    ensures
        fetched[i].created_at matches Some(t) ==> (page.oldest_created_at matches Some(oldest)
            && oldest <= t),
        page.oldest_created_at is Some ==> exists|k: int|
            0 <= k < fetched.len() && (#[trigger] fetched[k]).created_at == page.oldest_created_at,
{
}

/// A side without a page adds nothing, and one with a page what its documents decode
/// to.
pub proof fn sides_add_what_their_page_holds(
    page: MessagePage,
    from_me: bool,
    secret: Seq<u8>,
    known: KnownPayments,
    added: Seq<ThreadMessage>,
)
    ensures
        side_adds(None, from_me, secret, known, added) <==> added.len() == 0,
        side_adds(Some(page), from_me, secret, known, added) <==> page_decodes_to(
            page.documents@,
            from_me,
            secret,
            known,
            added,
        ),
{
}

} // verus!
