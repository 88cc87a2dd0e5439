//! Contact states rebuilt from the anchors that an identity has published, with
//! nothing but the recovery phrase at hand.

use vstd::prelude::*;

use crate::codec;
use crate::model::identifier::{same_id, Identifier};
use crate::model::orchardpay;
use crate::model::orchardpay::{copy_bytes, AnchorRole, OrchardPayContactState};
use crate::orchardpay::contact_anchor;
use crate::orchardpay::anchor_signal::AnchorDocument;
use crate::orchardpay::encryption;
use crate::orchardpay::encryption::AnchorDataRecord;
use crate::orchardpay::keys::Purpose;

verus! {

/// How many of one's own anchors are asked for at a time.
pub const OWN_ANCHOR_PAGE_SIZE: u32 = 100;

/// How many pages of them are asked for at most.
pub const MAX_OWN_ANCHOR_PAGES: u32 = 4;

/// Behind which document the page after `pages` of them starts, if one is asked for.
pub open spec fn page_after(pages: u32, page: Seq<AnchorDocument>) -> Option<Identifier> {
    if pages < MAX_OWN_ANCHOR_PAGES && page.len() >= OWN_ANCHOR_PAGE_SIZE {
        Some(page.last().id)
    } else {
        None
    }
}

/// Whether another page is to be asked for after `pages` of them, and behind which
/// document it starts: not after a page that was not full, which was the last, and
/// not beyond the greatest number of pages.
pub fn next_own_anchor_page(pages: u32, page: &Vec<AnchorDocument>) -> (start_after: Option<
    Identifier,
>)
    ensures
        start_after == page_after(pages, page@),
{
    if pages < MAX_OWN_ANCHOR_PAGES && page.len() >= OWN_ANCHOR_PAGE_SIZE as usize {
        Some(page[page.len() - 1].id)
    } else {
        None
    }
}

/// What came of a recovery.
#[derive(Debug, Clone, Copy, PartialEq, Eq)]
pub struct AnchorRecoverySummary {
    pub anchors_found: usize,
    pub contacts_recovered: usize,
    pub already_tracked: usize,
    pub undecryptable: usize,
}

impl Default for AnchorRecoverySummary {
    fn default() -> (summary: Self)
        ensures
            summary.anchors_found == 0,
            summary.contacts_recovered == 0,
            summary.already_tracked == 0,
            summary.undecryptable == 0,
    {
        AnchorRecoverySummary {
            anchors_found: 0,
            contacts_recovered: 0,
            already_tracked: 0,
            undecryptable: 0,
        }
    }
}

impl AnchorRecoverySummary {
    /// How many anchors were dealt with.
    pub open spec fn counted(self) -> int {
        self.contacts_recovered + self.already_tracked + self.undecryptable
    }
}

/// A counterparty's key that was looked up for a recovery.
#[derive(Debug, Clone, PartialEq)]
pub struct FetchedKey {
    pub counterparty_id: Identifier,
    pub purpose: Purpose,
    pub data: Vec<u8>,
}

/// The key of this purpose that was looked up for a counterparty.
pub open spec fn fetched_for(fetched: Seq<FetchedKey>, id: Seq<u8>, purpose: Purpose) -> Option<
    Seq<u8>,
>
    decreases fetched.len(),
{
    if fetched.len() == 0 {
        None
    } else if fetched[0].counterparty_id@ == id && fetched[0].purpose == purpose {
        Some(fetched[0].data@)
    } else {
        fetched_for(fetched.skip(1), id, purpose)
    }
}

fn find_fetched(fetched: &Vec<FetchedKey>, id: &Identifier, purpose: Purpose) -> (data: Option<
    Vec<u8>,
>)
    ensures
        codec::view_bytes(data) == fetched_for(fetched@, id@, purpose),
{
    let mut i: usize = 0;
    assert(fetched@.skip(0) =~= fetched@);
    while i < fetched.len()
        invariant
            i <= fetched@.len(),
            fetched_for(fetched@, id@, purpose) == fetched_for(
                fetched@.skip(i as int),
                id@,
                purpose,
            ),
        decreases fetched@.len() - i,
    {
        assert(fetched@.skip(i as int)[0] == fetched@[i as int]);
        assert(fetched@.skip(i as int).skip(1) =~= fetched@.skip(i + 1));
        if same_id(&fetched[i].counterparty_id, id) && fetched[i].purpose == purpose {
            return Some(copy_bytes(&fetched[i].data));
        }
        proof {
            if fetched@[i as int].counterparty_id@ == id@ {
                assert(fetched@[i as int].counterparty_id =~= *id);
            }
        }
        i = i + 1;
    }
    None
}

/// The record in an anchor of one's own, if it can be read.
pub open spec fn record_of(document: AnchorDocument, anchor_data_key: Seq<u8>) -> Option<
    encryption::AnchorRecordView,
> {
    match document.anchor_data {
        None => None,
        Some(bytes) => if bytes@.len() == 0 {
            None
        } else {
            match encryption::AnchorRecordView::decrypted(anchor_data_key, bytes@) {
                Ok(record) => Some(record),
                Err(_) => None,
            }
        },
    }
}

/// Contacts by their identifiers, with their states.
pub open spec fn contact_views(contacts: Seq<(Identifier, OrchardPayContactState)>) -> Seq<
    (Seq<u8>, orchardpay::ContactStateView),
> {
    contacts.map_values(|c: (Identifier, OrchardPayContactState)| (c.0@, c.1@))
}

/// Something is recorded for this counterparty.
pub open spec fn is_tracked(
    contacts: Seq<(Seq<u8>, orchardpay::ContactStateView)>,
    id: Seq<u8>,
) -> bool {
    exists|i: int| 0 <= i < contacts.len() && (#[trigger] contacts[i]).0 == id
}

/// What becomes of one anchor.
pub ghost enum RecoveryView {
    Undecryptable,
    AlreadyTracked,
    NeedsKey { counterparty_id: Seq<u8>, purpose: Purpose },
    Recovered { counterparty_id: Seq<u8>, state: orchardpay::ContactStateView },
}

/// What becomes of one anchor, given the contacts there are and the keys that were
/// looked up. An anchor whose reference of the other side is still the stand-in,
/// or missing, is a request without an answer.
pub open spec fn recovery_of(
    owner_id: Identifier,
    document: AnchorDocument,
    anchor_data_key: Seq<u8>,
    fetched: Seq<FetchedKey>,
    contacts: Seq<(Seq<u8>, orchardpay::ContactStateView)>,
) -> RecoveryView {
    match record_of(document, anchor_data_key) {
        None => RecoveryView::Undecryptable,
        Some(record) => {
            let id = record.counterparty_identity_id;
            if is_tracked(contacts, id) {
                RecoveryView::AlreadyTracked
            } else if record.their_reference_id is None || record.their_reference_id
                == Some(owner_id@) {
                RecoveryView::Recovered {
                    counterparty_id: id,
                    state: orchardpay::ContactStateView::PendingOutbound {
                        my_reference_id: record.my_reference_id,
                        my_anchor_document_id: document.id@,
                        name: record.counterparty_name_snapshot,
                        created_at: document.created_at,
                    },
                }
            } else {
                let encryption_key = if record.counterparty_encryption_pubkey is Some {
                    record.counterparty_encryption_pubkey
                } else {
                    fetched_for(fetched, id, Purpose::Encryption)
                };
                let decryption_key = if record.counterparty_decryption_pubkey is Some {
                    record.counterparty_decryption_pubkey
                } else {
                    fetched_for(fetched, id, Purpose::Decryption)
                };
                if encryption_key is None {
                    RecoveryView::NeedsKey { counterparty_id: id, purpose: Purpose::Encryption }
                } else if decryption_key is None {
                    RecoveryView::NeedsKey { counterparty_id: id, purpose: Purpose::Decryption }
                } else {
                    RecoveryView::Recovered {
                        counterparty_id: id,
                        state: orchardpay::ContactStateView::Established {
                            my_reference_id: record.my_reference_id,
                            my_anchor_document_id: document.id@,
                            their_reference_id: record.their_reference_id->0,
                            counterparty_encryption_pubkey: encryption_key->0,
                            counterparty_decryption_pubkey: decryption_key->0,
                            name: record.counterparty_name_snapshot,
                            created_at: document.created_at,
                        },
                    }
                }
            }
        },
    }
}

/// Where a recovery stands: the contacts, and what became of the anchors so far.
pub ghost struct RecoveryProgress {
    pub contacts: Seq<(Seq<u8>, orchardpay::ContactStateView)>,
    pub recovered: int,
    pub already_known: int,
    pub undecryptable: int,
}

/// The progress after one more anchor.
pub open spec fn after_anchor(
    progress: RecoveryProgress,
    owner_id: Identifier,
    document: AnchorDocument,
    anchor_data_key: Seq<u8>,
    fetched: Seq<FetchedKey>,
) -> RecoveryProgress {
    match recovery_of(owner_id, document, anchor_data_key, fetched, progress.contacts) {
        RecoveryView::Undecryptable => RecoveryProgress {
            undecryptable: progress.undecryptable + 1,
            ..progress
        },
        RecoveryView::AlreadyTracked => RecoveryProgress {
            already_known: progress.already_known + 1,
            ..progress
        },
        RecoveryView::NeedsKey { .. } => progress,
        RecoveryView::Recovered { counterparty_id, state } => RecoveryProgress {
            contacts: progress.contacts.push((counterparty_id, state)),
            recovered: progress.recovered + 1,
            ..progress
        },
    }
}

/// The progress after these anchors, in order.
pub open spec fn after_anchors(
    progress: RecoveryProgress,
    owner_id: Identifier,
    documents: Seq<AnchorDocument>,
    anchor_data_key: Seq<u8>,
    fetched: Seq<FetchedKey>,
) -> RecoveryProgress
    decreases documents.len(),
{
    if documents.len() == 0 {
        progress
    } else {
        after_anchor(
            after_anchors(progress, owner_id, documents.drop_last(), anchor_data_key, fetched),
            owner_id,
            documents.last(),
            anchor_data_key,
            fetched,
        )
    }
}

/// Whether a recovery is done, or what it needs to go on.
#[derive(Debug, Clone, Copy, PartialEq, Eq)]
pub enum RecoveryStep {
    Done,
    /// The anchor at this position needs a key that its record does not hold.
    NeedsKey { position: usize, counterparty_id: Identifier, purpose: Purpose },
}

/// The progress that contacts and a summary stand for.
pub open spec fn progress_of(
    contacts: Seq<(Identifier, OrchardPayContactState)>,
    summary: AnchorRecoverySummary,
) -> RecoveryProgress {
    RecoveryProgress {
        contacts: contact_views(contacts),
        recovered: summary.contacts_recovered as int,
        already_known: summary.already_tracked as int,
        undecryptable: summary.undecryptable as int,
    }
}

fn has_contact(contacts: &Vec<(Identifier, OrchardPayContactState)>, id: &Identifier) -> (r: bool)
    ensures
        r == is_tracked(contact_views(contacts@), id@),
{
    let mut i: usize = 0;
    let ghost views = contact_views(contacts@);
    while i < contacts.len()
        invariant
            i <= contacts@.len(),
            views == contact_views(contacts@),
            forall|j: int| 0 <= j < i ==> (#[trigger] views[j]).0 != id@,
        decreases contacts@.len() - i,
    {
        if same_id(&contacts[i].0, id) {
            assert(views[i as int].0 == id@);
            return true;
        }
        proof {
            if views[i as int].0 == id@ {
                assert(contacts@[i as int].0 =~= *id);
            }
        }
        i = i + 1;
    }
    false
}

/// The record in an anchor of one's own, if it can be read.
pub fn read_own_record(document: &AnchorDocument, anchor_data_key: &[u8; 32]) -> (record: Option<
    AnchorDataRecord,
>)
    ensures
        match record {
            Some(r) => record_of(*document, anchor_data_key@) == Some(r@),
            None => record_of(*document, anchor_data_key@) is None,
        },
{
    match &document.anchor_data {
        None => None,
        Some(bytes) => if bytes.len() == 0 {
            None
        } else {
            match AnchorDataRecord::decrypt(anchor_data_key, bytes.as_slice()) {
                Ok(record) => Some(record),
                Err(_) => None,
            }
        },
    }
}

/// What becomes of one anchor.
enum Recovery {
    Undecryptable,
    AlreadyTracked,
    NeedsKey { counterparty_id: Identifier, purpose: Purpose },
    Recovered { counterparty_id: Identifier, state: OrchardPayContactState },
}

impl View for Recovery {
    type V = RecoveryView;

    closed spec fn view(&self) -> RecoveryView {
        match *self {
            Recovery::Undecryptable => RecoveryView::Undecryptable,
            Recovery::AlreadyTracked => RecoveryView::AlreadyTracked,
            Recovery::NeedsKey { counterparty_id, purpose } => RecoveryView::NeedsKey {
                counterparty_id: counterparty_id@,
                purpose,
            },
            Recovery::Recovered { counterparty_id, state } => RecoveryView::Recovered {
                counterparty_id: counterparty_id@,
                state: state@,
            },
        }
    }
}

fn recover_anchor(
    owner_id: &Identifier,
    document: &AnchorDocument,
    anchor_data_key: &[u8; 32],
    fetched: &Vec<FetchedKey>,
    contacts: &Vec<(Identifier, OrchardPayContactState)>,
) -> (recovery: Recovery)
    ensures
        recovery@ == recovery_of(
            *owner_id,
            *document,
            anchor_data_key@,
            fetched@,
            contact_views(contacts@),
        ),
{
    let record: AnchorDataRecord = match read_own_record(document, anchor_data_key) {
        None => {
            return Recovery::Undecryptable;
        },
        Some(record) => record,
    };
    let id: Identifier = record.counterparty_identity_id;
    if has_contact(contacts, &id) {
        return Recovery::AlreadyTracked;
    }
    let answered: Option<[u8; 32]> = match record.their_reference_id {
        None => None,
        Some(reference) => if same_id(&reference, owner_id) {
            None
        } else {
            Some(reference)
        },
    };
    proof {
        if record.their_reference_id is Some && record.their_reference_id->0@ == owner_id@ {
            assert(record.their_reference_id->0 =~= *owner_id);
        }
    }
    match answered {
        None => Recovery::Recovered {
            counterparty_id: id,
            state: OrchardPayContactState::PendingOutbound {
                my_reference_id: record.my_reference_id,
                my_anchor_document_id: document.id,
                name: record.counterparty_name_snapshot,
                created_at: document.created_at,
            },
        },
        Some(their_reference_id) => {
            let encryption_key: Option<Vec<u8>> = match record.counterparty_encryption_pubkey {
                Some(bytes) => Some(bytes),
                None => find_fetched(fetched, &id, Purpose::Encryption),
            };
            let decryption_key: Option<Vec<u8>> = match record.counterparty_decryption_pubkey {
                Some(bytes) => Some(bytes),
                None => find_fetched(fetched, &id, Purpose::Decryption),
            };
            match encryption_key {
                None => Recovery::NeedsKey { counterparty_id: id, purpose: Purpose::Encryption },
                Some(encryption_pubkey) => match decryption_key {
                    None => Recovery::NeedsKey {
                        counterparty_id: id,
                        purpose: Purpose::Decryption,
                    },
                    Some(decryption_pubkey) => Recovery::Recovered {
                        counterparty_id: id,
                        state: OrchardPayContactState::Established {
                            my_reference_id: record.my_reference_id,
                            my_anchor_document_id: document.id,
                            their_reference_id,
                            counterparty_encryption_pubkey: encryption_pubkey,
                            counterparty_decryption_pubkey: decryption_pubkey,
                            name: record.counterparty_name_snapshot,
                            created_at: document.created_at,
                        },
                    },
                },
            }
        },
    }
}

/// Deals with the anchors from position `from` on: adds a contact for each whose
/// counterparty is not recorded yet, and counts what became of each. It stops at
/// an anchor that needs a counterparty's key which was not looked up yet; with
/// that key among `fetched` it goes on from there.
pub fn recover_own_anchors(
    owner_id: &Identifier,
    documents: &Vec<AnchorDocument>,
    from: usize,
    anchor_data_key: &[u8; 32],
    fetched: &Vec<FetchedKey>,
    contacts: &mut Vec<(Identifier, OrchardPayContactState)>,
    summary: &mut AnchorRecoverySummary,
) -> (step: RecoveryStep)
    requires
        from <= documents@.len(),
        old(summary).counted() == from,
    ensures
        final(summary).anchors_found == documents@.len(),
        match step {
            RecoveryStep::Done => {
                &&& final(summary).counted() == documents@.len()
                &&& progress_of(final(contacts)@, *final(summary)) == after_anchors(
                    progress_of(old(contacts)@, *old(summary)),
                    *owner_id,
                    documents@.skip(from as int),
                    anchor_data_key@,
                    fetched@,
                )
            },
            RecoveryStep::NeedsKey { position, counterparty_id, purpose } => {
                &&& from <= position < documents@.len()
                &&& final(summary).counted() == position
                &&& progress_of(final(contacts)@, *final(summary)) == after_anchors(
                    progress_of(old(contacts)@, *old(summary)),
                    *owner_id,
                    documents@.subrange(from as int, position as int),
                    anchor_data_key@,
                    fetched@,
                )
                &&& recovery_of(
                    *owner_id,
                    documents@[position as int],
                    anchor_data_key@,
                    fetched@,
                    contact_views(final(contacts)@),
                ) == (RecoveryView::NeedsKey { counterparty_id: counterparty_id@, purpose })
            },
        },
        // what was recorded before is still there
        contact_views(final(contacts)@).take(old(contacts)@.len() as int) == contact_views(
            old(contacts)@,
        ),
{
    summary.anchors_found = documents.len();
    let ghost start = progress_of(old(contacts)@, *old(summary));
    let ghost kept = contact_views(old(contacts)@);
    let mut i: usize = from;
    assert(documents@.subrange(from as int, from as int) =~= Seq::empty());
    while i < documents.len()
        invariant
            from <= i <= documents@.len(),
            start == progress_of(old(contacts)@, *old(summary)),
            kept == contact_views(old(contacts)@),
            summary.counted() == i,
            summary.anchors_found == documents@.len(),
            progress_of(contacts@, *summary) == after_anchors(
                start,
                *owner_id,
                documents@.subrange(from as int, i as int),
                anchor_data_key@,
                fetched@,
            ),
            kept.len() <= contacts@.len(),
            contact_views(contacts@).take(kept.len() as int) == kept,
        decreases documents@.len() - i,
    {
        let ghost done = documents@.subrange(from as int, i as int);
        let ghost more = documents@.subrange(from as int, i + 1);
        let ghost views = contact_views(contacts@);
        proof {
            assert(more.drop_last() =~= done);
            assert(more.last() == documents@[i as int]);
        }
        match recover_anchor(owner_id, &documents[i], anchor_data_key, fetched, contacts) {
            Recovery::Undecryptable => {
                summary.undecryptable = summary.undecryptable + 1;
            },
            Recovery::AlreadyTracked => {
                summary.already_tracked = summary.already_tracked + 1;
            },
            Recovery::NeedsKey { counterparty_id, purpose } => {
                return RecoveryStep::NeedsKey { position: i, counterparty_id, purpose };
            },
            Recovery::Recovered { counterparty_id, state } => {
                let ghost entry = (counterparty_id@, state@);
                contacts.push((counterparty_id, state));
                assert(contact_views(contacts@) =~= views.push(entry));
                assert(views.push(entry).take(kept.len() as int) =~= views.take(kept.len() as int));
                summary.contacts_recovered = summary.contacts_recovered + 1;
            },
        }
        i = i + 1;
    }
    assert(documents@.subrange(from as int, i as int) =~= documents@.skip(from as int));
    RecoveryStep::Done
}

/// From an anchor as it was published, recovery rebuilds the state that the publishing
/// attempt had left, for the side that asked and for the one that answered, dated by
/// the anchor itself: when the request was created that was answered, an anchor does
/// not tell. For the side that asked that is the very state.
pub proof fn recovery_rebuilds_what_was_published(
    request: contact_anchor::ContactRequest,
    progress: contact_anchor::AnchorProgress,
    document: AnchorDocument,
    anchor_data_key: Seq<u8>,
    fetched: Seq<FetchedKey>,
    contacts: Seq<(Seq<u8>, orchardpay::ContactStateView)>,
    encryption_pubkey: Seq<u8>,
    decryption_pubkey: Seq<u8>,
)
    requires
        record_of(document, anchor_data_key) == Some(
            contact_anchor::own_record(
                request,
                progress.my_reference_id,
                encryption_pubkey,
                decryption_pubkey,
            ),
        ),
        document.id == progress.my_anchor_document_id,
        document.created_at == progress.created_at,
        request.role == AnchorRole::Initiator ==> request.their_reference_id == request.owner_id,
        request.role == AnchorRole::Acceptor ==> request.their_reference_id@ != request.owner_id@,
        !is_tracked(contacts, request.counterparty_id@),
    ensures
        recovery_of(request.owner_id, document, anchor_data_key, fetched, contacts) == (
        RecoveryView::Recovered {
            counterparty_id: request.counterparty_id@,
            state: contact_anchor::finished_state(
                (contact_anchor::ContactRequest {
                    pending_created_at: document.created_at,
                    ..request
                }),
                progress,
                encryption_pubkey,
                decryption_pubkey,
            ),
        }),
        request.role == AnchorRole::Initiator ==> recovery_of(
            request.owner_id,
            document,
            anchor_data_key,
            fetched,
            contacts,
        ) == (RecoveryView::Recovered {
            counterparty_id: request.counterparty_id@,
            state: contact_anchor::finished_state(
                request,
                progress,
                encryption_pubkey,
                decryption_pubkey,
            ),
        }),
{
}

/// Recovery only fills gaps: what was recorded of a counterparty stays as it was.
pub proof fn recovery_never_overwrites(
    progress: RecoveryProgress,
    owner_id: Identifier,
    documents: Seq<AnchorDocument>,
    anchor_data_key: Seq<u8>,
    fetched: Seq<FetchedKey>,
)
    ensures
        ({
            let after = after_anchors(progress, owner_id, documents, anchor_data_key, fetched);
            &&& progress.contacts.len() <= after.contacts.len()
            &&& after.contacts.take(progress.contacts.len() as int) == progress.contacts
        }),
    decreases documents.len(),
{
    let after = after_anchors(progress, owner_id, documents, anchor_data_key, fetched);
    if documents.len() > 0 {
        recovery_never_overwrites(
            progress,
            owner_id,
            documents.drop_last(),
            anchor_data_key,
            fetched,
        );
    }
    assert(after.contacts.take(progress.contacts.len() as int) =~= progress.contacts);
}

/// No counterparty comes to be recorded twice, however many anchors name it.
pub proof fn recovery_records_nobody_twice(
    progress: RecoveryProgress,
    owner_id: Identifier,
    documents: Seq<AnchorDocument>,
    anchor_data_key: Seq<u8>,
    fetched: Seq<FetchedKey>,
)
    requires
        forall|i: int, j: int|
            0 <= i < j < progress.contacts.len() ==> (#[trigger] progress.contacts[i]).0 != (
            #[trigger] progress.contacts[j]).0,
    ensures
        ({
            let after = after_anchors(progress, owner_id, documents, anchor_data_key, fetched);
            forall|i: int, j: int|
                0 <= i < j < after.contacts.len() ==> (#[trigger] after.contacts[i]).0 != (
                #[trigger] after.contacts[j]).0
        }),
    decreases documents.len(),
{
    if documents.len() > 0 {
        recovery_records_nobody_twice(
            progress,
            owner_id,
            documents.drop_last(),
            anchor_data_key,
            fetched,
        );
        let earlier = after_anchors(
            progress,
            owner_id,
            documents.drop_last(),
            anchor_data_key,
            fetched,
        ).contacts;
        let after = after_anchors(progress, owner_id, documents, anchor_data_key, fetched).contacts;
        assert forall|i: int, j: int| 0 <= i < j < after.len() implies (#[trigger] after[i]).0 != (
        #[trigger] after[j]).0 by {
            assert(after[i] == earlier[i]);
            if j < earlier.len() {
                assert(after[j] == earlier[j]);
            } else {
                assert(!is_tracked(earlier, after[j].0));
            }
        }
    }
}

/// Anchors are asked for page by page: behind the last one of a full page, four pages at
/// most. A page that is not full was the last one.
pub proof fn full_pages_go_on(pages: u32, page: Seq<AnchorDocument>)
    ensures
        page_after(pages, page) is Some <==> pages < 4 && page.len() >= 100,
        page_after(pages, page) matches Some(id) ==> id == page[page.len() - 1].id,
{
}

/// A key that was looked up is used for the counterparty and the purpose that it was looked
/// up for, and for no other.
pub proof fn fetched_keys_stay_with_their_owner(
    fetched: Seq<FetchedKey>,
    id: Seq<u8>,
    purpose: Purpose,
)
    ensures
        fetched_for(fetched, id, purpose) is Some <==> exists|i: int|
            0 <= i < fetched.len() && (#[trigger] fetched[i]).counterparty_id@ == id
                && fetched[i].purpose == purpose,
        fetched_for(fetched, id, purpose) matches Some(data) ==> exists|i: int|
            0 <= i < fetched.len() && (#[trigger] fetched[i]).counterparty_id@ == id
                && fetched[i].purpose == purpose && fetched[i].data@ == data,
    decreases fetched.len(),
{
    if fetched.len() > 0 {
        let rest = fetched.skip(1);
        assert forall|i: int| 0 <= i < rest.len() implies #[trigger] rest[i] == fetched[i + 1] by {}
        if fetched[0].counterparty_id@ == id && fetched[0].purpose == purpose {
            assert(fetched[0].data@ == fetched_for(fetched, id, purpose)->0);
        } else {
            fetched_keys_stay_with_their_owner(rest, id, purpose);
            if exists|i: int|
                0 <= i < fetched.len() && (#[trigger] fetched[i]).counterparty_id@ == id
                    && fetched[i].purpose == purpose {
                let i = choose|i: int|
                    0 <= i < fetched.len() && (#[trigger] fetched[i]).counterparty_id@ == id
                        && fetched[i].purpose == purpose;
                assert(rest[i - 1] == fetched[i]);
            }
            if let Some(data) = fetched_for(fetched, id, purpose) {
                let i = choose|i: int|
                    0 <= i < rest.len() && (#[trigger] rest[i]).counterparty_id@ == id
                        && rest[i].purpose == purpose && rest[i].data@ == data;
                assert(fetched[i + 1].data@ == data);
            }
        }
    }
}

/// What cannot be read with the wallet's key is counted as such, and a counterparty that is
/// recorded is left alone, whatever the anchor says.
pub proof fn recovery_leaves_alone_what_it_should(
    owner_id: Identifier,
    document: AnchorDocument,
    anchor_data_key: Seq<u8>,
    fetched: Seq<FetchedKey>,
    contacts: Seq<(Seq<u8>, orchardpay::ContactStateView)>,
)
    ensures
        ({
            let outcome = recovery_of(owner_id, document, anchor_data_key, fetched, contacts);
            let readable = document.anchor_data is Some && document.anchor_data->0@.len() > 0
                && encryption::AnchorRecordView::decrypted(
                anchor_data_key,
                document.anchor_data->0@,
            ) is Ok;
            let record = encryption::AnchorRecordView::decrypted(
                anchor_data_key,
                document.anchor_data->0@,
            )->Ok_0;
            let recorded = exists|i: int|
                0 <= i < contacts.len() && (#[trigger] contacts[i]).0
                    == record.counterparty_identity_id;
            &&& outcome is Undecryptable <==> !readable
            &&& outcome is AlreadyTracked <==> readable && recorded
        }),
{
}

/// From a record that can be read, of a counterparty that is not recorded, the contact is
/// rebuilt. Where the other side's reference is missing or still one's own identifier, that
/// is a request without an answer; otherwise a connection, with the keys of the record or,
/// where it holds none, with those that were looked up. Only a key that is not to be had in
/// either way is asked for.
pub proof fn records_are_rebuilt(
    owner_id: Identifier,
    document: AnchorDocument,
    anchor_data_key: Seq<u8>,
    fetched: Seq<FetchedKey>,
    contacts: Seq<(Seq<u8>, orchardpay::ContactStateView)>,
    record: encryption::AnchorRecordView,
)
    requires
        document.anchor_data is Some,
        document.anchor_data->0@.len() > 0,
        encryption::AnchorRecordView::decrypted(anchor_data_key, document.anchor_data->0@) == Ok::<
            encryption::AnchorRecordView,
            encryption::OrchardPayCryptoError,
        >(record),
        forall|i: int|
            0 <= i < contacts.len() ==> (#[trigger] contacts[i]).0
                != record.counterparty_identity_id,
    ensures
        ({
            let outcome = recovery_of(owner_id, document, anchor_data_key, fetched, contacts);
            let id = record.counterparty_identity_id;
            let answered = record.their_reference_id is Some && record.their_reference_id->0
                != owner_id@;
            let encryption_known = record.counterparty_encryption_pubkey is Some || fetched_for(
                fetched,
                id,
                Purpose::Encryption,
            ) is Some;
            let decryption_known = record.counterparty_decryption_pubkey is Some || fetched_for(
                fetched,
                id,
                Purpose::Decryption,
            ) is Some;
            &&& !answered ==> outcome == (RecoveryView::Recovered {
                counterparty_id: id,
                state: orchardpay::ContactStateView::PendingOutbound {
                    my_reference_id: record.my_reference_id,
                    my_anchor_document_id: document.id@,
                    name: record.counterparty_name_snapshot,
                    created_at: document.created_at,
                },
            })
            &&& answered && !encryption_known ==> outcome == (RecoveryView::NeedsKey {
                counterparty_id: id,
                purpose: Purpose::Encryption,
            })
            &&& answered && encryption_known && !decryption_known ==> outcome == (
            RecoveryView::NeedsKey { counterparty_id: id, purpose: Purpose::Decryption })
            &&& answered && encryption_known && decryption_known ==> {
                &&& outcome matches RecoveryView::Recovered { counterparty_id, state }
                &&& counterparty_id == id
                &&& state matches orchardpay::ContactStateView::Established {
                    my_reference_id,
                    my_anchor_document_id,
                    their_reference_id,
                    counterparty_encryption_pubkey,
                    counterparty_decryption_pubkey,
                    name,
                    created_at,
                }
                &&& my_reference_id == record.my_reference_id
                &&& my_anchor_document_id == document.id@
                &&& Some(their_reference_id) == record.their_reference_id
                &&& name == record.counterparty_name_snapshot
                &&& created_at == document.created_at
                &&& record.counterparty_encryption_pubkey matches Some(key) ==> key
                    == counterparty_encryption_pubkey
                &&& record.counterparty_decryption_pubkey matches Some(key) ==> key
                    == counterparty_decryption_pubkey
                &&& record.counterparty_encryption_pubkey is None ==> fetched_for(
                    fetched,
                    id,
                    Purpose::Encryption,
                ) == Some(counterparty_encryption_pubkey)
                &&& record.counterparty_decryption_pubkey is None ==> fetched_for(
                    fetched,
                    id,
                    Purpose::Decryption,
                ) == Some(counterparty_decryption_pubkey)
            }
        }),
{
}

/// Every anchor that is dealt with is counted once, as what became of it; a contact that is
/// recovered is added behind those there are.
pub proof fn each_anchor_counts_once(
    progress: RecoveryProgress,
    owner_id: Identifier,
    documents: Seq<AnchorDocument>,
    document: AnchorDocument,
    anchor_data_key: Seq<u8>,
    fetched: Seq<FetchedKey>,
)
    ensures
        ({
            let before = after_anchors(progress, owner_id, documents, anchor_data_key, fetched);
            let after = after_anchors(
                progress,
                owner_id,
                documents.push(document),
                anchor_data_key,
                fetched,
            );
            let outcome = recovery_of(
                owner_id,
                document,
                anchor_data_key,
                fetched,
                before.contacts,
            );
            &&& after_anchors(progress, owner_id, Seq::empty(), anchor_data_key, fetched)
                == progress
            &&& after.recovered == before.recovered + (if outcome is Recovered {
                1int
            } else {
                0
            })
            &&& after.already_known == before.already_known + (if outcome is AlreadyTracked {
                1int
            } else {
                0
            })
            &&& after.undecryptable == before.undecryptable + (if outcome is Undecryptable {
                1int
            } else {
                0
            })
            &&& after.contacts == (match outcome {
                RecoveryView::Recovered { counterparty_id, state } => before.contacts.push(
                    (counterparty_id, state),
                ),
                _ => before.contacts,
            })
        }),
{
    assert(documents.push(document).drop_last() =~= documents);
}

} // verus!
