//! Contact states, and the shielded-activity rows with their grouping.

use vstd::multiset::Multiset;
use vstd::prelude::*;

use crate::model::text;
use crate::ordering;

verus! {

/// How far the contact with one counterparty has come.
#[derive(Debug, Clone, PartialEq)]
pub enum OrchardPayContactState {
    /// My anchor is published and signalled; their answer is awaited.
    PendingOutbound {
        my_reference_id: [u8; 32],
        my_anchor_document_id: [u8; 32],
        /// The counterparty's name when the request was sent.
        name: Option<String>,
        /// When my anchor was created, in milliseconds.
        created_at: Option<u64>,
    },
    /// Their anchor was found and read, but not accepted yet; there is no anchor
    /// of mine.
    PendingInboundUnaccepted {
        their_reference_id: [u8; 32],
        their_anchor_document_id: [u8; 32],
        /// The counterparty's name when the request was found.
        name: Option<String>,
        /// When their anchor was created, in milliseconds.
        created_at: Option<u64>,
    },
    /// Both anchors are known; neither needs to be fetched again.
    Established {
        my_reference_id: [u8; 32],
        my_anchor_document_id: [u8; 32],
        their_reference_id: [u8; 32],
        /// The counterparty's public keys, so that messages need no lookup.
        counterparty_encryption_pubkey: Vec<u8>,
        counterparty_decryption_pubkey: Vec<u8>,
        name: Option<String>,
        /// When the request that led here was created, in milliseconds.
        created_at: Option<u64>,
    },
}

impl OrchardPayContactState {
    /// The creation time that the state carries.
    pub open spec fn spec_created_at(self) -> Option<u64> {
        match self {
            OrchardPayContactState::PendingOutbound { created_at, .. } => created_at,
            OrchardPayContactState::PendingInboundUnaccepted { created_at, .. } => created_at,
            OrchardPayContactState::Established { created_at, .. } => created_at,
        }
    }

    /// The creation time that the state carries.
    pub fn created_at(&self) -> (at: Option<u64>)
        ensures
            at == self.spec_created_at(),
    {
        match self {
            OrchardPayContactState::PendingOutbound { created_at, .. } => *created_at,
            OrchardPayContactState::PendingInboundUnaccepted { created_at, .. } => *created_at,
            OrchardPayContactState::Established { created_at, .. } => *created_at,
        }
    }

    /// The name that the state carries.
    pub open spec fn spec_name(self) -> Option<String> {
        match self {
            OrchardPayContactState::PendingOutbound { name, .. } => name,
            OrchardPayContactState::PendingInboundUnaccepted { name, .. } => name,
            OrchardPayContactState::Established { name, .. } => name,
        }
    }

    /// The name that the state carries.
    pub fn name(&self) -> (text: Option<String>)
        ensures
            text == self.spec_name(),
    {
        match self {
            OrchardPayContactState::PendingOutbound { name, .. } => text::copy_optional_text(name),
            OrchardPayContactState::PendingInboundUnaccepted { name, .. } =>
                text::copy_optional_text(name),
            OrchardPayContactState::Established { name, .. } => text::copy_optional_text(name),
        }
    }
}

/// The contents of an [`OrchardPayContactState`].
pub ghost enum ContactStateView {
    PendingOutbound {
        my_reference_id: Seq<u8>,
        my_anchor_document_id: Seq<u8>,
        name: Option<Seq<char>>,
        created_at: Option<u64>,
    },
    PendingInboundUnaccepted {
        their_reference_id: Seq<u8>,
        their_anchor_document_id: Seq<u8>,
        name: Option<Seq<char>>,
        created_at: Option<u64>,
    },
    Established {
        my_reference_id: Seq<u8>,
        my_anchor_document_id: Seq<u8>,
        their_reference_id: Seq<u8>,
        counterparty_encryption_pubkey: Seq<u8>,
        counterparty_decryption_pubkey: Seq<u8>,
        name: Option<Seq<char>>,
        created_at: Option<u64>,
    },
}

impl View for OrchardPayContactState {
    type V = ContactStateView;

    open spec fn view(&self) -> ContactStateView {
        match *self {
            OrchardPayContactState::PendingOutbound {
                my_reference_id,
                my_anchor_document_id,
                name,
                created_at,
            } => ContactStateView::PendingOutbound {
                my_reference_id: my_reference_id@,
                my_anchor_document_id: my_anchor_document_id@,
                name: text::optional_view(name),
                created_at,
            },
            OrchardPayContactState::PendingInboundUnaccepted {
                their_reference_id,
                their_anchor_document_id,
                name,
                created_at,
            } => ContactStateView::PendingInboundUnaccepted {
                their_reference_id: their_reference_id@,
                their_anchor_document_id: their_anchor_document_id@,
                name: text::optional_view(name),
                created_at,
            },
            OrchardPayContactState::Established {
                my_reference_id,
                my_anchor_document_id,
                their_reference_id,
                counterparty_encryption_pubkey,
                counterparty_decryption_pubkey,
                name,
                created_at,
            } => ContactStateView::Established {
                my_reference_id: my_reference_id@,
                my_anchor_document_id: my_anchor_document_id@,
                their_reference_id: their_reference_id@,
                counterparty_encryption_pubkey: counterparty_encryption_pubkey@,
                counterparty_decryption_pubkey: counterparty_decryption_pubkey@,
                name: text::optional_view(name),
                created_at,
            },
        }
    }
}

/// The contents of an optional state.
pub open spec fn contact_view(state: Option<OrchardPayContactState>) -> Option<ContactStateView> {
    match state {
        None => None,
        Some(s) => Some(s@),
    }
}

/// A copy of a byte vector.
pub(crate) fn copy_bytes(bytes: &Vec<u8>) -> (copy: Vec<u8>)
    ensures
        copy@ == bytes@,
{
    let mut copy: Vec<u8> = Vec::new();
    let mut i: usize = 0;
    while i < bytes.len()
        invariant
            i <= bytes@.len(),
            copy@ == bytes@.take(i as int),
        decreases bytes@.len() - i,
    {
        copy.push(bytes[i]);
        i = i + 1;
    }
    assert(copy@ =~= bytes@);
    copy
}

impl OrchardPayContactState {
    /// A copy of the state.
    pub fn copy(&self) -> (copy: Self)
        ensures
            copy@ == self@,
    {
        match self {
            OrchardPayContactState::PendingOutbound {
                my_reference_id,
                my_anchor_document_id,
                name,
                created_at,
            } => OrchardPayContactState::PendingOutbound {
                my_reference_id: *my_reference_id,
                my_anchor_document_id: *my_anchor_document_id,
                name: text::copy_optional_text(name),
                created_at: *created_at,
            },
            OrchardPayContactState::PendingInboundUnaccepted {
                their_reference_id,
                their_anchor_document_id,
                name,
                created_at,
            } => OrchardPayContactState::PendingInboundUnaccepted {
                their_reference_id: *their_reference_id,
                their_anchor_document_id: *their_anchor_document_id,
                name: text::copy_optional_text(name),
                created_at: *created_at,
            },
            OrchardPayContactState::Established {
                my_reference_id,
                my_anchor_document_id,
                their_reference_id,
                counterparty_encryption_pubkey,
                counterparty_decryption_pubkey,
                name,
                created_at,
            } => OrchardPayContactState::Established {
                my_reference_id: *my_reference_id,
                my_anchor_document_id: *my_anchor_document_id,
                their_reference_id: *their_reference_id,
                counterparty_encryption_pubkey: copy_bytes(counterparty_encryption_pubkey),
                counterparty_decryption_pubkey: copy_bytes(counterparty_decryption_pubkey),
                name: text::copy_optional_text(name),
                created_at: *created_at,
            },
        }
    }
}

/// How far an interrupted operation had come.
#[derive(Debug, Clone, Copy, PartialEq, Eq, Structural)]
pub enum PendingOperationStep {
    /// Its document was about to be published, or is.
    DocumentPublished,
    /// Its transfer was sent.
    TransferSent,
}

/// An operation that was begun and not finished.
#[derive(Debug, Clone, Copy, PartialEq, Eq)]
pub enum PendingOrchardPayOperation {
    /// A contact anchor with its signal.
    ContactAnchor {
        my_reference_id: [u8; 32],
        my_anchor_document_id: [u8; 32],
        step: PendingOperationStep,
    },
    /// A payment message with its transfer.
    Payment { document_id: [u8; 32], step: PendingOperationStep },
}

/// Which side of a relationship an anchor belongs to.
#[derive(Debug, Clone, Copy, PartialEq, Eq, Structural)]
pub enum AnchorRole {
    Initiator,
    Acceptor,
}

/// A replacement of an anchor's own record that is still to be made.
#[derive(Debug, Clone, Copy, PartialEq, Eq)]
pub struct ScheduledAnchorReplace {
    pub anchor_document_id: [u8; 32],
    pub anchor_created_at: u64,
    pub role: AnchorRole,
}

impl ScheduledAnchorReplace {
    /// At `now`, at least `delay` milliseconds have passed since the anchor was
    /// created.
    pub open spec fn due_at(self, now: u64, delay: u64) -> bool {
        now - self.anchor_created_at >= delay
    }

    /// Whether, at `now`, at least `delay` milliseconds have passed since the
    /// anchor was created.
    pub fn is_due(&self, now: u64, delay: u64) -> (due: bool)
        ensures
            due == self.due_at(now, delay),
    {
        now >= self.anchor_created_at && now - self.anchor_created_at >= delay
    }
}

/// A transfer without a document that was attributed to a contact.
#[derive(Debug, Clone, Copy, PartialEq, Eq, Structural)]
pub struct SilentPaymentRecord {
    pub amount: u64,
    /// When it was sent, in seconds.
    pub timestamp: u32,
    pub from_me: bool,
}

/// What a [`ShieldedActivityRow`] stands for: a received note, still spendable
/// or already consumed, or an outgoing send.
#[derive(Debug, Clone, Copy, PartialEq, Eq, Structural)]
pub enum ShieldedNoteKind {
    /// A note received into this wallet; `spent` once a later transaction of
    /// this wallet has consumed it.
    Received { spent: bool },
    /// A transfer that this wallet sent.
    Sent,
}

/// One note in the shielded transaction history.
#[derive(Debug, Clone, PartialEq)]
pub struct ShieldedActivityRow {
    pub kind: ShieldedNoteKind,
    pub amount_credits: u64,
    /// The decoded memo, in words.
    pub memo_label: String,
    /// Block height at which the operation confirmed, the only chronological
    /// signal there is at this layer.
    pub block_height: Option<u64>,
    /// Whether the row is still unconfirmed.
    pub pending: bool,
}

/// One entry of the spent-notes section: a spent note with the send of the same
/// amount that most likely consumed it, or a leftover of either side.
#[derive(Debug, Clone, PartialEq)]
pub enum SpentEntry {
    /// A spent received note paired with an outgoing send of the same amount.
    Pair { spent: ShieldedActivityRow, sent: ShieldedActivityRow },
    /// A spent received note for which no send of that amount is left.
    SpentOnly(ShieldedActivityRow),
    /// An outgoing send for which no spent note of that amount is left.
    SentOnly(ShieldedActivityRow),
}

/// The rows in two sections, each most recent first.
#[derive(Debug, Clone, PartialEq)]
pub struct ShieldedActivityView {
    /// Received notes that are not spent yet.
    pub unspent: Vec<ShieldedActivityRow>,
    /// The number of notes in `unspent`.
    pub unspent_count: usize,
    /// The sum of `amount_credits` over `unspent`.
    pub unspent_total_credits: u64,
    /// Spent notes and sends, paired off by amount where possible.
    pub spent: Vec<SpentEntry>,
}

impl Default for ShieldedActivityView {
    fn default() -> (view: Self)
        ensures
            view.unspent@ == Seq::<ShieldedActivityRow>::empty(),
            view.unspent_count == 0,
            view.unspent_total_credits == 0,
            view.spent@ == Seq::<SpentEntry>::empty(),
    {
        ShieldedActivityView {
            unspent: Vec::new(),
            unspent_count: 0,
            unspent_total_credits: 0,
            spent: Vec::new(),
        }
    }
}

impl ShieldedNoteKind {
    /// The label of a kind, in words.
    pub open spec fn spec_label(self) -> Seq<char> {
        match self {
            ShieldedNoteKind::Received { spent: false } => "Received"@,
            ShieldedNoteKind::Received { spent: true } => "Received (spent)"@,
            ShieldedNoteKind::Sent => "Sent"@,
        }
    }

    /// Kind and direction in words.
    pub fn label(self) -> (text: &'static str)
        ensures
            text@ == self.spec_label(),
    {
        match self {
            ShieldedNoteKind::Received { spent: false } => "Received",
            ShieldedNoteKind::Received { spent: true } => "Received (spent)",
            ShieldedNoteKind::Sent => "Sent",
        }
    }
}

/// Position of a block height in time; an absent height comes before all others.
pub open spec fn height_rank(height: Option<u64>) -> int {
    match height {
        None => -1,
        Some(h) => h as int,
    }
}

pub open spec fn row_rank() -> spec_fn(ShieldedActivityRow) -> int {
    |row: ShieldedActivityRow| height_rank(row.block_height)
}

pub open spec fn row_amount() -> spec_fn(ShieldedActivityRow) -> int {
    |row: ShieldedActivityRow| row.amount_credits as int
}

/// A pair is as recent as the later of its two rows.
pub open spec fn entry_rank() -> spec_fn(SpentEntry) -> int {
    |entry: SpentEntry|
        match entry {
            SpentEntry::Pair { spent, sent } => {
                let a = height_rank(spent.block_height);
                let b = height_rank(sent.block_height);
                if a >= b {
                    a
                } else {
                    b
                }
            },
            SpentEntry::SpentOnly(row) => height_rank(row.block_height),
            SpentEntry::SentOnly(row) => height_rank(row.block_height),
        }
}

/// The rows of one kind, in their order.
pub open spec fn of_kind(
    rows: Seq<ShieldedActivityRow>,
    kind: ShieldedNoteKind,
) -> Seq<ShieldedActivityRow> {
    rows.filter(|row: ShieldedActivityRow| row.kind == kind)
}

/// The rows of one amount, in their order.
pub open spec fn of_amount(rows: Seq<ShieldedActivityRow>, amount: u64) -> Seq<
    ShieldedActivityRow,
> {
    rows.filter(|row: ShieldedActivityRow| row.amount_credits == amount)
}

/// What becomes of the `i`-th spent note: the n-th spent note of an amount goes
/// with the n-th send of that amount, if there is one.
pub open spec fn spent_entry(
    spent: Seq<ShieldedActivityRow>,
    sent: Seq<ShieldedActivityRow>,
    i: int,
) -> SpentEntry {
    let queue = of_amount(sent, spent[i].amount_credits);
    let n = of_amount(spent.take(i), spent[i].amount_credits).len() as int;
    if n < queue.len() {
        SpentEntry::Pair { spent: spent[i], sent: queue[n] }
    } else {
        SpentEntry::SpentOnly(spent[i])
    }
}

/// The sends that no spent note goes with: those that have at least as many
/// earlier sends of the same amount as there are spent notes of it.
pub open spec fn unpaired_sends(
    spent: Seq<ShieldedActivityRow>,
    sent: Seq<ShieldedActivityRow>,
) -> Seq<ShieldedActivityRow>
    decreases sent.len(),
{
    if sent.len() == 0 {
        sent
    } else {
        let before = sent.drop_last();
        let last = sent.last();
        if of_amount(before, last.amount_credits).len() >= of_amount(
            spent,
            last.amount_credits,
        ).len() {
            unpaired_sends(spent, before).push(last)
        } else {
            unpaired_sends(spent, before)
        }
    }
}

/// The spent notes of `rows`, oldest first.
pub open spec fn spent_notes(rows: Seq<ShieldedActivityRow>) -> Seq<ShieldedActivityRow> {
    ordering::stable_sorted(of_kind(rows, ShieldedNoteKind::Received { spent: true }), ordering::by_rank(row_rank()))
}

/// The sends of `rows`, oldest first.
pub open spec fn sends(rows: Seq<ShieldedActivityRow>) -> Seq<ShieldedActivityRow> {
    ordering::stable_sorted(of_kind(rows, ShieldedNoteKind::Sent), ordering::by_rank(row_rank()))
}

/// One entry per spent note, then the sends left over in ascending amount.
pub open spec fn spent_entries(
    spent: Seq<ShieldedActivityRow>,
    sent: Seq<ShieldedActivityRow>,
) -> Seq<SpentEntry> {
    Seq::new(spent.len(), |i: int| spent_entry(spent, sent, i)) + ordering::stable_sorted(
        unpaired_sends(spent, sent),
        ordering::by_rank(row_amount()),
    ).map_values(|row: ShieldedActivityRow| SpentEntry::SentOnly(row))
}

/// The spent section, most recent first.
pub open spec fn spent_section(rows: Seq<ShieldedActivityRow>) -> Seq<SpentEntry> {
    ordering::stable_sorted(
        spent_entries(spent_notes(rows), sends(rows)),
        ordering::by_rank_descending(entry_rank()),
    )
}

/// The unspent section, most recent first.
pub open spec fn unspent_section(rows: Seq<ShieldedActivityRow>) -> Seq<ShieldedActivityRow> {
    ordering::stable_sorted(
        of_kind(rows, ShieldedNoteKind::Received { spent: false }),
        ordering::by_rank_descending(row_rank()),
    )
}

/// Sum of the amounts.
pub open spec fn total_credits(rows: Seq<ShieldedActivityRow>) -> nat
    decreases rows.len(),
{
    if rows.len() == 0 {
        0
    } else {
        total_credits(rows.drop_last()) + rows.last().amount_credits as nat
    }
}

proof fn lemma_of_amount_push(rows: Seq<ShieldedActivityRow>, row: ShieldedActivityRow, amount: u64)
    ensures
        of_amount(rows.push(row), amount) == if row.amount_credits == amount {
            of_amount(rows, amount).push(row)
        } else {
            of_amount(rows, amount)
        },
{
    reveal(Seq::filter);
    assert(rows.push(row).drop_last() =~= rows);
}

proof fn lemma_no_spent_leaves_all(sent: Seq<ShieldedActivityRow>)
    ensures
        unpaired_sends(Seq::empty(), sent) == sent,
    decreases sent.len(),
{
    reveal(Seq::filter);
    if sent.len() > 0 {
        lemma_no_spent_leaves_all(sent.drop_last());
        assert(sent.drop_last().push(sent.last()) =~= sent);
    }
}

/// The sends of one amount that are left over are the queue of that amount
/// without its first `n`, where `n` counts the spent notes of the amount.
proof fn lemma_unpaired_of_amount(
    spent: Seq<ShieldedActivityRow>,
    sent: Seq<ShieldedActivityRow>,
    amount: u64,
)
    ensures
        ({
            let queue = of_amount(sent, amount);
            let n = of_amount(spent, amount).len() as int;
            of_amount(unpaired_sends(spent, sent), amount) == if n <= queue.len() {
                queue.skip(n)
            } else {
                Seq::empty()
            }
        }),
    decreases sent.len(),
{
    reveal(Seq::filter);
    let n = of_amount(spent, amount).len() as int;
    if sent.len() > 0 {
        let before = sent.drop_last();
        let last = sent.last();
        lemma_unpaired_of_amount(spent, before, amount);
        assert(before.push(last) =~= sent);
        lemma_of_amount_push(before, last, amount);
        lemma_of_amount_push(unpaired_sends(spent, before), last, amount);
        let queue = of_amount(before, amount);
        if last.amount_credits == amount {
            if n <= queue.len() {
                assert(queue.push(last).skip(n) =~= queue.skip(n).push(last));
            } else if n == queue.len() + 1 {
                assert(queue.push(last).skip(n) =~= Seq::<ShieldedActivityRow>::empty());
            }
        }
    } else {
        assert(of_amount(sent, amount).skip(0) =~= of_amount(sent, amount));
    }
}

/// One more spent note takes the first send of its amount off the leftovers.
proof fn lemma_unpaired_push(
    spent: Seq<ShieldedActivityRow>,
    row: ShieldedActivityRow,
    sent: Seq<ShieldedActivityRow>,
    i: int,
)
    requires
        0 <= i <= unpaired_sends(spent, sent).len(),
        forall|j: int|
            0 <= j < i ==> (#[trigger] unpaired_sends(spent, sent)[j]).amount_credits
                != row.amount_credits,
        i < unpaired_sends(spent, sent).len() ==> unpaired_sends(spent, sent)[i].amount_credits
            == row.amount_credits,
    ensures
        unpaired_sends(spent.push(row), sent) == if i < unpaired_sends(spent, sent).len() {
            unpaired_sends(spent, sent).remove(i)
        } else {
            unpaired_sends(spent, sent)
        },
    decreases sent.len(),
{
    let amount = row.amount_credits;
    if sent.len() > 0 {
        let before = sent.drop_last();
        let last = sent.last();
        let left = unpaired_sends(spent, before);
        let whole = unpaired_sends(spent, sent);
        lemma_of_amount_push(spent, row, last.amount_credits);
        lemma_unpaired_of_amount(spent, before, last.amount_credits);
        let queue = of_amount(before, last.amount_credits);
        let n = of_amount(spent, last.amount_credits).len() as int;
        assert(forall|j: int| 0 <= j < left.len() ==> whole[j] == left[j]);
        if i < left.len() {
            lemma_unpaired_push(spent, row, before, i);
            if last.amount_credits == amount {
                // The leftover at `i` is of this amount, so the queue is longer than `n`.
                assert(of_amount(left, amount).len() > 0) by {
                    left.lemma_filter_contains(
                        |r: ShieldedActivityRow| r.amount_credits == amount,
                        i,
                    );
                }
                assert(whole =~= left.push(last));
                assert(whole.remove(i) =~= left.remove(i).push(last));
            } else if n <= queue.len() {
                assert(whole.remove(i) =~= left.remove(i).push(last));
            }
        } else {
            lemma_unpaired_push(spent, row, before, left.len() as int);
            if last.amount_credits == amount {
                assert(of_amount(left, amount).len() == 0) by {
                    let p = |r: ShieldedActivityRow| r.amount_credits == amount;
                    if of_amount(left, amount).len() > 0 {
                        lemma_filter_source(left, p, 0);
                        let k = choose|k: int| 0 <= k < left.len() && p(left[k]);
                        assert(whole[k].amount_credits == amount);
                    }
                }
                if n <= queue.len() {
                    assert(queue.skip(n).len() == 0);
                    assert(whole[left.len() as int] == last);
                    assert(whole.remove(i) =~= left);
                }
            }
        }
    }
}

/// Whatever a filter keeps was there and meets the predicate.
proof fn lemma_filter_source<T>(s: Seq<T>, p: spec_fn(T) -> bool, i: int)
    requires
        0 <= i < s.filter(p).len(),
    ensures
        exists|k: int| 0 <= k < s.len() && #[trigger] s[k] == s.filter(p)[i] && p(s[k]),
    decreases s.len(),
{
    reveal(Seq::filter);
    if s.len() > 0 {
        let before = s.drop_last();
        if i < before.filter(p).len() {
            lemma_filter_source(before, p, i);
            let k = choose|k: int|
                0 <= k < before.len() && #[trigger] before[k] == before.filter(p)[i] && p(before[k]);
            assert(s[k] == s.filter(p)[i]);
        } else {
            assert(s[s.len() - 1] == s.filter(p)[i]);
        }
    }
}

/// Whether height `a` is at most height `b`.
fn height_at_most(a: Option<u64>, b: Option<u64>) -> (r: bool)
    ensures
        r == (height_rank(a) <= height_rank(b)),
{
    match a {
        None => true,
        Some(x) => match b {
            None => false,
            Some(y) => x <= y,
        },
    }
}

/// The height by which an entry is placed.
fn entry_height(entry: &SpentEntry) -> (height: Option<u64>)
    ensures
        height_rank(height) == entry_rank()(*entry),
{
    match entry {
        SpentEntry::Pair { spent, sent } => {
            if height_at_most(spent.block_height, sent.block_height) {
                sent.block_height
            } else {
                spent.block_height
            }
        },
        SpentEntry::SpentOnly(row) => row.block_height,
        SpentEntry::SentOnly(row) => row.block_height,
    }
}

fn row_not_newer(a: &ShieldedActivityRow, b: &ShieldedActivityRow) -> (r: bool)
    ensures
        r == ordering::by_rank(row_rank())(*a, *b),
{
    height_at_most(a.block_height, b.block_height)
}

fn sort_oldest_first(rows: Vec<ShieldedActivityRow>) -> (out: Vec<ShieldedActivityRow>)
    ensures
        out@ == ordering::stable_sorted(rows@, ordering::by_rank(row_rank())),
{
    ordering::stable_sort(rows, row_not_newer, Ghost(ordering::by_rank(row_rank())))
}

fn row_not_older(a: &ShieldedActivityRow, b: &ShieldedActivityRow) -> (r: bool)
    ensures
        r == ordering::by_rank_descending(row_rank())(*a, *b),
{
    height_at_most(b.block_height, a.block_height)
}

fn sort_newest_first(rows: Vec<ShieldedActivityRow>) -> (out: Vec<ShieldedActivityRow>)
    ensures
        out@ == ordering::stable_sorted(rows@, ordering::by_rank_descending(row_rank())),
{
    ordering::stable_sort(rows, row_not_older, Ghost(ordering::by_rank_descending(row_rank())))
}

fn row_not_larger(a: &ShieldedActivityRow, b: &ShieldedActivityRow) -> (r: bool)
    ensures
        r == ordering::by_rank(row_amount())(*a, *b),
{
    a.amount_credits <= b.amount_credits
}

fn sort_by_amount(rows: Vec<ShieldedActivityRow>) -> (out: Vec<ShieldedActivityRow>)
    ensures
        out@ == ordering::stable_sorted(rows@, ordering::by_rank(row_amount())),
{
    ordering::stable_sort(rows, row_not_larger, Ghost(ordering::by_rank(row_amount())))
}

fn entry_not_older(a: &SpentEntry, b: &SpentEntry) -> (r: bool)
    ensures
        r == ordering::by_rank_descending(entry_rank())(*a, *b),
{
    height_at_most(entry_height(b), entry_height(a))
}

fn sort_entries_newest_first(entries: Vec<SpentEntry>) -> (out: Vec<SpentEntry>)
    ensures
        out@ == ordering::stable_sorted(entries@, ordering::by_rank_descending(entry_rank())),
{
    ordering::stable_sort(entries, entry_not_older, Ghost(ordering::by_rank_descending(entry_rank())))
}

/// The position of the first row of the given amount.
fn first_of_amount(rows: &Vec<ShieldedActivityRow>, amount: u64) -> (i: usize)
    ensures
        i <= rows@.len(),
        forall|j: int| 0 <= j < i ==> (#[trigger] rows@[j]).amount_credits != amount,
        i < rows@.len() ==> rows@[i as int].amount_credits == amount,
{
    let mut i: usize = 0;
    while i < rows.len() && rows[i].amount_credits != amount
        invariant
            i <= rows@.len(),
            forall|j: int| 0 <= j < i ==> (#[trigger] rows@[j]).amount_credits != amount,
        decreases rows@.len() - i,
    {
        i = i + 1;
    }
    i
}

/// The first row of an amount is the first that the filter for it keeps.
proof fn lemma_first_of_amount(rows: Seq<ShieldedActivityRow>, amount: u64, i: int)
    requires
        0 <= i <= rows.len(),
        forall|j: int| 0 <= j < i ==> (#[trigger] rows[j]).amount_credits != amount,
        i < rows.len() ==> rows[i].amount_credits == amount,
    ensures
        of_amount(rows, amount).len() > 0 <==> i < rows.len(),
        i < rows.len() ==> of_amount(rows, amount)[0] == rows[i],
    decreases rows.len(),
{
    reveal(Seq::filter);
    if rows.len() > 0 {
        let before = rows.drop_last();
        if i < rows.len() {
            lemma_first_of_amount(before, amount, i);
        } else {
            lemma_first_of_amount(before, amount, i - 1);
        }
    }
}

/// Pairs each spent note with the oldest send of its amount that is left.
fn pair_off(
    spent_received: Vec<ShieldedActivityRow>,
    sent: Vec<ShieldedActivityRow>,
) -> (entries: Vec<SpentEntry>)
    ensures
        entries@ == spent_entries(spent_received@, sent@),
{
    let ghost spent = spent_received@;
    let ghost queue = sent@;
    let mut left: Vec<ShieldedActivityRow> = sent;
    let mut entries: Vec<SpentEntry> = Vec::new();
    proof {
        lemma_no_spent_leaves_all(queue);
        assert(spent.take(0) =~= Seq::empty());
    }
    for spent_row in iter: spent_received
        invariant
            iter.seq() == spent,
            left@ == unpaired_sends(spent.take(iter.index() as int), queue),
            entries@ == Seq::new(iter.index() as nat, |i: int| spent_entry(spent, queue, i)),
    {
        let at: usize = first_of_amount(&left, spent_row.amount_credits);
        proof {
            let i = iter.index() as int;
            let amount = spent_row.amount_credits;
            assert(spent.take(i + 1) =~= spent.take(i).push(spent[i]));
            lemma_unpaired_push(spent.take(i), spent[i], queue, at as int);
            lemma_unpaired_of_amount(spent.take(i), queue, amount);
            lemma_first_of_amount(left@, amount, at as int);
        }
        if at < left.len() {
            let sent_row: ShieldedActivityRow = left.remove(at);
            entries.push(SpentEntry::Pair { spent: spent_row, sent: sent_row });
        } else {
            entries.push(SpentEntry::SpentOnly(spent_row));
        }
    }
    assert(spent.take(spent.len() as int) =~= spent);
    let ghost paired = entries@;
    let rest: Vec<ShieldedActivityRow> = sort_by_amount(left);
    let ghost sorted = rest@;
    for row in iter: rest
        invariant
            iter.seq() == sorted,
            entries@ == paired + sorted.take(iter.index() as int).map_values(
                |row: ShieldedActivityRow| SpentEntry::SentOnly(row),
            ),
    {
        proof {
            let i = iter.index() as int;
            assert(sorted.take(i + 1) =~= sorted.take(i).push(sorted[i]));
        }
        entries.push(SpentEntry::SentOnly(row));
    }
    assert(sorted.take(sorted.len() as int) =~= sorted);
    entries
}

/// Sum of the amounts of `rows`.
fn sum_credits(rows: &Vec<ShieldedActivityRow>) -> (total: u64)
    requires
        total_credits(rows@) <= u64::MAX,
    ensures
        total == total_credits(rows@),
{
    let mut total: u64 = 0;
    let mut i: usize = 0;
    while i < rows.len()
        invariant
            i <= rows@.len(),
            total_credits(rows@) <= u64::MAX,
            total == total_credits(rows@.take(i as int)),
        decreases rows@.len() - i,
    {
        proof {
            lemma_total_monotonic(rows@, i + 1);
            assert(rows@.take(i + 1).drop_last() =~= rows@.take(i as int));
        }
        total = total + rows[i].amount_credits;
        i = i + 1;
    }
    assert(rows@.take(i as int) =~= rows@);
    total
}

proof fn lemma_total_monotonic(rows: Seq<ShieldedActivityRow>, i: int)
    requires
        0 <= i <= rows.len(),
    ensures
        total_credits(rows.take(i)) <= total_credits(rows),
    decreases rows.len(),
{
    if i < rows.len() {
        lemma_total_monotonic(rows.drop_last(), i);
        assert(rows.drop_last().take(i) =~= rows.take(i));
    } else {
        assert(rows.take(i) =~= rows);
    }
}

/// Groups the rows into unspent and spent notes, and pairs spent notes with
/// sends of the same amount, oldest with oldest.
pub fn group_shielded_activity(rows: Vec<ShieldedActivityRow>) -> (view: ShieldedActivityView)
    requires
        total_credits(unspent_section(rows@)) <= u64::MAX,
    ensures
        view.unspent@ == unspent_section(rows@),
        view.unspent_count == unspent_section(rows@).len(),
        view.unspent_total_credits == total_credits(unspent_section(rows@)),
        view.spent@ == spent_section(rows@),
{
    let mut unspent: Vec<ShieldedActivityRow> = Vec::new();
    let mut spent_received: Vec<ShieldedActivityRow> = Vec::new();
    let mut sent: Vec<ShieldedActivityRow> = Vec::new();
    let ghost all = rows@;

    for row in iter: rows
        invariant
            iter.seq() == all,
            unspent@ == of_kind(
                all.take(iter.index() as int),
                ShieldedNoteKind::Received { spent: false },
            ),
            spent_received@ == of_kind(
                all.take(iter.index() as int),
                ShieldedNoteKind::Received { spent: true },
            ),
            sent@ == of_kind(all.take(iter.index() as int), ShieldedNoteKind::Sent),
    {
        proof {
            reveal(Seq::filter);
            let i = iter.index() as int;
            assert(all.take(i + 1).drop_last() =~= all.take(i));
        }
        match row.kind {
            ShieldedNoteKind::Received { spent: false } => unspent.push(row),
            ShieldedNoteKind::Received { spent: true } => spent_received.push(row),
            ShieldedNoteKind::Sent => sent.push(row),
        }
    }
    assert(all.take(all.len() as int) =~= all);
    let spent: Vec<SpentEntry> = sort_entries_newest_first(
        pair_off(sort_oldest_first(spent_received), sort_oldest_first(sent)),
    );
    let unspent: Vec<ShieldedActivityRow> = sort_newest_first(unspent);
    let unspent_count: usize = unspent.len();
    let unspent_total_credits: u64 = sum_credits(&unspent);
    ShieldedActivityView { unspent, unspent_count, unspent_total_credits, spent }
}

/// The rows that an entry holds.
pub open spec fn entry_rows(entry: SpentEntry) -> Multiset<ShieldedActivityRow> {
    match entry {
        SpentEntry::Pair { spent, sent } => Multiset::singleton(spent).insert(sent),
        SpentEntry::SpentOnly(row) => Multiset::singleton(row),
        SpentEntry::SentOnly(row) => Multiset::singleton(row),
    }
}

/// The rows that the entries hold together.
pub open spec fn rows_in(entries: Seq<SpentEntry>) -> Multiset<ShieldedActivityRow>
    decreases entries.len(),
{
    if entries.len() == 0 {
        Multiset::empty()
    } else {
        entry_rows(entries[0]).add(rows_in(entries.skip(1)))
    }
}

proof fn lemma_rows_in_add(a: Seq<SpentEntry>, b: Seq<SpentEntry>)
    ensures
        rows_in(a + b) == rows_in(a).add(rows_in(b)),
    decreases a.len(),
{
    if a.len() == 0 {
        assert(a + b =~= b);
        assert(rows_in(a).add(rows_in(b)) =~= rows_in(b));
    } else {
        lemma_rows_in_add(a.skip(1), b);
        assert((a + b).skip(1) =~= a.skip(1) + b);
        assert(rows_in(a + b) =~= rows_in(a).add(rows_in(b)));
    }
}

proof fn lemma_rows_in_one(entry: SpentEntry)
    ensures
        rows_in(seq![entry]) == entry_rows(entry),
{
    reveal_with_fuel(rows_in, 2);
    assert(seq![entry].skip(1) =~= Seq::<SpentEntry>::empty());
    assert(rows_in(seq![entry]) =~= entry_rows(entry));
}

proof fn lemma_rows_in_insert(
    s: Seq<SpentEntry>,
    x: SpentEntry,
    leq: spec_fn(SpentEntry, SpentEntry) -> bool,
)
    ensures
        rows_in(ordering::insert_ordered(s, x, leq)) == rows_in(s).add(entry_rows(x)),
    decreases s.len(),
{
    if s.len() == 0 || leq(x, s[0]) {
        lemma_rows_in_add(seq![x], s);
        lemma_rows_in_one(x);
        assert(rows_in(ordering::insert_ordered(s, x, leq)) =~= rows_in(s).add(entry_rows(x)));
    } else {
        let tail = ordering::insert_ordered(s.skip(1), x, leq);
        lemma_rows_in_insert(s.skip(1), x, leq);
        lemma_rows_in_add(seq![s[0]], tail);
        lemma_rows_in_one(s[0]);
        assert(rows_in(ordering::insert_ordered(s, x, leq)) =~= rows_in(s).add(entry_rows(x)));
    }
}

proof fn lemma_rows_in_sorted(
    s: Seq<SpentEntry>,
    leq: spec_fn(SpentEntry, SpentEntry) -> bool,
)
    ensures
        rows_in(ordering::stable_sorted(s, leq)) == rows_in(s),
    decreases s.len(),
{
    if s.len() > 0 {
        lemma_rows_in_sorted(s.skip(1), leq);
        lemma_rows_in_insert(ordering::stable_sorted(s.skip(1), leq), s[0], leq);
        assert(rows_in(ordering::stable_sorted(s, leq)) =~= rows_in(s));
    }
}

proof fn lemma_rows_in_sent_only(rows: Seq<ShieldedActivityRow>)
    ensures
        rows_in(rows.map_values(|row: ShieldedActivityRow| SpentEntry::SentOnly(row)))
            == rows.to_multiset(),
    decreases rows.len(),
{
    broadcast use vstd::seq_lib::group_to_multiset_ensures;

    let f = |row: ShieldedActivityRow| SpentEntry::SentOnly(row);
    if rows.len() == 0 {
        assert(rows_in(rows.map_values(f)) =~= rows.to_multiset());
    } else {
        lemma_rows_in_sent_only(rows.skip(1));
        assert(rows.map_values(f).skip(1) =~= rows.skip(1).map_values(f));
        assert(rows =~= seq![rows[0]] + rows.skip(1));
        vstd::seq_lib::lemma_multiset_commutative(seq![rows[0]], rows.skip(1));
        assert(seq![rows[0]] =~= Seq::<ShieldedActivityRow>::empty().push(rows[0]));
        assert(rows_in(rows.map_values(f)) =~= rows.to_multiset());
    }
}

proof fn lemma_first_exists(rows: Seq<ShieldedActivityRow>, amount: u64) -> (i: int)
    ensures
        0 <= i <= rows.len(),
        forall|j: int| 0 <= j < i ==> (#[trigger] rows[j]).amount_credits != amount,
        i < rows.len() ==> rows[i].amount_credits == amount,
    decreases rows.len(),
{
    if rows.len() == 0 {
        0
    } else {
        let before = rows.drop_last();
        let i = lemma_first_exists(before, amount);
        assert(forall|j: int| 0 <= j < before.len() ==> #[trigger] rows[j] == before[j]);
        if i < before.len() || rows.last().amount_credits == amount {
            i
        } else {
            i + 1
        }
    }
}

proof fn lemma_pairing_keeps_rows(
    spent: Seq<ShieldedActivityRow>,
    sent: Seq<ShieldedActivityRow>,
    n: int,
)
    requires
        0 <= n <= spent.len(),
    ensures
        rows_in(Seq::new(n as nat, |i: int| spent_entry(spent, sent, i))).add(
            unpaired_sends(spent.take(n), sent).to_multiset(),
        ) == spent.take(n).to_multiset().add(sent.to_multiset()),
    decreases n,
{
    broadcast use vstd::seq_lib::group_to_multiset_ensures;

    let entries = Seq::new(n as nat, |i: int| spent_entry(spent, sent, i));
    if n == 0 {
        lemma_no_spent_leaves_all(sent);
        assert(spent.take(0) =~= Seq::empty());
        assert(entries =~= Seq::empty());
        assert(rows_in(entries).add(sent.to_multiset()) =~= spent.take(0).to_multiset().add(
            sent.to_multiset(),
        ));
    } else {
        let k = n - 1;
        let before = Seq::new(k as nat, |i: int| spent_entry(spent, sent, i));
        let left = unpaired_sends(spent.take(k), sent);
        let amount = spent[k].amount_credits;
        lemma_pairing_keeps_rows(spent, sent, k);
        let at = lemma_first_exists(left, amount);
        assert(spent.take(n) =~= spent.take(k).push(spent[k]));
        lemma_unpaired_push(spent.take(k), spent[k], sent, at);
        lemma_unpaired_of_amount(spent.take(k), sent, amount);
        lemma_first_of_amount(left, amount, at);
        assert(entries =~= before + seq![spent_entry(spent, sent, k)]);
        lemma_rows_in_add(before, seq![spent_entry(spent, sent, k)]);
        lemma_rows_in_one(spent_entry(spent, sent, k));
        let entry = spent_entry(spent, sent, k);
        let queue = of_amount(sent, amount);
        let paired = of_amount(spent.take(k), amount).len() as int;
        if at < left.len() {
            assert(left.remove(at).to_multiset() =~= left.to_multiset().remove(left[at]));
            assert(left.to_multiset().contains(left[at]));
            assert(left[at] == queue.skip(paired)[0]);
            assert(entry == (SpentEntry::Pair { spent: spent[k], sent: left[at] }));
        } else {
            assert(entry == SpentEntry::SpentOnly(spent[k]));
        }
        assert(rows_in(entries) == rows_in(before).add(entry_rows(entry)));
        assert(spent.take(n).to_multiset() =~= spent.take(k).to_multiset().insert(spent[k]));
        let rest = unpaired_sends(spent.take(n), sent).to_multiset();
        assert(rest.add(entry_rows(entry)) =~= left.to_multiset().insert(spent[k]));
        assert forall|row: ShieldedActivityRow|
            rows_in(entries).add(rest).count(row) == spent.take(n).to_multiset().add(
                sent.to_multiset(),
            ).count(row) by {
            let lhs = rows_in(before).add(left.to_multiset());
            let rhs = spent.take(k).to_multiset().add(sent.to_multiset());
            assert(lhs.count(row) == rhs.count(row));
            assert(rest.add(entry_rows(entry)).count(row) == left.to_multiset().insert(
                spent[k],
            ).count(row));
        }
        assert(rows_in(entries).add(unpaired_sends(spent.take(n), sent).to_multiset())
            =~= spent.take(n).to_multiset().add(sent.to_multiset()));
    }
}

proof fn lemma_kinds_partition(rows: Seq<ShieldedActivityRow>)
    ensures
        of_kind(rows, ShieldedNoteKind::Received { spent: false }).to_multiset().add(
            of_kind(rows, ShieldedNoteKind::Received { spent: true }).to_multiset(),
        ).add(of_kind(rows, ShieldedNoteKind::Sent).to_multiset()) == rows.to_multiset(),
    decreases rows.len(),
{
    broadcast use vstd::seq_lib::group_to_multiset_ensures;

    reveal(Seq::filter);
    let a = of_kind(rows, ShieldedNoteKind::Received { spent: false }).to_multiset();
    let b = of_kind(rows, ShieldedNoteKind::Received { spent: true }).to_multiset();
    let c = of_kind(rows, ShieldedNoteKind::Sent).to_multiset();
    if rows.len() > 0 {
        lemma_kinds_partition(rows.drop_last());
        assert(rows =~= rows.drop_last().push(rows.last()));
        match rows.last().kind {
            ShieldedNoteKind::Received { spent } => {
                if spent {
                    assert(rows.last().kind == ShieldedNoteKind::Received { spent: true });
                } else {
                    assert(rows.last().kind == ShieldedNoteKind::Received { spent: false });
                }
            },
            ShieldedNoteKind::Sent => {},
        }
    }
    assert(a.add(b).add(c) =~= rows.to_multiset());
}

/// Grouping loses no row, invents none and shows none twice: the rows of the
/// two sections together are the rows that came in.
pub proof fn grouping_keeps_every_row(rows: Seq<ShieldedActivityRow>)
    ensures
        unspent_section(rows).to_multiset().add(rows_in(spent_section(rows)))
            == rows.to_multiset(),
{
    let spent = spent_notes(rows);
    let sent = sends(rows);
    let entries = Seq::new(spent.len(), |i: int| spent_entry(spent, sent, i));
    let left = unpaired_sends(spent, sent);
    let leftovers = ordering::stable_sorted(left, ordering::by_rank(row_amount()));
    let f = |row: ShieldedActivityRow| SpentEntry::SentOnly(row);
    lemma_rows_in_sorted(spent_entries(spent, sent), ordering::by_rank_descending(entry_rank()));
    lemma_rows_in_add(entries, leftovers.map_values(f));
    lemma_rows_in_sent_only(leftovers);
    ordering::stable_sort_keeps_items(left, ordering::by_rank(row_amount()));
    lemma_pairing_keeps_rows(spent, sent, spent.len() as int);
    assert(spent.take(spent.len() as int) =~= spent);
    ordering::stable_sort_keeps_items(
        of_kind(rows, ShieldedNoteKind::Received { spent: true }),
        ordering::by_rank(row_rank()),
    );
    ordering::stable_sort_keeps_items(of_kind(rows, ShieldedNoteKind::Sent), ordering::by_rank(row_rank()));
    ordering::stable_sort_keeps_items(
        of_kind(rows, ShieldedNoteKind::Received { spent: false }),
        ordering::by_rank_descending(row_rank()),
    );
    lemma_kinds_partition(rows);
    assert(unspent_section(rows).to_multiset().add(rows_in(spent_section(rows)))
        =~= rows.to_multiset());
}

/// A pair always joins a spent note and a send of one and the same amount.
pub proof fn pairs_share_their_amount(rows: Seq<ShieldedActivityRow>, i: int)
    requires
        0 <= i < spent_section(rows).len(),
    ensures
        spent_section(rows)[i] matches SpentEntry::Pair { spent, sent } ==> {
            &&& spent.amount_credits == sent.amount_credits
            &&& spent.kind == ShieldedNoteKind::Received { spent: true }
            &&& sent.kind == ShieldedNoteKind::Sent
        },
{
    let spent = spent_notes(rows);
    let sent = sends(rows);
    let entries = spent_entries(spent, sent);
    let entry = spent_section(rows)[i];
    broadcast use vstd::seq_lib::group_to_multiset_ensures;

    ordering::stable_sort_keeps_items(entries, ordering::by_rank_descending(entry_rank()));
    assert(spent_section(rows).to_multiset().contains(entry));
    assert(entries.contains(entry));
    let k = choose|k: int| 0 <= k < entries.len() && entries[k] == entry;
    if k < spent.len() {
        let amount = spent[k].amount_credits;
        let n = of_amount(spent.take(k), amount).len() as int;
        let queue = of_amount(sent, amount);
        if n < queue.len() {
            lemma_filter_source(
                sent,
                |row: ShieldedActivityRow| row.amount_credits == amount,
                n,
            );
            let j = choose|j: int|
                0 <= j < sent.len() && #[trigger] sent[j] == queue[n] && sent[j].amount_credits
                    == amount;
            lemma_sorted_keeps_kind(rows, ShieldedNoteKind::Received { spent: true }, k);
            lemma_sorted_keeps_kind(rows, ShieldedNoteKind::Sent, j);
        }
    }
}

proof fn lemma_sorted_keeps_kind(
    rows: Seq<ShieldedActivityRow>,
    kind: ShieldedNoteKind,
    i: int,
)
    requires
        0 <= i < ordering::stable_sorted(of_kind(rows, kind), ordering::by_rank(row_rank())).len(),
    ensures
        ordering::stable_sorted(of_kind(rows, kind), ordering::by_rank(row_rank()))[i].kind == kind,
{
    broadcast use vstd::seq_lib::group_to_multiset_ensures;

    let kept = of_kind(rows, kind);
    let sorted = ordering::stable_sorted(kept, ordering::by_rank(row_rank()));
    ordering::stable_sort_keeps_items(kept, ordering::by_rank(row_rank()));
    assert(sorted.to_multiset().contains(sorted[i]));
    assert(kept.contains(sorted[i]));
    let k = choose|k: int| 0 <= k < kept.len() && kept[k] == sorted[i];
    rows.lemma_filter_pred(|row: ShieldedActivityRow| row.kind == kind, k);
}

/// Rows without a height come before all others, and those with one go by it.
pub proof fn heights_give_the_order_in_time(a: u64, b: u64)
    ensures
        height_rank(None) < height_rank(Some(a)),
        height_rank(Some(a)) < height_rank(Some(b)) <==> a < b,
{
}

proof fn lemma_entry_source(rows: Seq<ShieldedActivityRow>, i: int) -> (k: int)
    requires
        0 <= i < spent_section(rows).len(),
    ensures
        0 <= k < spent_entries(spent_notes(rows), sends(rows)).len(),
        spent_entries(spent_notes(rows), sends(rows))[k] == spent_section(rows)[i],
{
    broadcast use vstd::seq_lib::group_to_multiset_ensures;

    let entries = spent_entries(spent_notes(rows), sends(rows));
    ordering::stable_sort_keeps_items(entries, ordering::by_rank_descending(entry_rank()));
    assert(spent_section(rows).to_multiset().contains(spent_section(rows)[i]));
    assert(entries.contains(spent_section(rows)[i]));
    choose|k: int| 0 <= k < entries.len() && entries[k] == spent_section(rows)[i]
}

proof fn lemma_left_over(spent: Seq<ShieldedActivityRow>, sent: Seq<ShieldedActivityRow>, k: int)
    requires
        spent.len() <= k < spent_entries(spent, sent).len(),
    ensures
        spent_entries(spent, sent)[k] is SentOnly,
        ({
            let row = spent_entries(spent, sent)[k]->SentOnly_0;
            let queue = of_amount(sent, row.amount_credits);
            let n = of_amount(spent, row.amount_credits).len() as int;
            exists|m: int| n <= m < queue.len() && #[trigger] queue[m] == row
        }),
        sent.contains(spent_entries(spent, sent)[k]->SentOnly_0),
{
    broadcast use vstd::seq_lib::group_to_multiset_ensures;

    let left = unpaired_sends(spent, sent);
    let sorted = ordering::stable_sorted(left, ordering::by_rank(row_amount()));
    ordering::stable_sort_keeps_items(left, ordering::by_rank(row_amount()));
    let row = sorted[k - spent.len()];
    assert(spent_entries(spent, sent)[k] == SpentEntry::SentOnly(row));
    assert(sorted.to_multiset().contains(row));
    assert(left.contains(row));
    let amount = row.amount_credits;
    let p = |r: ShieldedActivityRow| r.amount_credits == amount;
    lemma_unpaired_of_amount(spent, sent, amount);
    left.lemma_filter_contains_rev(p, row);
    assert(of_amount(left, amount).contains(row));
    let j = choose|j: int| 0 <= j < of_amount(left, amount).len() && of_amount(left, amount)[j] == row;
    let queue = of_amount(sent, amount);
    let n = of_amount(spent, amount).len() as int;
    assert(queue.skip(n)[j] == queue[n + j]);
    assert(queue[n + j] == row);
    lemma_filter_source(sent, p, n + j);
}

proof fn lemma_amounts_counted(rows: Seq<ShieldedActivityRow>, i: int, j: int)
    requires
        0 <= i < j <= rows.len(),
    ensures
        of_amount(rows.take(i), rows[i].amount_credits).len() < of_amount(
            rows.take(j),
            rows[i].amount_credits,
        ).len(),
    decreases j,
{
    reveal(Seq::filter);
    let amount = rows[i].amount_credits;
    assert(rows.take(j).drop_last() =~= rows.take(j - 1));
    if i < j - 1 {
        lemma_amounts_counted(rows, i, j - 1);
    }
}

proof fn lemma_filter_ordered<T>(s: Seq<T>, p: spec_fn(T) -> bool, leq: spec_fn(T, T) -> bool)
    requires
        ordering::is_ordered(s, leq),
    ensures
        ordering::is_ordered(s.filter(p), leq),
        forall|i: int| 0 <= i < s.filter(p).len() ==> s.contains(#[trigger] s.filter(p)[i]),
    decreases s.len(),
{
    reveal(Seq::filter);
    if s.len() > 0 {
        let before = s.drop_last();
        let last = s.last();
        assert(ordering::is_ordered(before, leq)) by {
            assert forall|i: int, j: int| 0 <= i <= j < before.len() implies leq(
                #[trigger] before[i],
                #[trigger] before[j],
            ) by {
                assert(before[i] == s[i] && before[j] == s[j]);
            }
        }
        lemma_filter_ordered(before, p, leq);
        let kept = before.filter(p);
        assert forall|i: int| 0 <= i < s.filter(p).len() implies s.contains(
            #[trigger] s.filter(p)[i],
        ) by {
            if i < kept.len() {
                assert(s.filter(p)[i] == kept[i]);
                assert(before.contains(kept[i]));
                let k = choose|k: int| 0 <= k < before.len() && before[k] == kept[i];
                assert(s[k] == kept[i]);
            } else {
                assert(s.filter(p)[i] == s[s.len() - 1]);
            }
        }
        assert forall|i: int, j: int| 0 <= i <= j < s.filter(p).len() implies leq(
            #[trigger] s.filter(p)[i],
            #[trigger] s.filter(p)[j],
        ) by {
            if j < kept.len() {
                assert(s.filter(p)[i] == kept[i] && s.filter(p)[j] == kept[j]);
            } else {
                assert(s.filter(p)[j] == s[s.len() - 1]);
                assert(s.contains(s.filter(p)[i]));
                let k = choose|k: int| 0 <= k < s.len() && s[k] == s.filter(p)[i];
                assert(leq(s[k], s[s.len() - 1]));
            }
        }
    }
}

/// The unspent notes are listed whole and alone: exactly the received ones that were
/// not spent, the most recent first.
pub proof fn unspent_notes_are_listed_newest_first(rows: Seq<ShieldedActivityRow>)
    ensures
        unspent_section(rows).to_multiset() == rows.filter(
            |row: ShieldedActivityRow| row.kind == (ShieldedNoteKind::Received { spent: false }),
        ).to_multiset(),
        forall|i: int|
            0 <= i < unspent_section(rows).len() ==> (#[trigger] unspent_section(rows)[i]).kind == (
            ShieldedNoteKind::Received { spent: false }),
        forall|i: int, j: int|
            0 <= i < j < unspent_section(rows).len() ==> height_rank(
                (#[trigger] unspent_section(rows)[i]).block_height,
            ) >= height_rank((#[trigger] unspent_section(rows)[j]).block_height),
{
    broadcast use vstd::seq_lib::group_to_multiset_ensures;

    let kind = ShieldedNoteKind::Received { spent: false };
    let kept = of_kind(rows, kind);
    let section = unspent_section(rows);
    let leq = ordering::by_rank_descending(row_rank());
    ordering::stable_sort_keeps_items(kept, leq);
    ordering::stable_sort_orders(kept, leq);
    assert forall|i: int| 0 <= i < section.len() implies (#[trigger] section[i]).kind == kind by {
        assert(section.to_multiset().contains(section[i]));
        assert(kept.contains(section[i]));
        let k = choose|k: int| 0 <= k < kept.len() && kept[k] == section[i];
        rows.lemma_filter_pred(|row: ShieldedActivityRow| row.kind == kind, k);
    }
    assert forall|i: int, j: int| 0 <= i < j < section.len() implies height_rank(
        (#[trigger] section[i]).block_height,
    ) >= height_rank((#[trigger] section[j]).block_height) by {
        assert(leq(section[i], section[j]));
    }
}

/// The spent section goes from the most recent entry to the oldest, a pair counting
/// as recent as the later of its two rows; what stands alone in it is a spent note
/// or a send.
pub proof fn spent_entries_are_listed_newest_first(rows: Seq<ShieldedActivityRow>, i: int, j: int)
    requires
        0 <= i < j < spent_section(rows).len(),
    ensures
        match (spent_section(rows)[i], spent_section(rows)[j]) {
            (
                SpentEntry::Pair { spent: a, sent: b },
                SpentEntry::Pair { spent: c, sent: d },
            ) => {
                ||| height_rank(a.block_height) >= height_rank(c.block_height) && height_rank(
                    a.block_height,
                ) >= height_rank(d.block_height)
                ||| height_rank(b.block_height) >= height_rank(c.block_height) && height_rank(
                    b.block_height,
                ) >= height_rank(d.block_height)
            },
            (SpentEntry::Pair { spent: a, sent: b }, SpentEntry::SpentOnly(c)) => height_rank(
                a.block_height,
            ) >= height_rank(c.block_height) || height_rank(b.block_height) >= height_rank(
                c.block_height,
            ),
            (SpentEntry::Pair { spent: a, sent: b }, SpentEntry::SentOnly(c)) => height_rank(
                a.block_height,
            ) >= height_rank(c.block_height) || height_rank(b.block_height) >= height_rank(
                c.block_height,
            ),
            (SpentEntry::SpentOnly(c), SpentEntry::Pair { spent: a, sent: b }) => height_rank(
                c.block_height,
            ) >= height_rank(a.block_height) && height_rank(c.block_height) >= height_rank(
                b.block_height,
            ),
            (SpentEntry::SentOnly(c), SpentEntry::Pair { spent: a, sent: b }) => height_rank(
                c.block_height,
            ) >= height_rank(a.block_height) && height_rank(c.block_height) >= height_rank(
                b.block_height,
            ),
            (SpentEntry::SpentOnly(a), SpentEntry::SpentOnly(c)) => height_rank(a.block_height)
                >= height_rank(c.block_height),
            (SpentEntry::SpentOnly(a), SpentEntry::SentOnly(c)) => height_rank(a.block_height)
                >= height_rank(c.block_height),
            (SpentEntry::SentOnly(a), SpentEntry::SpentOnly(c)) => height_rank(a.block_height)
                >= height_rank(c.block_height),
            (SpentEntry::SentOnly(a), SpentEntry::SentOnly(c)) => height_rank(a.block_height)
                >= height_rank(c.block_height),
        },
{
    let leq = ordering::by_rank_descending(entry_rank());
    ordering::stable_sort_orders(spent_entries(spent_notes(rows), sends(rows)), leq);
    assert(leq(spent_section(rows)[i], spent_section(rows)[j]));
}

/// What stands alone in the spent section is a spent note, or a send, as its entry
/// says.
pub proof fn lone_rows_are_of_their_kind(rows: Seq<ShieldedActivityRow>, i: int)
    requires
        0 <= i < spent_section(rows).len(),
    ensures
        spent_section(rows)[i] matches SpentEntry::SpentOnly(row) ==> row.kind == (
        ShieldedNoteKind::Received { spent: true }),
        spent_section(rows)[i] matches SpentEntry::SentOnly(row) ==> row.kind
            == ShieldedNoteKind::Sent,
{
    let spent = spent_notes(rows);
    let sent = sends(rows);
    let k = lemma_entry_source(rows, i);
    if k < spent.len() {
        lemma_sorted_keeps_kind(rows, ShieldedNoteKind::Received { spent: true }, k);
    } else {
        lemma_left_over(spent, sent, k);
        let row = spent_entries(spent, sent)[k]->SentOnly_0;
        let j = choose|j: int| 0 <= j < sent.len() && sent[j] == row;
        lemma_sorted_keeps_kind(rows, ShieldedNoteKind::Sent, j);
    }
}

/// A spent note and a send of the same amount are never both left alone.
pub proof fn what_can_be_paired_is_paired(rows: Seq<ShieldedActivityRow>, i: int, j: int)
    requires
        0 <= i < spent_section(rows).len(),
        0 <= j < spent_section(rows).len(),
    ensures
        spent_section(rows)[i] matches SpentEntry::SpentOnly(a) ==> spent_section(
            rows,
        )[j] matches SpentEntry::SentOnly(b) ==> a.amount_credits != b.amount_credits,
{
    let spent = spent_notes(rows);
    let sent = sends(rows);
    let k = lemma_entry_source(rows, i);
    let m = lemma_entry_source(rows, j);
    if spent_section(rows)[i] is SpentOnly && spent_section(rows)[j] is SentOnly {
        assert(m >= spent.len());
        lemma_left_over(spent, sent, m);
        if k < spent.len() {
            lemma_amounts_counted(spent, k, spent.len() as int);
            assert(spent.take(spent.len() as int) =~= spent);
        } else {
            lemma_left_over(spent, sent, k);
        }
    }
}

/// Notes and sends of one amount are paired in the order of time: of two pairs, the
/// one with the older note has no younger send; and what is left alone is no older
/// than what was paired.
pub proof fn the_oldest_are_paired_first(rows: Seq<ShieldedActivityRow>, i: int, j: int)
    requires
        0 <= i < spent_section(rows).len(),
        0 <= j < spent_section(rows).len(),
    ensures
        spent_section(rows)[i] matches SpentEntry::Pair { spent: a, sent: b } ==> match spent_section(
            rows,
        )[j] {
            SpentEntry::Pair { spent: c, sent: d } => a.amount_credits == c.amount_credits
                && height_rank(a.block_height) < height_rank(c.block_height) ==> height_rank(
                b.block_height,
            ) <= height_rank(d.block_height),
            SpentEntry::SpentOnly(c) => a.amount_credits == c.amount_credits ==> height_rank(
                a.block_height,
            ) <= height_rank(c.block_height),
            SpentEntry::SentOnly(d) => b.amount_credits == d.amount_credits ==> height_rank(
                b.block_height,
            ) <= height_rank(d.block_height),
        },
{
    let spent = spent_notes(rows);
    let sent = sends(rows);
    let leq = ordering::by_rank(row_rank());
    ordering::stable_sort_orders(of_kind(rows, ShieldedNoteKind::Received { spent: true }), leq);
    ordering::stable_sort_orders(of_kind(rows, ShieldedNoteKind::Sent), leq);
    let k = lemma_entry_source(rows, i);
    let m = lemma_entry_source(rows, j);
    if spent_section(rows)[i] is Pair {
        if k >= spent.len() {
            lemma_left_over(spent, sent, k);
        }
        pairs_share_their_amount(rows, i);
        let amount = spent[k].amount_credits;
        let p = |row: ShieldedActivityRow| row.amount_credits == amount;
        let queue = of_amount(sent, amount);
        lemma_filter_ordered(sent, p, leq);
        let n = of_amount(spent.take(k), amount).len() as int;
        match spent_section(rows)[j] {
            SpentEntry::Pair { spent: c, sent: d } => {
                if m >= spent.len() {
                    lemma_left_over(spent, sent, m);
                }
                if spent[k].amount_credits == c.amount_credits && height_rank(
                    spent[k].block_height,
                ) < height_rank(c.block_height) {
                    if m <= k {
                        assert(leq(spent[m], spent[k]));
                    }
                    lemma_amounts_counted(spent, k, m);
                    let o = of_amount(spent.take(m), amount).len() as int;
                    assert(leq(queue[n], queue[o]));
                }
            },
            SpentEntry::SpentOnly(c) => {
                if m >= spent.len() {
                    lemma_left_over(spent, sent, m);
                }
                if spent[k].amount_credits == c.amount_credits {
                    if m < k {
                        lemma_amounts_counted(spent, m, k);
                    }
                    assert(leq(spent[k], spent[m]));
                }
            },
            SpentEntry::SentOnly(d) => {
                assert(m >= spent.len());
                lemma_left_over(spent, sent, m);
                if amount == d.amount_credits {
                    lemma_amounts_counted(spent, k, spent.len() as int);
                    assert(spent.take(spent.len() as int) =~= spent);
                    let o = choose|o: int|
                        of_amount(spent, amount).len() <= o < queue.len() && #[trigger] queue[o]
                            == d;
                    assert(leq(queue[n], queue[o]));
                }
            },
        }
    }
}

/// The total counts every row once, with its amount.
pub proof fn totals_count_every_row(
    before: Seq<ShieldedActivityRow>,
    row: ShieldedActivityRow,
    after: Seq<ShieldedActivityRow>,
)
    ensures
        total_credits(Seq::empty()) == 0,
        total_credits(before + seq![row] + after) == total_credits(before + after)
            + row.amount_credits,
    decreases after.len(),
{
    if after.len() == 0 {
        assert((before + seq![row] + after).drop_last() =~= before);
        assert(before + after =~= before);
    } else {
        assert((before + seq![row] + after).drop_last() =~= before + seq![row]
            + after.drop_last());
        assert((before + after).drop_last() =~= before + after.drop_last());
        totals_count_every_row(before, row, after.drop_last());
    }
}

/// The view of a state tells which state it is and holds all that the state holds.
pub proof fn states_are_what_they_hold(state: OrchardPayContactState)
    ensures
        match state {
            OrchardPayContactState::PendingOutbound {
                my_reference_id,
                my_anchor_document_id,
                name,
                created_at,
            } => {
                &&& state@ matches ContactStateView::PendingOutbound {
                    my_reference_id: a,
                    my_anchor_document_id: b,
                    name: n,
                    created_at: at,
                }
                &&& a == my_reference_id@
                &&& b == my_anchor_document_id@
                &&& at == created_at
                &&& name is Some == n is Some
                &&& name matches Some(t) ==> n == Some(t@)
                &&& state.spec_created_at() == created_at
                &&& state.spec_name() == name
            },
            OrchardPayContactState::PendingInboundUnaccepted {
                their_reference_id,
                their_anchor_document_id,
                name,
                created_at,
            } => {
                &&& state@ matches ContactStateView::PendingInboundUnaccepted {
                    their_reference_id: a,
                    their_anchor_document_id: b,
                    name: n,
                    created_at: at,
                }
                &&& a == their_reference_id@
                &&& b == their_anchor_document_id@
                &&& at == created_at
                &&& name is Some == n is Some
                &&& name matches Some(t) ==> n == Some(t@)
                &&& state.spec_created_at() == created_at
                &&& state.spec_name() == name
            },
            OrchardPayContactState::Established {
                my_reference_id,
                my_anchor_document_id,
                their_reference_id,
                counterparty_encryption_pubkey,
                counterparty_decryption_pubkey,
                name,
                created_at,
            } => {
                &&& state@ matches ContactStateView::Established {
                    my_reference_id: a,
                    my_anchor_document_id: b,
                    their_reference_id: c,
                    counterparty_encryption_pubkey: d,
                    counterparty_decryption_pubkey: e,
                    name: n,
                    created_at: at,
                }
                &&& a == my_reference_id@
                &&& b == my_anchor_document_id@
                &&& c == their_reference_id@
                &&& d == counterparty_encryption_pubkey@
                &&& e == counterparty_decryption_pubkey@
                &&& at == created_at
                &&& name is Some == n is Some
                &&& name matches Some(t) ==> n == Some(t@)
                &&& state.spec_created_at() == created_at
                &&& state.spec_name() == name
            },
        },
{
}

/// A replacement is due from the moment on that lies `delay` after the creation of
/// its anchor, at no earlier one, and stays so.
pub proof fn replacements_become_due_once(
    scheduled: ScheduledAnchorReplace,
    now: u64,
    later: u64,
    delay: u64,
)
    requires
        now <= later,
    ensures
        scheduled.due_at(now, delay) ==> scheduled.due_at(later, delay),
        now == scheduled.anchor_created_at + delay ==> scheduled.due_at(now, delay),
        now < scheduled.anchor_created_at + delay ==> !scheduled.due_at(now, delay),
{
}

/// Notes are told as received or sent, and the spent ones as spent.
pub proof fn notes_are_told_by_their_kind()
    ensures
        (ShieldedNoteKind::Received { spent: false }).spec_label() == "Received"@,
        (ShieldedNoteKind::Received { spent: true }).spec_label() == "Received (spent)"@,
        ShieldedNoteKind::Sent.spec_label() == "Sent"@,
{
}

} // verus!
