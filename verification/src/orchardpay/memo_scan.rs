//! What the signals in incoming memos lead to.
//!
//! One pass of the scan is a state, [`ScanPass`], that takes in what happened and
//! tells what to do next. Signals that failed are seen again by holding the
//! cursor back, up to a number of attempts.

use vstd::prelude::*;

use crate::model::identifier::Identifier;
use crate::model::orchardpay::SilentPaymentRecord;
use crate::orchardpay::encryption;
use crate::orchardpay::encryption::{compute_opp2_mac, derive_opp2_mac_key, opp2_memo_fingerprint};

verus! {

/// A signal found in an incoming memo.
#[derive(Debug, Clone, Copy, PartialEq, Eq)]
pub enum IncomingMemoSignal {
    /// A contact anchor.
    Anchor(Identifier),
    /// A payment that refers to a document.
    Payment { referenced_document_id: Identifier, received_amount_credits: u64 },
    /// A payment without a document.
    SilentPayment { timestamp: u32, mac: [u8; 28], received_amount_credits: u64 },
}

/// Whether any of the signals found is a silent payment, for which the keys of
/// all contacts are needed.
pub fn has_silent_payment_signal(found: &Vec<(u64, IncomingMemoSignal)>) -> (r: bool)
    ensures
        r == exists|i: int| 0 <= i < found@.len() && (#[trigger] found@[i]).1 is SilentPayment,
{
    let mut i: usize = 0;
    while i < found.len()
        invariant
            i <= found@.len(),
            forall|j: int| 0 <= j < i ==> !((#[trigger] found@[j]).1 is SilentPayment),
        decreases found@.len() - i,
    {
        if let IncomingMemoSignal::SilentPayment { .. } = found[i].1 {
            assert(found@[i as int].1 is SilentPayment);
            return true;
        }
        i = i + 1;
    }
    false
}

/// An established contact that a silent payment can come from.
#[derive(Debug, Clone, Copy, PartialEq, Eq)]
pub struct SilentPaymentCandidate {
    pub owner_id: Identifier,
    pub counterparty_id: Identifier,
    /// The key that authenticates silent payments between the two.
    pub mac_key: [u8; 32],
}

/// `candidates` holds, in order, the contacts whose shared secret is known.
pub open spec fn are_candidates(
    contacts: Seq<(Identifier, Identifier, Option<[u8; 32]>)>,
    candidates: Seq<SilentPaymentCandidate>,
) -> bool
    decreases contacts.len(),
{
    if contacts.len() == 0 {
        candidates.len() == 0
    } else {
        let (owner_id, counterparty_id, secret) = contacts.last();
        match secret {
            None => are_candidates(contacts.drop_last(), candidates),
            Some(s) => {
                &&& candidates.len() > 0
                &&& candidates.last().owner_id == owner_id
                &&& candidates.last().counterparty_id == counterparty_id
                &&& candidates.last().mac_key@ == encryption::opp2_mac_key(s@)
                &&& are_candidates(contacts.drop_last(), candidates.drop_last())
            },
        }
    }
}

/// The candidates among established contacts: one for each of them whose shared
/// secret could be computed.
pub fn build_silent_payment_candidates(
    contacts: &Vec<(Identifier, Identifier, Option<[u8; 32]>)>,
) -> (candidates: Vec<SilentPaymentCandidate>)
    ensures
        are_candidates(contacts@, candidates@),
{
    let mut candidates: Vec<SilentPaymentCandidate> = Vec::new();
    let mut i: usize = 0;
    while i < contacts.len()
        invariant
            i <= contacts@.len(),
            are_candidates(contacts@.take(i as int), candidates@),
        decreases contacts@.len() - i,
    {
        assert(contacts@.take(i + 1).drop_last() =~= contacts@.take(i as int));
        let ghost before = candidates@;
        if let Some(secret) = contacts[i].2 {
            candidates.push(
                SilentPaymentCandidate {
                    owner_id: contacts[i].0,
                    counterparty_id: contacts[i].1,
                    mac_key: derive_opp2_mac_key(&secret),
                },
            );
            assert(candidates@.drop_last() =~= before);
        }
        i = i + 1;
    }
    assert(contacts@.take(i as int) =~= contacts@);
    candidates
}

/// The memo was authenticated with this candidate's key.
pub open spec fn candidate_matches(
    candidate: SilentPaymentCandidate,
    timestamp: u32,
    mac: Seq<u8>,
) -> bool {
    encryption::opp2_mac(candidate.mac_key@, timestamp) == mac
}

/// The candidates that a memo was authenticated by, in order.
pub open spec fn matching(
    candidates: Seq<SilentPaymentCandidate>,
    timestamp: u32,
    mac: Seq<u8>,
) -> Seq<SilentPaymentCandidate> {
    candidates.filter(|c: SilentPaymentCandidate| candidate_matches(c, timestamp, mac))
}

fn same_mac(a: &[u8; 28], b: &[u8; 28]) -> (r: bool)
    ensures
        r == (a@ == b@),
{
    let mut i: usize = 0;
    while i < 28
        invariant
            i <= 28,
            forall|j: int| 0 <= j < i ==> #[trigger] a@[j] == b@[j],
        decreases 28 - i,
    {
        if a[i] != b[i] {
            return false;
        }
        i = i + 1;
    }
    assert(a@ =~= b@);
    true
}

/// The candidates that a memo was authenticated by, in order.
pub fn matching_candidates(
    candidates: &Vec<SilentPaymentCandidate>,
    timestamp: u32,
    mac: &[u8; 28],
) -> (matches: Vec<SilentPaymentCandidate>)
    ensures
        matches@ == matching(candidates@, timestamp, mac@),
{
    let mut matches: Vec<SilentPaymentCandidate> = Vec::new();
    let mut i: usize = 0;
    proof {
        reveal(Seq::filter);
    }
    while i < candidates.len()
        invariant
            i <= candidates@.len(),
            matches@ == matching(candidates@.take(i as int), timestamp, mac@),
        decreases candidates@.len() - i,
    {
        proof {
            reveal(Seq::filter);
            assert(candidates@.take(i + 1).drop_last() =~= candidates@.take(i as int));
        }
        if same_mac(&compute_opp2_mac(&candidates[i].mac_key, timestamp), mac) {
            matches.push(candidates[i]);
        }
        i = i + 1;
    }
    assert(candidates@.take(i as int) =~= candidates@);
    matches
}

/// A silent payment that was attributed to a contact.
#[derive(Debug, Clone, PartialEq)]
pub struct AttributedPayment {
    pub owner_id: Identifier,
    pub counterparty_id: Identifier,
    /// By what the payment is known on either side.
    pub fingerprint: String,
    pub record: SilentPaymentRecord,
}

/// `payment` says which contact a silent payment came from, if exactly one can have
/// sent it.
pub open spec fn is_attribution(
    payment: Option<AttributedPayment>,
    candidates: Seq<SilentPaymentCandidate>,
    timestamp: u32,
    mac: Seq<u8>,
    received_amount_credits: u64,
    shown_timestamp: u32,
) -> bool {
    match payment {
        Some(p) => {
            &&& matching(candidates, timestamp, mac).len() == 1
            &&& p.owner_id == matching(candidates, timestamp, mac)[0].owner_id
            &&& p.counterparty_id == matching(candidates, timestamp, mac)[0].counterparty_id
            &&& p.fingerprint@ == encryption::opp2_fingerprint(timestamp, mac)
            &&& p.record == (SilentPaymentRecord {
                amount: received_amount_credits,
                timestamp: shown_timestamp,
                from_me: false,
            })
        },
        None => matching(candidates, timestamp, mac).len() != 1,
    }
}

/// The contact a silent payment came from, if exactly one can have sent it. With
/// none it is foreign; with more than one it is left alone, not guessed at.
/// `shown_timestamp` is the time under which it is recorded.
pub fn attribute_silent_payment(
    candidates: &Vec<SilentPaymentCandidate>,
    timestamp: u32,
    mac: &[u8; 28],
    received_amount_credits: u64,
    shown_timestamp: u32,
) -> (payment: Option<AttributedPayment>)
    ensures
        is_attribution(
            payment,
            candidates@,
            timestamp,
            mac@,
            received_amount_credits,
            shown_timestamp,
        ),
{
    let matches: Vec<SilentPaymentCandidate> = matching_candidates(candidates, timestamp, mac);
    if matches.len() != 1 {
        return None;
    }
    Some(
        AttributedPayment {
            owner_id: matches[0].owner_id,
            counterparty_id: matches[0].counterparty_id,
            fingerprint: opp2_memo_fingerprint(timestamp, mac),
            record: SilentPaymentRecord {
                amount: received_amount_credits,
                timestamp: shown_timestamp,
                from_me: false,
            },
        },
    )
}

/// A silent payment reaches the contact that shares its sender's secret, unless
/// the memo fits another contact's key as well.
pub proof fn silent_payment_finds_its_contact(
    candidates: Seq<SilentPaymentCandidate>,
    secret: Seq<u8>,
    timestamp: u32,
    i: int,
)
    requires
        0 <= i < candidates.len(),
        candidates[i].mac_key@ == encryption::opp2_mac_key(secret),
        forall|j: int|
            0 <= j < candidates.len() && j != i ==> !candidate_matches(
                #[trigger] candidates[j],
                timestamp,
                encryption::opp2_mac(encryption::opp2_mac_key(secret), timestamp),
            ),
    ensures
        matching(
            candidates,
            timestamp,
            encryption::opp2_mac(encryption::opp2_mac_key(secret), timestamp),
        ) == seq![candidates[i]],
    decreases candidates.len(),
{
    reveal(Seq::filter);
    let mac = encryption::opp2_mac(encryption::opp2_mac_key(secret), timestamp);
    let rest = candidates.drop_last();
    if i == candidates.len() - 1 {
        lemma_none_match(rest, timestamp, mac);
        assert(matching(candidates, timestamp, mac) =~= seq![candidates[i]]);
    } else {
        silent_payment_finds_its_contact(rest, secret, timestamp, i);
        assert(!candidate_matches(candidates[candidates.len() - 1], timestamp, mac));
    }
}

proof fn lemma_none_match(candidates: Seq<SilentPaymentCandidate>, timestamp: u32, mac: Seq<u8>)
    requires
        forall|j: int|
            0 <= j < candidates.len() ==> !candidate_matches(
                #[trigger] candidates[j],
                timestamp,
                mac,
            ),
    ensures
        matching(candidates, timestamp, mac) == Seq::<SilentPaymentCandidate>::empty(),
    decreases candidates.len(),
{
    reveal(Seq::filter);
    if candidates.len() > 0 {
        lemma_none_match(candidates.drop_last(), timestamp, mac);
    }
}

/// What came of trying an anchor's signal against one identity.
#[derive(Debug, Clone, Copy, PartialEq, Eq, Structural)]
pub enum TrialOutcome {
    Claimed,
    NotMine,
    Failed,
}

/// What came of trying an anchor's signal against all identities: whether one of
/// them claimed it, and whether a trial failed.
pub fn try_anchor_against_identities(outcomes: &Vec<TrialOutcome>) -> (r: (bool, bool))
    ensures
        r.0 == outcomes@.contains(TrialOutcome::Claimed),
        r.1 == outcomes@.contains(TrialOutcome::Failed),
{
    let mut applied: bool = false;
    let mut had_error: bool = false;
    let mut i: usize = 0;
    while i < outcomes.len()
        invariant
            i <= outcomes@.len(),
            applied == exists|j: int| 0 <= j < i && #[trigger] outcomes@[j] == TrialOutcome::Claimed,
            had_error == exists|j: int|
                0 <= j < i && #[trigger] outcomes@[j] == TrialOutcome::Failed,
        decreases outcomes@.len() - i,
    {
        match outcomes[i] {
            TrialOutcome::Claimed => {
                assert(outcomes@[i as int] == TrialOutcome::Claimed);
                applied = true;
            },
            TrialOutcome::NotMine => {},
            TrialOutcome::Failed => {
                assert(outcomes@[i as int] == TrialOutcome::Failed);
                had_error = true;
            },
        }
        i = i + 1;
    }
    (applied, had_error)
}

/// What happened during a pass.
#[derive(Debug, Clone, Copy, PartialEq, Eq)]
pub enum ScanEvent {
    /// An anchor left over from an earlier pass was tried again.
    UnresolvedTried { applied: bool },
    /// An anchor's signal was tried.
    AnchorTried { note_index: u64, applied: bool, had_error: bool },
    /// The amount of an incoming payment was stored, or could not be.
    PaymentRecorded { note_index: u64, stored: bool },
    /// A silent payment was looked at; `stored` if it was attributed and stored.
    SilentPaymentSeen { note_index: u64, stored: bool },
    /// The attempts at a failing note were counted.
    AttemptCounted { note_index: u64, attempts: u32 },
}

/// What to do on account of an event.
#[derive(Debug, Clone, Copy, PartialEq, Eq, Structural)]
pub enum ScanAction {
    /// Take the anchor off the list of those left over.
    ClearUnresolved,
    /// Leave things as they are.
    Nothing,
    /// Forget the attempts at this note.
    ClearRetryCount,
    /// Count this attempt, and report the count.
    CountAttempt,
    /// Put the anchor on the list of those left over.
    RecordUnresolved,
}

/// How far a pass has come.
#[derive(Debug, Clone, Copy, PartialEq, Eq)]
pub struct ScanPass {
    pub anything_changed: bool,
    pub anchor_signals_seen: usize,
    pub anchor_signals_claimed: usize,
    /// The first note that is to be looked at again.
    pub retry_from: Option<u64>,
}

/// The lesser of the position noted so far and another.
pub open spec fn earliest(retry_from: Option<u64>, note_index: u64) -> Option<u64> {
    match retry_from {
        None => Some(note_index),
        Some(r) => if r <= note_index {
            Some(r)
        } else {
            Some(note_index)
        },
    }
}

impl ScanPass {
    /// A pass in which nothing has happened.
    pub open spec fn is_new(self) -> bool {
        &&& !self.anything_changed
        &&& self.anchor_signals_seen == 0
        &&& self.anchor_signals_claimed == 0
        &&& self.retry_from is None
    }

    /// No more signals were claimed than seen.
    pub open spec fn well_formed(self) -> bool {
        self.anchor_signals_claimed <= self.anchor_signals_seen
    }

    /// A pass in which nothing has happened.
    pub fn new() -> (pass: Self)
        ensures
            pass.is_new(),
            pass.well_formed(),
    {
        ScanPass {
            anything_changed: false,
            anchor_signals_seen: 0,
            anchor_signals_claimed: 0,
            retry_from: None,
        }
    }

    /// The pass after an event.
    pub open spec fn after(self, event: ScanEvent, retry_cap: u32) -> ScanPass {
        match event {
            ScanEvent::UnresolvedTried { applied } => ScanPass {
                anything_changed: self.anything_changed || applied,
                anchor_signals_seen: (self.anchor_signals_seen + 1) as usize,
                anchor_signals_claimed: if applied {
                    (self.anchor_signals_claimed + 1) as usize
                } else {
                    self.anchor_signals_claimed
                },
                ..self
            },
            ScanEvent::AnchorTried { applied, .. } => ScanPass {
                anything_changed: self.anything_changed || applied,
                anchor_signals_seen: (self.anchor_signals_seen + 1) as usize,
                anchor_signals_claimed: if applied {
                    (self.anchor_signals_claimed + 1) as usize
                } else {
                    self.anchor_signals_claimed
                },
                ..self
            },
            ScanEvent::PaymentRecorded { stored, .. } => ScanPass {
                anything_changed: self.anything_changed || stored,
                ..self
            },
            ScanEvent::SilentPaymentSeen { stored, .. } => ScanPass {
                anything_changed: self.anything_changed || stored,
                ..self
            },
            ScanEvent::AttemptCounted { note_index, attempts } => ScanPass {
                retry_from: if attempts < retry_cap {
                    earliest(self.retry_from, note_index)
                } else {
                    self.retry_from
                },
                ..self
            },
        }
    }

    /// What an event calls for.
    pub open spec fn action(event: ScanEvent, retry_cap: u32) -> ScanAction {
        match event {
            ScanEvent::UnresolvedTried { applied } => if applied {
                ScanAction::ClearUnresolved
            } else {
                ScanAction::Nothing
            },
            ScanEvent::AnchorTried { applied, had_error, .. } => if applied {
                ScanAction::ClearRetryCount
            } else if had_error {
                ScanAction::CountAttempt
            } else {
                ScanAction::RecordUnresolved
            },
            ScanEvent::PaymentRecorded { stored, .. } => if stored {
                ScanAction::ClearRetryCount
            } else {
                ScanAction::CountAttempt
            },
            ScanEvent::SilentPaymentSeen { .. } => ScanAction::ClearRetryCount,
            ScanEvent::AttemptCounted { attempts, .. } => if attempts < retry_cap {
                ScanAction::Nothing
            } else {
                ScanAction::ClearRetryCount
            },
        }
    }

    /// Takes in an event and tells what to do on account of it.
    pub fn handle(&mut self, event: &ScanEvent, retry_cap: u32) -> (action: ScanAction)
        requires
            old(self).well_formed(),
            old(self).anchor_signals_seen < usize::MAX,
        ensures
            *final(self) == old(self).after(*event, retry_cap),
            action == ScanPass::action(*event, retry_cap),
            final(self).well_formed(),
    {
        match *event {
            ScanEvent::UnresolvedTried { applied } => {
                self.anchor_signals_seen = self.anchor_signals_seen + 1;
                if applied {
                    self.anything_changed = true;
                    self.anchor_signals_claimed = self.anchor_signals_claimed + 1;
                    ScanAction::ClearUnresolved
                } else {
                    ScanAction::Nothing
                }
            },
            ScanEvent::AnchorTried { applied, had_error, .. } => {
                self.anchor_signals_seen = self.anchor_signals_seen + 1;
                if applied {
                    self.anything_changed = true;
                    self.anchor_signals_claimed = self.anchor_signals_claimed + 1;
                    ScanAction::ClearRetryCount
                } else if had_error {
                    ScanAction::CountAttempt
                } else {
                    ScanAction::RecordUnresolved
                }
            },
            ScanEvent::PaymentRecorded { stored, .. } => {
                if stored {
                    self.anything_changed = true;
                    ScanAction::ClearRetryCount
                } else {
                    ScanAction::CountAttempt
                }
            },
            ScanEvent::SilentPaymentSeen { stored, .. } => {
                if stored {
                    self.anything_changed = true;
                }
                ScanAction::ClearRetryCount
            },
            ScanEvent::AttemptCounted { note_index, attempts } => {
                if attempts < retry_cap {
                    self.retry_from = match self.retry_from {
                        None => Some(note_index),
                        Some(r) => if r <= note_index {
                            Some(r)
                        } else {
                            Some(note_index)
                        },
                    };
                    ScanAction::Nothing
                } else {
                    ScanAction::ClearRetryCount
                }
            },
        }
    }

    /// Where the next pass starts.
    pub open spec fn spec_cursor(self, next_start_index: u64) -> u64 {
        match self.retry_from {
            Some(r) => r,
            None => next_start_index,
        }
    }

    /// Where the next pass starts: at the first note to be looked at again, or
    /// behind all that was read.
    pub fn cursor(&self, next_start_index: u64) -> (cursor: u64)
        ensures
            cursor == self.spec_cursor(next_start_index),
    {
        match self.retry_from {
            Some(r) => r,
            None => next_start_index,
        }
    }

    /// The pass after a list of events.
    pub open spec fn after_all(self, events: Seq<ScanEvent>, retry_cap: u32) -> ScanPass
        decreases events.len(),
    {
        if events.len() == 0 {
            self
        } else {
            self.after_all(events.drop_last(), retry_cap).after(events.last(), retry_cap)
        }
    }
}

/// A note to be looked at again on account of this event.
pub open spec fn retried(event: ScanEvent, retry_cap: u32) -> Option<u64> {
    match event {
        ScanEvent::AttemptCounted { note_index, attempts } => if attempts < retry_cap {
            Some(note_index)
        } else {
            None
        },
        _ => None,
    }
}

/// The scan never moves past a note that is still to be looked at again, and it is
/// held back by nothing else: the cursor stands at the first such note, or behind
/// everything.
pub proof fn cursor_waits_for_retries(
    pass: ScanPass,
    events: Seq<ScanEvent>,
    retry_cap: u32,
    next_start_index: u64,
)
    requires
        pass.is_new(),
        forall|i: int|
            0 <= i < events.len() ==> (retried(#[trigger] events[i], retry_cap) matches Some(note)
                ==> note <= next_start_index),
    ensures
        ({
            let cursor = pass.after_all(events, retry_cap).spec_cursor(next_start_index);
            &&& cursor <= next_start_index
            &&& forall|i: int|
                0 <= i < events.len() ==> (retried(#[trigger] events[i], retry_cap) matches Some(
                    note,
                ) ==> cursor <= note)
            &&& cursor == next_start_index || exists|i: int|
                0 <= i < events.len() && retried(#[trigger] events[i], retry_cap) == Some(cursor)
            &&& pass.after_all(events, retry_cap).retry_from is None ==> forall|i: int|
                0 <= i < events.len() ==> retried(#[trigger] events[i], retry_cap) is None
        }),
    decreases events.len(),
{
    if events.len() > 0 {
        let rest = events.drop_last();
        assert forall|i: int| 0 <= i < rest.len() implies (retried(
            #[trigger] rest[i],
            retry_cap,
        ) matches Some(note) ==> note <= next_start_index) by {
            assert(rest[i] == events[i]);
        }
        cursor_waits_for_retries(pass, rest, retry_cap, next_start_index);
        let before = pass.after_all(rest, retry_cap);
        let after = pass.after_all(events, retry_cap);
        let n = events.len() - 1;
        let cursor = after.spec_cursor(next_start_index);
        assert(retried(events[n], retry_cap) matches Some(note) ==> note <= next_start_index);
        assert forall|i: int| 0 <= i < events.len() implies (retried(
            #[trigger] events[i],
            retry_cap,
        ) matches Some(note) ==> cursor <= note) by {
            if i < n {
                assert(rest[i] == events[i]);
            }
        }
        if cursor != next_start_index {
            if cursor == before.spec_cursor(next_start_index) {
                let i = choose|i: int|
                    0 <= i < rest.len() && retried(#[trigger] rest[i], retry_cap) == Some(cursor);
                assert(events[i] == rest[i]);
            } else {
                assert(retried(events[n], retry_cap) == Some(cursor));
            }
        }
        if after.retry_from is None {
            assert forall|i: int| 0 <= i < events.len() implies retried(
                #[trigger] events[i],
                retry_cap,
            ) is None by {
                if i < n {
                    assert(rest[i] == events[i]);
                }
            }
        }
    }
}

/// There is one candidate for each contact whose shared secret is known, in their order,
/// with the key that this secret leads to.
pub proof fn known_secrets_make_candidates(
    contacts: Seq<(Identifier, Identifier, Option<[u8; 32]>)>,
    candidates: Seq<SilentPaymentCandidate>,
    i: int,
)
    requires
        are_candidates(contacts, candidates),
    ensures
        ({
            let known = contacts.filter(
                |c: (Identifier, Identifier, Option<[u8; 32]>)| c.2 is Some,
            );
            &&& candidates.len() == known.len()
            &&& 0 <= i < candidates.len() ==> {
                &&& candidates[i].owner_id == known[i].0
                &&& candidates[i].counterparty_id == known[i].1
                &&& candidates[i].mac_key@ == encryption::opp2_mac_key(known[i].2->0@)
            }
        }),
    decreases contacts.len(),
{
    reveal(Seq::filter);
    if contacts.len() > 0 {
        match contacts.last().2 {
            None => known_secrets_make_candidates(contacts.drop_last(), candidates, i),
            Some(_) => known_secrets_make_candidates(
                contacts.drop_last(),
                candidates.drop_last(),
                i,
            ),
        }
    }
}

/// A silent payment is attributed exactly where one candidate, and no other, computes its
/// code for its time. It is then recorded for that contact, as received, with the amount
/// that came in.
pub proof fn only_one_contact_is_credited(
    payment: Option<AttributedPayment>,
    candidates: Seq<SilentPaymentCandidate>,
    timestamp: u32,
    mac: Seq<u8>,
    received_amount_credits: u64,
    shown_timestamp: u32,
)
    requires
        is_attribution(
            payment,
            candidates,
            timestamp,
            mac,
            received_amount_credits,
            shown_timestamp,
        ),
    ensures
        ({
            let fitting = candidates.filter(
                |c: SilentPaymentCandidate| encryption::opp2_mac(c.mac_key@, timestamp) == mac,
            );
            &&& payment is Some <==> fitting.len() == 1
            &&& payment matches Some(p) ==> {
                &&& candidates.contains(fitting[0])
                &&& encryption::opp2_mac(fitting[0].mac_key@, timestamp) == mac
                &&& p.owner_id == fitting[0].owner_id
                &&& p.counterparty_id == fitting[0].counterparty_id
                &&& p.fingerprint@ == encryption::opp2_fingerprint(timestamp, mac)
                &&& p.record.amount == received_amount_credits
                &&& p.record.timestamp == shown_timestamp
                &&& !p.record.from_me
            }
        }),
{
    let p = |c: SilentPaymentCandidate| encryption::opp2_mac(c.mac_key@, timestamp) == mac;
    let q = |c: SilentPaymentCandidate| candidate_matches(c, timestamp, mac);
    assert(p =~= q);
    if payment is Some {
        candidates.lemma_filter_pred(p, 0);
        assert(candidates.filter(p).contains(candidates.filter(p)[0]));
        candidates.lemma_filter_contains_rev(p, candidates.filter(p)[0]);
    }
}

/// What was done about a note is what the event calls for. A signal that nobody claims and
/// nothing failed for is kept for later; one that failed is counted and tried again, until
/// it was tried as often as is allowed; a success leaves no count behind.
pub proof fn nothing_is_dropped_silently(
    note_index: u64,
    applied: bool,
    had_error: bool,
    attempts: u32,
    retry_cap: u32,
)
    ensures
        ScanPass::action(ScanEvent::UnresolvedTried { applied }, retry_cap) == (if applied {
            ScanAction::ClearUnresolved
        } else {
            ScanAction::Nothing
        }),
        ({
            let action = ScanPass::action(
                ScanEvent::AnchorTried { note_index, applied, had_error },
                retry_cap,
            );
            &&& applied <==> action is ClearRetryCount
            &&& !applied && had_error <==> action is CountAttempt
            &&& !applied && !had_error <==> action is RecordUnresolved
        }),
        ({
            let action = ScanPass::action(
                ScanEvent::PaymentRecorded { note_index, stored: applied },
                retry_cap,
            );
            &&& applied <==> action is ClearRetryCount
            &&& !applied <==> action is CountAttempt
        }),
        ScanPass::action(ScanEvent::SilentPaymentSeen { note_index, stored: applied }, retry_cap)
            is ClearRetryCount,
        ({
            let counted = ScanEvent::AttemptCounted { note_index, attempts };
            let action = ScanPass::action(counted, retry_cap);
            &&& attempts < retry_cap <==> action is Nothing
            &&& attempts >= retry_cap <==> action is ClearRetryCount
            &&& attempts < retry_cap <==> retried(counted, retry_cap) == Some(note_index)
            &&& attempts >= retry_cap <==> retried(counted, retry_cap) is None
        }),
{
}

/// The event brought something: an anchor was applied, or a payment stored.
pub open spec fn brought_something(event: ScanEvent) -> bool {
    ||| event matches ScanEvent::UnresolvedTried { applied: true }
    ||| event matches ScanEvent::AnchorTried { applied: true, .. }
    ||| event matches ScanEvent::PaymentRecorded { stored: true, .. }
    ||| event matches ScanEvent::SilentPaymentSeen { stored: true, .. }
}

/// A pass counts what it did: every anchor that was tried, new or left over, is seen, and
/// every one that was applied is claimed.
pub proof fn passes_count_what_they_did(pass: ScanPass, events: Seq<ScanEvent>, retry_cap: u32)
    requires
        pass.is_new(),
        events.len() <= usize::MAX,
    ensures
        ({
            let done = pass.after_all(events, retry_cap);
            &&& done.anchor_signals_seen == events.filter(
                |e: ScanEvent| e is UnresolvedTried || e is AnchorTried,
            ).len()
            &&& done.anchor_signals_claimed == events.filter(
                |e: ScanEvent|
                    (e is UnresolvedTried && e->UnresolvedTried_applied) || (e is AnchorTried
                        && e->AnchorTried_applied),
            ).len()
            &&& done.anchor_signals_seen <= events.len()
            &&& done.anchor_signals_claimed <= done.anchor_signals_seen
        }),
    decreases events.len(),
{
    reveal(Seq::filter);
    if events.len() > 0 {
        passes_count_what_they_did(pass, events.drop_last(), retry_cap);
    }
}

/// Something has changed in a pass exactly where an event brought something.
pub proof fn passes_tell_of_changes(pass: ScanPass, events: Seq<ScanEvent>, retry_cap: u32)
    requires
        pass.is_new(),
    ensures
        pass.after_all(events, retry_cap).anything_changed <==> exists|i: int|
            0 <= i < events.len() && brought_something(#[trigger] events[i]),
    decreases events.len(),
{
    if events.len() > 0 {
        let rest = events.drop_last();
        passes_tell_of_changes(pass, rest, retry_cap);
        assert forall|i: int| 0 <= i < rest.len() implies #[trigger] rest[i] == events[i] by {}
        let n = events.len() - 1;
        assert(pass.after_all(events, retry_cap).anything_changed <==> (pass.after_all(
            rest,
            retry_cap,
        ).anything_changed || brought_something(events[n])));
        if pass.after_all(rest, retry_cap).anything_changed {
            let i = choose|i: int| 0 <= i < rest.len() && brought_something(#[trigger] rest[i]);
            assert(brought_something(events[i]));
        }
        if exists|i: int| 0 <= i < events.len() && brought_something(#[trigger] events[i]) {
            let i = choose|i: int| 0 <= i < events.len() && brought_something(#[trigger] events[i]);
            if i < n {
                assert(brought_something(rest[i]));
            }
        }
    }
}

/// What is to be looked at again is looked at from its earliest position on.
pub proof fn the_earliest_position_is_kept(noted: u64, index: u64)
    ensures
        earliest(None, index) == Some(index),
        earliest(Some(noted), index) is Some,
        earliest(Some(noted), index)->0 <= noted,
        earliest(Some(noted), index)->0 <= index,
        earliest(Some(noted), index) == Some(noted) || earliest(Some(noted), index) == Some(index),
{
}

} // verus!
