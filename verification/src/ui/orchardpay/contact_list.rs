//! The lists of contacts, of people found by a search, and of shielded notes, as
//! they are shown.

use vstd::prelude::*;

use crate::model::identifier::{same_id, Identifier};
use crate::model::orchardpay::{
    OrchardPayContactState, ShieldedActivityRow, ShieldedActivityView,
};
use crate::model::text;
use crate::orchardpay::contact_search;
use crate::orchardpay::contact_search::{strip_dash_suffix, OrchardPayContactSearchResult};
use crate::orchardpay::recent_activity::RecentContactActivity;
use crate::ordering;

verus! {

/// How long ago something was, in the largest unit that fits.
pub open spec fn ago(secs: nat) -> Seq<char> {
    if secs < 60 {
        text::decimal(secs) + "s ago"@
    } else if secs < 3600 {
        text::decimal(secs / 60) + "m ago"@
    } else if secs < 86400 {
        text::decimal(secs / 3600) + "h ago"@
    } else {
        text::decimal(secs / 86400) + "d ago"@
    }
}

/// How long ago something was, given in seconds.
pub fn format_duration_ago(secs: u64) -> (words: String)
    ensures
        words@ == ago(secs as nat),
{
    if secs < 60 {
        text::joined(text::decimal_text(secs).as_str(), "s ago")
    } else if secs < 3600 {
        text::joined(text::decimal_text(secs / 60).as_str(), "m ago")
    } else if secs < 86400 {
        text::joined(text::decimal_text(secs / 3600).as_str(), "h ago")
    } else {
        text::joined(text::decimal_text(secs / 86400).as_str(), "d ago")
    }
}

/// When the shielded state was last synchronised, in words.
pub open spec fn sync_words(secs_ago: Option<u64>) -> Seq<char> {
    "Last shielded sync: "@ + (match secs_ago {
        Some(secs) => ago(secs as nat),
        None => "not yet this session"@,
    })
}

/// When the shielded state was last synchronised, in words.
pub fn last_sync_label(secs_ago: Option<u64>) -> (words: String)
    ensures
        words@ == sync_words(secs_ago),
{
    let when: String = match secs_ago {
        Some(secs) => format_duration_ago(secs),
        None => "not yet this session".to_owned(),
    };
    text::joined("Last shielded sync: ", when.as_str())
}

/// A contact's latest activity in words; `when` spells its time.
pub open spec fn activity_words(entry: RecentContactActivity, when: Option<Seq<char>>) -> Seq<char> {
    match when {
        None => "No messages yet"@,
        Some(w) => if entry.has_messages {
            "Last activity "@ + w
        } else {
            "No messages yet — connected "@ + w
        },
    }
}

/// A contact's latest activity in words. `when` spells its time, where that is
/// known.
pub fn recent_activity_label(entry: &RecentContactActivity, when: Option<&str>) -> (words: String)
    ensures
        words@ == activity_words(
            *entry,
            match when {
                None => None,
                Some(w) => Some(w@),
            },
        ),
{
    match when {
        None => "No messages yet".to_owned(),
        Some(w) => if entry.has_messages {
            text::joined("Last activity ", w)
        } else {
            text::joined("No messages yet — connected ", w)
        },
    }
}

/// A contact that is listed.
#[derive(Debug, Clone, PartialEq)]
pub struct ListedContact {
    pub identity_id: Identifier,
    /// The identifier, spelled out.
    pub identifier_text: String,
    pub state: OrchardPayContactState,
    /// The latest activity, where the contact is established and it is known.
    pub activity: Option<RecentContactActivity>,
}

/// The first entry for this identity.
pub open spec fn activity_of(entries: Seq<RecentContactActivity>, id: Identifier) -> Option<
    RecentContactActivity,
>
    decreases entries.len(),
{
    if entries.len() == 0 {
        None
    } else if entries[0].identity_id == id {
        Some(entries[0])
    } else {
        activity_of(entries.skip(1), id)
    }
}

fn find_activity(entries: &Vec<RecentContactActivity>, id: &Identifier) -> (entry: Option<
    RecentContactActivity,
>)
    ensures
        entry == activity_of(entries@, *id),
{
    let mut i: usize = 0;
    assert(entries@.skip(0) =~= entries@);
    while i < entries.len()
        invariant
            i <= entries@.len(),
            activity_of(entries@, *id) == activity_of(entries@.skip(i as int), *id),
        decreases entries@.len() - i,
    {
        assert(entries@.skip(i as int)[0] == entries@[i as int]);
        assert(entries@.skip(i as int).skip(1) =~= entries@.skip(i + 1));
        if same_id(&entries[i].identity_id, id) {
            return Some(entries[i]);
        }
        i = i + 1;
    }
    None
}

/// The activity with which a contact is listed.
pub open spec fn listed_activity(
    identity_id: Identifier,
    state: OrchardPayContactState,
    entries: Option<Vec<RecentContactActivity>>,
) -> Option<RecentContactActivity> {
    match (state, entries) {
        (OrchardPayContactState::Established { .. }, Some(e)) => activity_of(e@, identity_id),
        _ => None,
    }
}

/// A contact as it is listed.
pub fn list_contact(
    identity_id: Identifier,
    identifier_text: String,
    state: OrchardPayContactState,
    entries: &Option<Vec<RecentContactActivity>>,
) -> (contact: ListedContact)
    ensures
        contact.identity_id == identity_id,
        contact.identifier_text == identifier_text,
        contact.state == state,
        contact.activity == listed_activity(identity_id, state, *entries),
{
    let activity: Option<RecentContactActivity> = match (&state, entries) {
        (OrchardPayContactState::Established { .. }, Some(e)) => find_activity(e, &identity_id),
        _ => None,
    };
    ListedContact { identity_id, identifier_text, state, activity }
}

impl ListedContact {
    /// By what the contact is known: its name or else its identifier.
    pub open spec fn known_as(self) -> Seq<char> {
        match self.state.spec_name() {
            Some(name) => name@,
            None => self.identifier_text@,
        }
    }

    /// How the contact is shown.
    pub open spec fn spec_shown_as(self) -> Seq<char> {
        match self.state.spec_name() {
            Some(name) => contact_search::shown_name(name@),
            None => self.identifier_text@,
        }
    }

    /// How the contact is shown: by its name without the ending that every name has,
    /// or else by its identifier.
    pub fn shown_as(&self) -> (text: String)
        ensures
            text@ == self.spec_shown_as(),
    {
        match self.state.name() {
            Some(name) => strip_dash_suffix(name.as_str()),
            None => self.identifier_text.clone(),
        }
    }

    /// When something last happened with the contact: the latest activity of an
    /// established one, else the time of its request.
    pub open spec fn spec_recency(self) -> Option<u64> {
        match self.activity {
            Some(entry) if entry.last_activity is Some => entry.last_activity,
            _ => self.state.spec_created_at(),
        }
    }

    /// When something last happened with the contact.
    pub fn recency(&self) -> (at: Option<u64>)
        ensures
            at == self.spec_recency(),
    {
        if let Some(entry) = &self.activity {
            if entry.last_activity.is_some() {
                return entry.last_activity;
            }
        }
        self.state.created_at()
    }

    /// What is said of the contact's activity.
    pub open spec fn spec_activity_label(
        self,
        activity_when: Option<Seq<char>>,
        created_when: Option<Seq<char>>,
    ) -> Option<Seq<char>> {
        match self.activity {
            Some(entry) => Some(activity_words(entry, activity_when)),
            None => match created_when {
                None => None,
                Some(w) => Some("Sent "@ + w),
            },
        }
    }

    /// What is said of the contact's activity: for an established one its latest
    /// activity, else when the request was sent. `activity_when` and `created_when`
    /// spell the two times, where they are known.
    pub fn activity_label(&self, activity_when: Option<&str>, created_when: Option<&str>) -> (label:
        Option<String>)
        ensures
            text::optional_view(label) == self.spec_activity_label(
                match activity_when {
                    None => None,
                    Some(w) => Some(w@),
                },
                match created_when {
                    None => None,
                    Some(w) => Some(w@),
                },
            ),
    {
        match &self.activity {
            Some(entry) => Some(recent_activity_label(entry, activity_when)),
            None => match created_when {
                None => None,
                Some(w) => Some(text::joined("Sent ", w)),
            },
        }
    }

    /// What can be done with the contact.
    pub fn standing(&self, in_flight: bool, credit_blocked: bool) -> (standing: CardStanding)
        ensures
            standing == card_standing(self.state, in_flight, credit_blocked),
    {
        match &self.state {
            OrchardPayContactState::PendingOutbound { .. } => CardStanding::Waiting,
            OrchardPayContactState::PendingInboundUnaccepted { .. } => CardStanding::Acceptable {
                accepting: in_flight,
                enabled: !credit_blocked && !in_flight,
            },
            OrchardPayContactState::Established { .. } => CardStanding::Connected,
        }
    }
}

/// What can be done with a contact in this state.
pub open spec fn card_standing(
    state: OrchardPayContactState,
    in_flight: bool,
    credit_blocked: bool,
) -> CardStanding {
    match state {
        OrchardPayContactState::PendingOutbound { .. } => CardStanding::Waiting,
        OrchardPayContactState::PendingInboundUnaccepted { .. } => CardStanding::Acceptable {
            accepting: in_flight,
            enabled: !credit_blocked && !in_flight,
        },
        OrchardPayContactState::Established { .. } => CardStanding::Connected,
    }
}

/// What can be done with a contact.
#[derive(Debug, Clone, Copy, PartialEq, Eq, Structural)]
pub enum CardStanding {
    /// The answer to one's own request is awaited.
    Waiting,
    /// Their request can be accepted.
    Acceptable { accepting: bool, enabled: bool },
    /// The conversation can be opened.
    Connected,
}

impl CardStanding {
    /// In words.
    pub open spec fn spec_text(self) -> Seq<char> {
        match self {
            CardStanding::Waiting => "Waiting for a response…"@,
            CardStanding::Acceptable { .. } => "Wants to connect with you"@,
            CardStanding::Connected => "Connected"@,
        }
    }

    /// What the button says, where there is one.
    pub open spec fn spec_button(self) -> Option<Seq<char>> {
        match self {
            CardStanding::Waiting => None,
            CardStanding::Acceptable { accepting, .. } => if accepting {
                Some("Accepting…"@)
            } else {
                Some("Accept"@)
            },
            CardStanding::Connected => Some("Open Conversation"@),
        }
    }

    /// In words.
    pub fn text(self) -> (words: &'static str)
        ensures
            words@ == self.spec_text(),
    {
        match self {
            CardStanding::Waiting => "Waiting for a response…",
            CardStanding::Acceptable { .. } => "Wants to connect with you",
            CardStanding::Connected => "Connected",
        }
    }

    /// What the button says, where there is one.
    pub fn button(self) -> (label: Option<&'static str>)
        ensures
            match label {
                None => self.spec_button() is None,
                Some(l) => self.spec_button() == Some(l@),
            },
    {
        match self {
            CardStanding::Waiting => None,
            CardStanding::Acceptable { accepting, .. } => Some(
                if accepting {
                    "Accepting…"
                } else {
                    "Accept"
                },
            ),
            CardStanding::Connected => Some("Open Conversation"),
        }
    }
}

/// The order by name, in which upper and lower case count alike.
pub open spec fn name_order() -> spec_fn(ListedContact, ListedContact) -> bool {
    |a: ListedContact, b: ListedContact|
        text::not_after(text::lowercase(a.known_as()), text::lowercase(b.known_as()))
}

fn sort_name(contact: &ListedContact) -> (name: String)
    ensures
        name@ == text::lowercase(contact.known_as()),
{
    match contact.state.name() {
        Some(name) => text::to_lowercase(name.as_str()),
        None => text::to_lowercase(contact.identifier_text.as_str()),
    }
}

fn name_not_after(a: &ListedContact, b: &ListedContact) -> (r: bool)
    ensures
        r == name_order()(*a, *b),
{
    let x: String = sort_name(a);
    let y: String = sort_name(b);
    text::is_not_after(x.as_str(), y.as_str())
}

/// The contacts by name.
pub fn contacts_by_name(contacts: Vec<ListedContact>) -> (sorted: Vec<ListedContact>)
    ensures
        sorted@ == ordering::stable_sorted(contacts@, name_order()),
{
    ordering::stable_sort(contacts, name_not_after, Ghost(name_order()))
}

/// When something last happened with a contact, as a number; what has no time comes
/// before all times.
pub open spec fn recency_rank() -> spec_fn(ListedContact) -> int {
    |contact: ListedContact|
        match contact.spec_recency() {
            None => -1,
            Some(t) => t as int,
        }
}

fn not_less_recent(a: &ListedContact, b: &ListedContact) -> (r: bool)
    ensures
        r == ordering::by_rank_descending(recency_rank())(*a, *b),
{
    match (a.recency(), b.recency()) {
        (Some(x), Some(y)) => x >= y,
        (Some(_), None) => true,
        (None, Some(_)) => false,
        (None, None) => true,
    }
}

/// The contacts by their latest activity, the newest first. Whether there are
/// messages makes no difference: a request that is newer than a message comes first.
pub fn contacts_by_recency(contacts: Vec<ListedContact>) -> (sorted: Vec<ListedContact>)
    ensures
        sorted@ == ordering::stable_sorted(
            contacts@,
            ordering::by_rank_descending(recency_rank()),
        ),
{
    ordering::stable_sort(
        contacts,
        not_less_recent,
        Ghost(ordering::by_rank_descending(recency_rank())),
    )
}

/// Both lists show the same contacts: each keeps everybody, and nobody appears more
/// often than they were given.
pub proof fn both_lists_show_everybody(contacts: Seq<ListedContact>)
    ensures
        ordering::stable_sorted(contacts, name_order()).to_multiset() == contacts.to_multiset(),
        ordering::stable_sorted(
            contacts,
            ordering::by_rank_descending(recency_rank()),
        ).to_multiset() == contacts.to_multiset(),
{
    ordering::stable_sort_keeps_items(contacts, name_order());
    ordering::stable_sort_keeps_items(contacts, ordering::by_rank_descending(recency_rank()));
}

/// In the list by name nobody stands behind somebody whose name, in lower case,
/// comes later.
pub proof fn names_ascend(contacts: Seq<ListedContact>, i: int, j: int)
    requires
        0 <= i <= j < contacts.len(),
    ensures
        ({
            let sorted = ordering::stable_sorted(contacts, name_order());
            text::not_after(
                text::lowercase(sorted[i].known_as()),
                text::lowercase(sorted[j].known_as()),
            )
        }),
{
    let leq = name_order();
    assert forall|a: ListedContact, b: ListedContact| #[trigger] leq(a, b) || leq(b, a) by {
        text::lemma_not_after_total(
            text::lowercase(a.known_as()),
            text::lowercase(b.known_as()),
        );
    }
    assert forall|a: ListedContact, b: ListedContact, c: ListedContact| #[trigger]
        leq(a, b) && #[trigger] leq(b, c) implies leq(a, c) by {
        text::lemma_not_after_transitive(
            text::lowercase(a.known_as()),
            text::lowercase(b.known_as()),
            text::lowercase(c.known_as()),
        );
    }
    ordering::stable_sort_orders(contacts, leq);
    ordering::stable_sort_keeps_items(contacts, leq);
    let sorted = ordering::stable_sorted(contacts, leq);
    assert(leq(sorted[i], sorted[j]));
}

/// In the list by activity nobody stands behind somebody with whom something
/// happened longer ago.
pub proof fn recency_descends(contacts: Seq<ListedContact>, i: int, j: int)
    requires
        0 <= i <= j < contacts.len(),
    ensures
        ({
            let sorted = ordering::stable_sorted(
                contacts,
                ordering::by_rank_descending(recency_rank()),
            );
            recency_rank()(sorted[j]) <= recency_rank()(sorted[i])
        }),
{
    let leq = ordering::by_rank_descending(recency_rank());
    ordering::stable_sort_orders(contacts, leq);
    ordering::stable_sort_keeps_items(contacts, leq);
    let sorted = ordering::stable_sorted(contacts, leq);
    assert(leq(sorted[i], sorted[j]));
}

/// What can be done with somebody whom a search has found.
#[derive(Debug, Clone, Copy, PartialEq, Eq, Structural)]
pub enum SearchStanding {
    RequestSent,
    WantsToConnect,
    AlreadyConnected,
    /// There is a button; `running` while what it set going has not come back.
    Contactable { running: bool, enabled: bool },
    NotSetUp,
}

/// What can be done with somebody found, where the button can be used if `usable`
/// holds and nothing runs for them already.
pub open spec fn search_standing_of(
    result: OrchardPayContactSearchResult,
    in_flight: bool,
    usable: bool,
) -> SearchStanding {
    match result.existing_relationship {
        Some(OrchardPayContactState::PendingOutbound { .. }) => SearchStanding::RequestSent,
        Some(OrchardPayContactState::PendingInboundUnaccepted { .. }) =>
            SearchStanding::WantsToConnect,
        Some(OrchardPayContactState::Established { .. }) => SearchStanding::AlreadyConnected,
        None => if result.contactable {
            SearchStanding::Contactable { running: in_flight, enabled: usable && !in_flight }
        } else {
            SearchStanding::NotSetUp
        },
    }
}

/// What can be done with somebody found.
pub fn search_standing(
    result: &OrchardPayContactSearchResult,
    in_flight: bool,
    usable: bool,
) -> (standing: SearchStanding)
    ensures
        standing == search_standing_of(*result, in_flight, usable),
{
    match &result.existing_relationship {
        Some(OrchardPayContactState::PendingOutbound { .. }) => SearchStanding::RequestSent,
        Some(OrchardPayContactState::PendingInboundUnaccepted { .. }) =>
            SearchStanding::WantsToConnect,
        Some(OrchardPayContactState::Established { .. }) => SearchStanding::AlreadyConnected,
        None => if result.contactable {
            SearchStanding::Contactable { running: in_flight, enabled: usable && !in_flight }
        } else {
            SearchStanding::NotSetUp
        },
    }
}

impl SearchStanding {
    /// In words: what stands in place of a button, or what the button says. On the
    /// tab for direct payments the button pays.
    pub open spec fn words(self, direct: bool) -> Seq<char> {
        match self {
            SearchStanding::RequestSent => "Request already sent"@,
            SearchStanding::WantsToConnect =>
                "Wants to connect with you — check Contacts to accept"@,
            SearchStanding::AlreadyConnected => "Already connected"@,
            SearchStanding::Contactable { running, .. } => if direct {
                if running {
                    "Sending Directly…"@
                } else {
                    "Direct Send"@
                }
            } else if running {
                "Sending…"@
            } else {
                "Add Contact"@
            },
            SearchStanding::NotSetUp => "Hasn't set up OrchardPay yet"@,
        }
    }

    /// In words.
    pub fn text(self, direct: bool) -> (words: &'static str)
        ensures
            words@ == self.words(direct),
    {
        match self {
            SearchStanding::RequestSent => "Request already sent",
            SearchStanding::WantsToConnect =>
                "Wants to connect with you — check Contacts to accept",
            SearchStanding::AlreadyConnected => "Already connected",
            SearchStanding::Contactable { running, .. } => if direct {
                if running {
                    "Sending Directly…"
                } else {
                    "Direct Send"
                }
            } else if running {
                "Sending…"
            } else {
                "Add Contact"
            },
            SearchStanding::NotSetUp => "Hasn't set up OrchardPay yet",
        }
    }
}

/// How far a shielded note is confirmed, in words.
pub open spec fn note_status(pending: bool, block_height: Option<u64>) -> Seq<char> {
    if pending {
        "Pending"@
    } else {
        match block_height {
            Some(height) => "Verified as of block "@ + text::decimal(height as nat),
            None => "Verified"@,
        }
    }
}

/// How far a shielded note is confirmed, in words.
pub fn note_status_label(row: &ShieldedActivityRow) -> (words: String)
    ensures
        words@ == note_status(row.pending, row.block_height),
{
    if row.pending {
        return "Pending".to_owned();
    }
    match row.block_height {
        Some(height) => text::joined(
            "Verified as of block ",
            text::decimal_text(height).as_str(),
        ),
        None => "Verified".to_owned(),
    }
}

/// How many notes there are and what they are worth, in words.
pub open spec fn summary_words(count: nat, total_text: Seq<char>) -> Seq<char> {
    text::decimal(count) + (if count == 1 {
        " note"@
    } else {
        " notes"@
    }) + " · "@ + total_text + " total"@
}

/// How many notes are unspent and what they are worth; `total_text` spells that.
pub fn unspent_summary(view: &ShieldedActivityView, total_text: &str) -> (words: String)
    ensures
        words@ == summary_words(view.unspent_count as nat, total_text@),
{
    let noun: &str = if view.unspent_count == 1 {
        " note"
    } else {
        " notes"
    };
    let head: String = text::joined3(
        text::decimal_text(view.unspent_count as u64).as_str(),
        noun,
        " · ",
    );
    text::joined3(head.as_str(), total_text, " total")
}

/// The time since something is told in whole seconds under a minute, in whole
/// minutes under an hour, in whole hours under a day, and then in whole days.
pub proof fn times_are_told_in_the_largest_unit(n: nat, rest: nat)
    ensures
        n < 60 ==> ago(n) == text::decimal(n) + "s ago"@,
        1 <= n < 60 && rest < 60 ==> ago(n * 60 + rest) == text::decimal(n) + "m ago"@,
        1 <= n < 24 && rest < 3600 ==> ago(n * 3600 + rest) == text::decimal(n) + "h ago"@,
        1 <= n && rest < 86400 ==> ago(n * 86400 + rest) == text::decimal(n) + "d ago"@,
{
    if rest < 60 {
        assert((n * 60 + rest) / 60 == n);
    }
    if rest < 3600 {
        assert((n * 3600 + rest) / 3600 == n);
    }
    if rest < 86400 {
        assert((n * 86400 + rest) / 86400 == n);
    }
}

/// A synchronisation is told with the time since it, and as missing only where there
/// was none.
pub proof fn synchronisations_are_told_with_their_age(secs: u64)
    ensures
        sync_words(Some(secs)) == "Last shielded sync: "@ + ago(secs as nat),
        sync_words(None) == "Last shielded sync: "@ + "not yet this session"@,
{
}

/// Activity is told only where there are messages; where there are none, so is that.
pub proof fn activity_is_told_where_there_are_messages(
    entry: RecentContactActivity,
    when: Seq<char>,
)
    ensures
        activity_words(entry, None) == "No messages yet"@,
        entry.has_messages ==> activity_words(entry, Some(when)) == "Last activity "@ + when,
        !entry.has_messages ==> activity_words(entry, Some(when)) == "No messages yet — connected "@
            + when,
{
}

/// The activity found for an identity is one of the entries, is theirs, and none
/// before it is; nothing is found only where no entry is theirs.
pub proof fn activity_is_looked_up_by_identity(
    before: Seq<RecentContactActivity>,
    entry: RecentContactActivity,
    after: Seq<RecentContactActivity>,
    id: Identifier,
)
    requires
        forall|i: int| 0 <= i < before.len() ==> (#[trigger] before[i]).identity_id != id,
    ensures
        activity_of(before, id) is None,
        entry.identity_id == id ==> activity_of(before + seq![entry] + after, id) == Some(entry),
    decreases before.len(),
{
    let all = before + seq![entry] + after;
    if before.len() > 0 {
        let rest = before.skip(1);
        assert forall|i: int| 0 <= i < rest.len() implies (#[trigger] rest[i]).identity_id
            != id by {
            assert(rest[i] == before[i + 1]);
        }
        activity_is_looked_up_by_identity(rest, entry, after, id);
        assert(all[0] == before[0]);
        assert(all.skip(1) =~= rest + seq![entry] + after);
    } else {
        assert(all[0] == entry);
    }
}

/// Only established contacts are listed with their activity, which is the one found
/// for them.
pub proof fn only_established_contacts_show_activity(
    id: Identifier,
    state: OrchardPayContactState,
    entries: Vec<RecentContactActivity>,
)
    ensures
        !(state is Established) ==> listed_activity(id, state, Some(entries)) is None,
        listed_activity(id, state, None) is None,
        state is Established ==> listed_activity(id, state, Some(entries)) == activity_of(
            entries@,
            id,
        ),
{
}

/// A contact with a name is known by it, and one without by its identifier; what is
/// shown of the name lacks only its ending.
pub proof fn contacts_go_by_their_name(contact: ListedContact)
    ensures
        contact.state.spec_name() matches Some(name) ==> contact.known_as() == name@
            && contact.spec_shown_as() == contact_search::shown_name(name@),
        contact.state.spec_name() is None ==> contact.known_as() == contact.identifier_text@
            && contact.spec_shown_as() == contact.identifier_text@,
{
}

/// A contact is as recent as its latest activity, and where none is known, as its
/// request; it is told with the one it is listed by.
pub proof fn contacts_are_as_recent_as_their_activity(
    contact: ListedContact,
    when: Option<Seq<char>>,
    created: Option<Seq<char>>,
)
    ensures
        contact.activity matches Some(entry) ==> {
            &&& entry.last_activity is Some ==> contact.spec_recency() == entry.last_activity
            &&& entry.last_activity is None ==> contact.spec_recency()
                == contact.state.spec_created_at()
            &&& contact.spec_activity_label(when, created) == Some(activity_words(entry, when))
        },
        contact.activity is None ==> {
            &&& contact.spec_recency() == contact.state.spec_created_at()
            &&& contact.spec_activity_label(when, created) is Some <==> created is Some
            &&& created matches Some(w) ==> contact.spec_activity_label(when, created) == Some(
                "Sent "@ + w,
            )
        },
{
}

/// In the list by activity, of two contacts with known times the later one stands in
/// front, and those without a known time stand behind all others.
pub proof fn the_latest_contact_stands_in_front(contacts: Seq<ListedContact>, i: int, j: int)
    requires
        0 <= i <= j < contacts.len(),
    ensures
        ({
            let sorted = ordering::stable_sorted(
                contacts,
                ordering::by_rank_descending(recency_rank()),
            );
            match (sorted[i].spec_recency(), sorted[j].spec_recency()) {
                (Some(x), Some(y)) => x >= y,
                (None, Some(_)) => false,
                _ => true,
            }
        }),
{
    recency_descends(contacts, i, j);
}

/// A request of theirs can be accepted, once at a time and only with the credits for
/// it; one's own is waited for, and only an established contact is connected.
pub proof fn only_their_requests_are_accepted(
    state: OrchardPayContactState,
    in_flight: bool,
    credit_blocked: bool,
)
    ensures
        card_standing(state, in_flight, credit_blocked) is Waiting <==> state is PendingOutbound,
        card_standing(state, in_flight, credit_blocked) is Connected <==> state is Established,
        card_standing(state, in_flight, credit_blocked) matches CardStanding::Acceptable {
            accepting,
            enabled,
        } ==> {
            &&& accepting <==> in_flight
            &&& enabled ==> !in_flight && !credit_blocked
            &&& !in_flight && !credit_blocked ==> enabled
        },
{
}

/// Each standing has its own words, and all but waiting a button of its own.
pub proof fn cards_say_what_can_be_done(accepting: bool, enabled: bool)
    ensures
        CardStanding::Waiting.spec_text() == "Waiting for a response…"@,
        CardStanding::Waiting.spec_button() is None,
        (CardStanding::Acceptable { accepting, enabled }).spec_text()
            == "Wants to connect with you"@,
        (CardStanding::Acceptable { accepting: true, enabled }).spec_button() == Some(
            "Accepting…"@,
        ),
        (CardStanding::Acceptable { accepting: false, enabled }).spec_button() == Some("Accept"@),
        CardStanding::Connected.spec_text() == "Connected"@,
        CardStanding::Connected.spec_button() == Some("Open Conversation"@),
{
}

/// Somebody found can be contacted exactly where nothing is recorded of them and
/// they have published an address; their button works where it may be used and
/// nothing runs for them.
pub proof fn only_strangers_with_an_address_are_contacted(
    result: OrchardPayContactSearchResult,
    in_flight: bool,
    usable: bool,
)
    ensures
        search_standing_of(result, in_flight, usable) is Contactable <==> (
        result.existing_relationship is None && result.contactable),
        search_standing_of(result, in_flight, usable) is NotSetUp <==> (
        result.existing_relationship is None && !result.contactable),
        search_standing_of(result, in_flight, usable) is RequestSent <==> (
        result.existing_relationship matches Some(s) && s is PendingOutbound),
        search_standing_of(result, in_flight, usable) is WantsToConnect <==> (
        result.existing_relationship matches Some(s) && s is PendingInboundUnaccepted),
        search_standing_of(result, in_flight, usable) is AlreadyConnected <==> (
        result.existing_relationship matches Some(s) && s is Established),
        search_standing_of(result, in_flight, usable) matches SearchStanding::Contactable {
            running,
            enabled,
        } ==> {
            &&& running <==> in_flight
            &&& enabled <==> !in_flight && usable
        },
{
}

/// The button of somebody found pays on the tab for direct payments and adds a
/// contact elsewhere.
pub proof fn search_buttons_say_what_they_do(running: bool, enabled: bool, direct: bool)
    ensures
        (SearchStanding::Contactable { running, enabled }).words(direct) == if running && direct {
            "Sending Directly…"@
        } else if running {
            "Sending…"@
        } else if direct {
            "Direct Send"@
        } else {
            "Add Contact"@
        },
        SearchStanding::RequestSent.words(direct) == "Request already sent"@,
        SearchStanding::WantsToConnect.words(direct)
            == "Wants to connect with you — check Contacts to accept"@,
        SearchStanding::AlreadyConnected.words(direct) == "Already connected"@,
        SearchStanding::NotSetUp.words(direct) == "Hasn't set up OrchardPay yet"@,
{
}

/// A note that is pending is never called verified, and one that is verified is told
/// with its block where that is known.
pub proof fn pending_notes_are_not_verified(height: u64)
    ensures
        forall|h: Option<u64>| #[trigger] note_status(true, h) == "Pending"@,
        note_status(false, Some(height)) == "Verified as of block "@ + text::decimal(
            height as nat,
        ),
        note_status(false, None) == "Verified"@,
{
}

/// A single note is told in the singular, and any other number in the plural.
pub proof fn summaries_count_the_notes(count: nat, total: Seq<char>)
    ensures
        summary_words(1, total) == text::decimal(1) + " note"@ + " · "@ + total + " total"@,
        count != 1 ==> summary_words(count, total) == text::decimal(count) + " notes"@ + " · "@
            + total + " total"@,
{
}

} // verus!
