//! Contacts in the order of their conversations' latest activity.

use vstd::prelude::*;

use crate::model::identifier::Identifier;
use crate::model::orchardpay::OrchardPayContactState;
use crate::ordering;

verus! {

/// The latest activity with one contact.
#[derive(Debug, Clone, Copy, PartialEq, Eq)]
pub struct RecentContactActivity {
    pub identity_id: Identifier,
    /// The time of the latest message or, without messages, of the connection.
    pub last_activity: Option<u64>,
    /// Whether that is the time of a message.
    pub has_messages: bool,
}

/// What is needed to look for an established contact's latest messages.
#[derive(Debug, Clone, Copy, PartialEq, Eq)]
pub struct EstablishedContactRefs {
    pub identity_id: Identifier,
    pub my_reference_id: [u8; 32],
    pub their_reference_id: [u8; 32],
    pub anchor_created_at: Option<u64>,
}

/// What is needed to look for a contact's latest messages, if it is established.
pub open spec fn refs_of(contact: (Identifier, OrchardPayContactState)) -> Option<
    EstablishedContactRefs,
> {
    match contact.1 {
        OrchardPayContactState::Established {
            my_reference_id,
            their_reference_id,
            created_at,
            ..
        } => Some(
            EstablishedContactRefs {
                identity_id: contact.0,
                my_reference_id,
                their_reference_id,
                anchor_created_at: created_at,
            },
        ),
        _ => None,
    }
}

/// Those of the established contacts among `contacts`, in order.
pub open spec fn established_refs(contacts: Seq<(Identifier, OrchardPayContactState)>) -> Seq<
    EstablishedContactRefs,
>
    decreases contacts.len(),
{
    if contacts.len() == 0 {
        Seq::empty()
    } else {
        let before = established_refs(contacts.drop_last());
        match refs_of(contacts.last()) {
            None => before,
            Some(refs) => before.push(refs),
        }
    }
}

/// What is needed to look for the latest messages of the established contacts.
pub fn established_contacts(contacts: &Vec<(Identifier, OrchardPayContactState)>) -> (refs: Vec<
    EstablishedContactRefs,
>)
    ensures
        refs@ == established_refs(contacts@),
{
    let mut refs: Vec<EstablishedContactRefs> = Vec::new();
    let mut i: usize = 0;
    while i < contacts.len()
        invariant
            i <= contacts@.len(),
            refs@ == established_refs(contacts@.take(i as int)),
        decreases contacts@.len() - i,
    {
        assert(contacts@.take(i + 1).drop_last() =~= contacts@.take(i as int));
        if let OrchardPayContactState::Established {
            my_reference_id,
            their_reference_id,
            created_at,
            ..
        } = &contacts[i].1 {
            refs.push(
                EstablishedContactRefs {
                    identity_id: contacts[i].0,
                    my_reference_id: *my_reference_id,
                    their_reference_id: *their_reference_id,
                    anchor_created_at: *created_at,
                },
            );
        }
        i = i + 1;
    }
    assert(contacts@.take(i as int) =~= contacts@);
    refs
}

/// The later of two times, of which either may be missing.
pub open spec fn later(a: Option<u64>, b: Option<u64>) -> Option<u64> {
    match a {
        None => b,
        Some(x) => match b {
            None => a,
            Some(y) => if x >= y {
                a
            } else {
                b
            },
        },
    }
}

/// A contact's activity, given when each side last wrote.
pub open spec fn activity_of(
    contact: EstablishedContactRefs,
    mine: Option<u64>,
    theirs: Option<u64>,
) -> RecentContactActivity {
    match later(mine, theirs) {
        Some(at) => RecentContactActivity {
            identity_id: contact.identity_id,
            last_activity: Some(at),
            has_messages: true,
        },
        None => RecentContactActivity {
            identity_id: contact.identity_id,
            last_activity: contact.anchor_created_at,
            has_messages: false,
        },
    }
}

/// A contact's activity: the later of the two sides' latest messages or, without
/// any, the time of the connection.
pub fn contact_activity(
    contact: &EstablishedContactRefs,
    mine: Option<u64>,
    theirs: Option<u64>,
) -> (activity: RecentContactActivity)
    ensures
        activity == activity_of(*contact, mine, theirs),
{
    let latest: Option<u64> = match mine {
        None => theirs,
        Some(x) => match theirs {
            None => mine,
            Some(y) => if x >= y {
                mine
            } else {
                theirs
            },
        },
    };
    match latest {
        Some(at) => RecentContactActivity {
            identity_id: contact.identity_id,
            last_activity: Some(at),
            has_messages: true,
        },
        None => RecentContactActivity {
            identity_id: contact.identity_id,
            last_activity: contact.anchor_created_at,
            has_messages: false,
        },
    }
}

/// How far up a contact stands: any message outranks any connection, and a later
/// time an earlier one.
pub open spec fn activity_rank() -> spec_fn(RecentContactActivity) -> int {
    |activity: RecentContactActivity|
        (if activity.has_messages {
            0x2_0000_0000_0000_0000
        } else {
            0int
        }) + match activity.last_activity {
            None => 0,
            Some(at) => at + 1,
        }
}

fn not_below(a: &RecentContactActivity, b: &RecentContactActivity) -> (r: bool)
    ensures
        r == ordering::by_rank_descending(activity_rank())(*a, *b),
{
    if a.has_messages != b.has_messages {
        return a.has_messages;
    }
    match b.last_activity {
        None => true,
        Some(y) => match a.last_activity {
            None => false,
            Some(x) => x >= y,
        },
    }
}

/// The activities of contacts, given when each side of each last wrote.
pub open spec fn activities(
    contacts: Seq<EstablishedContactRefs>,
    latest: Seq<(Option<u64>, Option<u64>)>,
) -> Seq<RecentContactActivity> {
    Seq::new(contacts.len(), |i: int| activity_of(contacts[i], latest[i].0, latest[i].1))
}

/// The contacts with their latest activity: those with messages first, the latest
/// on top; contacts of the same standing stay in their order. `latest` holds for
/// each contact when oneself and when they last wrote.
pub fn fetch_recent_activity(
    contacts: &Vec<EstablishedContactRefs>,
    latest: &Vec<(Option<u64>, Option<u64>)>,
) -> (entries: Vec<RecentContactActivity>)
    requires
        latest@.len() == contacts@.len(),
    ensures
        entries@ == ordering::stable_sorted(
            activities(contacts@, latest@),
            ordering::by_rank_descending(activity_rank()),
        ),
{
    let mut entries: Vec<RecentContactActivity> = Vec::new();
    let mut i: usize = 0;
    while i < contacts.len()
        invariant
            i <= contacts@.len(),
            latest@.len() == contacts@.len(),
            entries@ == activities(contacts@, latest@).take(i as int),
        decreases contacts@.len() - i,
    {
        entries.push(contact_activity(&contacts[i], latest[i].0, latest[i].1));
        assert(entries@ =~= activities(contacts@, latest@).take(i + 1));
        i = i + 1;
    }
    assert(entries@ =~= activities(contacts@, latest@));
    ordering::stable_sort(
        entries,
        not_below,
        Ghost(ordering::by_rank_descending(activity_rank())),
    )
}

/// Every contact with messages stands above every contact without.
pub proof fn conversations_come_first(activities: Seq<RecentContactActivity>, i: int, j: int)
    requires
        0 <= i < j < activities.len(),
        ({
            let sorted = ordering::stable_sorted(
                activities,
                ordering::by_rank_descending(activity_rank()),
            );
            sorted[j].has_messages
        }),
    ensures
        ordering::stable_sorted(
            activities,
            ordering::by_rank_descending(activity_rank()),
        )[i].has_messages,
{
    let leq = ordering::by_rank_descending(activity_rank());
    let sorted = ordering::stable_sorted(activities, leq);
    ordering::stable_sort_orders(activities, leq);
    ordering::stable_sort_keeps_items(activities, leq);
    sorted.to_multiset_ensures();
    activities.to_multiset_ensures();
    assert(sorted.len() == activities.len());
    assert(leq(sorted[i], sorted[j]));
}

/// The activity of a contact is the latest message of either side: one of the two
/// times, and no earlier than any that is known. Without messages it is the time of
/// the connection. It does not matter which side wrote.
pub proof fn activity_is_the_latest_message(
    contact: EstablishedContactRefs,
    mine: Option<u64>,
    theirs: Option<u64>,
)
    ensures
        ({
            let activity = activity_of(contact, mine, theirs);
            &&& activity.identity_id == contact.identity_id
            &&& activity.has_messages <==> mine is Some || theirs is Some
            &&& activity.has_messages ==> activity.last_activity is Some && (
            activity.last_activity == mine || activity.last_activity == theirs)
            &&& mine matches Some(t) ==> activity.last_activity->0 >= t
            &&& theirs matches Some(t) ==> activity.last_activity->0 >= t
            &&& !activity.has_messages ==> activity.last_activity == contact.anchor_created_at
            &&& activity == activity_of(contact, theirs, mine)
        }),
{
}

/// Only established contacts have a conversation, and what is needed to look for its
/// messages is what was agreed with them.
pub proof fn established_contacts_are_looked_up(
    id: Identifier,
    state: OrchardPayContactState,
    before: Seq<(Identifier, OrchardPayContactState)>,
    after: Seq<(Identifier, OrchardPayContactState)>,
)
    ensures
        established_refs(before + seq![(id, state)] + after) == established_refs(before) + (
        match state {
            OrchardPayContactState::Established {
                my_reference_id,
                their_reference_id,
                created_at,
                ..
            } => seq![
                EstablishedContactRefs {
                    identity_id: id,
                    my_reference_id,
                    their_reference_id,
                    anchor_created_at: created_at,
                },
            ],
            _ => Seq::empty(),
        }) + established_refs(after),
        established_refs(Seq::empty()).len() == 0,
{
    let one = seq![(id, state)];
    lemma_refs_parts(before + one, after);
    lemma_refs_parts(before, one);
    assert(one.drop_last() =~= Seq::empty());
    reveal_with_fuel(established_refs, 2);
    assert(established_refs(one) =~= (match refs_of((id, state)) {
        Some(refs) => seq![refs],
        None => Seq::empty(),
    }));
}

proof fn lemma_refs_parts(
    a: Seq<(Identifier, OrchardPayContactState)>,
    b: Seq<(Identifier, OrchardPayContactState)>,
)
    ensures
        established_refs(a + b) == established_refs(a) + established_refs(b),
    decreases b.len(),
{
    if b.len() == 0 {
        assert(a + b =~= a);
        assert(established_refs(a) + established_refs(b) =~= established_refs(a));
    } else {
        lemma_refs_parts(a, b.drop_last());
        assert((a + b).drop_last() =~= a + b.drop_last());
        assert(established_refs(a + b) =~= established_refs(a) + established_refs(b));
    }
}

/// Contacts are listed by their latest activity: those with messages above those
/// without, and among either the later time above the earlier one and above none.
/// Nobody is left out.
pub proof fn later_activity_comes_first(
    contacts: Seq<EstablishedContactRefs>,
    latest: Seq<(Option<u64>, Option<u64>)>,
    i: int,
    j: int,
)
    requires
        latest.len() == contacts.len(),
        0 <= i < j < contacts.len(),
    ensures
        ({
            let listed = ordering::stable_sorted(
                activities(contacts, latest),
                ordering::by_rank_descending(activity_rank()),
            );
            &&& listed.len() == contacts.len()
            &&& listed.to_multiset() == activities(contacts, latest).to_multiset()
            &&& listed[j].has_messages ==> listed[i].has_messages
            &&& listed[i].has_messages == listed[j].has_messages ==> {
                &&& listed[j].last_activity is Some ==> listed[i].last_activity is Some
                &&& listed[j].last_activity matches Some(t) ==> listed[i].last_activity->0 >= t
            }
        }),
{
    let all = activities(contacts, latest);
    let leq = ordering::by_rank_descending(activity_rank());
    let listed = ordering::stable_sorted(all, leq);
    ordering::stable_sort_orders(all, leq);
    ordering::stable_sort_keeps_items(all, leq);
    assert(leq(listed[i], listed[j]));
}

/// Each contact's activity is made of the times that were found for that contact.
pub proof fn activities_stay_with_their_contact(
    contacts: Seq<EstablishedContactRefs>,
    latest: Seq<(Option<u64>, Option<u64>)>,
    i: int,
)
    requires
        latest.len() == contacts.len(),
        0 <= i < contacts.len(),
    ensures
        activities(contacts, latest).len() == contacts.len(),
        activities(contacts, latest)[i] == activity_of(contacts[i], latest[i].0, latest[i].1),
{
}

} // verus!
