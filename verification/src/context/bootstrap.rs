//! What is done for a wallet once its seed is at hand.

use vstd::prelude::*;

use crate::model::identifier::{same_id, Identifier};

verus! {

/// What a derivation path is for.
#[derive(Debug, Clone, Copy, PartialEq, Eq, Structural)]
pub enum DerivationPathReference {
    PlatformPayment,
    Other,
}

/// What is known of a wallet's addresses.
#[derive(Debug, Clone, PartialEq)]
pub struct Wallet {
    pub is_open: bool,
    /// How many addresses are known.
    pub known_addresses: usize,
    /// What each watched address is for.
    pub watched_addresses: Vec<DerivationPathReference>,
}

impl Wallet {
    /// The wallet still needs its first addresses.
    pub open spec fn spec_needs_bootstrap(self) -> bool {
        self.known_addresses == 0 || !self.watched_addresses@.contains(
            DerivationPathReference::PlatformPayment,
        )
    }
}

/// Whether a wallet still needs its first addresses: it knows none at all, or none
/// for platform payments.
pub fn wallet_needs_bootstrap(wallet: &Wallet) -> (r: bool)
    ensures
        r == wallet.spec_needs_bootstrap(),
{
    if wallet.known_addresses == 0 {
        return true;
    }
    let mut i: usize = 0;
    while i < wallet.watched_addresses.len()
        invariant
            i <= wallet.watched_addresses@.len(),
            wallet.known_addresses != 0,
            forall|j: int|
                0 <= j < i ==> #[trigger] wallet.watched_addresses@[j]
                    != DerivationPathReference::PlatformPayment,
        decreases wallet.watched_addresses@.len() - i,
    {
        if wallet.watched_addresses[i] == DerivationPathReference::PlatformPayment {
            assert(wallet.watched_addresses@.contains(wallet.watched_addresses@[i as int]));
            return false;
        }
        i = i + 1;
    }
    true
}

/// Addresses are to be derived for the wallet.
pub open spec fn derives_addresses(wallet: Wallet) -> bool {
    wallet.is_open && wallet.spec_needs_bootstrap()
}

/// Whether addresses are to be derived for a wallet with its seed at hand: not
/// while it is locked, and not where it has them.
pub fn bootstrap_wallet_addresses(wallet: &Wallet) -> (derive: bool)
    ensures
        derive == derives_addresses(*wallet),
{
    wallet.is_open && wallet_needs_bootstrap(wallet)
}

/// What is done for an open wallet with its seed at hand, one after the other.
#[derive(Debug, Clone, Copy, PartialEq, Eq, Structural)]
pub enum UnlockStep {
    /// Derive its first addresses.
    DeriveAddresses,
    /// Make it known to the network backend.
    RegisterUpstream,
    /// Make its identities known there.
    ReconcileIdentities,
    /// Bind its shielded keys.
    BindShielded,
    /// Keep its shielded address at hand.
    CacheShieldedAddress,
    /// Watch the addresses at which contacts pay.
    RegisterContactAccounts,
    /// Replace the anchor records that are due.
    ReplaceDueAnchors,
    /// Keep its authentication keys at hand.
    WarmAuthKeys,
}

/// Whether a wallet's seed is opened: only where nobody is asked for it, so not
/// for a wallet that is locked.
pub fn opens_seed(wallet: &Wallet) -> (opens: bool)
    ensures
        opens == wallet.is_open,
{
    wallet.is_open
}

/// The first step for a wallet.
pub open spec fn first_step(wallet: Option<Wallet>) -> UnlockStep {
    match wallet {
        Some(w) if w.spec_needs_bootstrap() => UnlockStep::DeriveAddresses,
        _ => UnlockStep::RegisterUpstream,
    }
}

/// The first step for a wallet whose seed was opened. `wallet` is what is known of
/// it now that the seed is at hand, if that can be read: its addresses may have
/// been derived in the meantime.
pub fn bootstrap_wallet_addresses_jit(wallet: &Option<Wallet>) -> (first: UnlockStep)
    ensures
        first == first_step(*wallet),
{
    match wallet {
        Some(w) => if wallet_needs_bootstrap(w) {
            UnlockStep::DeriveAddresses
        } else {
            UnlockStep::RegisterUpstream
        },
        None => UnlockStep::RegisterUpstream,
    }
}

/// The step after another.
pub open spec fn step_after(step: UnlockStep, succeeded: bool) -> Option<UnlockStep> {
    match step {
        UnlockStep::DeriveAddresses => Some(UnlockStep::RegisterUpstream),
        UnlockStep::RegisterUpstream => Some(UnlockStep::ReconcileIdentities),
        UnlockStep::ReconcileIdentities => Some(UnlockStep::BindShielded),
        UnlockStep::BindShielded => if succeeded {
            Some(UnlockStep::CacheShieldedAddress)
        } else {
            Some(UnlockStep::RegisterContactAccounts)
        },
        UnlockStep::CacheShieldedAddress => Some(UnlockStep::RegisterContactAccounts),
        UnlockStep::RegisterContactAccounts => Some(UnlockStep::ReplaceDueAnchors),
        UnlockStep::ReplaceDueAnchors => Some(UnlockStep::WarmAuthKeys),
        UnlockStep::WarmAuthKeys => None,
    }
}

/// The step after another. A step that failed is left for the next time and stops
/// nothing; only the address is not kept where the keys could not be bound.
pub fn next_unlock_step(step: UnlockStep, succeeded: bool) -> (next: Option<UnlockStep>)
    ensures
        next == step_after(step, succeeded),
{
    match step {
        UnlockStep::DeriveAddresses => Some(UnlockStep::RegisterUpstream),
        UnlockStep::RegisterUpstream => Some(UnlockStep::ReconcileIdentities),
        UnlockStep::ReconcileIdentities => Some(UnlockStep::BindShielded),
        UnlockStep::BindShielded => if succeeded {
            Some(UnlockStep::CacheShieldedAddress)
        } else {
            Some(UnlockStep::RegisterContactAccounts)
        },
        UnlockStep::CacheShieldedAddress => Some(UnlockStep::RegisterContactAccounts),
        UnlockStep::RegisterContactAccounts => Some(UnlockStep::ReplaceDueAnchors),
        UnlockStep::ReplaceDueAnchors => Some(UnlockStep::WarmAuthKeys),
        UnlockStep::WarmAuthKeys => None,
    }
}

/// The steps that are taken from `step` on, where the outcome of the n-th of them
/// is `outcomes(n)`.
pub open spec fn steps_from(step: UnlockStep, outcomes: spec_fn(nat) -> bool, n: nat) -> Seq<
    UnlockStep,
>
    decreases 8 - n,
{
    if n >= 8 {
        Seq::empty()
    } else {
        match step_after(step, outcomes(n)) {
            None => seq![step],
            Some(next) => seq![step] + steps_from(next, outcomes, n + 1),
        }
    }
}

/// Every step but the derivation of addresses; the address is kept where the keys
/// are `bound`.
pub open spec fn usual_steps(bound: bool) -> Seq<UnlockStep> {
    seq![
        UnlockStep::RegisterUpstream,
        UnlockStep::ReconcileIdentities,
        UnlockStep::BindShielded,
    ] + (if bound {
        seq![UnlockStep::CacheShieldedAddress]
    } else {
        Seq::empty()
    }) + seq![
        UnlockStep::RegisterContactAccounts,
        UnlockStep::ReplaceDueAnchors,
        UnlockStep::WarmAuthKeys,
    ]
}

/// Whatever fails, every step is taken but the keeping of an address that could
/// not be bound, whether or not addresses are derived first.
pub proof fn failures_stop_nothing(outcomes: spec_fn(nat) -> bool)
    ensures
        steps_from(UnlockStep::RegisterUpstream, outcomes, 0) == usual_steps(outcomes(2)),
        steps_from(UnlockStep::DeriveAddresses, outcomes, 0) == seq![UnlockStep::DeriveAddresses]
            + usual_steps(outcomes(3)),
{
    reveal_with_fuel(steps_from, 9);
    assert(steps_from(UnlockStep::RegisterUpstream, outcomes, 0) =~= usual_steps(outcomes(2)));
    assert(steps_from(UnlockStep::DeriveAddresses, outcomes, 0) =~= seq![
        UnlockStep::DeriveAddresses,
    ] + usual_steps(outcomes(3)));
}

/// The identities with a place in the wallet, in order.
pub open spec fn with_index(identities: Seq<(Identifier, Option<u32>)>) -> Seq<(Identifier, u32)>
    decreases identities.len(),
{
    if identities.len() == 0 {
        Seq::empty()
    } else {
        let before = with_index(identities.drop_last());
        match identities.last().1 {
            None => before,
            Some(index) => before.push((identities.last().0, index)),
        }
    }
}

/// The identities that are to be made known to the network backend: those with a
/// place in the wallet.
pub fn reconcile_managed_identities(identities: &Vec<(Identifier, Option<u32>)>) -> (managed: Vec<
    (Identifier, u32),
>)
    ensures
        managed@ == with_index(identities@),
{
    let mut managed: Vec<(Identifier, u32)> = Vec::new();
    let mut i: usize = 0;
    while i < identities.len()
        invariant
            i <= identities@.len(),
            managed@ == with_index(identities@.take(i as int)),
        decreases identities@.len() - i,
    {
        assert(identities@.take(i + 1).drop_last() =~= identities@.take(i as int));
        if let Some(index) = identities[i].1 {
            managed.push((identities[i].0, index));
        }
        i = i + 1;
    }
    assert(identities@.take(i as int) =~= identities@);
    managed
}

/// A contact as it is kept, with the bytes of its identifier.
#[derive(Debug, Clone, PartialEq)]
pub struct StoredContact {
    pub accepted: bool,
    pub contact_identity_id: Vec<u8>,
}

/// A local identity with its contacts.
#[derive(Debug, Clone, PartialEq)]
pub struct IdentityContacts {
    pub owner_id: Identifier,
    /// The wallet that pays for the identity, if it has one.
    pub wallet_seed_hash: Option<[u8; 32]>,
    pub contacts: Vec<StoredContact>,
}

/// The contacts that were accepted and have a proper identifier.
pub open spec fn accepted_ids(contacts: Seq<StoredContact>) -> Seq<Seq<u8>>
    decreases contacts.len(),
{
    if contacts.len() == 0 {
        Seq::empty()
    } else {
        let before = accepted_ids(contacts.drop_last());
        let contact = contacts.last();
        if contact.accepted && contact.contact_identity_id@.len() == 32 {
            before.push(contact.contact_identity_id@)
        } else {
            before
        }
    }
}

/// Each owner of this wallet with each of its accepted contacts.
pub open spec fn contact_pairs(identities: Seq<IdentityContacts>, seed_hash: [u8; 32]) -> Seq<
    (Seq<u8>, Seq<u8>),
>
    decreases identities.len(),
{
    if identities.len() == 0 {
        Seq::empty()
    } else {
        let before = contact_pairs(identities.drop_last(), seed_hash);
        let identity = identities.last();
        if identity.wallet_seed_hash == Some(seed_hash) {
            before + accepted_ids(identity.contacts@).map_values(
                |id: Seq<u8>| (identity.owner_id@, id),
            )
        } else {
            before
        }
    }
}

fn to_identifier(bytes: &Vec<u8>) -> (id: Option<Identifier>)
    ensures
        match id {
            Some(i) => i@ == bytes@,
            None => bytes@.len() != 32,
        },
{
    if bytes.len() != 32 {
        return None;
    }
    let mut id: Identifier = [0;32];
    let mut i: usize = 0;
    while i < 32
        invariant
            i <= 32,
            bytes@.len() == 32,
            forall|j: int| 0 <= j < i ==> id@[j] == bytes@[j],
        decreases 32 - i,
    {
        id[i] = bytes[i];
        i = i + 1;
    }
    assert(id@ =~= bytes@);
    Some(id)
}

/// The views of pairs of identifiers.
pub open spec fn pair_views(pairs: Seq<(Identifier, Identifier)>) -> Seq<(Seq<u8>, Seq<u8>)> {
    pairs.map_values(|p: (Identifier, Identifier)| (p.0@, p.1@))
}

/// Each local identity of this wallet with each of its accepted contacts.
pub fn established_contact_pairs(identities: &Vec<IdentityContacts>, seed_hash: &[u8; 32]) -> (pairs: Vec<
    (Identifier, Identifier),
>)
    ensures
        pair_views(pairs@) == contact_pairs(identities@, *seed_hash),
{
    let mut pairs: Vec<(Identifier, Identifier)> = Vec::new();
    let mut i: usize = 0;
    assert(pair_views(pairs@) =~= contact_pairs(identities@.take(0), *seed_hash));
    while i < identities.len()
        invariant
            i <= identities@.len(),
            pair_views(pairs@) == contact_pairs(identities@.take(i as int), *seed_hash),
        decreases identities@.len() - i,
    {
        assert(identities@.take(i + 1).drop_last() =~= identities@.take(i as int));
        let ours: bool = match &identities[i].wallet_seed_hash {
            None => false,
            Some(hash) => same_id(hash, seed_hash),
        };
        if ours {
            let owner_id: Identifier = identities[i].owner_id;
            let contacts: &Vec<StoredContact> = &identities[i].contacts;
            let ghost before = pair_views(pairs@);
            let ghost paired = |id: Seq<u8>| (owner_id@, id);
            let mut j: usize = 0;
            assert(before + accepted_ids(contacts@.take(0)).map_values(paired) =~= before);
            while j < contacts.len()
                invariant
                    j <= contacts@.len(),
                    paired == (|id: Seq<u8>| (owner_id@, id)),
                    pair_views(pairs@) == before + accepted_ids(
                        contacts@.take(j as int),
                    ).map_values(paired),
                decreases contacts@.len() - j,
            {
                let ghost done = contacts@.take(j as int);
                let ghost more = contacts@.take(j + 1);
                let ghost views = pair_views(pairs@);
                assert(more.drop_last() =~= done);
                if contacts[j].accepted {
                    if let Some(id) = to_identifier(&contacts[j].contact_identity_id) {
                        pairs.push((owner_id, id));
                        proof {
                            assert(pair_views(pairs@) =~= views.push((owner_id@, id@)));
                            assert(accepted_ids(more) == accepted_ids(done).push(id@));
                            assert(accepted_ids(more).map_values(paired) =~= accepted_ids(
                                done,
                            ).map_values(paired).push((owner_id@, id@)));
                            assert(pair_views(pairs@) =~= before + accepted_ids(more).map_values(
                                paired,
                            ));
                        }
                    }
                }
                j = j + 1;
            }
            assert(contacts@.take(j as int) =~= contacts@);
        }
        i = i + 1;
    }
    assert(identities@.take(i as int) =~= identities@);
    pairs
}

/// The pair is among those kept.
pub open spec fn is_cached(cached: Seq<(u32, u32)>, identity_index: u32, key_index: u32) -> bool {
    cached.contains((identity_index, key_index))
}

/// The keys of one identity that are not kept yet, in order.
pub open spec fn missing_keys(
    cached: Seq<(u32, u32)>,
    identity_index: u32,
    key_count: nat,
) -> Seq<(u32, u32)>
    decreases key_count,
{
    if key_count == 0 {
        Seq::empty()
    } else {
        let before = missing_keys(cached, identity_index, (key_count - 1) as nat);
        if is_cached(cached, identity_index, (key_count - 1) as u32) {
            before
        } else {
            before.push((identity_index, (key_count - 1) as u32))
        }
    }
}

/// The keys of these identities that are not kept yet, in order.
pub open spec fn keys_to_warm(
    cached: Seq<(u32, u32)>,
    identity_indices: Seq<u32>,
    key_count: u32,
) -> Seq<(u32, u32)>
    decreases identity_indices.len(),
{
    if identity_indices.len() == 0 {
        Seq::empty()
    } else {
        keys_to_warm(cached, identity_indices.drop_last(), key_count) + missing_keys(
            cached,
            identity_indices.last(),
            key_count as nat,
        )
    }
}

fn find_cached(cached: &Vec<(u32, u32)>, identity_index: u32, key_index: u32) -> (r: bool)
    ensures
        r == is_cached(cached@, identity_index, key_index),
{
    let mut i: usize = 0;
    while i < cached.len()
        invariant
            i <= cached@.len(),
            forall|j: int| 0 <= j < i ==> #[trigger] cached@[j] != (identity_index, key_index),
        decreases cached@.len() - i,
    {
        if cached[i].0 == identity_index && cached[i].1 == key_index {
            assert(cached@[i as int] == (identity_index, key_index));
            return true;
        }
        i = i + 1;
    }
    false
}

/// The authentication keys to derive: the first `key_count` of each identity that
/// are not kept yet.
pub fn warm_auth_pubkey_cache(
    cached: &Vec<(u32, u32)>,
    identity_indices: &Vec<u32>,
    key_count: u32,
) -> (missing: Vec<(u32, u32)>)
    ensures
        missing@ == keys_to_warm(cached@, identity_indices@, key_count),
{
    let mut missing: Vec<(u32, u32)> = Vec::new();
    let mut i: usize = 0;
    while i < identity_indices.len()
        invariant
            i <= identity_indices@.len(),
            missing@ == keys_to_warm(cached@, identity_indices@.take(i as int), key_count),
        decreases identity_indices@.len() - i,
    {
        assert(identity_indices@.take(i + 1).drop_last() =~= identity_indices@.take(i as int));
        let identity_index: u32 = identity_indices[i];
        let ghost before = missing@;
        let mut key_index: u32 = 0;
        assert(before + missing_keys(cached@, identity_index, 0) =~= before);
        while key_index < key_count
            invariant
                key_index <= key_count,
                missing@ == before + missing_keys(cached@, identity_index, key_index as nat),
            decreases key_count - key_index,
        {
            if !find_cached(cached, identity_index, key_index) {
                let ghost so_far = missing@;
                missing.push((identity_index, key_index));
                assert(missing@ =~= before + missing_keys(
                    cached@,
                    identity_index,
                    (key_index + 1) as nat,
                ));
            }
            key_index = key_index + 1;
        }
        i = i + 1;
    }
    assert(identity_indices@.take(i as int) =~= identity_indices@);
    missing
}

/// The search for identities starts now.
pub open spec fn starts_discovery(fired: bool, open_wallets: nat) -> bool {
    !fired && open_wallets > 0
}

/// Whether the search for identities of all open wallets starts now: once in a
/// session at most, and only where a wallet is open.
pub fn queue_all_wallets_identity_discovery(fired: &mut bool, open_wallets: usize) -> (start: bool)
    ensures
        *final(fired),
        start == starts_discovery(*old(fired), open_wallets as nat),
{
    if *fired {
        return false;
    }
    *fired = true;
    open_wallets > 0
}

/// What the platform says of an address.
#[derive(Debug, Clone, Copy, PartialEq, Eq)]
pub struct AddressInfo {
    pub balance: u64,
    pub nonce: u32,
}

/// The addresses of which something is said, in order.
pub open spec fn known_infos(infos: Seq<(String, Option<AddressInfo>)>) -> Seq<(String, AddressInfo)>
    decreases infos.len(),
{
    if infos.len() == 0 {
        Seq::empty()
    } else {
        let before = known_infos(infos.drop_last());
        match infos.last().1 {
            None => before,
            Some(info) => before.push((infos.last().0, info)),
        }
    }
}

/// The addresses whose balance and nonce are to be set: those of which the
/// platform says something. Of the others, what is known stays.
pub fn update_wallet_platform_address_info_from_sdk(
    infos: &Vec<(String, Option<AddressInfo>)>,
) -> (updates: Vec<(String, AddressInfo)>)
    ensures
        updates@ == known_infos(infos@),
{
    let mut updates: Vec<(String, AddressInfo)> = Vec::new();
    let mut i: usize = 0;
    while i < infos.len()
        invariant
            i <= infos@.len(),
            updates@ == known_infos(infos@.take(i as int)),
        decreases infos@.len() - i,
    {
        assert(infos@.take(i + 1).drop_last() =~= infos@.take(i as int));
        if let Some(info) = infos[i].1 {
            updates.push((infos[i].0.clone(), info));
        }
        i = i + 1;
    }
    assert(infos@.take(i as int) =~= infos@);
    updates
}

/// A wallet needs addresses where it knows none, or watches none for platform
/// payments; with one of each it needs none.
pub proof fn wallets_need_a_payment_address(wallet: Wallet)
    ensures
        wallet.known_addresses == 0 ==> wallet.spec_needs_bootstrap(),
        (forall|i: int|
            0 <= i < wallet.watched_addresses@.len() ==> !(
            #[trigger] wallet.watched_addresses@[i] is PlatformPayment))
            ==> wallet.spec_needs_bootstrap(),
        wallet.known_addresses > 0 && (exists|i: int|
            0 <= i < wallet.watched_addresses@.len()
                && #[trigger] wallet.watched_addresses@[i] is PlatformPayment)
            ==> !wallet.spec_needs_bootstrap(),
{
    if exists|i: int|
        0 <= i < wallet.watched_addresses@.len()
            && #[trigger] wallet.watched_addresses@[i] is PlatformPayment {
        let i = choose|i: int|
            0 <= i < wallet.watched_addresses@.len()
                && #[trigger] wallet.watched_addresses@[i] is PlatformPayment;
        assert(wallet.watched_addresses@[i] == DerivationPathReference::PlatformPayment);
    }
}

/// Addresses are derived only for a wallet that is open and needs them; nothing is
/// derived where the wallet cannot be read.
pub proof fn addresses_are_derived_where_needed(wallet: Wallet)
    ensures
        derives_addresses(wallet) ==> wallet.is_open && wallet.spec_needs_bootstrap(),
        wallet.is_open && wallet.spec_needs_bootstrap() ==> derives_addresses(wallet),
        first_step(None) == UnlockStep::RegisterUpstream,
        first_step(Some(wallet)) == UnlockStep::DeriveAddresses
            <==> wallet.spec_needs_bootstrap(),
        first_step(Some(wallet)) == UnlockStep::RegisterUpstream
            <==> !wallet.spec_needs_bootstrap(),
{
}

/// The steps go in one order: addresses, registration, identities, shielded keys,
/// their address, contacts, anchors, authentication keys.
pub proof fn steps_go_in_one_order(step: UnlockStep, succeeded: bool)
    ensures
        step_after(UnlockStep::DeriveAddresses, succeeded) == Some(UnlockStep::RegisterUpstream),
        step_after(UnlockStep::RegisterUpstream, succeeded) == Some(
            UnlockStep::ReconcileIdentities,
        ),
        step_after(UnlockStep::ReconcileIdentities, succeeded) == Some(UnlockStep::BindShielded),
        step_after(UnlockStep::BindShielded, true) == Some(UnlockStep::CacheShieldedAddress),
        step_after(UnlockStep::BindShielded, false) == Some(UnlockStep::RegisterContactAccounts),
        step_after(UnlockStep::CacheShieldedAddress, succeeded) == Some(
            UnlockStep::RegisterContactAccounts,
        ),
        step_after(UnlockStep::RegisterContactAccounts, succeeded) == Some(
            UnlockStep::ReplaceDueAnchors,
        ),
        step_after(UnlockStep::ReplaceDueAnchors, succeeded) == Some(UnlockStep::WarmAuthKeys),
        step_after(step, succeeded) is None <==> step == UnlockStep::WarmAuthKeys,
{
}

/// Each identity counts by itself: one with a place in the wallet is made known
/// under it, and one without is passed over.
pub proof fn identities_with_a_place_are_managed(
    before: Seq<(Identifier, Option<u32>)>,
    id: Identifier,
    index: u32,
    after: Seq<(Identifier, Option<u32>)>,
)
    ensures
        with_index(Seq::empty()) == Seq::<(Identifier, u32)>::empty(),
        with_index(before + seq![(id, Some(index))] + after) == with_index(before) + seq![
            (id, index),
        ] + with_index(after),
        with_index(before + seq![(id, None::<u32>)] + after) == with_index(before) + with_index(
            after,
        ),
    decreases after.len(),
{
    let with = before + seq![(id, Some(index))] + after;
    let without = before + seq![(id, None::<u32>)] + after;
    if after.len() == 0 {
        assert(with.drop_last() =~= before);
        assert(without.drop_last() =~= before);
        assert(with_index(with) =~= with_index(before) + seq![(id, index)] + with_index(after));
        assert(with_index(without) =~= with_index(before) + with_index(after));
    } else {
        let rest = after.drop_last();
        identities_with_a_place_are_managed(before, id, index, rest);
        assert(with.drop_last() =~= before + seq![(id, Some(index))] + rest);
        assert(without.drop_last() =~= before + seq![(id, None::<u32>)] + rest);
        assert(with.last() == after.last() && without.last() == after.last());
        assert(with_index(with) =~= with_index(before) + seq![(id, index)] + with_index(after));
        assert(with_index(without) =~= with_index(before) + with_index(after));
    }
}

proof fn lemma_accepted_id(contacts: Seq<StoredContact>, i: int)
    requires
        0 <= i < contacts.len(),
        contacts[i].accepted,
        contacts[i].contact_identity_id@.len() == 32,
    ensures
        accepted_ids(contacts).contains(contacts[i].contact_identity_id@),
    decreases contacts.len(),
{
    let before = accepted_ids(contacts.drop_last());
    if i < contacts.len() - 1 {
        lemma_accepted_id(contacts.drop_last(), i);
        let k = choose|k: int|
            0 <= k < before.len() && before[k] == contacts[i].contact_identity_id@;
        assert(accepted_ids(contacts)[k] == before[k]);
    } else {
        assert(accepted_ids(contacts)[before.len() as int] == contacts[i].contact_identity_id@);
    }
}

proof fn lemma_accepted_source(contacts: Seq<StoredContact>, k: int) -> (i: int)
    requires
        0 <= k < accepted_ids(contacts).len(),
    ensures
        0 <= i < contacts.len(),
        contacts[i].accepted,
        contacts[i].contact_identity_id@.len() == 32,
        contacts[i].contact_identity_id@ == accepted_ids(contacts)[k],
    decreases contacts.len(),
{
    let before = accepted_ids(contacts.drop_last());
    if k < before.len() {
        lemma_accepted_source(contacts.drop_last(), k)
    } else {
        contacts.len() - 1
    }
}

/// Exactly the contacts that were accepted and have an identifier of 32 bytes count.
pub proof fn accepted_contacts_count(contacts: Seq<StoredContact>, id: Seq<u8>)
    ensures
        accepted_ids(contacts).contains(id) <==> exists|i: int|
            {
                &&& 0 <= i < contacts.len()
                &&& (#[trigger] contacts[i]).accepted
                &&& contacts[i].contact_identity_id@ == id
                &&& id.len() == 32
            },
{
    if accepted_ids(contacts).contains(id) {
        let k = choose|k: int| 0 <= k < accepted_ids(contacts).len() && accepted_ids(contacts)[k] == id;
        let i = lemma_accepted_source(contacts, k);
        assert(contacts[i].accepted);
    }
    if exists|i: int|
        {
            &&& 0 <= i < contacts.len()
            &&& (#[trigger] contacts[i]).accepted
            &&& contacts[i].contact_identity_id@ == id
            &&& id.len() == 32
        } {
        let i = choose|i: int|
            {
                &&& 0 <= i < contacts.len()
                &&& (#[trigger] contacts[i]).accepted
                &&& contacts[i].contact_identity_id@ == id
                &&& id.len() == 32
            };
        lemma_accepted_id(contacts, i);
    }
}

/// Each identity counts by itself: one of this wallet is paired with each of its
/// accepted contacts, and one of another wallet, or of none, with nobody.
pub proof fn owners_are_paired_with_their_contacts(
    before: Seq<IdentityContacts>,
    identity: IdentityContacts,
    seed_hash: [u8; 32],
    k: int,
)
    requires
        0 <= k < accepted_ids(identity.contacts@).len(),
    ensures
        contact_pairs(Seq::empty(), seed_hash).len() == 0,
        identity.wallet_seed_hash != Some(seed_hash) ==> contact_pairs(
            before.push(identity),
            seed_hash,
        ) == contact_pairs(before, seed_hash),
        identity.wallet_seed_hash == Some(seed_hash) ==> {
            let pairs = contact_pairs(before.push(identity), seed_hash);
            let n = contact_pairs(before, seed_hash).len();
            &&& pairs.len() == n + accepted_ids(identity.contacts@).len()
            &&& pairs.take(n as int) == contact_pairs(before, seed_hash)
            &&& pairs[n + k] == (identity.owner_id@, accepted_ids(identity.contacts@)[k])
        },
{
    assert(before.push(identity).drop_last() =~= before);
    if identity.wallet_seed_hash == Some(seed_hash) {
        let n = contact_pairs(before, seed_hash).len() as int;
        assert(contact_pairs(before.push(identity), seed_hash).take(n) =~= contact_pairs(
            before,
            seed_hash,
        ));
    }
}

proof fn lemma_missing_key(cached: Seq<(u32, u32)>, identity: u32, count: nat, key: (u32, u32))
    requires
        count <= u32::MAX,
    ensures
        missing_keys(cached, identity, count).contains(key) <==> {
            &&& key.0 == identity
            &&& key.1 < count
            &&& !cached.contains(key)
        },
    decreases count,
{
    if count > 0 {
        let before = missing_keys(cached, identity, (count - 1) as nat);
        let all = missing_keys(cached, identity, count);
        lemma_missing_key(cached, identity, (count - 1) as nat, key);
        if all.contains(key) {
            let k = choose|k: int| 0 <= k < all.len() && all[k] == key;
            if k < before.len() {
                assert(before[k] == key);
            }
        }
        if before.contains(key) {
            let k = choose|k: int| 0 <= k < before.len() && before[k] == key;
            assert(all[k] == key);
        }
        if key == (identity, (count - 1) as u32) && !cached.contains(key) {
            assert(all[before.len() as int] == key);
        }
    }
}

/// Exactly the first `key_count` keys of each identity are derived that are not kept
/// yet.
pub proof fn only_missing_keys_are_derived(
    cached: Seq<(u32, u32)>,
    identities: Seq<u32>,
    key_count: u32,
    key: (u32, u32),
)
    ensures
        keys_to_warm(cached, identities, key_count).contains(key) <==> {
            &&& identities.contains(key.0)
            &&& key.1 < key_count
            &&& !cached.contains(key)
        },
    decreases identities.len(),
{
    if identities.len() > 0 {
        let rest = identities.drop_last();
        let before = keys_to_warm(cached, rest, key_count);
        let own = missing_keys(cached, identities.last(), key_count as nat);
        let all = keys_to_warm(cached, identities, key_count);
        only_missing_keys_are_derived(cached, rest, key_count, key);
        lemma_missing_key(cached, identities.last(), key_count as nat, key);
        if all.contains(key) {
            let k = choose|k: int| 0 <= k < all.len() && all[k] == key;
            if k < before.len() {
                assert(before[k] == key);
                let i = choose|i: int| 0 <= i < rest.len() && rest[i] == key.0;
                assert(identities[i] == key.0);
            } else {
                assert(own[k - before.len()] == key);
                assert(identities[identities.len() - 1] == key.0);
            }
        }
        if before.contains(key) {
            let k = choose|k: int| 0 <= k < before.len() && before[k] == key;
            assert(all[k] == key);
        }
        if own.contains(key) {
            let k = choose|k: int| 0 <= k < own.len() && own[k] == key;
            assert(all[before.len() + k] == key);
        }
        if identities.contains(key.0) {
            let i = choose|i: int| 0 <= i < identities.len() && identities[i] == key.0;
            if i < rest.len() {
                assert(rest[i] == key.0);
            }
        }
    }
}

/// The search for identities starts where a wallet is open and it has not been
/// started before.
pub proof fn discovery_starts_once(open_wallets: nat)
    ensures
        !starts_discovery(true, open_wallets),
        starts_discovery(false, open_wallets) <==> open_wallets > 0,
{
}

/// Each address counts by itself: one of which something is said is set to that, and
/// one of which nothing is said is left alone.
pub proof fn addresses_are_set_to_what_is_said(
    before: Seq<(String, Option<AddressInfo>)>,
    address: String,
    info: AddressInfo,
    after: Seq<(String, Option<AddressInfo>)>,
)
    ensures
        known_infos(Seq::empty()) == Seq::<(String, AddressInfo)>::empty(),
        known_infos(before + seq![(address, Some(info))] + after) == known_infos(before) + seq![
            (address, info),
        ] + known_infos(after),
        known_infos(before + seq![(address, None::<AddressInfo>)] + after) == known_infos(before)
            + known_infos(after),
    decreases after.len(),
{
    let with = before + seq![(address, Some(info))] + after;
    let without = before + seq![(address, None::<AddressInfo>)] + after;
    if after.len() == 0 {
        assert(with.drop_last() =~= before);
        assert(without.drop_last() =~= before);
        assert(known_infos(with) =~= known_infos(before) + seq![(address, info)] + known_infos(
            after,
        ));
        assert(known_infos(without) =~= known_infos(before) + known_infos(after));
    } else {
        let rest = after.drop_last();
        addresses_are_set_to_what_is_said(before, address, info, rest);
        assert(with.drop_last() =~= before + seq![(address, Some(info))] + rest);
        assert(without.drop_last() =~= before + seq![(address, None::<AddressInfo>)] + rest);
        assert(with.last() == after.last() && without.last() == after.last());
        assert(known_infos(with) =~= known_infos(before) + seq![(address, info)] + known_infos(
            after,
        ));
        assert(known_infos(without) =~= known_infos(before) + known_infos(after));
    }
}

} // verus!
