//! The keys that an identity needs for contact anchors, and which keys may be
//! trusted for them.

use vstd::prelude::*;

use crate::model::identifier::{same_id, Identifier};
use crate::model::orchardpay::copy_bytes;
use crate::orchardpay::errors::OrchardPayError;

verus! {

/// The document type that these keys are bound to.
pub const CONTACT_ANCHOR_DOCUMENT_TYPE: &'static str = "contactAnchor";

/// What a key is for.
#[derive(Debug, Clone, Copy, PartialEq, Eq, Structural)]
pub enum Purpose {
    Authentication,
    Encryption,
    Decryption,
    Other,
}

/// The curve or scheme of a key.
#[derive(Debug, Clone, Copy, PartialEq, Eq, Structural)]
pub enum KeyType {
    EcdsaSecp256k1,
    Other,
}

/// How sensitive a key is.
#[derive(Debug, Clone, Copy, PartialEq, Eq, Structural)]
pub enum SecurityLevel {
    Master,
    Critical,
    High,
    Medium,
}

/// What a key is restricted to.
#[derive(Debug, Clone, PartialEq, Eq)]
pub enum ContractBounds {
    SingleContract { id: Identifier },
    SingleContractDocumentType { id: Identifier, document_type_name: String },
}

/// A public key of an identity.
#[derive(Debug, Clone, PartialEq, Eq)]
pub struct IdentityKey {
    pub key_type: KeyType,
    pub purpose: Purpose,
    pub security_level: SecurityLevel,
    pub contract_bounds: Option<ContractBounds>,
    pub data: Vec<u8>,
    /// Whether the key was taken out of use.
    pub disabled: bool,
}

/// A key that an identity should carry.
#[derive(Debug, Clone, PartialEq, Eq)]
pub struct KeySpec {
    pub key_type: KeyType,
    pub purpose: Purpose,
    pub security_level: SecurityLevel,
    pub contract_bounds: Option<ContractBounds>,
}

/// The bounds are those of this contract's contact anchors.
pub open spec fn bound_to_anchors(bounds: Option<ContractBounds>, contract_id: Identifier) -> bool {
    match bounds {
        Some(ContractBounds::SingleContractDocumentType { id, document_type_name }) => id
            == contract_id && document_type_name@ == CONTACT_ANCHOR_DOCUMENT_TYPE@,
        _ => false,
    }
}

/// Whether the bounds are those of this contract's contact anchors.
fn is_bound_to_anchors(bounds: &Option<ContractBounds>, contract_id: &Identifier) -> (r: bool)
    ensures
        r == bound_to_anchors(*bounds, *contract_id),
{
    match bounds {
        Some(ContractBounds::SingleContractDocumentType { id, document_type_name }) => same_id(
            id,
            contract_id,
        ) && *document_type_name == CONTACT_ANCHOR_DOCUMENT_TYPE.to_owned(),
        _ => false,
    }
}

/// The bounds of this contract's contact anchors.
fn anchor_bounds(contract_id: Identifier) -> (bounds: Option<ContractBounds>)
    ensures
        bound_to_anchors(bounds, contract_id),
{
    Some(
        ContractBounds::SingleContractDocumentType {
            id: contract_id,
            document_type_name: CONTACT_ANCHOR_DOCUMENT_TYPE.to_owned(),
        },
    )
}

/// `spec` asks for a secp256k1 key of this purpose, bound to contact anchors.
pub open spec fn is_anchor_key_spec(
    spec_: KeySpec,
    contract_id: Identifier,
    purpose: Purpose,
) -> bool {
    &&& spec_.key_type == KeyType::EcdsaSecp256k1
    &&& spec_.purpose == purpose
    &&& spec_.security_level == SecurityLevel::Medium
    &&& bound_to_anchors(spec_.contract_bounds, contract_id)
}

/// The keys that an identity should carry for the protocol: one to encrypt and
/// one to decrypt.
pub fn default_orchardpay_key_specs(orchardpay_contract_id: Identifier) -> (specs: Vec<KeySpec>)
    ensures
        specs@.len() == 2,
        is_anchor_key_spec(specs@[0], orchardpay_contract_id, Purpose::Encryption),
        is_anchor_key_spec(specs@[1], orchardpay_contract_id, Purpose::Decryption),
{
    let mut specs: Vec<KeySpec> = Vec::new();
    specs.push(
        KeySpec {
            key_type: KeyType::EcdsaSecp256k1,
            purpose: Purpose::Encryption,
            security_level: SecurityLevel::Medium,
            contract_bounds: anchor_bounds(orchardpay_contract_id),
        },
    );
    specs.push(
        KeySpec {
            key_type: KeyType::EcdsaSecp256k1,
            purpose: Purpose::Decryption,
            security_level: SecurityLevel::Medium,
            contract_bounds: anchor_bounds(orchardpay_contract_id),
        },
    );
    specs
}

/// The key has this purpose and is bound to this contract's contact anchors.
pub open spec fn serves(key: IdentityKey, contract_id: Identifier, purpose: Purpose) -> bool {
    key.purpose == purpose && bound_to_anchors(key.contract_bounds, contract_id)
}

/// The identity has a key of this purpose bound to contact anchors.
pub open spec fn has_own_key(
    keys: Seq<IdentityKey>,
    contract_id: Identifier,
    purpose: Purpose,
) -> bool {
    exists|i: int| 0 <= i < keys.len() && serves(#[trigger] keys[i], contract_id, purpose)
}

/// `found` is the position of the first key of this purpose bound to contact anchors.
pub open spec fn is_own_key(
    keys: Seq<IdentityKey>,
    contract_id: Identifier,
    purpose: Purpose,
    found: Option<usize>,
) -> bool {
    match found {
        Some(i) => {
            &&& i < keys.len()
            &&& serves(keys[i as int], contract_id, purpose)
            &&& forall|j: int| 0 <= j < i ==> !serves(#[trigger] keys[j], contract_id, purpose)
        },
        None => !has_own_key(keys, contract_id, purpose),
    }
}

/// The position of the identity's own key of this purpose that is bound to
/// contact anchors; a key of the purpose that is not so bound does not count.
pub fn own_bounds_verified_key(
    keys: &Vec<IdentityKey>,
    orchardpay_contract_id: Identifier,
    purpose: Purpose,
) -> (found: Option<usize>)
    ensures
        is_own_key(keys@, orchardpay_contract_id, purpose, found),
{
    let mut i: usize = 0;
    while i < keys.len()
        invariant
            i <= keys@.len(),
            forall|j: int|
                0 <= j < i ==> !serves(#[trigger] keys@[j], orchardpay_contract_id, purpose),
        decreases keys@.len() - i,
    {
        if keys[i].purpose == purpose && is_bound_to_anchors(
            &keys[i].contract_bounds,
            &orchardpay_contract_id,
        ) {
            return Some(i);
        }
        i = i + 1;
    }
    None
}

/// The identity's own key of this purpose, which an operation cannot do without.
pub fn require_own_key(
    keys: &Vec<IdentityKey>,
    orchardpay_contract_id: Identifier,
    purpose: Purpose,
) -> (found: Result<usize, OrchardPayError>)
    ensures
        match found {
            Ok(i) => is_own_key(keys@, orchardpay_contract_id, purpose, Some(i)),
            Err(e) => is_own_key(keys@, orchardpay_contract_id, purpose, None) && e
                == OrchardPayError::OwnKeyMissing,
        },
{
    match own_bounds_verified_key(keys, orchardpay_contract_id, purpose) {
        Some(i) => Ok(i),
        None => Err(OrchardPayError::OwnKeyMissing),
    }
}

/// The key can sign documents: it is for authentication, in use, and not the
/// master key.
pub open spec fn signs(key: IdentityKey) -> bool {
    key.purpose == Purpose::Authentication && key.security_level != SecurityLevel::Master
        && !key.disabled
}

/// `found` is the position of the first key that can sign documents.
pub open spec fn is_signing_key(keys: Seq<IdentityKey>, found: Result<usize, OrchardPayError>) -> bool {
    match found {
        Ok(i) => {
            &&& i < keys.len()
            &&& signs(keys[i as int])
            &&& forall|j: int| 0 <= j < i ==> !signs(#[trigger] keys[j])
        },
        Err(e) => e == OrchardPayError::OwnKeyMissing && forall|j: int|
            0 <= j < keys.len() ==> !signs(#[trigger] keys[j]),
    }
}

/// The position of the first of the identity's own keys that can sign documents,
/// which an operation cannot do without.
pub fn own_signing_key(keys: &Vec<IdentityKey>) -> (found: Result<usize, OrchardPayError>)
    ensures
        is_signing_key(keys@, found),
{
    let mut i: usize = 0;
    while i < keys.len()
        invariant
            i <= keys@.len(),
            forall|j: int| 0 <= j < i ==> !signs(#[trigger] keys@[j]),
        decreases keys@.len() - i,
    {
        if keys[i].purpose == Purpose::Authentication && keys[i].security_level
            != SecurityLevel::Master && !keys[i].disabled {
            return Ok(i);
        }
        i = i + 1;
    }
    Err(OrchardPayError::OwnKeyMissing)
}

/// Where the private half of an identity's own key is to be had from.
#[derive(Debug, Clone, Copy, PartialEq, Eq, Structural)]
pub enum PrivateKeySource {
    /// It is stored with the identity.
    Stored,
    /// It is to be found among the keys derived for this identity index.
    Derived { identity_index: u32 },
}

/// Where the private key behind a shared secret is to be had from.
pub open spec fn private_key_source(stored: bool, wallet_index: Option<u32>) -> Result<
    PrivateKeySource,
    OrchardPayError,
> {
    if stored {
        Ok(PrivateKeySource::Stored)
    } else {
        match wallet_index {
            Some(identity_index) => Ok(PrivateKeySource::Derived { identity_index }),
            None => Err(OrchardPayError::OwnKeyMissing),
        }
    }
}

/// Where the private key behind a shared secret is to be had from: from storage
/// where it is `stored`, else from the wallet, where the identity has a place in
/// one.
pub fn compute_shared_secret_from_key(stored: bool, wallet_index: Option<u32>) -> (source: Result<
    PrivateKeySource,
    OrchardPayError,
>)
    ensures
        source == private_key_source(stored, wallet_index),
{
    if stored {
        return Ok(PrivateKeySource::Stored);
    }
    match wallet_index {
        Some(identity_index) => Ok(PrivateKeySource::Derived { identity_index }),
        None => Err(OrchardPayError::OwnKeyMissing),
    }
}

/// What is made of a counterparty's fetched key.
pub open spec fn accepted_key(fetched: Option<IdentityKey>, contract_id: Identifier) -> Result<
    IdentityKey,
    OrchardPayError,
> {
    match fetched {
        None => Err(OrchardPayError::CounterpartyKeyMissing),
        Some(key) => if bound_to_anchors(key.contract_bounds, contract_id) {
            Ok(key)
        } else {
            Err(OrchardPayError::CounterpartyKeyNotBound)
        },
    }
}

/// Accepts a counterparty's fetched key only if there is one and it is bound to
/// this contract's contact anchors.
pub fn fetch_bounds_verified_counterparty_key(
    fetched: Option<IdentityKey>,
    orchardpay_contract_id: Identifier,
) -> (key: Result<IdentityKey, OrchardPayError>)
    ensures
        key == accepted_key(fetched, orchardpay_contract_id),
{
    match fetched {
        None => Err(OrchardPayError::CounterpartyKeyMissing),
        Some(key) => if is_bound_to_anchors(&key.contract_bounds, &orchardpay_contract_id) {
            Ok(key)
        } else {
            Err(OrchardPayError::CounterpartyKeyNotBound)
        },
    }
}

/// What is to be done so that an identity has its keys.
#[derive(Debug, Clone, PartialEq, Eq)]
pub enum OwnKeysPlan {
    /// Both keys are there.
    Complete,
    /// Keys of these purposes are to be derived for this identity index and added
    /// in one update. None of `already_registered` may be derived again.
    Generate { identity_index: u32, purposes: Vec<Purpose>, already_registered: Vec<Vec<u8>> },
}

/// The purposes for which the identity has no key yet, encryption first.
pub open spec fn missing_purposes(keys: Seq<IdentityKey>, contract_id: Identifier) -> Seq<Purpose> {
    (if has_own_key(keys, contract_id, Purpose::Encryption) {
        Seq::empty()
    } else {
        seq![Purpose::Encryption]
    }) + (if has_own_key(keys, contract_id, Purpose::Decryption) {
        Seq::empty()
    } else {
        seq![Purpose::Decryption]
    })
}

/// Decides which of its two keys an identity still needs. Without a wallet index
/// nothing can be derived.
pub fn ensure_own_orchardpay_keys(
    keys: &Vec<IdentityKey>,
    wallet_index: Option<u32>,
    orchardpay_contract_id: Identifier,
) -> (plan: Result<OwnKeysPlan, OrchardPayError>)
    ensures
        missing_purposes(keys@, orchardpay_contract_id).len() == 0 ==> plan == Ok::<
            OwnKeysPlan,
            OrchardPayError,
        >(OwnKeysPlan::Complete),
        missing_purposes(keys@, orchardpay_contract_id).len() > 0 && wallet_index is None ==> plan
            == Err::<OwnKeysPlan, OrchardPayError>(OrchardPayError::OwnKeyNotDerivable),
        missing_purposes(keys@, orchardpay_contract_id).len() > 0 && wallet_index is Some ==> {
            &&& plan matches Ok(OwnKeysPlan::Generate {
                identity_index,
                purposes,
                already_registered,
            })
            &&& identity_index == wallet_index->0
            &&& purposes@ == missing_purposes(keys@, orchardpay_contract_id)
            &&& already_registered@.len() == keys@.len()
            &&& forall|i: int|
                0 <= i < keys@.len() ==> (#[trigger] already_registered@[i])@ == keys@[i].data@
        },
{
    let has_encryption: bool = own_bounds_verified_key(
        keys,
        orchardpay_contract_id,
        Purpose::Encryption,
    ).is_some();
    let has_decryption: bool = own_bounds_verified_key(
        keys,
        orchardpay_contract_id,
        Purpose::Decryption,
    ).is_some();
    if has_encryption && has_decryption {
        return Ok(OwnKeysPlan::Complete);
    }
    match wallet_index {
        None => Err(OrchardPayError::OwnKeyNotDerivable),
        Some(identity_index) => {
            let mut already_registered: Vec<Vec<u8>> = Vec::new();
            let mut i: usize = 0;
            while i < keys.len()
                invariant
                    i <= keys@.len(),
                    already_registered@.len() == i,
                    forall|j: int|
                        0 <= j < i ==> (#[trigger] already_registered@[j])@ == keys@[j].data@,
                decreases keys@.len() - i,
            {
                already_registered.push(copy_bytes(&keys[i].data));
                i = i + 1;
            }
            let mut purposes: Vec<Purpose> = Vec::new();
            if !has_encryption {
                purposes.push(Purpose::Encryption);
            }
            if !has_decryption {
                purposes.push(Purpose::Decryption);
            }
            assert(purposes@ =~= missing_purposes(keys@, orchardpay_contract_id));
            Ok(OwnKeysPlan::Generate { identity_index, purposes, already_registered })
        },
    }
}

/// The key made of freshly derived public bytes. The bytes are noted as taken, so
/// that the next key does not use the same slot.
pub fn generate_orchardpay_key(
    already_registered: &mut Vec<Vec<u8>>,
    public_key_bytes: Vec<u8>,
    purpose: Purpose,
    orchardpay_contract_id: Identifier,
) -> (key: IdentityKey)
    ensures
        serves(key, orchardpay_contract_id, purpose),
        key.key_type == KeyType::EcdsaSecp256k1,
        key.security_level == SecurityLevel::Medium,
        key.data@ == public_key_bytes@,
        !key.disabled,
        final(already_registered)@ == old(already_registered)@.push(public_key_bytes),
{
    let data: Vec<u8> = copy_bytes(&public_key_bytes);
    already_registered.push(public_key_bytes);
    IdentityKey {
        key_type: KeyType::EcdsaSecp256k1,
        purpose,
        security_level: SecurityLevel::Medium,
        contract_bounds: anchor_bounds(orchardpay_contract_id),
        data,
        disabled: false,
    }
}

/// Once a key was added for each purpose that was missing, none is missing.
pub proof fn added_keys_complete_the_set(
    keys: Seq<IdentityKey>,
    added: Seq<IdentityKey>,
    contract_id: Identifier,
)
    requires
        added.len() == missing_purposes(keys, contract_id).len(),
        forall|i: int|
            0 <= i < added.len() ==> serves(
                #[trigger] added[i],
                contract_id,
                missing_purposes(keys, contract_id)[i],
            ),
    ensures
        missing_purposes(keys + added, contract_id).len() == 0,
{
    let all = keys + added;
    let missing = missing_purposes(keys, contract_id);
    assert forall|purpose: Purpose| purpose == Purpose::Encryption || purpose == Purpose::Decryption implies has_own_key(all, contract_id, purpose) by {
        if has_own_key(keys, contract_id, purpose) {
            let i = choose|i: int|
                0 <= i < keys.len() && serves(#[trigger] keys[i], contract_id, purpose);
            assert(all[i] == keys[i]);
        } else {
            if purpose == Purpose::Encryption {
                assert(missing[0] == Purpose::Encryption);
                assert(serves(added[0], contract_id, purpose));
                assert(all[keys.len() as int] == added[0]);
            } else {
                let k = missing.len() - 1;
                assert(missing[k] == Purpose::Decryption);
                assert(serves(added[k], contract_id, purpose));
                assert(all[keys.len() + k] == added[k]);
            }
        }
    }
    assert(has_own_key(all, contract_id, Purpose::Encryption));
    assert(has_own_key(all, contract_id, Purpose::Decryption));
}

/// A key serves a purpose only where it was made for it and is bound to the contact anchors
/// of this contract; being bound to the contract, or to another kind of document, is not
/// enough.
pub proof fn only_bound_keys_serve(key: IdentityKey, contract_id: Identifier, purpose: Purpose)
    ensures
        serves(key, contract_id, purpose) <==> key.purpose == purpose && (
        key.contract_bounds matches Some(
            ContractBounds::SingleContractDocumentType { id, document_type_name },
        ) && id == contract_id && document_type_name@ == "contactAnchor"@),
        key.contract_bounds is None ==> !serves(key, contract_id, purpose),
        key.contract_bounds matches Some(ContractBounds::SingleContract { .. }) ==> !serves(
            key,
            contract_id,
            purpose,
        ),
{
}

/// A document is signed with a key for authentication that is in use, and never with the
/// master key.
pub proof fn master_keys_do_not_sign(key: IdentityKey)
    ensures
        signs(key) <==> key.purpose == Purpose::Authentication && !key.disabled && (
        key.security_level == SecurityLevel::Critical || key.security_level == SecurityLevel::High
            || key.security_level == SecurityLevel::Medium),
{
}

/// A counterparty's key is taken only where there is one that is bound to the contact
/// anchors of this contract, and is then taken as it is.
pub proof fn unbound_keys_are_refused(fetched: Option<IdentityKey>, contract_id: Identifier)
    ensures
        accepted_key(fetched, contract_id) matches Ok(key) ==> fetched == Some(key) && (
        key.contract_bounds matches Some(
            ContractBounds::SingleContractDocumentType { id, document_type_name },
        ) && id == contract_id && document_type_name@ == "contactAnchor"@),
        fetched is None <==> accepted_key(fetched, contract_id) == Err::<
            IdentityKey,
            OrchardPayError,
        >(OrchardPayError::CounterpartyKeyMissing),
        fetched is Some && serves(fetched->0, contract_id, fetched->0.purpose)
            ==> accepted_key(fetched, contract_id) is Ok,
        fetched is Some && !serves(fetched->0, contract_id, fetched->0.purpose) ==> accepted_key(
            fetched,
            contract_id,
        ) == Err::<IdentityKey, OrchardPayError>(OrchardPayError::CounterpartyKeyNotBound),
{
}

/// A private key that is stored is used from there; otherwise it is derived at the
/// identity's place in the wallet, without which it is not to be had.
pub proof fn stored_keys_come_first(stored: bool, wallet_index: Option<u32>)
    ensures
        stored ==> private_key_source(stored, wallet_index) == Ok::<
            PrivateKeySource,
            OrchardPayError,
        >(PrivateKeySource::Stored),
        !stored ==> (private_key_source(stored, wallet_index) is Ok <==> wallet_index is Some),
        !stored && wallet_index is Some ==> private_key_source(stored, wallet_index) == Ok::<
            PrivateKeySource,
            OrchardPayError,
        >(PrivateKeySource::Derived { identity_index: wallet_index->0 }),
        !stored && wallet_index is None ==> private_key_source(stored, wallet_index) == Err::<
            PrivateKeySource,
            OrchardPayError,
        >(OrchardPayError::OwnKeyMissing),
{
}

/// Exactly the purposes are missing that no key serves, encryption before decryption, each
/// once.
pub proof fn missing_is_what_no_key_serves(keys: Seq<IdentityKey>, contract_id: Identifier)
    ensures
        ({
            let missing = missing_purposes(keys, contract_id);
            &&& missing.contains(Purpose::Encryption) <==> forall|i: int|
                0 <= i < keys.len() ==> !serves(
                    #[trigger] keys[i],
                    contract_id,
                    Purpose::Encryption,
                )
            &&& missing.contains(Purpose::Decryption) <==> forall|i: int|
                0 <= i < keys.len() ==> !serves(
                    #[trigger] keys[i],
                    contract_id,
                    Purpose::Decryption,
                )
            &&& !missing.contains(Purpose::Authentication) && !missing.contains(Purpose::Other)
            &&& missing.len() <= 2
            &&& missing.len() == 2 ==> missing[0] == Purpose::Encryption && missing[1]
                == Purpose::Decryption
        }),
{
    let missing = missing_purposes(keys, contract_id);
    if !has_own_key(keys, contract_id, Purpose::Encryption) {
        assert(missing[0] == Purpose::Encryption);
    }
    if !has_own_key(keys, contract_id, Purpose::Decryption) {
        assert(missing[missing.len() - 1] == Purpose::Decryption);
    }
}

/// The keys that an identity should carry would serve it: whatever is made after such a
/// description is bound to the contact anchors of this contract.
pub proof fn described_keys_serve(
    description: KeySpec,
    key: IdentityKey,
    contract_id: Identifier,
    purpose: Purpose,
)
    requires
        is_anchor_key_spec(description, contract_id, purpose),
        key.purpose == description.purpose,
        key.contract_bounds == description.contract_bounds,
    ensures
        serves(key, contract_id, purpose),
        description.key_type == KeyType::EcdsaSecp256k1,
        description.security_level == SecurityLevel::Medium,
{
}

/// Wherever a key serves one is found, the first of them; none is found only where
/// none serves.
pub proof fn the_first_key_that_serves_is_found(
    keys: Seq<IdentityKey>,
    contract_id: Identifier,
    purpose: Purpose,
    found: Option<usize>,
    k: int,
)
    requires
        is_own_key(keys, contract_id, purpose, found),
        0 <= k < keys.len(),
        serves(keys[k], contract_id, purpose),
    ensures
        found is Some,
        found->0 <= k,
        serves(keys[found->0 as int], contract_id, purpose),
{
}

/// A document is signed with the first key that can, and with none only where none
/// can.
pub proof fn the_first_key_that_signs_is_found(
    keys: Seq<IdentityKey>,
    found: Result<usize, OrchardPayError>,
    k: int,
)
    requires
        is_signing_key(keys, found),
        0 <= k < keys.len(),
        signs(keys[k]),
    ensures
        found is Ok,
        found->Ok_0 <= k,
        signs(keys[found->Ok_0 as int]),
{
}

/// Where no key can sign, that is told, and it is told nowhere else.
pub proof fn a_missing_signing_key_is_told(
    keys: Seq<IdentityKey>,
    found: Result<usize, OrchardPayError>,
    k: int,
)
    requires
        is_signing_key(keys, found),
        0 <= k < keys.len(),
        found is Err,
    ensures
        found->Err_0 == OrchardPayError::OwnKeyMissing,
        !signs(keys[k]),
{
}

} // verus!
