//! The published document that names an identity's shielded address.

use vstd::prelude::*;

use crate::model::identifier::Identifier;
use crate::orchardpay::errors::{OrchardPayError, OrchardPayTaskError};

verus! {

/// The document type of published addresses.
pub const SHIELDED_ADDRESS_DOCUMENT_TYPE: &'static str = "shieldedAddress";

/// A published address.
#[derive(Debug, Clone, PartialEq, Eq)]
pub struct ShieldedAddressDocument {
    pub id: Identifier,
    pub owner_id: Identifier,
    /// The bytes it holds; `None` if the field is missing or holds no bytes.
    pub address: Option<Vec<u8>>,
}

/// How an identity's address is published.
#[derive(Debug, Clone, Copy, PartialEq, Eq)]
pub enum AddressPublication {
    /// As a new document, in its first revision.
    Create { owner_id: Identifier, address: [u8; 43] },
    /// In place of the one there is, as its next revision.
    Replace { document_id: Identifier, address: [u8; 43] },
}

/// How an identity's address is published.
pub open spec fn publication_of(
    owner_id: Identifier,
    own_address: Option<[u8; 43]>,
    existing: Option<ShieldedAddressDocument>,
) -> Result<AddressPublication, OrchardPayTaskError> {
    match own_address {
        None => Err(OrchardPayTaskError::ShieldedNotBound),
        Some(address) => match existing {
            None => Ok(AddressPublication::Create { owner_id, address }),
            Some(document) => Ok(AddressPublication::Replace { document_id: document.id, address }),
        },
    }
}

/// How an identity's address is published: an identity has at most one such
/// document, so that one already there is replaced. Without an address of its own
/// the wallet has nothing to publish.
pub fn publish_own_shielded_address(
    owner_id: Identifier,
    own_address: Option<[u8; 43]>,
    existing: &Option<ShieldedAddressDocument>,
) -> (publication: Result<AddressPublication, OrchardPayTaskError>)
    ensures
        publication == publication_of(owner_id, own_address, *existing),
{
    match own_address {
        None => Err(OrchardPayTaskError::ShieldedNotBound),
        Some(address) => match existing {
            None => Ok(AddressPublication::Create { owner_id, address }),
            Some(document) => Ok(AddressPublication::Replace { document_id: document.id, address }),
        },
    }
}

/// The address that an identity has published, if any.
pub open spec fn published_address(
    document: Option<ShieldedAddressDocument>,
    validated: Option<[u8; 43]>,
) -> Result<Option<[u8; 43]>, OrchardPayTaskError> {
    match document {
        None => Ok(None),
        Some(d) => if d.address is None {
            Ok(None)
        } else if validated is None {
            Err(OrchardPayTaskError::CounterpartyShieldedAddressInvalid)
        } else {
            Ok(validated)
        },
    }
}

/// The address that an identity has published, if any. `validated` is what the
/// bytes of the document stand for, where they are a valid address; bytes that are
/// none are an error, not an absence.
pub fn lookup_shielded_address(
    document: &Option<ShieldedAddressDocument>,
    validated: Option<[u8; 43]>,
) -> (address: Result<Option<[u8; 43]>, OrchardPayTaskError>)
    ensures
        address == published_address(*document, validated),
{
    match document {
        None => Ok(None),
        Some(d) => if d.address.is_none() {
            Ok(None)
        } else if validated.is_none() {
            Err(OrchardPayTaskError::CounterpartyShieldedAddressInvalid)
        } else {
            Ok(validated)
        },
    }
}

/// The address to send to.
pub open spec fn required_address(address: Option<[u8; 43]>) -> Result<[u8; 43], OrchardPayError> {
    match address {
        Some(a) => Ok(a),
        None => Err(OrchardPayError::CounterpartyKeyMissing),
    }
}

/// Nothing can be sent to somebody who has published no address.
pub fn require_address(address: Option<[u8; 43]>) -> (r: Result<[u8; 43], OrchardPayError>)
    ensures
        r == required_address(address),
{
    match address {
        Some(a) => Ok(a),
        None => Err(OrchardPayError::CounterpartyKeyMissing),
    }
}

/// An identity publishes the address it has: a new document is made exactly where
/// there is none, under the identity's own name, and otherwise the one there is gets
/// replaced. Without an address nothing is published.
pub proof fn addresses_are_published_once(
    owner_id: Identifier,
    own_address: Option<[u8; 43]>,
    existing: Option<ShieldedAddressDocument>,
)
    ensures
        publication_of(owner_id, own_address, existing) is Ok <==> own_address is Some,
        publication_of(owner_id, own_address, existing) matches Err(e) ==> e
            == OrchardPayTaskError::ShieldedNotBound,
        publication_of(owner_id, own_address, existing) matches Ok(publication) ==> {
            &&& publication is Create <==> existing is None
            &&& publication matches AddressPublication::Create { owner_id: o, address } ==> o
                == owner_id && own_address == Some(address)
            &&& publication matches AddressPublication::Replace { document_id, address } ==> {
                &&& existing matches Some(document) && document.id == document_id
                &&& own_address == Some(address)
            }
        },
{
}

/// An address that was published and holds is found; one that does not hold is an
/// error, and only what was never published is missing.
pub proof fn only_valid_addresses_are_found(
    document: Option<ShieldedAddressDocument>,
    validated: Option<[u8; 43]>,
)
    ensures
        published_address(document, validated) == Ok::<Option<[u8; 43]>, OrchardPayTaskError>(None)
            <==> (document is None || document.unwrap().address is None),
        published_address(document, validated) matches Ok(Some(address)) ==> validated == Some(
            address,
        ),
        published_address(document, validated) matches Err(e) ==> {
            &&& e == OrchardPayTaskError::CounterpartyShieldedAddressInvalid
            &&& validated is None
        },
        validated is Some ==> published_address(document, validated) is Ok,
{
}

/// One sends to the address there is, and to none where there is none.
pub proof fn missing_addresses_are_refused(address: [u8; 43])
    ensures
        required_address(Some(address)) == Ok::<[u8; 43], OrchardPayError>(address),
        required_address(None) == Err::<[u8; 43], OrchardPayError>(
            OrchardPayError::CounterpartyKeyMissing,
        ),
{
}

} // verus!
