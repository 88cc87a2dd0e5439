//! Transfers to anybody with a published shielded address, with no relationship
//! and no document.

use vstd::prelude::*;

use crate::model::identifier::Identifier;
use crate::orchardpay::contact_anchor;
use crate::orchardpay::contact_anchor::check_transfer;
use crate::orchardpay::errors::{OrchardPayError, OrchardPayTaskError};
use crate::orchardpay::memo;

verus! {

/// A transfer to make.
#[derive(Debug, Clone, Copy, PartialEq, Eq)]
pub struct DirectTransfer {
    pub amount: u64,
    pub memo: [u8; 36],
}

/// `transfer` is the transfer of this amount that says nothing, or the reason why it
/// is refused.
pub open spec fn is_direct_transfer(
    transfer: Result<DirectTransfer, OrchardPayTaskError>,
    owner_id: Identifier,
    counterparty_id: Identifier,
    amount: u64,
    minimum: u64,
) -> bool {
    match contact_anchor::transfer_refusal(owner_id, counterparty_id, amount, minimum) {
        Some(e) => transfer == Err::<DirectTransfer, OrchardPayTaskError>(e),
        None => transfer matches Ok(t) && t.amount == amount && t.memo@ == memo::empty_memo(),
    }
}

/// A transfer that says nothing, not to oneself and not below the minimum.
pub fn send_direct(
    owner_identity_id: &Identifier,
    counterparty_identity_id: &Identifier,
    amount: u64,
    minimum: u64,
) -> (transfer: Result<DirectTransfer, OrchardPayTaskError>)
    ensures
        is_direct_transfer(
            transfer,
            *owner_identity_id,
            *counterparty_identity_id,
            amount,
            minimum,
        ),
{
    match check_transfer(owner_identity_id, counterparty_identity_id, amount, minimum) {
        Err(e) => Err(e),
        Ok(()) => {
            let memo: [u8; 36] = [0;36];
            assert(memo@ =~= memo::empty_memo());
            Ok(DirectTransfer { amount, memo })
        },
    }
}

/// A direct transfer moves the amount that was named with a memo of nothing but zeros. It
/// is made to anybody but oneself, of any amount from the minimum on.
pub proof fn direct_transfers_say_nothing(
    transfer: Result<DirectTransfer, OrchardPayTaskError>,
    owner_id: Identifier,
    counterparty_id: Identifier,
    amount: u64,
    minimum: u64,
)
    requires
        is_direct_transfer(transfer, owner_id, counterparty_id, amount, minimum),
    ensures
        transfer is Ok <==> owner_id != counterparty_id && amount >= minimum,
        transfer matches Ok(t) ==> t.amount == amount && forall|i: int|
            0 <= i < 36 ==> #[trigger] t.memo@[i] == 0u8,
        owner_id == counterparty_id ==> transfer == Err::<DirectTransfer, OrchardPayTaskError>(
            OrchardPayTaskError::OrchardPay(OrchardPayError::CounterpartyKeyMissing),
        ),
        owner_id != counterparty_id && amount < minimum ==> (transfer matches Err(
            OrchardPayTaskError::AmountTooLow { source },
        ) && source.actual == amount && source.minimum == minimum),
{
    contact_anchor::only_these_transfers_are_refused(owner_id, counterparty_id, amount, minimum);
}

} // verus!
