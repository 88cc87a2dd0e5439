//! Payments to established contacts without a document: the transfer's memo alone
//! says who sent it.

use vstd::prelude::*;

use crate::model::orchardpay::SilentPaymentRecord;
use crate::model::validation::{validate_min_amount, AmountTooLowError};
use crate::orchardpay::encryption;
use crate::orchardpay::encryption::{compute_opp2_mac, derive_opp2_mac_key, opp2_memo_fingerprint};
use crate::orchardpay::errors::OrchardPayTaskError;
use crate::orchardpay::memo;
use crate::orchardpay::memo::silent_payment_memo;

verus! {

/// Why a silent payment of this amount is refused, if it is.
pub open spec fn silent_refusal(amount: u64, minimum: u64) -> Option<OrchardPayTaskError> {
    if amount < minimum {
        Some(
            OrchardPayTaskError::AmountTooLow {
                source: AmountTooLowError { actual: amount, minimum },
            },
        )
    } else {
        None
    }
}

/// Refuses a silent payment below the minimum.
pub fn check_silent_payment(amount: u64, minimum: u64) -> (r: Result<(), OrchardPayTaskError>)
    ensures
        r == match silent_refusal(amount, minimum) {
            Some(e) => Err::<(), OrchardPayTaskError>(e),
            None => Ok(()),
        },
{
    match validate_min_amount(amount, minimum) {
        Ok(()) => Ok(()),
        Err(source) => Err(OrchardPayTaskError::AmountTooLow { source }),
    }
}

/// A silent payment: the transfer to make, and what to note of it once it is made.
#[derive(Debug, Clone, PartialEq)]
pub struct SilentPayment {
    pub amount: u64,
    pub memo: [u8; 36],
    /// By what the payment is known on either side.
    pub fingerprint: String,
    pub record: SilentPaymentRecord,
}

/// Seconds as a memo holds them: a time too far off for it becomes the last one
/// that it can hold.
pub open spec fn memo_seconds(unix_seconds: u64) -> u32 {
    if unix_seconds <= u32::MAX {
        unix_seconds as u32
    } else {
        u32::MAX
    }
}

/// `payment` is the silent payment of this amount made at `unix_seconds`.
pub open spec fn is_silent_payment(
    payment: SilentPayment,
    secret: Seq<u8>,
    unix_seconds: u64,
    amount: u64,
) -> bool {
    let timestamp = memo_seconds(unix_seconds);
    let mac = encryption::opp2_mac(encryption::opp2_mac_key(secret), timestamp);
    &&& payment.amount == amount
    &&& payment.memo@ == memo::silent_memo(timestamp, mac)
    &&& payment.fingerprint@ == encryption::opp2_fingerprint(timestamp, mac)
    &&& payment.record == (SilentPaymentRecord { amount, timestamp, from_me: true })
}

/// A silent payment made at `unix_seconds`. Its memo is authenticated with a key
/// that only the two parties can derive.
pub fn send_silent_payment(shared_secret: &[u8; 32], unix_seconds: u64, amount: u64) -> (payment: SilentPayment)
    ensures
        is_silent_payment(payment, shared_secret@, unix_seconds, amount),
{
    let timestamp: u32 = if unix_seconds <= u32::MAX as u64 {
        unix_seconds as u32
    } else {
        u32::MAX
    };
    let mac_key: [u8; 32] = derive_opp2_mac_key(shared_secret);
    let mac: [u8; 28] = compute_opp2_mac(&mac_key, timestamp);
    SilentPayment {
        amount,
        memo: silent_payment_memo(timestamp, &mac),
        fingerprint: opp2_memo_fingerprint(timestamp, &mac),
        record: SilentPaymentRecord { amount, timestamp, from_me: true },
    }
}

/// A silent payment is refused exactly below the minimum, with both amounts told.
pub proof fn silent_payments_keep_the_minimum(amount: u64, minimum: u64)
    ensures
        silent_refusal(amount, minimum) is None <==> amount >= minimum,
        amount < minimum ==> (silent_refusal(amount, minimum) matches Some(
            OrchardPayTaskError::AmountTooLow { source },
        ) && source.actual == amount && source.minimum == minimum),
{
}

/// A silent payment moves the amount that was named, and its record says so, and that it
/// went out. Its memo is `OPP2`, the time in seconds as far as four bytes hold it, and a
/// code that whoever shares the secret computes for that time; by the same code it is
/// known on either side.
pub proof fn silent_payments_name_themselves(
    payment: SilentPayment,
    secret: Seq<u8>,
    unix_seconds: u64,
    amount: u64,
)
    requires
        is_silent_payment(payment, secret, unix_seconds, amount),
    ensures
        payment.amount == amount,
        payment.record.amount == amount,
        payment.record.from_me,
        payment.memo@.take(4) == seq![0x4fu8, 0x50u8, 0x50u8, 0x32u8],
        encryption::spelled_by(payment.memo@.subrange(4, 8)) == payment.record.timestamp,
        unix_seconds <= 0xffff_ffff ==> payment.record.timestamp == unix_seconds,
        unix_seconds > 0xffff_ffff ==> payment.record.timestamp == 0xffff_ffff,
        payment.memo@.skip(8) == encryption::opp2_mac(
            encryption::opp2_mac_key(secret),
            payment.record.timestamp,
        ),
        payment.fingerprint@ == encryption::opp2_fingerprint(
            payment.record.timestamp,
            payment.memo@.skip(8),
        ),
{
    let timestamp = memo_seconds(unix_seconds);
    let mac = encryption::opp2_mac(encryption::opp2_mac_key(secret), timestamp);
    memo::silent_memo_reads_back(timestamp, mac);
    assert(memo::MEMO_TAG_SILENT_PAYMENT@ =~= seq![0x4fu8, 0x50u8, 0x50u8, 0x32u8]);
    assert(payment.memo@.take(4) =~= seq![0x4fu8, 0x50u8, 0x50u8, 0x32u8]);
}

} // verus!
