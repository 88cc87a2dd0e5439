//! The 36-byte memos of shielded transfers: a tag that says what the transfer
//! is for, then what it refers to.

use vstd::prelude::*;

use crate::model::identifier::Identifier;
use crate::orchardpay::encryption;

verus! {

/// The memo of a transfer that signals a contact anchor: `OPA1`.
pub const MEMO_TAG_ANCHOR: [u8; 4] = [0x4f, 0x50, 0x41, 0x31];

/// The memo of a transfer that belongs to a payment or a request: `OPP1`.
pub const MEMO_TAG_PAYMENT: [u8; 4] = [0x4f, 0x50, 0x50, 0x31];

/// The memo of a payment without a document: `OPP2`.
pub const MEMO_TAG_SILENT_PAYMENT: [u8; 4] = [0x4f, 0x50, 0x50, 0x32];

/// Where a silent payment's memo holds its time.
pub const OPP2_TIMESTAMP_OFFSET: usize = 4;

/// Where a silent payment's memo holds its authentication code.
pub const OPP2_MAC_OFFSET: usize = 8;

/// The tag, then the identifier of the document.
pub fn document_memo(tag: [u8; 4], document_id: &Identifier) -> (memo: [u8; 36])
    ensures
        memo@ == tag@ + document_id@,
{
    let mut memo: [u8; 36] = [0;36];
    let mut i: usize = 0;
    while i < 4
        invariant
            i <= 4,
            forall|j: int| 0 <= j < i ==> memo@[j] == tag@[j],
        decreases 4 - i,
    {
        memo[i] = tag[i];
        i = i + 1;
    }
    let mut k: usize = 0;
    while k < 32
        invariant
            k <= 32,
            forall|j: int| 0 <= j < 4 ==> memo@[j] == tag@[j],
            forall|j: int| 4 <= j < 4 + k ==> memo@[j] == document_id@[j - 4],
        decreases 32 - k,
    {
        memo[4 + k] = document_id[k];
        k = k + 1;
    }
    assert(memo@ =~= tag@ + document_id@);
    memo
}

/// What the memo of a silent payment holds.
pub open spec fn silent_memo(timestamp: u32, mac: Seq<u8>) -> Seq<u8> {
    MEMO_TAG_SILENT_PAYMENT@ + encryption::be_bytes(timestamp) + mac
}

/// The tag, the time in big-endian, then the authentication code.
pub fn silent_payment_memo(timestamp: u32, mac: &[u8; 28]) -> (memo: [u8; 36])
    ensures
        memo@ == silent_memo(timestamp, mac@),
{
    let time: [u8; 4] = encryption::to_be_bytes(timestamp);
    let tag: [u8; 4] = MEMO_TAG_SILENT_PAYMENT;
    let mut memo: [u8; 36] = [0;36];
    let mut i: usize = 0;
    while i < 4
        invariant
            i <= 4,
            forall|j: int| 0 <= j < i ==> memo@[j] == tag@[j],
            forall|j: int| 4 <= j < 4 + i ==> memo@[j] == time@[j - 4],
        decreases 4 - i,
    {
        memo[i] = tag[i];
        memo[OPP2_TIMESTAMP_OFFSET + i] = time[i];
        i = i + 1;
    }
    let mut k: usize = 0;
    while k < 28
        invariant
            k <= 28,
            forall|j: int| 0 <= j < 4 ==> memo@[j] == tag@[j],
            forall|j: int| 4 <= j < 8 ==> memo@[j] == time@[j - 4],
            forall|j: int| 8 <= j < 8 + k ==> memo@[j] == mac@[j - 8],
        decreases 28 - k,
    {
        memo[OPP2_MAC_OFFSET + k] = mac[k];
        k = k + 1;
    }
    assert(memo@ =~= silent_memo(timestamp, mac@));
    memo
}

/// The memo of a transfer that says nothing.
pub open spec fn empty_memo() -> Seq<u8> {
    Seq::new(36, |i: int| 0u8)
}

/// The three kinds of memo and the empty one are told apart by their first four
/// bytes, whatever follows the tag.
pub proof fn memo_kinds_are_disjoint(
    anchor: Identifier,
    payment: Identifier,
    timestamp: u32,
    mac: Seq<u8>,
)
    ensures
        (MEMO_TAG_ANCHOR@ + anchor@).take(4) == MEMO_TAG_ANCHOR@,
        (MEMO_TAG_PAYMENT@ + payment@).take(4) == MEMO_TAG_PAYMENT@,
        silent_memo(timestamp, mac).take(4) == MEMO_TAG_SILENT_PAYMENT@,
        MEMO_TAG_ANCHOR@ != MEMO_TAG_PAYMENT@,
        MEMO_TAG_ANCHOR@ != MEMO_TAG_SILENT_PAYMENT@,
        MEMO_TAG_PAYMENT@ != MEMO_TAG_SILENT_PAYMENT@,
        empty_memo().take(4) != MEMO_TAG_ANCHOR@,
        empty_memo().take(4) != MEMO_TAG_PAYMENT@,
        empty_memo().take(4) != MEMO_TAG_SILENT_PAYMENT@,
{
    assert((MEMO_TAG_ANCHOR@ + anchor@).take(4) =~= MEMO_TAG_ANCHOR@);
    assert((MEMO_TAG_PAYMENT@ + payment@).take(4) =~= MEMO_TAG_PAYMENT@);
    assert(silent_memo(timestamp, mac).take(4) =~= MEMO_TAG_SILENT_PAYMENT@);
    assert(MEMO_TAG_ANCHOR@[2] != MEMO_TAG_PAYMENT@[2]);
    assert(MEMO_TAG_ANCHOR@[2] != MEMO_TAG_SILENT_PAYMENT@[2]);
    assert(MEMO_TAG_PAYMENT@[3] != MEMO_TAG_SILENT_PAYMENT@[3]);
    assert(empty_memo().take(4)[0] == 0);
}

/// The memo of a document's transfer gives the document back.
pub proof fn document_memo_names_its_document(tag: [u8; 4], document_id: Identifier)
    ensures
        (tag@ + document_id@).skip(4) == document_id@,
{
    assert((tag@ + document_id@).skip(4) =~= document_id@);
}

/// The memo of a silent payment gives its time and its authentication code back.
pub proof fn silent_memo_reads_back(timestamp: u32, mac: Seq<u8>)
    ensures
        encryption::spelled_by(
            silent_memo(timestamp, mac).subrange(
                OPP2_TIMESTAMP_OFFSET as int,
                OPP2_MAC_OFFSET as int,
            ),
        ) == timestamp,
        silent_memo(timestamp, mac).skip(OPP2_MAC_OFFSET as int) == mac,
{
    let memo = silent_memo(timestamp, mac);
    assert(memo.subrange(4, 8) =~= encryption::be_bytes(timestamp));
    assert(memo.skip(8) =~= mac);
    encryption::be_bytes_round_trip(timestamp);
}

/// The tags read `OPA1`, `OPP1` and `OPP2`.
pub proof fn tags_are_spelled_in_ascii()
    ensures
        MEMO_TAG_ANCHOR@ == seq!['O' as u8, 'P' as u8, 'A' as u8, '1' as u8],
        MEMO_TAG_PAYMENT@ == seq!['O' as u8, 'P' as u8, 'P' as u8, '1' as u8],
        MEMO_TAG_SILENT_PAYMENT@ == seq!['O' as u8, 'P' as u8, 'P' as u8, '2' as u8],
{
    assert(MEMO_TAG_ANCHOR@ =~= seq!['O' as u8, 'P' as u8, 'A' as u8, '1' as u8]);
    assert(MEMO_TAG_PAYMENT@ =~= seq!['O' as u8, 'P' as u8, 'P' as u8, '1' as u8]);
    assert(MEMO_TAG_SILENT_PAYMENT@ =~= seq!['O' as u8, 'P' as u8, 'P' as u8, '2' as u8]);
}

/// A memo has 36 bytes. That of a silent payment holds the tag, then the time with
/// its most significant byte first, then the code; the empty one holds zeros alone.
pub proof fn memos_have_their_places(timestamp: u32, mac: Seq<u8>, i: int)
    requires
        mac.len() == 28,
        0 <= i < 36,
    ensures
        silent_memo(timestamp, mac).len() == 36,
        silent_memo(timestamp, mac)[i] == if i < 4 {
            MEMO_TAG_SILENT_PAYMENT@[i]
        } else if i == 4 {
            (timestamp / 0x100_0000) as u8
        } else if i == 5 {
            (timestamp / 0x1_0000 % 0x100) as u8
        } else if i == 6 {
            (timestamp / 0x100 % 0x100) as u8
        } else if i == 7 {
            (timestamp % 0x100) as u8
        } else {
            mac[i - 8]
        },
        empty_memo().len() == 36,
        empty_memo()[i] == 0,
{
}

} // verus!
