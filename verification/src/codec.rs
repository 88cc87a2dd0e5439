//! The calls into the binary encoder.
//!
//! A record is encoded as the tuple of its fields, an enum as the tuple of its
//! variant's index and that variant's fields: the encoder writes fields one
//! after the other and knows nothing of names. Nothing in this file is proved:
//! each function makes one call of `bincode::serde::encode_to_vec` or of
//! `bincode::serde::borrow_decode_from_slice`, with the standard configuration.
//! A text is read in place and then copied, so that a length that goes beyond the
//! input is an error and nothing is allocated for it.

use vstd::prelude::*;

verus! {

/// Bytes that the encoder spends on an unsigned integer.
pub open spec fn varint_len(value: nat) -> nat {
    if value <= 250 {
        1
    } else if value <= 0xffff {
        3
    } else if value <= 0xffff_ffff {
        5
    } else {
        9
    }
}

/// Bytes spent on a byte string: its length, then its bytes.
pub open spec fn bytes_len(bytes: Seq<u8>) -> nat {
    varint_len(bytes.len()) + bytes.len()
}

/// Bytes spent on a text: the length of its UTF-8 form, then that form.
pub open spec fn text_len(text: Seq<char>) -> nat {
    bytes_len(vstd::utf8::encode_utf8(text))
}

/// Bytes spent on an optional byte string: a marker, then the value if any.
pub open spec fn optional_bytes_len(bytes: Option<Seq<u8>>) -> nat {
    match bytes {
        None => 1,
        Some(b) => 1 + bytes_len(b),
    }
}

/// Bytes spent on an optional text.
pub open spec fn optional_text_len(text: Option<Seq<char>>) -> nat {
    match text {
        None => 1,
        Some(t) => 1 + text_len(t),
    }
}

/// Bytes spent on an optional integer.
pub open spec fn optional_integer_len(value: Option<u64>) -> nat {
    match value {
        None => 1,
        Some(v) => 1 + varint_len(v as nat),
    }
}

/// Bytes spent on an optional 32-byte array, which carries no length.
pub open spec fn optional_id_len(id: Option<Seq<u8>>) -> nat {
    match id {
        None => 1,
        Some(_) => 33,
    }
}

/// The view of an optional byte vector.
pub open spec fn view_bytes(bytes: Option<Vec<u8>>) -> Option<Seq<u8>> {
    match bytes {
        None => None,
        Some(b) => Some(b@),
    }
}

/// The view of an optional string.
pub open spec fn view_text(text: Option<String>) -> Option<Seq<char>> {
    match text {
        None => None,
        Some(t) => Some(t@),
    }
}

/// The view of an optional 32-byte array.
pub open spec fn view_id(id: Option<[u8; 32]>) -> Option<Seq<u8>> {
    match id {
        None => None,
        Some(i) => Some(i@),
    }
}

/// The encoding of a tag and a text.
pub uninterp spec fn encoded_text(tag: u32, text: Seq<char>) -> Seq<u8>;

/// The encoding of a tag, an amount and an optional memo.
pub uninterp spec fn encoded_amount(tag: u32, amount: u64, memo: Option<Seq<char>>) -> Seq<u8>;

/// The encoding of a tag, an identifier, an amount, an optional memo and an
/// optional time.
pub uninterp spec fn encoded_receipt(
    tag: u32,
    id: Seq<u8>,
    amount: u64,
    memo: Option<Seq<char>>,
    at: Option<u64>,
) -> Seq<u8>;

/// The encoding of an identifier and three optional byte strings.
pub uninterp spec fn encoded_payload(
    id: Seq<u8>,
    a: Option<Seq<u8>>,
    b: Option<Seq<u8>>,
    c: Option<Seq<u8>>,
) -> Seq<u8>;

/// The encoding of an anchor record's nine fields.
pub uninterp spec fn encoded_record(
    counterparty: Seq<u8>,
    name: Option<Seq<char>>,
    mine: Seq<u8>,
    theirs: Option<Seq<u8>>,
    a: Option<Seq<u8>>,
    b: Option<Seq<u8>>,
    c: Option<Seq<u8>>,
    d: Option<Seq<u8>>,
    e: Option<Seq<u8>>,
) -> Seq<u8>;

/// The tag at the front of `bytes`.
pub uninterp spec fn decoded_tag(bytes: Seq<u8>) -> Option<u32>;

/// The tag and the text at the front of `bytes`.
pub uninterp spec fn decoded_text(bytes: Seq<u8>) -> Option<(u32, Seq<char>)>;

/// The tag, the amount and the memo at the front of `bytes`.
pub uninterp spec fn decoded_amount(bytes: Seq<u8>) -> Option<(u32, u64, Option<Seq<char>>)>;

/// The tag, the identifier, the amount, the memo and the time at the front of
/// `bytes`.
pub uninterp spec fn decoded_receipt(bytes: Seq<u8>) -> Option<
    (u32, Seq<u8>, u64, Option<Seq<char>>, Option<u64>),
>;

/// The identifier and the three byte strings at the front of `bytes`.
pub uninterp spec fn decoded_payload(bytes: Seq<u8>) -> Option<
    (Seq<u8>, Option<Seq<u8>>, Option<Seq<u8>>, Option<Seq<u8>>),
>;

/// The nine fields of an anchor record at the front of `bytes`.
pub uninterp spec fn decoded_record(bytes: Seq<u8>) -> Option<
    (
        Seq<u8>,
        Option<Seq<char>>,
        Seq<u8>,
        Option<Seq<u8>>,
        Option<Seq<u8>>,
        Option<Seq<u8>>,
        Option<Seq<u8>>,
        Option<Seq<u8>>,
        Option<Seq<u8>>,
    ),
>;

/// `encode_to_vec` of a tag and a text. It does not fail, its length is the sum
/// of the fields' lengths, and decoding reads both back, whatever follows.
#[verifier::external_body]
pub(crate) fn encode_text(tag: u32, text: &String) -> (bytes: Result<
    Vec<u8>,
    bincode::error::EncodeError,
>)
    requires
        varint_len(tag as nat) + text_len(text@) <= isize::MAX,
    ensures
        bytes is Ok,
        bytes->Ok_0@ == encoded_text(tag, text@),
        bytes->Ok_0@.len() == varint_len(tag as nat) + text_len(text@),
        forall|rest: Seq<u8>| #[trigger] decoded_tag(bytes->Ok_0@ + rest) == Some(tag),
        forall|rest: Seq<u8>|
            #[trigger] decoded_text(bytes->Ok_0@ + rest) == Some((tag, text@)),
{
    bincode::serde::encode_to_vec((tag, text), bincode::config::standard())
}

/// `encode_to_vec` of a tag, an amount and a memo; as for [`encode_text`].
#[verifier::external_body]
pub(crate) fn encode_amount(tag: u32, amount: u64, memo: &Option<String>) -> (bytes: Result<
    Vec<u8>,
    bincode::error::EncodeError,
>)
    requires
        varint_len(tag as nat) + varint_len(amount as nat) + optional_text_len(view_text(*memo))
            <= isize::MAX,
    ensures
        bytes is Ok,
        bytes->Ok_0@ == encoded_amount(tag, amount, view_text(*memo)),
        bytes->Ok_0@.len() == varint_len(tag as nat) + varint_len(amount as nat)
            + optional_text_len(view_text(*memo)),
        forall|rest: Seq<u8>| #[trigger] decoded_tag(bytes->Ok_0@ + rest) == Some(tag),
        forall|rest: Seq<u8>|
            #[trigger] decoded_amount(bytes->Ok_0@ + rest) == Some(
                (tag, amount, view_text(*memo)),
            ),
{
    bincode::serde::encode_to_vec((tag, amount, memo), bincode::config::standard())
}

/// `encode_to_vec` of a receipt's fields; as for [`encode_text`].
#[verifier::external_body]
pub(crate) fn encode_receipt(
    tag: u32,
    id: &[u8; 32],
    amount: u64,
    memo: &Option<String>,
    at: Option<u64>,
) -> (bytes: Result<Vec<u8>, bincode::error::EncodeError>)
    requires
        varint_len(tag as nat) + 32 + varint_len(amount as nat) + optional_text_len(
            view_text(*memo),
        ) + optional_integer_len(at) <= isize::MAX,
    ensures
        bytes is Ok,
        bytes->Ok_0@ == encoded_receipt(tag, id@, amount, view_text(*memo), at),
        bytes->Ok_0@.len() == varint_len(tag as nat) + 32 + varint_len(amount as nat)
            + optional_text_len(view_text(*memo)) + optional_integer_len(at),
        forall|rest: Seq<u8>| #[trigger] decoded_tag(bytes->Ok_0@ + rest) == Some(tag),
        forall|rest: Seq<u8>|
            #[trigger] decoded_receipt(bytes->Ok_0@ + rest) == Some(
                (tag, id@, amount, view_text(*memo), at),
            ),
{
    bincode::serde::encode_to_vec((tag, id, amount, memo, at), bincode::config::standard())
}

/// `encode_to_vec` of an anchor payload's fields; as for [`encode_text`].
#[verifier::external_body]
pub(crate) fn encode_payload(
    id: &[u8; 32],
    a: &Option<Vec<u8>>,
    b: &Option<Vec<u8>>,
    c: &Option<Vec<u8>>,
) -> (bytes: Result<Vec<u8>, bincode::error::EncodeError>)
    requires
        32 + optional_bytes_len(view_bytes(*a)) + optional_bytes_len(view_bytes(*b))
            + optional_bytes_len(view_bytes(*c)) <= isize::MAX,
    ensures
        bytes is Ok,
        bytes->Ok_0@ == encoded_payload(id@, view_bytes(*a), view_bytes(*b), view_bytes(*c)),
        bytes->Ok_0@.len() == 32 + optional_bytes_len(view_bytes(*a)) + optional_bytes_len(
            view_bytes(*b),
        ) + optional_bytes_len(view_bytes(*c)),
        forall|rest: Seq<u8>|
            #[trigger] decoded_payload(bytes->Ok_0@ + rest) == Some(
                (id@, view_bytes(*a), view_bytes(*b), view_bytes(*c)),
            ),
{
    bincode::serde::encode_to_vec((id, a, b, c), bincode::config::standard())
}

/// `encode_to_vec` of an anchor record's fields; as for [`encode_text`].
#[verifier::external_body]
pub(crate) fn encode_record(
    counterparty: &[u8; 32],
    name: &Option<String>,
    mine: &[u8; 32],
    theirs: &Option<[u8; 32]>,
    a: &Option<Vec<u8>>,
    b: &Option<Vec<u8>>,
    c: &Option<Vec<u8>>,
    d: &Option<Vec<u8>>,
    e: &Option<Vec<u8>>,
) -> (bytes: Result<Vec<u8>, bincode::error::EncodeError>)
    requires
        64 + optional_text_len(view_text(*name)) + optional_id_len(view_id(*theirs))
            + optional_bytes_len(view_bytes(*a)) + optional_bytes_len(view_bytes(*b))
            + optional_bytes_len(view_bytes(*c)) + optional_bytes_len(view_bytes(*d))
            + optional_bytes_len(view_bytes(*e)) <= isize::MAX,
    ensures
        bytes is Ok,
        bytes->Ok_0@ == encoded_record(
            counterparty@,
            view_text(*name),
            mine@,
            view_id(*theirs),
            view_bytes(*a),
            view_bytes(*b),
            view_bytes(*c),
            view_bytes(*d),
            view_bytes(*e),
        ),
        bytes->Ok_0@.len() == 64 + optional_text_len(view_text(*name)) + optional_id_len(
            view_id(*theirs),
        ) + optional_bytes_len(view_bytes(*a)) + optional_bytes_len(view_bytes(*b))
            + optional_bytes_len(view_bytes(*c)) + optional_bytes_len(view_bytes(*d))
            + optional_bytes_len(view_bytes(*e)),
        forall|rest: Seq<u8>|
            #[trigger] decoded_record(bytes->Ok_0@ + rest) == Some(
                (
                    counterparty@,
                    view_text(*name),
                    mine@,
                    view_id(*theirs),
                    view_bytes(*a),
                    view_bytes(*b),
                    view_bytes(*c),
                    view_bytes(*d),
                    view_bytes(*e),
                ),
            ),
{
    bincode::serde::encode_to_vec(
        (counterparty, name, mine, theirs, a, b, c, d, e),
        bincode::config::standard(),
    )
}

/// `borrow_decode_from_slice` of a tag. It reads no further than it needs.
#[verifier::external_body]
pub(crate) fn decode_tag(bytes: &[u8]) -> (value: Result<u32, bincode::error::DecodeError>)
    ensures
        match value {
            Ok(tag) => decoded_tag(bytes@) == Some(tag),
            Err(_) => decoded_tag(bytes@) is None,
        },
{
    bincode::serde::borrow_decode_from_slice::<u32, _>(bytes, bincode::config::standard()).map(
        |decoded| decoded.0,
    )
}

/// `borrow_decode_from_slice` of a tag and a text.
#[verifier::external_body]
pub(crate) fn decode_text(bytes: &[u8]) -> (value: Result<
    (u32, String),
    bincode::error::DecodeError,
>)
    ensures
        match value {
            Ok((tag, text)) => decoded_text(bytes@) == Some((tag, text@)),
            Err(_) => decoded_text(bytes@) is None,
        },
{
    let ((tag, text), _): ((u32, &str), usize) =
        bincode::serde::borrow_decode_from_slice(bytes, bincode::config::standard())?;
    Ok((tag, text.to_string()))
}

/// `borrow_decode_from_slice` of a tag, an amount and a memo.
#[verifier::external_body]
pub(crate) fn decode_amount(bytes: &[u8]) -> (value: Result<
    (u32, u64, Option<String>),
    bincode::error::DecodeError,
>)
    ensures
        match value {
            Ok((tag, amount, memo)) => decoded_amount(bytes@) == Some(
                (tag, amount, view_text(memo)),
            ),
            Err(_) => decoded_amount(bytes@) is None,
        },
{
    let ((tag, amount, memo), _): ((u32, u64, Option<&str>), usize) =
        bincode::serde::borrow_decode_from_slice(bytes, bincode::config::standard())?;
    Ok((tag, amount, memo.map(str::to_string)))
}

/// `borrow_decode_from_slice` of a receipt's fields.
#[verifier::external_body]
pub(crate) fn decode_receipt(bytes: &[u8]) -> (value: Result<
    (u32, [u8; 32], u64, Option<String>, Option<u64>),
    bincode::error::DecodeError,
>)
    ensures
        match value {
            Ok((tag, id, amount, memo, at)) => decoded_receipt(bytes@) == Some(
                (tag, id@, amount, view_text(memo), at),
            ),
            Err(_) => decoded_receipt(bytes@) is None,
        },
{
    let ((tag, id, amount, memo, at), _): ((u32, [u8; 32], u64, Option<&str>, Option<u64>), usize) =
        bincode::serde::borrow_decode_from_slice(bytes, bincode::config::standard())?;
    Ok((tag, id, amount, memo.map(str::to_string), at))
}

/// `borrow_decode_from_slice` of an anchor payload's fields.
#[verifier::external_body]
pub(crate) fn decode_payload(bytes: &[u8]) -> (value: Result<
    ([u8; 32], Option<Vec<u8>>, Option<Vec<u8>>, Option<Vec<u8>>),
    bincode::error::DecodeError,
>)
    ensures
        match value {
            Ok((id, a, b, c)) => decoded_payload(bytes@) == Some(
                (id@, view_bytes(a), view_bytes(b), view_bytes(c)),
            ),
            Err(_) => decoded_payload(bytes@) is None,
        },
{
    bincode::serde::borrow_decode_from_slice(bytes, bincode::config::standard()).map(
        |decoded: (([u8; 32], Option<Vec<u8>>, Option<Vec<u8>>, Option<Vec<u8>>), usize)| decoded.0,
    )
}

/// The fields of an anchor record in the order in which they are encoded.
pub type RecordFields = (
    [u8; 32],
    Option<String>,
    [u8; 32],
    Option<[u8; 32]>,
    Option<Vec<u8>>,
    Option<Vec<u8>>,
    Option<Vec<u8>>,
    Option<Vec<u8>>,
    Option<Vec<u8>>,
);

/// The same fields with the name borrowed from the input.
type BorrowedRecordFields<'a> = (
    [u8; 32],
    Option<&'a str>,
    [u8; 32],
    Option<[u8; 32]>,
    Option<Vec<u8>>,
    Option<Vec<u8>>,
    Option<Vec<u8>>,
    Option<Vec<u8>>,
    Option<Vec<u8>>,
);

/// `borrow_decode_from_slice` of an anchor record's fields.
#[verifier::external_body]
pub(crate) fn decode_record(bytes: &[u8]) -> (value: Result<
    RecordFields,
    bincode::error::DecodeError,
>)
    ensures
        match value {
            Ok((counterparty, name, mine, theirs, a, b, c, d, e)) => decoded_record(bytes@) == Some(
                (
                    counterparty@,
                    view_text(name),
                    mine@,
                    view_id(theirs),
                    view_bytes(a),
                    view_bytes(b),
                    view_bytes(c),
                    view_bytes(d),
                    view_bytes(e),
                ),
            ),
            Err(_) => decoded_record(bytes@) is None,
        },
{
    let (fields, _): (BorrowedRecordFields<'_>, usize) =
        bincode::serde::borrow_decode_from_slice(bytes, bincode::config::standard())?;
    let (counterparty, name, mine, theirs, a, b, c, d, e) = fields;
    Ok((counterparty, name.map(str::to_string), mine, theirs, a, b, c, d, e))
}

/// Small numbers take one byte, and larger ones a marker and the two, four or eight
/// bytes that they fit in.
pub proof fn numbers_take_what_they_need(value: nat)
    ensures
        varint_len(value) == 1 <==> value < 251,
        varint_len(value) == 3 <==> 251 <= value < 65536,
        varint_len(value) == 5 <==> 65536 <= value < 4294967296,
        varint_len(value) == 9 <==> 4294967296 <= value,
{
}

/// What is missing takes a marker alone; what is there takes the marker and itself.
pub proof fn markers_take_a_byte(bytes: Seq<u8>, text: Seq<char>, value: u64)
    ensures
        optional_bytes_len(None) == 1,
        optional_text_len(None) == 1,
        optional_integer_len(None) == 1,
        optional_id_len(None) == 1,
        optional_bytes_len(Some(bytes)) == 1 + varint_len(bytes.len()) + bytes.len(),
        optional_text_len(Some(text)) == 1 + varint_len(vstd::utf8::encode_utf8(text).len())
            + vstd::utf8::encode_utf8(text).len(),
        optional_integer_len(Some(value)) == 1 + varint_len(value as nat),
        optional_id_len(Some(bytes)) == 33,
{
}

} // verus!
