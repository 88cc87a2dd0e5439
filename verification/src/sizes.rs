//! The length of an encoding, computed before anything is encoded.

use vstd::prelude::*;
use vstd::string::StrSliceExecFns;

use crate::codec;

verus! {

/// Bytes that the UTF-8 form of a character takes.
pub open spec fn char_width(c: char) -> nat {
    if c as u32 <= 0x7f {
        1
    } else if c as u32 <= 0x7ff {
        2
    } else if c as u32 <= 0xffff {
        3
    } else {
        4
    }
}

proof fn lemma_push_adds_width(s: Seq<char>, c: char)
    ensures
        vstd::utf8::encode_utf8(s.push(c)).len() == vstd::utf8::encode_utf8(s).len() + char_width(
            c,
        ),
    decreases s.len(),
{
    reveal_with_fuel(vstd::utf8::encode_utf8, 2);
    if s.len() == 0 {
        assert(s.push(c).drop_first() =~= Seq::empty());
    } else {
        assert(s.push(c).drop_first() =~= s.drop_first().push(c));
        lemma_push_adds_width(s.drop_first(), c);
    }
}

/// Bytes spent on an unsigned integer.
pub(crate) fn integer_size(value: u64) -> (size: u128)
    ensures
        size == codec::varint_len(value as nat),
{
    if value <= 250 {
        1
    } else if value <= 0xffff {
        3
    } else if value <= 0xffff_ffff {
        5
    } else {
        9
    }
}

/// Bytes spent on an optional integer.
pub(crate) fn optional_integer_size(value: Option<u64>) -> (size: u128)
    ensures
        size == codec::optional_integer_len(value),
        size <= 10,
{
    match value {
        None => 1,
        Some(v) => 1 + integer_size(v),
    }
}

fn length_size(len: u128) -> (size: u128)
    ensures
        size == codec::varint_len(len as nat),
{
    if len <= 250 {
        1
    } else if len <= 0xffff {
        3
    } else if len <= 0xffff_ffff {
        5
    } else {
        9
    }
}

/// Bytes spent on an optional byte string.
pub(crate) fn optional_bytes_size(bytes: &Option<Vec<u8>>) -> (size: u128)
    ensures
        size == codec::optional_bytes_len(codec::view_bytes(*bytes)),
        size <= 0x1_0000_0000_0000_0009,
{
    match bytes {
        None => 1,
        Some(b) => {
            let len: u128 = b.len() as u128;
            1 + length_size(len) + len
        },
    }
}

/// Bytes spent on a text.
pub(crate) fn text_size(text: &str) -> (size: u128)
    ensures
        size == codec::text_len(text@),
        size <= 0x4_0000_0000_0000_0008,
{
    let count: usize = text.unicode_len();
    let ghost all = text@;
    let mut len: u128 = 0;
    assert(all.take(0) =~= Seq::empty());
    for c in iter: text.chars()
        invariant
            iter.seq() == all,
            all.len() == count,
            len == vstd::utf8::encode_utf8(all.take(iter.index() as int)).len(),
            len <= 4 * iter.index(),
            iter.index() <= count,
    {
        proof {
            let i = iter.index() as int;
            assert(all.take(i + 1) =~= all.take(i).push(c));
            lemma_push_adds_width(all.take(i), c);
        }
        let code: u32 = c as u32;
        let width: u128 = if code <= 0x7f {
            1
        } else if code <= 0x7ff {
            2
        } else if code <= 0xffff {
            3
        } else {
            4
        };
        len = len + width;
    }
    assert(all.take(all.len() as int) =~= all);
    length_size(len) + len
}

/// Bytes spent on an optional text.
pub(crate) fn optional_text_size(text: &Option<String>) -> (size: u128)
    ensures
        size == codec::optional_text_len(codec::view_text(*text)),
        size <= 0x4_0000_0000_0000_0009,
{
    match text {
        None => 1,
        Some(t) => 1 + text_size(t.as_str()),
    }
}

/// Bytes spent on an optional identifier.
pub(crate) fn optional_id_size(id: &Option<[u8; 32]>) -> (size: u128)
    ensures
        size == codec::optional_id_len(codec::view_id(*id)),
{
    match id {
        None => 1,
        Some(_) => 33,
    }
}

} // verus!
