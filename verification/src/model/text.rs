//! Building blocks for the texts that the library composes.

use vstd::prelude::*;
use vstd::string::{StrSliceExecFns, StringExecFns};

verus! {

/// `String::push`: the character is appended.
pub assume_specification[ String::push ](s: &mut String, c: char)
    ensures
        final(s)@ == old(s)@.push(c),
;

/// The decimal digit of a value below 10.
pub open spec fn decimal_digit(value: nat) -> Seq<char> {
    if value == 0 {
        "0"@
    } else if value == 1 {
        "1"@
    } else if value == 2 {
        "2"@
    } else if value == 3 {
        "3"@
    } else if value == 4 {
        "4"@
    } else if value == 5 {
        "5"@
    } else if value == 6 {
        "6"@
    } else if value == 7 {
        "7"@
    } else if value == 8 {
        "8"@
    } else {
        "9"@
    }
}

/// A number in decimal, without leading zeros.
pub open spec fn decimal(value: nat) -> Seq<char>
    decreases value,
{
    if value < 10 {
        decimal_digit(value)
    } else {
        decimal(value / 10) + decimal_digit(value % 10)
    }
}

fn digit_text(value: u64) -> (text: &'static str)
    requires
        value < 10,
    ensures
        text@ == decimal_digit(value as nat),
{
    if value == 0 {
        "0"
    } else if value == 1 {
        "1"
    } else if value == 2 {
        "2"
    } else if value == 3 {
        "3"
    } else if value == 4 {
        "4"
    } else if value == 5 {
        "5"
    } else if value == 6 {
        "6"
    } else if value == 7 {
        "7"
    } else if value == 8 {
        "8"
    } else {
        "9"
    }
}

/// A number in decimal, without leading zeros.
pub fn decimal_text(value: u64) -> (text: String)
    ensures
        text@ == decimal(value as nat),
    decreases value,
{
    if value < 10 {
        String::from_str(digit_text(value))
    } else {
        let mut text: String = decimal_text(value / 10);
        text.append(digit_text(value % 10));
        text
    }
}

/// One text after the other.
pub fn joined(a: &str, b: &str) -> (text: String)
    ensures
        text@ == a@ + b@,
{
    let mut text: String = String::from_str(a);
    text.append(b);
    text
}

/// Three texts, one after the other.
pub fn joined3(a: &str, b: &str, c: &str) -> (text: String)
    ensures
        text@ == a@ + b@ + c@,
{
    let mut text: String = String::from_str(a);
    text.append(b);
    text.append(c);
    text
}

/// Whether both texts hold the same characters.
pub fn same_text(a: &String, b: &String) -> (r: bool)
    ensures
        r == (a@ == b@),
{
    *a == *b
}

/// The characters of an optional text.
pub open spec fn optional_view(text: Option<String>) -> Option<Seq<char>> {
    match text {
        None => None,
        Some(t) => Some(t@),
    }
}

/// Whether both are absent, or present with the same characters.
pub fn same_optional_text(a: &Option<String>, b: &Option<String>) -> (r: bool)
    ensures
        r == (optional_view(*a) == optional_view(*b)),
{
    match a {
        None => b.is_none(),
        Some(x) => match b {
            None => false,
            Some(y) => same_text(x, y),
        },
    }
}

/// A copy of an optional text.
pub fn copy_optional_text(text: &Option<String>) -> (copy: Option<String>)
    ensures
        copy == *text,
{
    match text {
        None => None,
        Some(t) => Some(t.clone()),
    }
}

/// Whether a text holds no character.
pub fn is_empty_text(text: &str) -> (r: bool)
    ensures
        r == (text@.len() == 0),
{
    text.unicode_len() == 0
}

/// The first `count` characters of a text.
pub fn beginning(text: &str, count: usize) -> (out: String)
    requires
        count <= text@.len(),
    ensures
        out@ == text@.take(count as int),
{
    let mut out: String = String::new();
    let mut i: usize = 0;
    while i < count
        invariant
            i <= count <= text@.len(),
            out@ == text@.take(i as int),
        decreases count - i,
    {
        out.push(text.get_char(i));
        assert(out@ =~= text@.take(i + 1));
        i = i + 1;
    }
    out
}

/// The character has the Unicode property `White_Space`.
pub open spec fn whitespace(c: char) -> bool {
    ||| '\u{0009}' <= c <= '\u{000D}'
    ||| c == '\u{0020}'
    ||| c == '\u{0085}'
    ||| c == '\u{00A0}'
    ||| c == '\u{1680}'
    ||| '\u{2000}' <= c <= '\u{200A}'
    ||| c == '\u{2028}'
    ||| c == '\u{2029}'
    ||| c == '\u{202F}'
    ||| c == '\u{205F}'
    ||| c == '\u{3000}'
}

/// Whether a character has the Unicode property `White_Space`.
pub fn is_whitespace(c: char) -> (r: bool)
    ensures
        r == whitespace(c),
{
    ('\u{0009}' <= c && c <= '\u{000D}') || c == '\u{0020}' || c == '\u{0085}' || c == '\u{00A0}'
        || c == '\u{1680}' || ('\u{2000}' <= c && c <= '\u{200A}') || c == '\u{2028}' || c
        == '\u{2029}' || c == '\u{202F}' || c == '\u{205F}' || c == '\u{3000}'
}

/// A text without the whitespace at its end.
pub open spec fn trimmed_end(text: Seq<char>) -> Seq<char>
    decreases text.len(),
{
    if text.len() > 0 && whitespace(text.last()) {
        trimmed_end(text.drop_last())
    } else {
        text
    }
}

/// A text without the whitespace at its start.
pub open spec fn trimmed_start(text: Seq<char>) -> Seq<char>
    decreases text.len(),
{
    if text.len() > 0 && whitespace(text[0]) {
        trimmed_start(text.skip(1))
    } else {
        text
    }
}

/// A text without the whitespace around it.
pub open spec fn trimmed(text: Seq<char>) -> Seq<char> {
    trimmed_end(trimmed_start(text))
}

/// A text without the whitespace around it.
pub fn trim(text: &str) -> (out: String)
    ensures
        out@ == trimmed(text@),
{
    let ghost all = text@;
    // `kept` ends with the last character seen that is no whitespace; `gap` holds
    // the whitespace behind it.
    let mut kept: String = String::new();
    let mut gap: String = String::new();
    let ghost mut start: int = 0;
    assert(all.skip(0) =~= all);
    for c in iter: text.chars()
        invariant
            iter.seq() == all,
            0 <= start <= iter.index(),
            kept@.len() == 0 ==> gap@.len() == 0 && start == iter.index(),
            all.subrange(start, iter.index() as int) == kept@ + gap@,
            forall|i: int| 0 <= i < gap@.len() ==> whitespace(#[trigger] gap@[i]),
            kept@.len() > 0 ==> !whitespace(kept@[0]) && !whitespace(kept@.last()),
            trimmed_start(all) == trimmed_start(all.skip(start)),
    {
        let ghost i = iter.index() as int;
        let ghost held = kept@ + gap@;
        if is_whitespace(c) {
            if !is_empty_text(kept.as_str()) {
                gap.push(c);
                assert(all.subrange(start, i + 1) =~= all.subrange(start, i).push(c));
                assert(held.push(c) =~= kept@ + gap@);
            } else {
                proof {
                    assert(all.skip(i)[0] == c);
                    assert(all.skip(i).skip(1) =~= all.skip(i + 1));
                    start = i + 1;
                    assert(all.subrange(start, i + 1) =~= kept@ + gap@);
                }
            }
        } else {
            kept.append(gap.as_str());
            kept.push(c);
            gap = String::new();
            assert(all.subrange(start, i + 1) =~= held.push(c));
            assert(kept@ + gap@ =~= held.push(c));
        }
    }
    proof {
        let rest = all.skip(start);
        assert(rest =~= kept@ + gap@);
        assert(trimmed_start(rest) == rest);
        lemma_trimmed_end_gap(kept@, gap@);
    }
    kept
}

proof fn lemma_trimmed_end_gap(kept: Seq<char>, gap: Seq<char>)
    requires
        forall|i: int| 0 <= i < gap.len() ==> whitespace(#[trigger] gap[i]),
        kept.len() > 0 ==> !whitespace(kept.last()),
    ensures
        trimmed_end(kept + gap) == kept,
    decreases gap.len(),
{
    if gap.len() == 0 {
        assert(kept + gap =~= kept);
    } else {
        assert((kept + gap).drop_last() =~= kept + gap.drop_last());
        assert((kept + gap).last() == gap[gap.len() - 1]);
        lemma_trimmed_end_gap(kept, gap.drop_last());
    }
}

/// What `str::to_lowercase` makes of a text.
pub uninterp spec fn lowercase(text: Seq<char>) -> Seq<char>;

/// `str::to_lowercase`, whose result is named here and not spelled out.
#[verifier::external_body]
pub(crate) fn to_lowercase(text: &str) -> (out: String)
    ensures
        out@ == lowercase(text@),
{
    text.to_lowercase()
}

/// `a` comes before `b`, or is the same: the order of `String`, which goes by the
/// first character in which two texts differ, and puts a text before its
/// continuations.
pub open spec fn not_after(a: Seq<char>, b: Seq<char>) -> bool
    decreases a.len(),
{
    if a.len() == 0 {
        true
    } else if b.len() == 0 {
        false
    } else if a[0] != b[0] {
        a[0] < b[0]
    } else {
        not_after(a.skip(1), b.skip(1))
    }
}

/// Whether `a` comes before `b`, or is the same.
pub fn is_not_after(a: &str, b: &str) -> (r: bool)
    ensures
        r == not_after(a@, b@),
{
    let n: usize = a.unicode_len();
    let m: usize = b.unicode_len();
    let mut i: usize = 0;
    assert(a@.skip(0) =~= a@ && b@.skip(0) =~= b@);
    while i < n && i < m
        invariant
            n == a@.len(),
            m == b@.len(),
            i <= n,
            i <= m,
            not_after(a@, b@) == not_after(a@.skip(i as int), b@.skip(i as int)),
        decreases n - i,
    {
        let x: char = a.get_char(i);
        let y: char = b.get_char(i);
        assert(a@.skip(i as int)[0] == x && b@.skip(i as int)[0] == y);
        if x != y {
            return x < y;
        }
        assert(a@.skip(i as int).skip(1) =~= a@.skip(i + 1));
        assert(b@.skip(i as int).skip(1) =~= b@.skip(i + 1));
        i = i + 1;
    }
    i == n
}

/// Of any two texts one comes before the other or is the same.
pub proof fn lemma_not_after_total(a: Seq<char>, b: Seq<char>)
    ensures
        not_after(a, b) || not_after(b, a),
    decreases a.len(),
{
    if a.len() > 0 && b.len() > 0 && a[0] == b[0] {
        lemma_not_after_total(a.skip(1), b.skip(1));
    }
}

/// The order of texts is transitive.
pub proof fn lemma_not_after_transitive(a: Seq<char>, b: Seq<char>, c: Seq<char>)
    requires
        not_after(a, b),
        not_after(b, c),
    ensures
        not_after(a, c),
    decreases a.len(),
{
    if a.len() > 0 && c.len() > 0 && a[0] == b[0] && b[0] == c[0] {
        lemma_not_after_transitive(a.skip(1), b.skip(1), c.skip(1));
    }
}

proof fn lemma_digit(value: nat)
    requires
        value < 10,
    ensures
        decimal_digit(value).len() == 1,
        decimal_digit(value)[0] as int == '0' as int + value,
{
    reveal_strlit("0");
    reveal_strlit("1");
    reveal_strlit("2");
    reveal_strlit("3");
    reveal_strlit("4");
    reveal_strlit("5");
    reveal_strlit("6");
    reveal_strlit("7");
    reveal_strlit("8");
    reveal_strlit("9");
}

/// The last digit of a number is what is left of it over tens, and the digits in
/// front of it spell the tens.
pub proof fn numbers_are_spelled_in_tens(value: nat)
    ensures
        decimal(value).len() > 0,
        decimal(value).last() as int == '0' as int + value % 10,
        value < 10 ==> decimal(value).len() == 1,
        value >= 10 ==> decimal(value).drop_last() == decimal(value / 10),
{
    if value < 10 {
        lemma_digit(value);
    } else {
        lemma_digit(value % 10);
        assert(decimal(value).drop_last() =~= decimal(value / 10));
    }
}

/// No number but zero begins with a zero.
pub proof fn numbers_have_no_leading_zero(value: nat)
    requires
        value > 0,
    ensures
        decimal(value).len() > 0,
        decimal(value)[0] != '0',
    decreases value,
{
    numbers_are_spelled_in_tens(value);
    if value >= 10 {
        numbers_have_no_leading_zero(value / 10);
        assert(decimal(value)[0] == decimal(value).drop_last()[0]);
    } else {
        lemma_digit(value);
    }
}

/// These characters are whitespace, and no others.
pub proof fn only_these_are_whitespace(c: char)
    ensures
        whitespace(c) <==> {
            let code = c as int;
            ||| 9 <= code <= 13
            ||| code == 32
            ||| code == 133
            ||| code == 160
            ||| code == 5760
            ||| 8192 <= code <= 8202
            ||| code == 8232
            ||| code == 8233
            ||| code == 8239
            ||| code == 8287
            ||| code == 12288
        },
{
}

proof fn lemma_trimmed_start_parts(text: Seq<char>) -> (n: int)
    ensures
        0 <= n <= text.len(),
        trimmed_start(text) == text.skip(n),
        forall|i: int| 0 <= i < n ==> whitespace(#[trigger] text[i]),
        n < text.len() ==> !whitespace(text[n]),
    decreases text.len(),
{
    if text.len() > 0 && whitespace(text[0]) {
        let m = lemma_trimmed_start_parts(text.skip(1));
        assert(text.skip(1).skip(m) =~= text.skip(m + 1));
        assert forall|i: int| 0 <= i < m + 1 implies whitespace(#[trigger] text[i]) by {
            if i > 0 {
                assert(text[i] == text.skip(1)[i - 1]);
            }
        }
        m + 1
    } else {
        assert(text.skip(0) =~= text);
        0
    }
}

proof fn lemma_trimmed_end_parts(text: Seq<char>) -> (n: int)
    ensures
        0 <= n <= text.len(),
        trimmed_end(text) == text.take(n),
        forall|i: int| n <= i < text.len() ==> whitespace(#[trigger] text[i]),
        n > 0 ==> !whitespace(text[n - 1]),
    decreases text.len(),
{
    if text.len() > 0 && whitespace(text.last()) {
        let m = lemma_trimmed_end_parts(text.drop_last());
        assert(text.drop_last().take(m) =~= text.take(m));
        assert forall|i: int| m <= i < text.len() implies whitespace(#[trigger] text[i]) by {
            if i < text.len() - 1 {
                assert(text[i] == text.drop_last()[i]);
            }
        }
        m
    } else {
        assert(text.take(text.len() as int) =~= text);
        text.len() as int
    }
}

/// Trimming takes whitespace off both ends and nothing else: what is left has none
/// at either end, and only whitespace stood around it.
pub proof fn trimming_takes_the_whitespace_around(text: Seq<char>)
    ensures
        trimmed(text).len() > 0 ==> !whitespace(trimmed(text)[0]) && !whitespace(
            trimmed(text).last(),
        ),
        exists|from: int, to: int|
            #![trigger text.subrange(from, to)]
            {
                &&& 0 <= from <= to <= text.len()
                &&& trimmed(text) == text.subrange(from, to)
                &&& forall|i: int| 0 <= i < from ==> whitespace(#[trigger] text[i])
                &&& forall|i: int| to <= i < text.len() ==> whitespace(#[trigger] text[i])
            },
{
    let from = lemma_trimmed_start_parts(text);
    let rest = text.skip(from);
    let n = lemma_trimmed_end_parts(rest);
    let to = from + n;
    assert(rest.take(n) =~= text.subrange(from, to));
    assert forall|i: int| to <= i < text.len() implies whitespace(#[trigger] text[i]) by {
        assert(text[i] == rest[i - from]);
    }
    if n > 0 {
        assert(trimmed(text)[0] == text[from]);
        assert(trimmed(text).last() == rest[n - 1]);
    }
    assert(trimmed(text) == text.subrange(from, to));
}

/// Texts are ordered by the first character in which they differ, and a text comes
/// before its continuations.
pub proof fn texts_are_ordered_by_their_first_difference(
    common: Seq<char>,
    a: char,
    rest_a: Seq<char>,
    b: char,
    rest_b: Seq<char>,
)
    ensures
        a < b ==> not_after(common + seq![a] + rest_a, common + seq![b] + rest_b),
        a > b ==> !not_after(common + seq![a] + rest_a, common + seq![b] + rest_b),
        not_after(common, common + rest_b),
        !not_after(common + seq![a] + rest_a, common),
    decreases common.len(),
{
    let x = common + seq![a] + rest_a;
    let y = common + seq![b] + rest_b;
    let z = common + rest_b;
    if common.len() == 0 {
        assert(x[0] == a && y[0] == b);
    } else {
        let c = common.skip(1);
        texts_are_ordered_by_their_first_difference(c, a, rest_a, b, rest_b);
        assert(x.skip(1) =~= c + seq![a] + rest_a);
        assert(y.skip(1) =~= c + seq![b] + rest_b);
        assert(z.skip(1) =~= c + rest_b);
        assert(x[0] == common[0] && y[0] == common[0] && z[0] == common[0]);
    }
}

} // verus!
